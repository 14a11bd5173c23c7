use vstd::prelude::*;

verus! {

/// Width of the play field, in cells.
pub const WIDTH: usize = 150;

/// Height of the play field, in cells.
pub const HEIGHT: usize = 30;

/// A coordinate pair lies on the play field.
pub open spec fn in_bounds(x: int, y: int) -> bool {
    0 <= x < WIDTH && 0 <= y < HEIGHT
}

} // verus!

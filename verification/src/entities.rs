use vstd::prelude::*;

verus! {

/// Milliseconds an enemy stays dormant (blinking, harmless) after it spawns.
pub const ACTIVATION_DELAY_MS: u64 = 5000;

/// Length in milliseconds of one blink cycle of a dormant enemy.
pub const BLINK_CYCLE_MS: u64 = 500;

/// A chasing hazard on the grid. `spawn_time` is the session clock reading,
/// in milliseconds, at which it was created; it stays fixed for the enemy's
/// whole life and drives both activation and the blink phase.
#[derive(Clone, Copy, Debug, PartialEq, Eq, Structural)]
pub struct Enemy {
    pub x: usize,
    pub y: usize,
    pub spawn_time: u64,
    pub active: bool,
}

/// The player avatar is just a grid coordinate.
pub type Player = (usize, usize);

/// A coin is just a grid coordinate.
pub type Coin = (usize, usize);

/// An enemy spawned at `spawn_time` is due to wake at clock reading `now`:
/// strictly more than the dormancy delay has elapsed.
pub open spec fn activation_due(spawn_time: u64, now: u64) -> bool {
    now >= spawn_time && now - spawn_time > ACTIVATION_DELAY_MS
}

/// Blink phase of a dormant enemy: it is drawn during the first half of each
/// blink cycle and hidden during the second half. A clock reading earlier than
/// the spawn counts as zero elapsed time.
pub open spec fn spec_blink_visible(spawn_time: u64, now: u64) -> bool {
    ((if now >= spawn_time {
        now - spawn_time
    } else {
        0
    }) / (BLINK_CYCLE_MS / 2) as int) % 2 == 0
}

impl Enemy {
    /// Whether a dormant enemy is drawn at clock reading `now`
    /// (the renderer's blink phase, derived from elapsed time, never stored).
    pub fn blink_visible(&self, now: u64) -> (visible: bool)
        ensures
            visible == spec_blink_visible(self.spawn_time, now),
    {
        let elapsed: u64 = if now >= self.spawn_time {
            now - self.spawn_time
        } else {
            0
        };
        (elapsed / (BLINK_CYCLE_MS / 2)) % 2 == 0
    }
}

} // verus!

use vstd::prelude::*;

use crate::entities::{spec_blink_visible, Coin, Enemy};
use crate::game::{coin_at, enemy_at, has_coin_at};

verus! {

/// The glyph a single enemy is drawn with at clock reading `now`: a capital
/// letter once active, otherwise its blink phase decides between the dormant
/// letter and an empty cell.
pub open spec fn spec_enemy_glyph(e: Enemy, now: u64) -> char {
    if e.active {
        'E'
    } else if spec_blink_visible(e.spawn_time, now) {
        'e'
    } else {
        '.'
    }
}

/// The glyph for grid cell `(x, y)`: the player wins over everything, then
/// the first enemy on the cell in list order, then a coin, then empty floor.
pub fn cell_glyph(
    player_x: usize,
    player_y: usize,
    enemies: &Vec<Enemy>,
    coins: &Vec<Coin>,
    x: usize,
    y: usize,
    now: u64,
) -> (glyph: char)
    ensures
        x == player_x && y == player_y ==> glyph == '@',
        !(x == player_x && y == player_y) && enemy_at(enemies@, x as int, y as int)
            ==> exists|i: int|
            0 <= i < enemies@.len() && enemies@[i].x == x && enemies@[i].y == y && (forall|j: int|
                0 <= j < i ==> !(enemies@[j].x == x && enemies@[j].y == y)) && glyph
                == spec_enemy_glyph(enemies@[i], now),
        !(x == player_x && y == player_y) && !enemy_at(enemies@, x as int, y as int) ==> glyph == (
        if coin_at(coins@, x as int, y as int) {
            '$'
        } else {
            '.'
        }),
{
    if x == player_x && y == player_y {
        return '@';
    }
    let n = enemies.len();
    let mut k: usize = 0;
    while k < n
        invariant
            !(x == player_x && y == player_y),
            n == enemies@.len(),
            k <= n,
            forall|j: int| 0 <= j < k ==> !(enemies@[j].x == x && enemies@[j].y == y),
        decreases n - k,
    {
        let e = enemies[k];
        if e.x == x && e.y == y {
            if e.active {
                return 'E';
            } else if e.blink_visible(now) {
                return 'e';
            } else {
                return '.';
            }
        }
        k = k + 1;
    }
    if has_coin_at(coins, x, y) {
        '$'
    } else {
        '.'
    }
}

} // verus!

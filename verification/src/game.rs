use vstd::prelude::*;

use rand::Rng;

use crate::entities::{activation_due, Coin, Enemy, ACTIVATION_DELAY_MS};
use crate::grid::{in_bounds, HEIGHT, WIDTH};

verus! {

/// How often a free cell is sampled before a spawn is skipped for the cycle.
pub const MAX_SPAWN_ATTEMPTS: usize = 1000;

/// One chase step along a single axis: one cell toward `to`, or stay if aligned.
pub open spec fn step_toward(from: int, to: int) -> int {
    if from < to {
        from + 1
    } else if from > to {
        from - 1
    } else {
        from
    }
}

/// The result of one activation pass over a single enemy at clock reading `now`:
/// the flag flips false to true once the dormancy delay has elapsed and never reverts.
pub open spec fn activated(e: Enemy, now: u64) -> Enemy {
    Enemy { active: e.active || activation_due(e.spawn_time, now), ..e }
}

/// The result of one movement pass over a single enemy chasing the player at
/// `(px, py)`: an active enemy steps one cell toward the player on each
/// misaligned axis; a dormant enemy does not move.
pub open spec fn chased(e: Enemy, px: usize, py: usize) -> Enemy {
    if e.active {
        Enemy {
            x: step_toward(e.x as int, px as int) as usize,
            y: step_toward(e.y as int, py as int) as usize,
            ..e
        }
    } else {
        e
    }
}

/// Some enemy occupies cell `(x, y)`.
pub open spec fn enemy_at(enemies: Seq<Enemy>, x: int, y: int) -> bool {
    exists|i: int| 0 <= i < enemies.len() && enemies[i].x == x && enemies[i].y == y
}

/// Some active enemy occupies cell `(x, y)`.
pub open spec fn active_enemy_at(enemies: Seq<Enemy>, x: int, y: int) -> bool {
    exists|i: int|
        0 <= i < enemies.len() && enemies[i].active && enemies[i].x == x && enemies[i].y == y
}

/// Some coin lies on cell `(x, y)`.
pub open spec fn coin_at(coins: Seq<Coin>, x: int, y: int) -> bool {
    exists|i: int| 0 <= i < coins.len() && coins[i].0 == x && coins[i].1 == y
}

/// Flip every dormant enemy whose dormancy delay has elapsed to active.
/// Idempotent and safe to call every tick: the flag only ever goes false to true.
pub fn update_enemy_activation(enemies: &mut Vec<Enemy>, now: u64)
    ensures
        final(enemies)@.len() == old(enemies)@.len(),
        forall|i: int|
            0 <= i < old(enemies)@.len() ==> final(enemies)@[i] == activated(
                old(enemies)@[i],
                now,
            ),
{
    let n = enemies.len();
    let mut k: usize = 0;
    while k < n
        invariant
            n == old(enemies)@.len(),
            k <= n,
            enemies@.len() == n,
            forall|i: int| 0 <= i < k ==> enemies@[i] == activated(old(enemies)@[i], now),
            forall|i: int| k <= i < n ==> enemies@[i] == old(enemies)@[i],
        decreases n - k,
    {
        let e = enemies[k];
        if !e.active && now >= e.spawn_time && now - e.spawn_time > ACTIVATION_DELAY_MS {
            enemies.set(k, Enemy { active: true, ..e });
        }
        k = k + 1;
    }
}

/// Move every active enemy one chase step toward the player on each misaligned
/// axis (8-directional stepping). Dormant enemies never move.
pub fn move_enemies(enemies: &mut Vec<Enemy>, player_x: usize, player_y: usize)
    ensures
        final(enemies)@.len() == old(enemies)@.len(),
        forall|i: int|
            0 <= i < old(enemies)@.len() ==> final(enemies)@[i] == chased(
                old(enemies)@[i],
                player_x,
                player_y,
            ),
{
    let n = enemies.len();
    let mut k: usize = 0;
    while k < n
        invariant
            n == old(enemies)@.len(),
            k <= n,
            enemies@.len() == n,
            forall|i: int| 0 <= i < k ==> enemies@[i] == chased(old(enemies)@[i], player_x, player_y),
            forall|i: int| k <= i < n ==> enemies@[i] == old(enemies)@[i],
        decreases n - k,
    {
        let e = enemies[k];
        if e.active {
            let nx: usize = if e.x < player_x {
                e.x + 1
            } else if e.x > player_x {
                e.x - 1
            } else {
                e.x
            };
            let ny: usize = if e.y < player_y {
                e.y + 1
            } else if e.y > player_y {
                e.y - 1
            } else {
                e.y
            };
            enemies.set(k, Enemy { x: nx, y: ny, ..e });
        }
        k = k + 1;
    }
}

/// Some enemy occupies cell `(x, y)` (linear scan).
pub fn has_enemy_at(enemies: &Vec<Enemy>, x: usize, y: usize) -> (found: bool)
    ensures
        found == enemy_at(enemies@, x as int, y as int),
{
    let n = enemies.len();
    let mut k: usize = 0;
    while k < n
        invariant
            n == enemies@.len(),
            k <= n,
            forall|i: int| 0 <= i < k ==> !(enemies@[i].x == x && enemies@[i].y == y),
        decreases n - k,
    {
        if enemies[k].x == x && enemies[k].y == y {
            return true;
        }
        k = k + 1;
    }
    false
}

/// Some coin lies on cell `(x, y)` (linear scan).
pub fn has_coin_at(coins: &Vec<Coin>, x: usize, y: usize) -> (found: bool)
    ensures
        found == coin_at(coins@, x as int, y as int),
{
    let n = coins.len();
    let mut k: usize = 0;
    while k < n
        invariant
            n == coins@.len(),
            k <= n,
            forall|i: int| 0 <= i < k ==> !(coins@[i].0 == x && coins@[i].1 == y),
        decreases n - k,
    {
        if coins[k].0 == x && coins[k].1 == y {
            return true;
        }
        k = k + 1;
    }
    false
}

/// The player has been caught: some **active** enemy occupies the player's
/// exact cell. Dormant (blinking) enemies never trigger a collision.
pub fn check_enemy_collision(player_x: usize, player_y: usize, enemies: &Vec<Enemy>) -> (caught:
    bool)
    ensures
        caught == active_enemy_at(enemies@, player_x as int, player_y as int),
{
    let n = enemies.len();
    let mut k: usize = 0;
    while k < n
        invariant
            n == enemies@.len(),
            k <= n,
            forall|i: int|
                0 <= i < k ==> !(enemies@[i].active && enemies@[i].x == player_x && enemies@[i].y
                    == player_y),
        decreases n - k,
    {
        if enemies[k].active && enemies[k].x == player_x && enemies[k].y == player_y {
            return true;
        }
        k = k + 1;
    }
    false
}

/// If a coin lies on the player's exact cell, remove it and report success
/// (the caller increments the score); otherwise leave the coins untouched.
pub fn check_coin_collection(player_x: usize, player_y: usize, coins: &mut Vec<Coin>) -> (collected:
    bool)
    ensures
        collected == coin_at(old(coins)@, player_x as int, player_y as int),
        !collected ==> final(coins)@ == old(coins)@,
        collected ==> exists|i: int|
            0 <= i < old(coins)@.len() && old(coins)@[i].0 == player_x && old(coins)@[i].1
                == player_y && final(coins)@ == old(coins)@.remove(i),
{
    let n = coins.len();
    let mut k: usize = 0;
    while k < n
        invariant
            n == coins@.len(),
            coins@ == old(coins)@,
            k <= n,
            forall|i: int| 0 <= i < k ==> !(coins@[i].0 == player_x && coins@[i].1 == player_y),
        decreases n - k,
    {
        if coins[k].0 == player_x && coins[k].1 == player_y {
            coins.remove(k);
            return true;
        }
        k = k + 1;
    }
    false
}

/// Relies on rand's `Rng::gen_range` over `0..bound` (with `thread_rng`):
/// the sample lies within the half-open range, which is non-empty because
/// `bound` is positive.
#[verifier::external_body]
fn random_below(bound: usize) -> (r: usize)
    requires
        0 < bound,
    ensures
        r < bound,
{
    rand::thread_rng().gen_range(0..bound)
}

/// Append one new dormant enemy, stamped with `now`, on a uniformly sampled
/// cell occupied by no existing enemy and not by the player. Sampling is
/// retried a bounded number of times; on a saturated grid the spawn is
/// skipped for this cycle and the enemies are left unchanged.
pub fn spawn_enemy(enemies: &mut Vec<Enemy>, player_x: usize, player_y: usize, now: u64)
    ensures
        old(enemies)@.len() <= final(enemies)@.len() <= old(enemies)@.len() + 1,
        forall|i: int| 0 <= i < old(enemies)@.len() ==> final(enemies)@[i] == old(enemies)@[i],
        final(enemies)@.len() == old(enemies)@.len() + 1 ==> {
            let e = final(enemies)@.last();
            &&& in_bounds(e.x as int, e.y as int)
            &&& !(e.x == player_x && e.y == player_y)
            &&& !enemy_at(old(enemies)@, e.x as int, e.y as int)
            &&& e.spawn_time == now
            &&& !e.active
        },
{
    let mut attempts: usize = 0;
    while attempts < MAX_SPAWN_ATTEMPTS
        invariant
            enemies@ == old(enemies)@,
        decreases MAX_SPAWN_ATTEMPTS - attempts,
    {
        let x = random_below(WIDTH);
        let y = random_below(HEIGHT);
        if !(x == player_x && y == player_y) && !has_enemy_at(enemies, x, y) {
            enemies.push(Enemy { x, y, spawn_time: now, active: false });
            return ;
        }
        attempts = attempts + 1;
    }
}

/// Append one coin on a uniformly sampled free cell: occupied by no enemy,
/// no other coin, and not by the player. Sampling is retried a bounded number
/// of times; on a saturated grid the spawn is skipped for this cycle and the
/// coins are left unchanged.
pub fn spawn_coin(coins: &mut Vec<Coin>, enemies: &Vec<Enemy>, player_x: usize, player_y: usize)
    ensures
        old(coins)@.len() <= final(coins)@.len() <= old(coins)@.len() + 1,
        forall|i: int| 0 <= i < old(coins)@.len() ==> final(coins)@[i] == old(coins)@[i],
        final(coins)@.len() == old(coins)@.len() + 1 ==> {
            let c = final(coins)@.last();
            &&& in_bounds(c.0 as int, c.1 as int)
            &&& !(c.0 == player_x && c.1 == player_y)
            &&& !enemy_at(enemies@, c.0 as int, c.1 as int)
            &&& !coin_at(old(coins)@, c.0 as int, c.1 as int)
        },
{
    let mut attempts: usize = 0;
    while attempts < MAX_SPAWN_ATTEMPTS
        invariant
            coins@ == old(coins)@,
        decreases MAX_SPAWN_ATTEMPTS - attempts,
    {
        let x = random_below(WIDTH);
        let y = random_below(HEIGHT);
        if !(x == player_x && y == player_y) && !has_enemy_at(enemies, x, y) && !has_coin_at(
            coins,
            x,
            y,
        ) {
            coins.push((x, y));
            return ;
        }
        attempts = attempts + 1;
    }
}

/// The dormancy test is one-way: once the delay has elapsed at `t1`, it has
/// elapsed at every later reading `t2`, so an activation pass never clears the
/// flag and an enemy, once active, is active forever after.
pub proof fn lemma_activation_one_way(e: Enemy, t1: u64, t2: u64)
    requires
        t1 <= t2,
    ensures
        activation_due(e.spawn_time, t1) ==> activation_due(e.spawn_time, t2),
        activated(e, t1).active ==> activated(activated(e, t1), t2).active,
        !e.active && !activation_due(e.spawn_time, t1) ==> !activated(e, t1).active,
{
}

} // verus!

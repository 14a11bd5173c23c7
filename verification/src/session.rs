use vstd::prelude::*;

use crate::entities::{Coin, Enemy};
use crate::game::{
    activated, active_enemy_at, chased, check_coin_collection, check_enemy_collision, coin_at,
    enemy_at, move_enemies, spawn_coin, spawn_enemy, update_enemy_activation,
};
use crate::grid::{in_bounds, HEIGHT, WIDTH};

verus! {

/// Milliseconds between two enemy movement passes.
pub const ENEMY_MOVE_INTERVAL_MS: u64 = 300;

/// Milliseconds between two enemy spawns.
pub const ENEMY_SPAWN_INTERVAL_MS: u64 = 15000;

/// Milliseconds between two coin spawns.
pub const COIN_SPAWN_INTERVAL_MS: u64 = 10000;

/// One discrete command from the input source; at most one is applied per tick.
#[derive(Clone, Copy, Debug, PartialEq, Eq, Structural)]
pub enum Command {
    MoveUp,
    MoveDown,
    MoveLeft,
    MoveRight,
    Quit,
    Idle,
}

/// Whether the session still runs and, once over, why it ended: caught by an
/// active enemy, or quit on the player's explicit request.
#[derive(Clone, Copy, Debug, PartialEq, Eq, Structural)]
pub enum SessionStatus {
    Running,
    Caught,
    Quit,
}

/// The command a raw key maps to: `w`/`a`/`s`/`d` move, `q` quits,
/// anything else (case-sensitive) does nothing.
pub open spec fn spec_command_for_key(key: char) -> Command {
    if key == 'w' {
        Command::MoveUp
    } else if key == 'a' {
        Command::MoveLeft
    } else if key == 's' {
        Command::MoveDown
    } else if key == 'd' {
        Command::MoveRight
    } else if key == 'q' {
        Command::Quit
    } else {
        Command::Idle
    }
}

/// Map a raw key to its command.
pub fn command_for_key(key: char) -> (cmd: Command)
    ensures
        cmd == spec_command_for_key(key),
{
    if key == 'w' {
        Command::MoveUp
    } else if key == 'a' {
        Command::MoveLeft
    } else if key == 's' {
        Command::MoveDown
    } else if key == 'd' {
        Command::MoveRight
    } else if key == 'q' {
        Command::Quit
    } else {
        Command::Idle
    }
}

/// A timer-gated subsystem: due once `interval_ms` has elapsed since the last
/// firing, so jitter only ever delays an action, never advances it.
#[derive(Clone, Copy, Debug, PartialEq, Eq, Structural)]
pub struct Timer {
    pub interval_ms: u64,
    pub last_fired_ms: u64,
}

impl Timer {
    /// The full interval has elapsed at clock reading `now`.
    pub open spec fn due(self, now: u64) -> bool {
        now >= self.last_fired_ms && now - self.last_fired_ms >= self.interval_ms
    }

    /// A fresh timer that last fired at `now`.
    pub fn new(interval_ms: u64, now: u64) -> (t: Timer)
        ensures
            t == (Timer { interval_ms, last_fired_ms: now }),
    {
        Timer { interval_ms, last_fired_ms: now }
    }

    /// Check whether the interval has elapsed and, if so, reset the timer to
    /// `now` in the same step.
    pub fn try_fire(&mut self, now: u64) -> (fired: bool)
        ensures
            fired == old(self).due(now),
            final(self).interval_ms == old(self).interval_ms,
            final(self).last_fired_ms == if fired {
                now
            } else {
                old(self).last_fired_ms
            },
    {
        if now >= self.last_fired_ms && now - self.last_fired_ms >= self.interval_ms {
            self.last_fired_ms = now;
            true
        } else {
            false
        }
    }
}

/// No two coins share a cell.
pub open spec fn coins_distinct(coins: Seq<Coin>) -> bool {
    forall|i: int, j: int| 0 <= i < j < coins.len() ==> coins[i] != coins[j]
}

/// The new x coordinate of the player after one command, clamped to the grid.
pub open spec fn moved_x(x: usize, cmd: Command) -> usize {
    if cmd == Command::MoveLeft && x > 0 {
        (x - 1) as usize
    } else if cmd == Command::MoveRight && x + 1 < WIDTH {
        (x + 1) as usize
    } else {
        x
    }
}

/// The new y coordinate of the player after one command, clamped to the grid.
pub open spec fn moved_y(y: usize, cmd: Command) -> usize {
    if cmd == Command::MoveUp && y > 0 {
        (y - 1) as usize
    } else if cmd == Command::MoveDown && y + 1 < HEIGHT {
        (y + 1) as usize
    } else {
        y
    }
}

/// One game session: the world the controller exclusively owns, plus the
/// independent timers of the three gated subsystems. The fields are the
/// read-only snapshot handed to a renderer.
pub struct GameSession {
    pub player_x: usize,
    pub player_y: usize,
    pub enemies: Vec<Enemy>,
    pub coins: Vec<Coin>,
    pub score: u32,
    pub status: SessionStatus,
    pub move_timer: Timer,
    pub enemy_spawn_timer: Timer,
    pub coin_spawn_timer: Timer,
}

impl GameSession {
    /// Well-formedness: everything lies on the grid and no two coins overlap.
    pub open spec fn wf(self) -> bool {
        &&& in_bounds(self.player_x as int, self.player_y as int)
        &&& forall|i: int|
            0 <= i < self.enemies@.len() ==> in_bounds(
                self.enemies@[i].x as int,
                self.enemies@[i].y as int,
            )
        &&& forall|i: int|
            0 <= i < self.coins@.len() ==> in_bounds(
                self.coins@[i].0 as int,
                self.coins@[i].1 as int,
            )
        &&& coins_distinct(self.coins@)
    }

    /// A fresh session at clock reading `now`: the player at the grid center,
    /// one dormant enemy in the top-left corner, no coins, score zero, all
    /// three timers counting from `now`.
    pub fn new(now: u64) -> (s: GameSession)
        ensures
            s.wf(),
            s.player_x == WIDTH / 2,
            s.player_y == HEIGHT / 2,
            s.enemies@.len() == 1,
            s.enemies@[0] == (Enemy { x: 1, y: 1, spawn_time: now, active: false }),
            s.coins@.len() == 0,
            s.score == 0,
            s.status == SessionStatus::Running,
            s.move_timer == (Timer { interval_ms: ENEMY_MOVE_INTERVAL_MS, last_fired_ms: now }),
            s.enemy_spawn_timer == (Timer {
                interval_ms: ENEMY_SPAWN_INTERVAL_MS,
                last_fired_ms: now,
            }),
            s.coin_spawn_timer == (Timer {
                interval_ms: COIN_SPAWN_INTERVAL_MS,
                last_fired_ms: now,
            }),
    {
        let mut enemies: Vec<Enemy> = Vec::new();
        enemies.push(Enemy { x: 1, y: 1, spawn_time: now, active: false });
        GameSession {
            player_x: WIDTH / 2,
            player_y: HEIGHT / 2,
            enemies,
            coins: Vec::new(),
            score: 0,
            status: SessionStatus::Running,
            move_timer: Timer::new(ENEMY_MOVE_INTERVAL_MS, now),
            enemy_spawn_timer: Timer::new(ENEMY_SPAWN_INTERVAL_MS, now),
            coin_spawn_timer: Timer::new(COIN_SPAWN_INTERVAL_MS, now),
        }
    }

    /// One tick of the session at clock reading `now`, applying at most one
    /// input command. Order within the tick: apply the command; if due, run the
    /// activation and movement pass; if due, spawn an enemy; if due, spawn a
    /// coin; collect a coin under the player; check for collision and end the
    /// session on a hit. A quit command ends the session at once, touching
    /// nothing else; an ended session ignores every further tick.
    #[verifier::rlimit(60)]
    pub fn tick(&mut self, cmd: Command, now: u64)
        requires
            old(self).wf(),
            old(self).score < u32::MAX,
        ensures
            final(self).wf(),
            old(self).status != SessionStatus::Running ==> *final(self) == *old(self),
            old(self).status == SessionStatus::Running && cmd == Command::Quit ==> {
                &&& final(self).status == SessionStatus::Quit
                &&& final(self).player_x == old(self).player_x
                &&& final(self).player_y == old(self).player_y
                &&& final(self).enemies == old(self).enemies
                &&& final(self).coins == old(self).coins
                &&& final(self).score == old(self).score
                &&& final(self).move_timer == old(self).move_timer
                &&& final(self).enemy_spawn_timer == old(self).enemy_spawn_timer
                &&& final(self).coin_spawn_timer == old(self).coin_spawn_timer
            },
            old(self).status == SessionStatus::Running && cmd != Command::Quit ==> {
                &&& final(self).player_x == moved_x(old(self).player_x, cmd)
                &&& final(self).player_y == moved_y(old(self).player_y, cmd)
                &&& final(self).status == (if active_enemy_at(
                    final(self).enemies@,
                    final(self).player_x as int,
                    final(self).player_y as int,
                ) {
                    SessionStatus::Caught
                } else {
                    SessionStatus::Running
                })
                &&& final(self).score == (if coin_at(
                    old(self).coins@,
                    moved_x(old(self).player_x, cmd) as int,
                    moved_y(old(self).player_y, cmd) as int,
                ) {
                    old(self).score + 1
                } else {
                    old(self).score as int
                })
                &&& !coin_at(
                    final(self).coins@,
                    final(self).player_x as int,
                    final(self).player_y as int,
                )
                &&& final(self).coins@.len() <= old(self).coins@.len() + (
                if old(self).coin_spawn_timer.due(now) {
                    1int
                } else {
                    0
                })
                &&& final(self).coins@.len() + (
                if coin_at(
                    old(self).coins@,
                    moved_x(old(self).player_x, cmd) as int,
                    moved_y(old(self).player_y, cmd) as int,
                ) {
                    1int
                } else {
                    0
                }) >= old(self).coins@.len()
                &&& forall|i: int|
                    0 <= i < old(self).enemies@.len() ==> final(self).enemies@[i] == (
                    if old(self).move_timer.due(now) {
                        chased(
                            activated(old(self).enemies@[i], now),
                            moved_x(old(self).player_x, cmd),
                            moved_y(old(self).player_y, cmd),
                        )
                    } else {
                        old(self).enemies@[i]
                    })
                &&& old(self).enemies@.len() <= final(self).enemies@.len() <= old(self).enemies@.len() + (
                if old(self).enemy_spawn_timer.due(now) {
                    1int
                } else {
                    0
                })
                &&& final(self).enemies@.len() > old(self).enemies@.len() ==> {
                    let e = final(self).enemies@.last();
                    &&& in_bounds(e.x as int, e.y as int)
                    &&& !(e.x == moved_x(old(self).player_x, cmd) && e.y == moved_y(
                        old(self).player_y,
                        cmd,
                    ))
                    &&& forall|j: int|
                        0 <= j < old(self).enemies@.len() ==> !(final(self).enemies@[j].x == e.x
                            && final(self).enemies@[j].y == e.y)
                    &&& e.spawn_time == now
                    &&& !e.active
                }
                &&& forall|i: int|
                    0 <= i < old(self).enemies@.len() ==> final(self).enemies@[i].spawn_time == old(self).enemies@[i].spawn_time
                &&& forall|i: int|
                    0 <= i < old(self).enemies@.len() ==> (old(self).enemies@[i].active ==> final(self).enemies@[i].active)
                &&& forall|i: int|
                    0 <= i < final(self).coins@.len() ==> (old(self).coins@.contains(
                        final(self).coins@[i],
                    ) || (in_bounds(final(self).coins@[i].0 as int, final(self).coins@[i].1 as int)
                        && !enemy_at(
                        final(self).enemies@,
                        final(self).coins@[i].0 as int,
                        final(self).coins@[i].1 as int,
                    )))
                &&& final(self).move_timer.interval_ms == old(self).move_timer.interval_ms
                &&& final(self).enemy_spawn_timer.interval_ms == old(self).enemy_spawn_timer.interval_ms
                &&& final(self).coin_spawn_timer.interval_ms == old(self).coin_spawn_timer.interval_ms
                &&& final(self).move_timer.last_fired_ms == (
                if old(self).move_timer.due(now) {
                    now
                } else {
                    old(self).move_timer.last_fired_ms
                })
                &&& final(self).enemy_spawn_timer.last_fired_ms == (
                if old(self).enemy_spawn_timer.due(now) {
                    now
                } else {
                    old(self).enemy_spawn_timer.last_fired_ms
                })
                &&& final(self).coin_spawn_timer.last_fired_ms == (
                if old(self).coin_spawn_timer.due(now) {
                    now
                } else {
                    old(self).coin_spawn_timer.last_fired_ms
                })
            },
    {
        if self.status != SessionStatus::Running {
            return ;
        }
        if cmd == Command::Quit {
            self.status = SessionStatus::Quit;
            return ;
        }
        self.apply_command(cmd);
        self.run_enemy_pass(now);
        self.run_coin_pass(now);
        let ghost coins_pre_collect = self.coins@;
        if check_coin_collection(self.player_x, self.player_y, &mut self.coins) {
            proof {
                lemma_no_coin_left_after_remove(
                    coins_pre_collect,
                    self.coins@,
                    self.player_x as int,
                    self.player_y as int,
                );
            }
            self.score = self.score + 1;
        }
        if check_enemy_collision(self.player_x, self.player_y, &self.enemies) {
            self.status = SessionStatus::Caught;
        }
    }

    /// Apply one non-quit command: move the player one cell, clamped to the
    /// grid. Touches nothing but the player's position.
    fn apply_command(&mut self, cmd: Command)
        requires
            old(self).wf(),
        ensures
            final(self).player_x == moved_x(old(self).player_x, cmd),
            final(self).player_y == moved_y(old(self).player_y, cmd),
            final(self).enemies == old(self).enemies,
            final(self).coins == old(self).coins,
            final(self).score == old(self).score,
            final(self).status == old(self).status,
            final(self).move_timer == old(self).move_timer,
            final(self).enemy_spawn_timer == old(self).enemy_spawn_timer,
            final(self).coin_spawn_timer == old(self).coin_spawn_timer,
            final(self).wf(),
    {
        match cmd {
            Command::MoveUp => {
                if self.player_y > 0 {
                    self.player_y = self.player_y - 1;
                }
            },
            Command::MoveDown => {
                if self.player_y + 1 < HEIGHT {
                    self.player_y = self.player_y + 1;
                }
            },
            Command::MoveLeft => {
                if self.player_x > 0 {
                    self.player_x = self.player_x - 1;
                }
            },
            Command::MoveRight => {
                if self.player_x + 1 < WIDTH {
                    self.player_x = self.player_x + 1;
                }
            },
            _ => {},
        }
    }

    /// If their timers are due, run the activation and movement pass over the
    /// enemies and spawn one new enemy. Touches nothing but the enemies and
    /// the two enemy timers; enemies are never removed, their spawn stamps
    /// never change, and an active enemy stays active.
    fn run_enemy_pass(&mut self, now: u64)
        requires
            old(self).wf(),
        ensures
            final(self).wf(),
            final(self).player_x == old(self).player_x,
            final(self).player_y == old(self).player_y,
            final(self).coins == old(self).coins,
            final(self).score == old(self).score,
            final(self).status == old(self).status,
            final(self).coin_spawn_timer == old(self).coin_spawn_timer,
            final(self).move_timer.interval_ms == old(self).move_timer.interval_ms,
            final(self).enemy_spawn_timer.interval_ms == old(self).enemy_spawn_timer.interval_ms,
            final(self).move_timer.last_fired_ms == if old(self).move_timer.due(now) {
                now
            } else {
                old(self).move_timer.last_fired_ms
            },
            final(self).enemy_spawn_timer.last_fired_ms == if old(self).enemy_spawn_timer.due(
                now,
            ) {
                now
            } else {
                old(self).enemy_spawn_timer.last_fired_ms
            },
            forall|i: int|
                0 <= i < old(self).enemies@.len() ==> final(self).enemies@[i] == (
                if old(self).move_timer.due(now) {
                    chased(
                        activated(old(self).enemies@[i], now),
                        old(self).player_x,
                        old(self).player_y,
                    )
                } else {
                    old(self).enemies@[i]
                }),
            old(self).enemies@.len() <= final(self).enemies@.len() <= old(self).enemies@.len() + (
            if old(self).enemy_spawn_timer.due(now) {
                1int
            } else {
                0
            }),
            final(self).enemies@.len() > old(self).enemies@.len() ==> {
                let e = final(self).enemies@.last();
                &&& in_bounds(e.x as int, e.y as int)
                &&& !(e.x == old(self).player_x && e.y == old(self).player_y)
                &&& forall|j: int|
                    0 <= j < old(self).enemies@.len() ==> !(final(self).enemies@[j].x == e.x
                        && final(self).enemies@[j].y == e.y)
                &&& e.spawn_time == now
                &&& !e.active
            },
    {
        if self.move_timer.try_fire(now) {
            update_enemy_activation(&mut self.enemies, now);
            let ghost woken = self.enemies@;
            move_enemies(&mut self.enemies, self.player_x, self.player_y);
            proof {
                assert forall|i: int| 0 <= i < self.enemies@.len() implies in_bounds(
                    self.enemies@[i].x as int,
                    self.enemies@[i].y as int,
                ) by {
                    assert(self.enemies@[i] == chased(woken[i], self.player_x, self.player_y));
                    assert(in_bounds(woken[i].x as int, woken[i].y as int));
                }
            }
        }
        if self.enemy_spawn_timer.try_fire(now) {
            let ghost before_spawn = self.enemies@;
            spawn_enemy(&mut self.enemies, self.player_x, self.player_y, now);
            proof {
                if self.enemies@.len() > before_spawn.len() {
                    let e = self.enemies@.last();
                    assert forall|j: int| 0 <= j < before_spawn.len() implies !(
                    self.enemies@[j].x == e.x && self.enemies@[j].y == e.y) by {
                        assert(self.enemies@[j] == before_spawn[j]);
                        if before_spawn[j].x == e.x && before_spawn[j].y == e.y {
                            assert(enemy_at(before_spawn, e.x as int, e.y as int));
                        }
                    }
                }
            }
        }
    }

    /// If its timer is due, spawn one coin on a free cell. Touches nothing but
    /// the coins and the coin timer, and never puts a coin under the player:
    /// whether the player's own cell holds a coin is left as it was.
    fn run_coin_pass(&mut self, now: u64)
        requires
            old(self).wf(),
        ensures
            final(self).wf(),
            final(self).player_x == old(self).player_x,
            final(self).player_y == old(self).player_y,
            final(self).enemies == old(self).enemies,
            final(self).score == old(self).score,
            final(self).status == old(self).status,
            final(self).move_timer == old(self).move_timer,
            final(self).enemy_spawn_timer == old(self).enemy_spawn_timer,
            final(self).coin_spawn_timer.interval_ms == old(self).coin_spawn_timer.interval_ms,
            final(self).coin_spawn_timer.last_fired_ms == if old(self).coin_spawn_timer.due(now) {
                now
            } else {
                old(self).coin_spawn_timer.last_fired_ms
            },
            coin_at(final(self).coins@, old(self).player_x as int, old(self).player_y as int)
                == coin_at(old(self).coins@, old(self).player_x as int, old(self).player_y as int),
            forall|i: int| 0 <= i < old(self).coins@.len() ==> final(self).coins@[i] == old(self).coins@[i],
            old(self).coins@.len() <= final(self).coins@.len() <= old(self).coins@.len() + (
            if old(self).coin_spawn_timer.due(now) {
                1int
            } else {
                0
            }),
            final(self).coins@.len() > old(self).coins@.len() ==> {
                let c = final(self).coins@.last();
                &&& in_bounds(c.0 as int, c.1 as int)
                &&& !(c.0 == old(self).player_x && c.1 == old(self).player_y)
                &&& !enemy_at(old(self).enemies@, c.0 as int, c.1 as int)
                &&& !coin_at(old(self).coins@, c.0 as int, c.1 as int)
            },
    {
        let ghost pre = self.coins@;
        if self.coin_spawn_timer.try_fire(now) {
            spawn_coin(&mut self.coins, &self.enemies, self.player_x, self.player_y);
        }
        proof {
            lemma_coins_after_spawn(pre, self.coins@, self.player_x as int, self.player_y as int);
        }
    }
}

/// Appending at most one coin that lies on no other coin's cell and not on
/// `(x, y)` keeps the coins pairwise distinct and leaves unchanged whether a
/// coin sits on `(x, y)`.
proof fn lemma_coins_after_spawn(pre: Seq<Coin>, post: Seq<Coin>, x: int, y: int)
    requires
        coins_distinct(pre),
        pre.len() <= post.len() <= pre.len() + 1,
        forall|i: int| 0 <= i < pre.len() ==> post[i] == pre[i],
        post.len() == pre.len() + 1 ==> !(post.last().0 == x && post.last().1 == y) && !coin_at(
            pre,
            post.last().0 as int,
            post.last().1 as int,
        ),
    ensures
        coins_distinct(post),
        coin_at(post, x, y) == coin_at(pre, x, y),
{
    if coin_at(pre, x, y) {
        let i = choose|i: int| 0 <= i < pre.len() && pre[i].0 == x && pre[i].1 == y;
        assert(post[i].0 == x && post[i].1 == y);
    }
    if coin_at(post, x, y) {
        let i = choose|i: int| 0 <= i < post.len() && post[i].0 == x && post[i].1 == y;
        if i < pre.len() {
            assert(pre[i].0 == x && pre[i].1 == y);
        } else {
            assert(post[i] == post.last());
        }
    }
    assert forall|i: int, j: int| 0 <= i < j < post.len() implies post[i] != post[j] by {
        if j < pre.len() {
            assert(post[i] == pre[i] && post[j] == pre[j]);
        } else {
            assert(post[i] == pre[i] && post[j] == post.last());
            if post[i] == post[j] {
                assert(pre[i].0 == post.last().0 as int && pre[i].1 == post.last().1 as int);
                assert(coin_at(pre, post.last().0 as int, post.last().1 as int));
            }
        }
    }
}

/// Removing the one coin that sat on `(x, y)` from a distinct collection
/// leaves no coin on `(x, y)`.
proof fn lemma_no_coin_left_after_remove(pre: Seq<Coin>, post: Seq<Coin>, x: int, y: int)
    requires
        coins_distinct(pre),
        exists|i: int| 0 <= i < pre.len() && pre[i].0 == x && pre[i].1 == y && post == pre.remove(i),
    ensures
        !coin_at(post, x, y),
        coins_distinct(post),
{
    let i = choose|i: int|
        0 <= i < pre.len() && pre[i].0 == x && pre[i].1 == y && post == pre.remove(i);
    assert forall|j: int| 0 <= j < post.len() implies !(post[j].0 == x && post[j].1 == y) by {
        if j < i {
            assert(post[j] == pre[j]);
            assert(pre[j] != pre[i]);
        } else {
            assert(post[j] == pre[j + 1]);
            assert(pre[j + 1] != pre[i]);
        }
    }
    assert forall|j: int, k: int| 0 <= j < k < post.len() implies post[j] != post[k] by {
        let pj: int = if j < i {
            j
        } else {
            j + 1
        };
        let pk: int = if k < i {
            k
        } else {
            k + 1
        };
        assert(post[j] == pre[pj]);
        assert(post[k] == pre[pk]);
    }
}

} // verus!

use grid_chase::entities::Enemy;
use grid_chase::grid::{HEIGHT, WIDTH};
use grid_chase::session::{
    command_for_key, Command, GameSession, SessionStatus, Timer, COIN_SPAWN_INTERVAL_MS,
    ENEMY_MOVE_INTERVAL_MS, ENEMY_SPAWN_INTERVAL_MS,
};

fn quiet_session(now: u64) -> GameSession {
    GameSession {
        player_x: WIDTH / 2,
        player_y: HEIGHT / 2,
        enemies: Vec::new(),
        coins: Vec::new(),
        score: 0,
        status: SessionStatus::Running,
        move_timer: Timer { interval_ms: ENEMY_MOVE_INTERVAL_MS, last_fired_ms: now },
        enemy_spawn_timer: Timer { interval_ms: ENEMY_SPAWN_INTERVAL_MS, last_fired_ms: now },
        coin_spawn_timer: Timer { interval_ms: COIN_SPAWN_INTERVAL_MS, last_fired_ms: now },
    }
}

#[test]
fn key_mapping_is_case_sensitive() {
    assert_eq!(command_for_key('w'), Command::MoveUp);
    assert_eq!(command_for_key('a'), Command::MoveLeft);
    assert_eq!(command_for_key('s'), Command::MoveDown);
    assert_eq!(command_for_key('d'), Command::MoveRight);
    assert_eq!(command_for_key('q'), Command::Quit);
    assert_eq!(command_for_key('W'), Command::Idle);
    assert_eq!(command_for_key('x'), Command::Idle);
}

#[test]
fn timer_fires_no_earlier_than_its_interval() {
    let mut t = Timer::new(300, 0);
    assert!(!t.try_fire(299));
    assert_eq!(t.last_fired_ms, 0);
    assert!(t.try_fire(300));
    assert_eq!(t.last_fired_ms, 300);
    assert!(!t.try_fire(599));
    assert!(t.try_fire(620));
    assert_eq!(t.last_fired_ms, 620);
}

#[test]
fn new_session_starts_at_center_with_one_dormant_enemy() {
    let s = GameSession::new(0);
    assert_eq!((s.player_x, s.player_y), (WIDTH / 2, HEIGHT / 2));
    assert_eq!(s.enemies.len(), 1);
    let e = &s.enemies[0];
    assert_eq!((e.x, e.y, e.spawn_time, e.active), (1, 1, 0, false));
    assert!(s.coins.is_empty());
    assert_eq!(s.score, 0);
    assert_eq!(s.status, SessionStatus::Running);
}

#[test]
fn player_moves_one_cell_per_command() {
    let mut s = quiet_session(0);
    s.tick(Command::MoveRight, 1);
    assert_eq!((s.player_x, s.player_y), (WIDTH / 2 + 1, HEIGHT / 2));
    s.tick(Command::MoveUp, 2);
    assert_eq!((s.player_x, s.player_y), (WIDTH / 2 + 1, HEIGHT / 2 - 1));
    s.tick(Command::Idle, 3);
    assert_eq!((s.player_x, s.player_y), (WIDTH / 2 + 1, HEIGHT / 2 - 1));
}

#[test]
fn player_movement_is_clamped_to_the_grid() {
    let mut s = quiet_session(0);
    s.player_x = 0;
    s.player_y = 0;
    s.tick(Command::MoveLeft, 1);
    assert_eq!((s.player_x, s.player_y), (0, 0));
    s.tick(Command::MoveUp, 2);
    assert_eq!((s.player_x, s.player_y), (0, 0));
    s.player_x = WIDTH - 1;
    s.player_y = HEIGHT - 1;
    s.tick(Command::MoveRight, 3);
    assert_eq!((s.player_x, s.player_y), (WIDTH - 1, HEIGHT - 1));
    s.tick(Command::MoveDown, 4);
    assert_eq!((s.player_x, s.player_y), (WIDTH - 1, HEIGHT - 1));
}

#[test]
fn quit_ends_the_session_at_once_and_ticks_stop() {
    let mut s = quiet_session(0);
    s.score = 7;
    s.tick(Command::Quit, 1);
    assert_eq!(s.status, SessionStatus::Quit);
    assert_eq!(s.score, 7);
    let player_before = (s.player_x, s.player_y);
    s.tick(Command::MoveRight, 2);
    assert_eq!(s.status, SessionStatus::Quit);
    assert_eq!((s.player_x, s.player_y), player_before);
}

#[test]
fn tick_collects_coin_under_player_and_scores() {
    let mut s = quiet_session(1000);
    s.coins = vec![(s.player_x + 1, s.player_y), (0, 0)];
    s.tick(Command::MoveRight, 1001);
    assert_eq!(s.score, 1);
    assert_eq!(s.coins, vec![(0, 0)]);
    assert_eq!(s.status, SessionStatus::Running);
    s.tick(Command::Idle, 1002);
    assert_eq!(s.score, 1);
}

#[test]
fn collision_with_active_enemy_ends_session_with_score() {
    let mut s = quiet_session(6000);
    s.player_x = 10;
    s.player_y = 10;
    s.enemies = vec![Enemy { x: 10, y: 10, spawn_time: 0, active: true }];
    s.score = 3;
    s.tick(Command::Idle, 6010);
    assert_eq!(s.status, SessionStatus::Caught);
    assert_eq!(s.score, 3);
}

#[test]
fn dormant_enemy_on_player_cell_does_not_end_session() {
    let mut s = quiet_session(0);
    s.player_x = 10;
    s.player_y = 10;
    s.enemies = vec![Enemy { x: 10, y: 10, spawn_time: 0, active: false }];
    s.tick(Command::Idle, 10);
    assert_eq!(s.status, SessionStatus::Running);
}

#[test]
fn chase_from_corner_catches_stationary_player() {
    let mut s = GameSession::new(0);
    let mut now = ENEMY_MOVE_INTERVAL_MS * 17;
    s.tick(Command::Idle, now);
    assert!(s.enemies[0].active);
    assert_eq!((s.enemies[0].x, s.enemies[0].y), (2, 2));
    let mut ticks = 0;
    while s.status == SessionStatus::Running && ticks < 300 {
        now += ENEMY_MOVE_INTERVAL_MS;
        s.tick(Command::Idle, now);
        ticks += 1;
    }
    assert_eq!(s.status, SessionStatus::Caught);
    assert_eq!(s.score, 0);
}

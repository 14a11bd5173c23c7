use grid_chase::entities::Enemy;
use grid_chase::game::{
    check_coin_collection, check_enemy_collision, move_enemies, spawn_coin, spawn_enemy,
    update_enemy_activation,
};
use grid_chase::grid::{HEIGHT, WIDTH};

fn enemy(x: usize, y: usize, spawn_time: u64, active: bool) -> Enemy {
    Enemy { x, y, spawn_time, active }
}

#[test]
fn activation_before_delay_stays_dormant() {
    let mut enemies = vec![enemy(1, 1, 0, false)];
    update_enemy_activation(&mut enemies, 4900);
    assert!(!enemies[0].active);
}

#[test]
fn activation_at_exact_delay_stays_dormant() {
    let mut enemies = vec![enemy(1, 1, 0, false)];
    update_enemy_activation(&mut enemies, 5000);
    assert!(!enemies[0].active);
}

#[test]
fn activation_after_delay_wakes_and_stays_awake() {
    let mut enemies = vec![enemy(1, 1, 0, false)];
    update_enemy_activation(&mut enemies, 5100);
    assert!(enemies[0].active);
    update_enemy_activation(&mut enemies, 5100);
    assert!(enemies[0].active);
    update_enemy_activation(&mut enemies, 1_000_000);
    assert!(enemies[0].active);
}

#[test]
fn activation_counts_from_each_spawn_stamp() {
    let mut enemies = vec![enemy(1, 1, 0, false), enemy(2, 2, 4000, false)];
    update_enemy_activation(&mut enemies, 5100);
    assert!(enemies[0].active);
    assert!(!enemies[1].active);
    update_enemy_activation(&mut enemies, 9100);
    assert!(enemies[1].active);
}

#[test]
fn advance_steps_one_cell_per_misaligned_axis() {
    let mut enemies = vec![enemy(5, 5, 0, true)];
    move_enemies(&mut enemies, 2, 8);
    assert_eq!((enemies[0].x, enemies[0].y), (4, 6));
    move_enemies(&mut enemies, 2, 8);
    assert_eq!((enemies[0].x, enemies[0].y), (3, 7));
    move_enemies(&mut enemies, 2, 8);
    assert_eq!((enemies[0].x, enemies[0].y), (2, 8));
    move_enemies(&mut enemies, 2, 8);
    assert_eq!((enemies[0].x, enemies[0].y), (2, 8));
}

#[test]
fn advance_adjusts_only_misaligned_axis() {
    let mut enemies = vec![enemy(7, 3, 0, true)];
    move_enemies(&mut enemies, 7, 9);
    assert_eq!((enemies[0].x, enemies[0].y), (7, 4));
}

#[test]
fn inactive_enemies_never_move() {
    let mut enemies = vec![enemy(5, 5, 0, false)];
    for _ in 0..10 {
        move_enemies(&mut enemies, 2, 8);
        assert_eq!((enemies[0].x, enemies[0].y), (5, 5));
    }
}

#[test]
fn collect_coin_removes_exact_match() {
    let mut coins = vec![(3, 4), (10, 20)];
    assert!(check_coin_collection(3, 4, &mut coins));
    assert_eq!(coins, vec![(10, 20)]);
}

#[test]
fn collect_coin_twice_second_fails() {
    let mut coins = vec![(3, 4)];
    assert!(check_coin_collection(3, 4, &mut coins));
    assert!(coins.is_empty());
    assert!(!check_coin_collection(3, 4, &mut coins));
    assert!(coins.is_empty());
}

#[test]
fn collect_coin_miss_leaves_coins_unchanged() {
    let mut coins = vec![(3, 4), (10, 20)];
    assert!(!check_coin_collection(5, 5, &mut coins));
    assert_eq!(coins, vec![(3, 4), (10, 20)]);
}

#[test]
fn collision_with_active_enemy_on_player_cell() {
    let enemies = vec![enemy(9, 9, 0, true)];
    assert!(check_enemy_collision(9, 9, &enemies));
}

#[test]
fn no_collision_with_dormant_enemy_on_player_cell() {
    let enemies = vec![enemy(9, 9, 0, false)];
    assert!(!check_enemy_collision(9, 9, &enemies));
}

#[test]
fn no_collision_with_active_enemy_elsewhere() {
    let enemies = vec![enemy(9, 8, 0, true)];
    assert!(!check_enemy_collision(9, 9, &enemies));
}

#[test]
fn spawned_enemies_avoid_player_and_enemies() {
    let mut enemies = vec![enemy(0, 0, 0, true), enemy(1, 0, 0, false)];
    let (px, py) = (5, 5);
    for round in 0..60u64 {
        let before = enemies.len();
        spawn_enemy(&mut enemies, px, py, round);
        assert_eq!(enemies.len(), before + 1);
        let e = enemies.last().unwrap();
        assert!(e.x < WIDTH && e.y < HEIGHT);
        assert!(!(e.x == px && e.y == py));
        assert!(!e.active);
        assert_eq!(e.spawn_time, round);
        for other in &enemies[..before] {
            assert!(!(other.x == e.x && other.y == e.y));
        }
    }
}

#[test]
fn spawn_enemy_on_saturated_grid_terminates_and_skips() {
    let mut enemies = Vec::new();
    for x in 0..WIDTH {
        for y in 0..HEIGHT {
            enemies.push(enemy(x, y, 0, false));
        }
    }
    let before = enemies.len();
    spawn_enemy(&mut enemies, 5, 5, 99);
    assert_eq!(enemies.len(), before);
}

#[test]
fn spawned_coins_avoid_player_enemies_and_coins() {
    let enemies = vec![enemy(0, 0, 0, true), enemy(3, 3, 0, false)];
    let mut coins = vec![(2, 2)];
    let (px, py) = (5, 5);
    for _ in 0..60 {
        let before = coins.len();
        spawn_coin(&mut coins, &enemies, px, py);
        assert_eq!(coins.len(), before + 1);
        let &(cx, cy) = coins.last().unwrap();
        assert!(cx < WIDTH && cy < HEIGHT);
        assert!(!(cx == px && cy == py));
        for e in &enemies {
            assert!(!(e.x == cx && e.y == cy));
        }
        for &(ox, oy) in &coins[..before] {
            assert!(!(ox == cx && oy == cy));
        }
    }
}

#[test]
fn spawn_coin_on_saturated_grid_terminates_and_skips() {
    let mut enemies = Vec::new();
    for x in 0..WIDTH {
        for y in 0..HEIGHT {
            enemies.push(enemy(x, y, 0, false));
        }
    }
    let mut coins = Vec::new();
    spawn_coin(&mut coins, &enemies, 5, 5);
    assert!(coins.is_empty());
}

#[test]
fn blink_phase_alternates_every_quarter_second() {
    let e = enemy(1, 1, 1000, false);
    assert!(e.blink_visible(1000));
    assert!(e.blink_visible(1249));
    assert!(!e.blink_visible(1250));
    assert!(!e.blink_visible(1499));
    assert!(e.blink_visible(1500));
    assert!(e.blink_visible(500));
}

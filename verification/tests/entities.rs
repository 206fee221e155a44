use rusty_invaders::bullet::{Bullet, Shooter};
use rusty_invaders::components::{Direction, Vec2};
use rusty_invaders::enemy::{EnemyManager, EnemyVariation};
use rusty_invaders::player::Player;

#[test]
fn player_bullet_motion_replays_elapsed_time() {
    let mut b = Bullet::spawn(
        10_000,
        400_000,
        Vec2 { x: 1, y: 1 },
        Vec2 { x: 0, y: -98 },
        Vec2 { x: 0, y: -50 },
        100,
        Shooter::Player,
    );
    // spawn centers the bullet on x
    assert_eq!(b.transform.x, 7_500);
    assert_eq!(b.transform.y, 400_000);
    assert_eq!(b.transform.width, 5_000);
    assert_eq!(b.transform.height, 10_000);
    assert_eq!(b.elapsed_ms, 0);
    b.update(16);
    // gravity term: 98 * 16^2 / 20000 = 1; velocity term: 50 * 16 = 800
    assert_eq!(b.elapsed_ms, 16);
    assert_eq!(b.transform.y, 400_000 - 801);
}

#[test]
fn enemy_bullet_motion_is_linear() {
    let mut b = Bullet::spawn(
        100_000,
        50_000,
        Vec2 { x: 1, y: -1 },
        Vec2 { x: 0, y: 0 },
        Vec2 { x: 0, y: 10 },
        5,
        Shooter::Enemy,
    );
    b.update(16);
    assert_eq!(b.transform.y, 50_000 + 160);
    b.update(16);
    // the displacement is replayed from the total elapsed time each tick
    assert_eq!(b.transform.y, 50_000 + 160 + 320);
}

#[test]
fn formation_grid_has_full_count_and_row_tiers() {
    let m = EnemyManager::new(10, 5);
    assert_eq!(m.entities.len(), 50);
    for (k, e) in m.entities.iter().enumerate() {
        let expected = if k < 10 {
            EnemyVariation::Squid
        } else if k < 30 {
            EnemyVariation::Crab
        } else {
            EnemyVariation::Octopus
        };
        assert_eq!(e.variation, expected);
    }
    assert!(!m.reached_player);
    assert_eq!(m.state.velocity, Vec2 { x: 30, y: 0 });
}

#[test]
fn formation_grid_positions_are_centered() {
    let m = EnemyManager::new(10, 5);
    // first cell: col 1, row 1
    assert_eq!(m.entities[0].transform.x, 145_000);
    assert_eq!(m.entities[0].transform.y, 32_000);
    // last cell of row 1: col 10
    assert_eq!(m.entities[9].transform.x, 523_000);
    assert_eq!(m.entities[9].transform.y, 32_000);
    // first cell of row 2
    assert_eq!(m.entities[10].transform.x, 145_000);
    assert_eq!(m.entities[10].transform.y, 66_000);
}

#[test]
fn degenerate_grids_generate_no_enemies() {
    assert!(EnemyManager::new(0, 5).entities.is_empty());
    assert!(EnemyManager::new(10, 0).entities.is_empty());
    assert_eq!(EnemyManager::new(1, 1).entities.len(), 1);
}

#[test]
fn right_edge_breach_bounces_and_descends() {
    let mut m = EnemyManager::new(1, 1);
    m.entities[0].transform.x = 575_000;
    let y0 = m.entities[0].transform.y;
    m.update(16);
    assert_eq!(m.state.velocity, Vec2 { x: -30, y: 0 });
    assert!(!m.reached_player);
    assert_eq!(m.entities[0].transform.y, y0 + 22_000);
    assert_eq!(m.entities[0].transform.x, 575_000 - 30 * 16);
}

#[test]
fn left_edge_breach_bounces_back_right() {
    let mut m = EnemyManager::new(1, 1);
    m.entities[0].transform.x = 45_000;
    m.state.velocity = Vec2 { x: -30, y: 0 };
    let y0 = m.entities[0].transform.y;
    m.update(16);
    assert_eq!(m.state.velocity, Vec2 { x: 30, y: 0 });
    assert_eq!(m.entities[0].transform.y, y0 + 22_000);
}

#[test]
fn bottom_edge_breach_stops_formation() {
    let mut m = EnemyManager::new(1, 1);
    m.entities[0].transform.y = 380_000;
    m.update(16);
    assert!(m.reached_player);
    assert_eq!(m.state.velocity, Vec2 { x: 0, y: 0 });
    // no bounce: no descent, and zero velocity means no horizontal motion
    assert_eq!(m.entities[0].transform.y, 380_000);
}

#[test]
fn simultaneous_bottom_and_side_breach_follows_scan_order() {
    // one enemy past the bottom, a later one past the right edge: the
    // bottom breach sets the flag and zeroes the velocity, then the side
    // breach re-flips the velocity and makes the tick a bounce tick
    let mut m = EnemyManager::new(2, 1);
    m.entities[0].transform.x = 100_000;
    m.entities[0].transform.y = 380_000;
    m.entities[1].transform.x = 575_000;
    m.entities[1].transform.y = 100_000;
    m.update(16);
    assert!(m.reached_player);
    assert_eq!(m.state.velocity, Vec2 { x: -30, y: 0 });
    assert_eq!(m.entities[0].transform.y, 380_000 + 22_000);
    assert_eq!(m.entities[1].transform.y, 100_000 + 22_000);
}

#[test]
fn formation_marches_without_breach() {
    let mut m = EnemyManager::new(2, 2);
    let xs: Vec<i64> = m.entities.iter().map(|e| e.transform.x).collect();
    m.update(16);
    assert_eq!(m.state.velocity, Vec2 { x: 30, y: 0 });
    for (k, e) in m.entities.iter().enumerate() {
        assert_eq!(e.transform.x, xs[k] + 480);
    }
}

#[test]
fn remove_returns_the_indexed_enemy() {
    let mut m = EnemyManager::new(10, 5);
    let target = m.entities[7];
    let removed = m.remove(7);
    assert_eq!(removed.transform.x, target.transform.x);
    assert_eq!(m.entities.len(), 49);
}

#[test]
fn player_moves_only_with_latched_direction() {
    let mut p = Player::new();
    assert_eq!(p.transform.x, 325_000);
    p.update(16);
    assert_eq!(p.transform.x, 325_000);
    p.transform.direction = Direction::Right;
    p.update(16);
    assert_eq!(p.transform.x, 325_000 + 80 * 16);
    p.transform.direction = Direction::Left;
    p.update(16);
    assert_eq!(p.transform.x, 325_000);
}

#[test]
fn player_wraps_at_both_edges() {
    let mut p = Player::new();
    p.transform.x = -16_000;  // center at -1000, past the left edge
    p.update(16);
    assert_eq!(p.transform.x, 650_000 - 15_000);
    let mut p = Player::new();
    p.transform.direction = Direction::Right;
    p.transform.x = 649_900;  // moves past the right edge this tick
    p.update(16);
    assert_eq!(p.transform.x, 15_000);
}

#[test]
fn health_bar_width_tracks_health() {
    let mut p = Player::new();
    assert_eq!(p.health.transform.width, 100_000);
    p.health.value = 37;
    p.update(16);
    assert_eq!(p.health.transform.width, 37_000);
    assert!(p.is_alive());
    p.health.value = -3;
    p.update(16);
    assert_eq!(p.health.transform.width, -3_000);
    assert!(!p.is_alive());
}

#[test]
fn damage_and_heal_move_health() {
    let mut p = Player::new();
    p.damage_by(30);
    assert_eq!(p.health.value, 70);
    p.heal(7);
    assert_eq!(p.health.value, 77);
    p.damage_by(100);
    assert_eq!(p.health.value, -23);
    assert!(!p.is_alive());
}

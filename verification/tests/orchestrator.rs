use rusty_invaders::bullet::{Bullet, Shooter};
use rusty_invaders::components::Vec2;
use rusty_invaders::enemy::EnemyVariation;
use rusty_invaders::game::{GameManager, InputAction, TickDraws};

fn no_draws() -> TickDraws {
    TickDraws { fire: false, pick: 0, damage: 2, regen: 1 }
}

fn player_bullet_at(x_center: i64, y: i64) -> Bullet {
    Bullet::spawn(
        x_center,
        y,
        Vec2 { x: 1, y: 1 },
        Vec2 { x: 0, y: -98 },
        Vec2 { x: 0, y: -50 },
        100,
        Shooter::Player,
    )
}

fn enemy_bullet_at(x_center: i64, y: i64, damage: i64) -> Bullet {
    Bullet::spawn(
        x_center,
        y,
        Vec2 { x: 1, y: -1 },
        Vec2 { x: 0, y: 0 },
        Vec2 { x: 0, y: 10 },
        damage,
        Shooter::Enemy,
    )
}

#[test]
fn fresh_game_state() {
    let g = GameManager::start();
    assert_eq!(g.score, 0);
    assert_eq!(g.rounds, 0);
    assert!(!g.player_lost);
    assert!(g.bullets.is_empty());
    assert_eq!(g.enemies.entities.len(), 50);
    assert_eq!(g.player.health.value, 100);
}

#[test]
fn reached_formation_causes_loss_next_tick() {
    let mut g = GameManager::start();
    g.enemies.reached_player = true;
    let fx = g.update_with(16, no_draws());
    assert!(g.player_lost);
    assert_eq!(fx.enemies_destroyed, 0);
    assert!(!fx.player_hit);
}

#[test]
fn dead_player_causes_loss_and_freezes_scoring() {
    let mut g = GameManager::start();
    g.player.health.value = 0;
    g.update_with(16, no_draws());
    assert!(g.player_lost);
    // lost ticks do no collision, spawn or cull processing
    assert_eq!(g.score, 0);
    assert_eq!(g.enemies.entities.len(), 50);
}

#[test]
fn round_completion_heals_and_regenerates() {
    let mut g = GameManager::start();
    g.enemies.entities.clear();
    let d = TickDraws { fire: false, pick: 0, damage: 2, regen: 7 };
    g.update_with(16, d);
    assert_eq!(g.rounds, 1);
    assert_eq!(g.player.health.value, 107);
    assert_eq!(g.enemies.entities.len(), 50);
    assert!(!g.enemies.reached_player);
    assert!(!g.player_lost);
}

#[test]
fn round_count_strictly_increases_per_completion() {
    let mut g = GameManager::start();
    for expected in 1..=3u32 {
        g.enemies.entities.clear();
        g.update_with(16, no_draws());
        assert_eq!(g.rounds, expected);
    }
}

#[test]
fn enemy_fire_draw_spawns_one_enemy_bullet() {
    let mut g = GameManager::start();
    let d = TickDraws { fire: true, pick: 3, damage: 9, regen: 1 };
    g.update_with(0, d);
    assert_eq!(g.bullets.len(), 1);
    let b = &g.bullets[0];
    assert!(matches!(b.owner, Shooter::Enemy));
    assert_eq!(b.damage, 9);
    // spawned centered on the chosen enemy's corner position
    assert_eq!(b.transform.x, g.enemies.entities[3].transform.x - 2_500);
    assert_eq!(b.transform.y, g.enemies.entities[3].transform.y);
}

#[test]
fn destroying_one_enemy_of_each_tier_scores_their_sum() {
    let mut g = GameManager::start();
    g.enemies.entities.truncate(3);
    g.enemies.entities[0].transform.x = 100_000;
    g.enemies.entities[0].transform.y = 100_000;
    g.enemies.entities[0].variation = EnemyVariation::Squid;
    g.enemies.entities[1].transform.x = 250_000;
    g.enemies.entities[1].transform.y = 100_000;
    g.enemies.entities[1].variation = EnemyVariation::Crab;
    g.enemies.entities[2].transform.x = 400_000;
    g.enemies.entities[2].transform.y = 100_000;
    g.enemies.entities[2].variation = EnemyVariation::Octopus;
    g.bullets.push(player_bullet_at(102_500, 100_000));
    g.bullets.push(player_bullet_at(252_500, 100_000));
    g.bullets.push(player_bullet_at(402_500, 100_000));
    let fx = g.update_with(0, no_draws());
    assert_eq!(g.score, 40 + 20 + 10);
    assert_eq!(fx.enemies_destroyed, 3);
    assert!(g.enemies.entities.is_empty());
    assert!(g.bullets.is_empty());
}

#[test]
fn one_bullet_overlapping_two_enemies_destroys_both() {
    let mut g = GameManager::start();
    g.enemies.entities.truncate(2);
    g.enemies.entities[0].transform.x = 100_000;
    g.enemies.entities[0].transform.y = 100_000;
    g.enemies.entities[0].variation = EnemyVariation::Squid;
    g.enemies.entities[1].transform.x = 103_000;
    g.enemies.entities[1].transform.y = 100_000;
    g.enemies.entities[1].variation = EnemyVariation::Octopus;
    g.bullets.push(player_bullet_at(102_500, 100_000));
    let fx = g.update_with(0, no_draws());
    assert_eq!(g.score, 40 + 10);
    assert_eq!(fx.enemies_destroyed, 2);
    assert!(g.enemies.entities.is_empty());
    assert!(g.bullets.is_empty());
}

#[test]
fn two_bullets_on_one_enemy_score_per_collision_pair() {
    let mut g = GameManager::start();
    g.enemies.entities.truncate(1);
    g.enemies.entities[0].transform.x = 100_000;
    g.enemies.entities[0].transform.y = 100_000;
    g.enemies.entities[0].variation = EnemyVariation::Crab;
    g.bullets.push(player_bullet_at(102_500, 100_000));
    g.bullets.push(player_bullet_at(104_000, 100_000));
    let fx = g.update_with(0, no_draws());
    // removal is deferred, so both bullets see the enemy and both score
    assert_eq!(g.score, 40);
    assert_eq!(fx.enemies_destroyed, 2);
    assert!(g.enemies.entities.is_empty());
    assert!(g.bullets.is_empty());
}

#[test]
fn completing_tick_spawns_enemy_fire_from_the_fresh_wave() {
    let mut g = GameManager::start();
    g.enemies.entities.clear();
    let d = TickDraws { fire: true, pick: 0, damage: 4, regen: 2 };
    g.update_with(0, d);
    assert_eq!(g.rounds, 1);
    assert_eq!(g.enemies.entities.len(), 50);
    assert_eq!(g.bullets.len(), 1);
    assert_eq!(g.bullets[0].transform.y, g.enemies.entities[0].transform.y);
}

#[test]
fn enemy_bullet_damages_player_once_per_tick() {
    let mut g = GameManager::start();
    // two enemy bullets on the player; only the first hit registers
    g.bullets.push(enemy_bullet_at(340_000, 400_000, 9));
    g.bullets.push(enemy_bullet_at(340_000, 400_000, 9));
    let fx = g.update_with(0, no_draws());
    assert_eq!(g.player.health.value, 91);
    assert!(fx.player_hit);
    assert!(!fx.player_destroyed);
    // the hitting bullet is removed; the other one stays live
    assert_eq!(g.bullets.len(), 1);
}

#[test]
fn lethal_hit_signals_player_destroyed() {
    let mut g = GameManager::start();
    g.player.health.value = 5;
    g.bullets.push(enemy_bullet_at(340_000, 400_000, 9));
    let fx = g.update_with(0, no_draws());
    assert_eq!(g.player.health.value, -4);
    assert!(fx.player_hit);
    assert!(fx.player_destroyed);
    assert!(!g.player_lost);
    // the loss registers on the following tick
    g.update_with(16, no_draws());
    assert!(g.player_lost);
}

#[test]
fn out_of_bounds_bullets_are_culled_regardless_of_owner() {
    let mut g = GameManager::start();
    let mut above = player_bullet_at(100_000, 0);
    above.transform.y = -5_000;
    let mut below = enemy_bullet_at(100_000, 0, 3);
    below.transform.y = 450_000;
    let mut live = player_bullet_at(102_500, 380_000);
    live.transform.y = 380_000;
    g.bullets.push(above);
    g.bullets.push(below);
    g.bullets.push(live);
    g.update_with(0, no_draws());
    assert_eq!(g.bullets.len(), 1);
    assert_eq!(g.bullets[0].transform.y, 380_000);
}

#[test]
fn fire_is_rejected_at_the_round_scaled_cap() {
    let mut g = GameManager::start();
    // rounds 0: cap is 0 / 5 + 1 = 1
    assert!(g.on_press(InputAction::Fire));
    assert_eq!(g.bullets.len(), 1);
    assert!(!g.on_press(InputAction::Fire));
    assert_eq!(g.bullets.len(), 1);
    // rounds 5: cap is 2; accepted just below the cap, rejected at it
    let mut g = GameManager::start();
    g.rounds = 5;
    assert!(g.on_press(InputAction::Fire));
    assert!(g.on_press(InputAction::Fire));
    assert!(!g.on_press(InputAction::Fire));
    assert_eq!(g.bullets.len(), 2);
}

#[test]
fn dead_player_cannot_fire() {
    let mut g = GameManager::start();
    g.player.health.value = 0;
    assert!(!g.on_press(InputAction::Fire));
    assert!(g.bullets.is_empty());
}

#[test]
fn fired_bullet_starts_at_the_player_center() {
    let mut g = GameManager::start();
    assert!(g.on_press(InputAction::Fire));
    let b = &g.bullets[0];
    assert!(matches!(b.owner, Shooter::Player));
    assert_eq!(b.damage, 100);
    assert_eq!(b.transform.x, 325_000 + 15_000 - 2_500);
    assert_eq!(b.transform.y, 400_000);
}

#[test]
fn movement_presses_latch_direction() {
    let mut g = GameManager::start();
    g.on_press(InputAction::MoveRight);
    g.update_with(16, no_draws());
    assert_eq!(g.player.transform.x, 325_000 + 1_280);
    g.on_press(InputAction::MoveLeft);
    g.update_with(16, no_draws());
    assert_eq!(g.player.transform.x, 325_000);
}

#[test]
fn restart_is_a_no_op_until_lost() {
    let mut g = GameManager::start();
    g.score = 70;
    g.rounds = 2;
    g.on_press(InputAction::Restart);
    assert_eq!(g.score, 70);
    assert_eq!(g.rounds, 2);
    // lose, then restart resets everything
    g.player.health.value = -1;
    g.update_with(16, no_draws());
    assert!(g.player_lost);
    g.on_press(InputAction::Restart);
    assert_eq!(g.score, 0);
    assert_eq!(g.rounds, 0);
    assert!(!g.player_lost);
    assert!(g.bullets.is_empty());
    assert_eq!(g.enemies.entities.len(), 50);
    assert_eq!(g.player.health.value, 100);
}

#[test]
fn rng_update_draws_regen_in_the_round_scaled_range() {
    let mut rng = rand::thread_rng();
    let mut g = GameManager::start();
    g.enemies.entities.clear();
    g.update(16, &mut rng);
    assert_eq!(g.rounds, 1);
    // regen drawn uniformly from [5 + 1, 10)
    let gained = g.player.health.value - 100;
    assert!((6..10).contains(&gained));
}

#[test]
fn rng_update_spawned_bullets_have_bounded_damage() {
    let mut rng = rand::thread_rng();
    let mut g = GameManager::start();
    for _ in 0..200 {
        g.update(16, &mut rng);
        if g.player_lost {
            break;
        }
    }
    for b in &g.bullets {
        if matches!(b.owner, Shooter::Enemy) {
            assert!((2..12).contains(&b.damage));
        }
    }
}

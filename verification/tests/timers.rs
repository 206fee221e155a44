use rusty_invaders::intervals::IntervalsManager;
use rusty_invaders::sounds::SoundEffect;

#[test]
fn intervals_fire_strictly_after_their_duration() {
    let mut m = IntervalsManager::new();
    let h = m.set_interval(100, 1_000);
    assert_eq!(h, 0);
    // not yet due
    assert!(m.update(1_050).is_empty());
    // exactly the duration elapsed: still not due (strict comparison)
    assert!(m.update(1_100).is_empty());
    // more than the duration elapsed: fires and re-arms
    assert_eq!(m.update(1_101), vec![0]);
    let iv = m.get_interval(0).unwrap();
    assert_eq!(iv.last_triggered_ms, 1_101);
    // immediately afterwards it is not due again
    assert!(m.update(1_150).is_empty());
}

#[test]
fn interval_handles_are_sequential() {
    let mut m = IntervalsManager::new();
    assert_eq!(m.set_interval(10, 0), 0);
    assert_eq!(m.set_interval(20, 0), 1);
    assert_eq!(m.set_interval(30, 0), 2);
    assert_eq!(m.get_interval(1).unwrap().duration_ms, 20);
    assert!(m.get_interval(3).is_none());
}

#[test]
fn several_due_intervals_fire_in_handle_order() {
    let mut m = IntervalsManager::new();
    m.set_interval(10, 0);
    m.set_interval(500, 0);
    m.set_interval(20, 0);
    assert_eq!(m.update(100), vec![0, 2]);
}

#[test]
fn a_clock_that_jumped_backwards_counts_as_no_elapsed_time() {
    let mut m = IntervalsManager::new();
    m.set_interval(10, 1_000);
    assert!(m.update(500).is_empty());
}

#[test]
fn sound_effect_filenames() {
    assert_eq!(SoundEffect::PlayerExplosion.as_filename(), "player_explosion.wav");
    assert_eq!(SoundEffect::PlayerHit.as_filename(), "hit.wav");
    assert_eq!(SoundEffect::PlayerLaserShoot.as_filename(), "laser_shoot.wav");
    assert_eq!(SoundEffect::EnemyExplosion.as_filename(), "enemy_explosion.wav");
}

use vstd::prelude::*;

verus! {

// Units. All coordinates and sizes are fixed-point milli-pixels: one pixel
// is 1000 units. Velocities are in pixels per second, so that a velocity
// times an elapsed time in milliseconds is again a displacement in
// milli-pixels, exactly. Accelerations are in tenths of a pixel per second
// squared. Time is in milliseconds.

pub const WINDOW_WIDTH: i64 = 650_000;
pub const WINDOW_HEIGHT: i64 = 450_000;

/// Positions are kept inside this symmetric range so that edge sums such as
/// `x + width` never overflow an `i64`.
pub const COORD_MAX: i64 = 2_305_843_009_213_693_952;
pub const COORD_MIN: i64 = -2_305_843_009_213_693_952;

/// Health values are kept inside this range so that the health-bar width,
/// health scaled to milli-pixels, stays inside the coordinate range.
pub const HEALTH_LIMIT: i64 = 1_125_899_906_842_624;

/// Largest tick length the simulation accepts; the driver runs sixty
/// logical updates per second, far below this.
pub const MAX_TICK_MS: u64 = 10_000;

pub const PLAYER_INIT_X: i64 = 325_000;
pub const PLAYER_INIT_Y: i64 = 400_000;
pub const PLAYER_WIDTH: i64 = 30_000;
pub const PLAYER_HEIGHT: i64 = 26_000;
/// Horizontal player speed, pixels per second.
pub const PLAYER_SPEED: i64 = 80;

pub const HEALTH_BAR_X: i64 = 20_000;
pub const HEALTH_BAR_Y: i64 = 20_000;
pub const HEALTH_BAR_WIDTH: i64 = 100_000;
pub const HEALTH_BAR_HEIGHT: i64 = 10_000;
pub const HEALTH_INIT: i64 = 100;
pub const HEALTH_REGEN_MIN: i64 = 5;
pub const HEALTH_REGEN_MAX: i64 = 10;

pub const ENEMY_WIDTH: i64 = 30_000;
pub const ENEMY_HEIGHT: i64 = 22_000;
/// Shared horizontal formation speed, pixels per second.
pub const ENEMY_SPEED: i64 = 30;
pub const ENEMY_SPACING: i64 = 12_000;
pub const ENEMY_MIN_DAMAGE: i64 = 2;
pub const ENEMY_MAX_DAMAGE: i64 = 12;
pub const ENEMY_GRID_COLS: u8 = 10;
pub const ENEMY_GRID_ROWS: u8 = 5;
/// Left edge of the centered formation grid:
/// (WINDOW_WIDTH - ENEMY_GRID_COLS * (ENEMY_WIDTH + ENEMY_SPACING)) / 2.
pub const ENEMY_GRID_X: i64 = 115_000;
pub const ENEMY_GRID_Y: i64 = 10_000;

pub const ENEMY_OCTOPUS_POINTS: u64 = 10;
pub const ENEMY_CRAB_POINTS: u64 = 20;
pub const ENEMY_SQUID_POINTS: u64 = 40;

pub const BULLET_WIDTH: i64 = 5_000;
pub const BULLET_HEIGHT: i64 = 10_000;

/// Player bullet vertical acceleration, tenths of a pixel per second squared.
pub const PLAYER_BULLET_ACCEL_Y: i64 = -98;
/// Player bullet vertical velocity, pixels per second.
pub const PLAYER_BULLET_VEL_Y: i64 = -50;
pub const PLAYER_BULLET_DAMAGE: i64 = 100;
pub const ENEMY_BULLET_ACCEL_Y: i64 = 0;
pub const ENEMY_BULLET_VEL_Y: i64 = 10;

pub const PLAYER_BULLETS_FREQUENCY: u32 = 5;

/// A bullet's age is capped here so that the fixed-point motion products
/// stay in range; culling removes every live bullet within seconds, so the
/// cap is unreachable in play.
pub const BULLET_MAX_AGE_MS: u64 = 3_600_000;

/// Bounds on the motion parameters a bullet may carry, so that the motion
/// arithmetic stays in range at the age cap.
pub const BULLET_ACCEL_LIMIT: i64 = 10_000;
pub const BULLET_SPEED_LIMIT: i64 = 1_000_000;

} // verus!

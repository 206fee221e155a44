use vstd::prelude::*;

use crate::components::{add_clamped, clamped, Direction, Transform, Vec2};
use crate::config::{
    BULLET_ACCEL_LIMIT, BULLET_HEIGHT, BULLET_MAX_AGE_MS, BULLET_SPEED_LIMIT, BULLET_WIDTH,
    COORD_MAX, COORD_MIN, MAX_TICK_MS,
};

verus! {

/// Which side fired a bullet; it governs collision eligibility.
#[derive(Clone, Copy, Debug, PartialEq, Eq, Structural)]
pub enum Shooter {
    Player,
    Enemy,
}

/// A ballistic projectile. Its vertical motion is replayed from the total
/// time elapsed since its spawn, not accumulated per tick.
#[derive(Clone, Copy, Debug, PartialEq, Eq, Structural)]
pub struct Bullet {
    pub transform: Transform,
    pub scale: Vec2,
    pub acceleration: Vec2,
    pub velocity: Vec2,
    pub damage: i64,
    pub owner: Shooter,
    pub elapsed_ms: u64,
}

/// The gravity part of the displacement after `t_ms` milliseconds, for a
/// vertical acceleration of `accel` tenths of a pixel per second squared:
/// accel/10 * t^2/2 * 10^-6 pixels, i.e. accel * t^2 / 20000 milli-pixels,
/// rounded toward zero.
pub open spec fn grav_term(accel: int, t_ms: int) -> int {
    if accel >= 0 {
        accel * t_ms * t_ms / 20000
    } else {
        -((-accel) * t_ms * t_ms / 20000)
    }
}

/// Total vertical displacement after `t_ms` milliseconds for acceleration
/// `accel` (tenths of px/s^2) and velocity `vel` (px/s), in milli-pixels.
pub open spec fn displacement(accel: int, vel: int, t_ms: int) -> int {
    grav_term(accel, t_ms) + vel * t_ms
}

impl Bullet {
    /// Motion parameters in range, a sane rectangle, non-negative damage.
    pub open spec fn wf(self) -> bool {
        &&& self.transform.wf()
        &&& -BULLET_ACCEL_LIMIT <= self.acceleration.y <= BULLET_ACCEL_LIMIT
        &&& -BULLET_SPEED_LIMIT <= self.velocity.y <= BULLET_SPEED_LIMIT
        &&& self.damage >= 0
        &&& self.elapsed_ms <= BULLET_MAX_AGE_MS
    }

    /// A fresh bullet horizontally centered on `x`, at age zero.
    pub fn spawn(
        x: i64,
        y: i64,
        scale: Vec2,
        acceleration: Vec2,
        velocity: Vec2,
        damage: i64,
        owner: Shooter,
    ) -> (b: Bullet)
        requires
            COORD_MIN <= y <= COORD_MAX,
            -BULLET_ACCEL_LIMIT <= acceleration.y <= BULLET_ACCEL_LIMIT,
            -BULLET_SPEED_LIMIT <= velocity.y <= BULLET_SPEED_LIMIT,
            damage >= 0,
        ensures
            b == spawn_spec(x, y, scale, acceleration, velocity, damage, owner),
            b.wf(),
    {
        let half: i64 = (BULLET_WIDTH as u64 / 2) as i64;
        Bullet {
            transform: Transform {
                x: add_clamped(x, -half, COORD_MIN, COORD_MAX),
                y,
                width: BULLET_WIDTH,
                height: BULLET_HEIGHT,
                direction: Direction::Up,
            },
            scale,
            acceleration,
            velocity,
            damage,
            owner,
            elapsed_ms: 0,
        }
    }

    /// Advance the bullet by one tick: age it (capped) and replay the
    /// ballistic displacement for the new total age onto its y position.
    pub fn update(&mut self, dt_ms: u64)
        requires
            old(self).wf(),
            dt_ms <= MAX_TICK_MS,
        ensures
            *final(self) == bullet_step(*old(self), dt_ms),
            final(self).wf(),
    {
        let t: u64 = if self.elapsed_ms + dt_ms > BULLET_MAX_AGE_MS {
            BULLET_MAX_AGE_MS
        } else {
            self.elapsed_ms + dt_ms
        };
        self.elapsed_ms = t;
        assert(t * t <= BULLET_MAX_AGE_MS * BULLET_MAX_AGE_MS) by (nonlinear_arith)
            requires
                t <= BULLET_MAX_AGE_MS,
        ;
        let tt: u64 = t * t;
        let a_abs: u64 = if self.acceleration.y >= 0 {
            self.acceleration.y as u64
        } else {
            (-self.acceleration.y) as u64
        };
        assert(a_abs * tt <= BULLET_ACCEL_LIMIT as u64 * (BULLET_MAX_AGE_MS
            * BULLET_MAX_AGE_MS)) by (nonlinear_arith)
            requires
                a_abs <= BULLET_ACCEL_LIMIT as u64,
                tt <= BULLET_MAX_AGE_MS * BULLET_MAX_AGE_MS,
        ;
        let g_abs: u64 = a_abs * tt / 20000;
        let g: i64 = if self.acceleration.y >= 0 {
            g_abs as i64
        } else {
            -(g_abs as i64)
        };
        proof {
            let a: int = a_abs as int;
            let ti: int = t as int;
            assert(a * (ti * ti) == (a * ti) * ti) by (nonlinear_arith);
            assert(g_abs == a * ti * ti / 20000);
        }
        assert(g == grav_term(self.acceleration.y as int, t as int));
        assert(
            self.velocity.y * t as i64 <= BULLET_SPEED_LIMIT * BULLET_MAX_AGE_MS
            && self.velocity.y * t as i64 >= -BULLET_SPEED_LIMIT * BULLET_MAX_AGE_MS
        ) by (nonlinear_arith)
            requires
                -BULLET_SPEED_LIMIT <= self.velocity.y <= BULLET_SPEED_LIMIT,
                0 <= t <= BULLET_MAX_AGE_MS,
        ;
        let vt: i64 = self.velocity.y * t as i64;
        let disp: i64 = g + vt;
        self.transform.y = add_clamped(self.transform.y, disp, COORD_MIN, COORD_MAX);
    }
}

/// The bullet `Bullet::spawn` builds.
pub open spec fn spawn_spec(
    x: i64,
    y: i64,
    scale: Vec2,
    acceleration: Vec2,
    velocity: Vec2,
    damage: i64,
    owner: Shooter,
) -> Bullet {
    Bullet {
        transform: Transform {
            x: clamped(x - BULLET_WIDTH / 2, COORD_MIN, COORD_MAX),
            y,
            width: BULLET_WIDTH,
            height: BULLET_HEIGHT,
            direction: Direction::Up,
        },
        scale,
        acceleration,
        velocity,
        damage,
        owner,
        elapsed_ms: 0,
    }
}

/// One tick of bullet motion: the age grows by `dt_ms`, capped at
/// `BULLET_MAX_AGE_MS`, and the displacement for the new total age moves
/// the y position, clamped to the coordinate range.
pub open spec fn bullet_step(b: Bullet, dt_ms: u64) -> Bullet {
    let t = if b.elapsed_ms + dt_ms > BULLET_MAX_AGE_MS {
        BULLET_MAX_AGE_MS as int
    } else {
        b.elapsed_ms + dt_ms
    };
    Bullet {
        elapsed_ms: t as u64,
        transform: Transform {
            y: pos_clamped_y(b.transform.y, displacement(b.acceleration.y as int, b.velocity.y as int, t)),
            ..b.transform
        },
        ..b
    }
}

/// The clamped new y position after adding a displacement.
pub open spec fn pos_clamped_y(y: i64, disp: int) -> i64 {
    clamped(y + disp, COORD_MIN, COORD_MAX)
}

} // verus!

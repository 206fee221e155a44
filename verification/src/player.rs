use vstd::prelude::*;

use crate::components::{add_clamped, clamped, Direction, Transform, Vec2};
use crate::config::{
    COORD_MAX, COORD_MIN, HEALTH_BAR_HEIGHT, HEALTH_BAR_X, HEALTH_BAR_Y, HEALTH_INIT,
    HEALTH_LIMIT, MAX_TICK_MS, PLAYER_HEIGHT, PLAYER_INIT_X, PLAYER_INIT_Y, PLAYER_SPEED,
    PLAYER_WIDTH, WINDOW_WIDTH,
};

verus! {

/// The player's health value and the dedicated health-bar rectangle whose
/// width tracks the value. Health is not clamped at zero: "alive" simply
/// means a positive value.
#[derive(Clone, Copy, Debug, PartialEq, Eq, Structural)]
pub struct Health {
    pub value: i64,
    pub transform: Transform,
}

/// The player ship: direction-gated horizontal motion with screen wrap, and
/// a health value.
#[derive(Clone, Copy, Debug, PartialEq, Eq, Structural)]
pub struct Player {
    pub transform: Transform,
    pub scale: Vec2,
    pub velocity: Vec2,
    pub health: Health,
}

/// A well-formed player: fixed size and row, x inside the wrap band, the
/// fixed horizontal speed, and a health value inside the range that keeps
/// the bar width inside the coordinate range.
pub open spec fn player_wf(p: Player) -> bool {
    &&& p.transform.width == PLAYER_WIDTH
    &&& p.transform.height == PLAYER_HEIGHT
    &&& p.transform.y == PLAYER_INIT_Y
    &&& -(PLAYER_WIDTH / 2) <= p.transform.x <= WINDOW_WIDTH
    &&& p.velocity == (Vec2 { x: PLAYER_SPEED, y: 0 })
    &&& -HEALTH_LIMIT <= p.health.value <= HEALTH_LIMIT
    &&& p.health.transform.x == HEALTH_BAR_X
    &&& p.health.transform.y == HEALTH_BAR_Y
    &&& p.health.transform.height == HEALTH_BAR_HEIGHT
    &&& COORD_MIN <= p.health.transform.width <= COORD_MAX
}

/// The freshly spawned player: centered start column, full health, bar at
/// its fixed corner.
pub open spec fn initial_player() -> Player {
    Player {
        transform: Transform {
            x: PLAYER_INIT_X,
            y: PLAYER_INIT_Y,
            width: PLAYER_WIDTH,
            height: PLAYER_HEIGHT,
            direction: Direction::Up,
        },
        scale: Vec2 { x: 1, y: 1 },
        velocity: Vec2 { x: PLAYER_SPEED, y: 0 },
        health: Health {
            value: HEALTH_INIT,
            transform: Transform {
                x: HEALTH_BAR_X,
                y: HEALTH_BAR_Y,
                width: (HEALTH_INIT * 1000) as i64,
                height: HEALTH_BAR_HEIGHT,
                direction: Direction::Up,
            },
        },
    }
}

/// One tick of player motion: move by the latched direction, wrap when the
/// center crosses the left edge or the left edge crosses the right edge,
/// and sync the health-bar width to the health value.
pub open spec fn player_step(p: Player, dt_ms: u64) -> Player {
    let x1 = match p.transform.direction {
        Direction::Right => p.transform.x + p.velocity.x * dt_ms,
        Direction::Left => p.transform.x - p.velocity.x * dt_ms,
        _ => p.transform.x as int,
    };
    let x2 = if x1 + PLAYER_WIDTH / 2 < 0 {
        WINDOW_WIDTH - PLAYER_WIDTH / 2
    } else if x1 > WINDOW_WIDTH {
        PLAYER_WIDTH / 2
    } else {
        x1
    };
    Player {
        transform: Transform { x: x2 as i64, ..p.transform },
        health: Health {
            transform: Transform {
                width: (p.health.value * 1000) as i64,
                ..p.health.transform
            },
            ..p.health
        },
        ..p
    }
}

/// The player with `amount` added to health, clamped to the health range.
pub open spec fn healed(p: Player, amount: i64) -> Player {
    Player {
        health: Health {
            value: clamped(p.health.value + amount, (-HEALTH_LIMIT) as i64, HEALTH_LIMIT),
            ..p.health
        },
        ..p
    }
}

/// The player with `amount` subtracted from health, clamped to the health
/// range.
pub open spec fn damaged(p: Player, amount: i64) -> Player {
    Player {
        health: Health {
            value: clamped(p.health.value - amount, (-HEALTH_LIMIT) as i64, HEALTH_LIMIT),
            ..p.health
        },
        ..p
    }
}

impl Player {
    pub fn new() -> (p: Player)
        ensures
            p == initial_player(),
            player_wf(p),
    {
        Player {
            transform: Transform {
                x: PLAYER_INIT_X,
                y: PLAYER_INIT_Y,
                width: PLAYER_WIDTH,
                height: PLAYER_HEIGHT,
                direction: Direction::Up,
            },
            scale: Vec2 { x: 1, y: 1 },
            velocity: Vec2 { x: PLAYER_SPEED, y: 0 },
            health: Health {
                value: HEALTH_INIT,
                transform: Transform {
                    x: HEALTH_BAR_X,
                    y: HEALTH_BAR_Y,
                    width: HEALTH_INIT * 1000,
                    height: HEALTH_BAR_HEIGHT,
                    direction: Direction::Up,
                },
            },
        }
    }

    /// Alive means strictly positive health.
    pub fn is_alive(&self) -> (r: bool)
        ensures
            r == (self.health.value > 0),
    {
        self.health.value > 0
    }

    /// One tick of motion and health-bar sync; see `player_step`.
    pub fn update(&mut self, dt_ms: u64)
        requires
            player_wf(*old(self)),
            dt_ms <= MAX_TICK_MS,
        ensures
            *final(self) == player_step(*old(self), dt_ms),
            player_wf(*final(self)),
    {
        proof {
            assert(PLAYER_SPEED == 80 && MAX_TICK_MS == 10_000);
            assert(0 <= (self.velocity.x as int) * (dt_ms as int) <= 800_000) by (nonlinear_arith)
                requires
                    0 <= self.velocity.x <= 80,
                    0 <= dt_ms <= 10_000,
            ;
        }
        let step: i64 = self.velocity.x * dt_ms as i64;
        match self.transform.direction {
            Direction::Right => {
                self.transform.x = self.transform.x + step;
            },
            Direction::Left => {
                self.transform.x = self.transform.x - step;
            },
            _ => {},
        }
        let half: i64 = (PLAYER_WIDTH as u64 / 2) as i64;
        if self.transform.center_x() < 0 {
            self.transform.x = WINDOW_WIDTH - half;
        } else if self.transform.x() > WINDOW_WIDTH {
            self.transform.x = half;
        }
        self.health.transform.width = self.health.value * 1000;
    }

    /// Add a (round-scaled) regeneration amount to health; see `healed`.
    pub fn heal(&mut self, amount: i64)
        requires
            -HEALTH_LIMIT <= old(self).health.value <= HEALTH_LIMIT,
        ensures
            *final(self) == healed(*old(self), amount),
    {
        self.health.value = add_clamped(self.health.value, amount, -HEALTH_LIMIT, HEALTH_LIMIT);
    }

    /// Subtract a bullet's damage from health; see `damaged`.
    pub fn damage_by(&mut self, amount: i64)
        requires
            -HEALTH_LIMIT <= old(self).health.value <= HEALTH_LIMIT,
            amount >= 0,
        ensures
            *final(self) == damaged(*old(self), amount),
    {
        let neg: i64 = -amount;
        self.health.value = add_clamped(self.health.value, neg, -HEALTH_LIMIT, HEALTH_LIMIT);
    }
}

} // verus!

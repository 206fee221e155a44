use vstd::prelude::*;

use crate::components::{add_clamped, clamped, exceeds_spec, Direction, Transform, Vec2};
use crate::config::{
    COORD_MAX, COORD_MIN, ENEMY_CRAB_POINTS, ENEMY_GRID_X, ENEMY_GRID_Y, ENEMY_HEIGHT,
    ENEMY_OCTOPUS_POINTS, ENEMY_SPACING, ENEMY_SPEED, ENEMY_SQUID_POINTS, ENEMY_WIDTH,
    MAX_TICK_MS, WINDOW_HEIGHT, WINDOW_WIDTH,
};
use vstd::arithmetic::div_mod::lemma_fundamental_div_mod_converse;

verus! {

/// The three enemy tiers; each has a fixed point value.
#[derive(Clone, Copy, Debug, PartialEq, Eq, Structural)]
pub enum EnemyVariation {
    Crab,
    Squid,
    Octopus,
}

/// The score a destroyed enemy of the given tier is worth.
pub open spec fn points_of(v: EnemyVariation) -> u64 {
    match v {
        EnemyVariation::Crab => ENEMY_CRAB_POINTS,
        EnemyVariation::Squid => ENEMY_SQUID_POINTS,
        EnemyVariation::Octopus => ENEMY_OCTOPUS_POINTS,
    }
}

/// The score a destroyed enemy of the given tier is worth.
pub fn points(v: EnemyVariation) -> (r: u64)
    ensures
        r == points_of(v),
{
    match v {
        EnemyVariation::Crab => ENEMY_CRAB_POINTS,
        EnemyVariation::Squid => ENEMY_SQUID_POINTS,
        EnemyVariation::Octopus => ENEMY_OCTOPUS_POINTS,
    }
}

/// One formation member. Enemies never move on their own: all motion is
/// formation-driven through the shared velocity.
#[derive(Clone, Copy, Debug, PartialEq, Eq, Structural)]
pub struct Enemy {
    pub transform: Transform,
    pub scale: Vec2,
    pub variation: EnemyVariation,
}

impl Enemy {
    pub open spec fn wf(self) -> bool {
        &&& self.transform.wf()
        &&& self.transform.width == ENEMY_WIDTH
        &&& self.transform.height == ENEMY_HEIGHT
    }

    pub fn new(x: i64, y: i64, scale: Vec2, variation: EnemyVariation) -> (e: Enemy)
        requires
            COORD_MIN <= x <= COORD_MAX,
            COORD_MIN <= y <= COORD_MAX,
        ensures
            e == (Enemy {
                transform: Transform {
                    x,
                    y,
                    width: ENEMY_WIDTH,
                    height: ENEMY_HEIGHT,
                    direction: Direction::Up,
                },
                scale,
                variation,
            }),
            e.wf(),
    {
        Enemy {
            transform: Transform {
                x,
                y,
                width: ENEMY_WIDTH,
                height: ENEMY_HEIGHT,
                direction: Direction::Up,
            },
            scale,
            variation,
        }
    }
}

/// Shared formation state: the one velocity every enemy follows, and the
/// bounding zone the formation must stay within.
#[derive(Clone, Copy, Debug, PartialEq, Eq, Structural)]
pub struct Egs {
    pub velocity: Vec2,
    pub zone: Transform,
}

/// The enemy formation: a grid of enemies driven by one shared velocity
/// inside a fixed zone, with a flag set once the formation reaches the
/// player's row.
#[derive(Clone, Debug)]
pub struct EnemyManager {
    pub cols: u8,
    pub rows: u8,
    pub entities: Vec<Enemy>,
    pub reached_player: bool,
    pub state: Egs,
}

/// Mathematical model of a formation.
#[verifier::ext_equal]
pub struct FormationView {
    pub cols: u8,
    pub rows: u8,
    pub enemies: Seq<Enemy>,
    pub reached_player: bool,
    pub velocity: Vec2,
    pub zone: Transform,
}

impl View for EnemyManager {
    type V = FormationView;

    open spec fn view(&self) -> FormationView {
        FormationView {
            cols: self.cols,
            rows: self.rows,
            enemies: self.entities@,
            reached_player: self.reached_player,
            velocity: self.state.velocity,
            zone: self.state.zone,
        }
    }
}

/// The fixed zone the formation must stay within.
pub open spec fn play_zone() -> Transform {
    Transform {
        x: 50_000,
        y: 0,
        width: (WINDOW_WIDTH - 100_000) as i64,
        height: (WINDOW_HEIGHT - 50_000) as i64,
        direction: Direction::Up,
    }
}

/// A well-formed formation: the fixed zone, a purely horizontal shared
/// velocity at formation speed (either direction) or zero, and enemies that
/// all sit strictly below the zone's top edge.
pub open spec fn formation_wf(f: FormationView) -> bool {
    &&& f.zone == play_zone()
    &&& f.velocity.y == 0
    &&& (f.velocity.x == ENEMY_SPEED || f.velocity.x == -ENEMY_SPEED || f.velocity.x == 0)
    &&& forall|k: int|
        0 <= k < f.enemies.len() ==> (#[trigger] f.enemies[k]).wf()
            && f.enemies[k].transform.y > f.zone.y
}

/// The tier an enemy in the given one-based grid row belongs to.
pub open spec fn grid_variation(row: int) -> EnemyVariation {
    if row <= 1 {
        EnemyVariation::Squid
    } else if row <= 3 {
        EnemyVariation::Crab
    } else {
        EnemyVariation::Octopus
    }
}

/// The enemy at flat grid index `k` (row-major, zero-based) of a grid with
/// `cols` columns: fixed per-cell spacing, offset so the grid is centered
/// horizontally and anchored near the top.
pub open spec fn grid_enemy(cols: int, k: int) -> Enemy {
    let row = k / cols + 1;
    let col = k % cols + 1;
    Enemy {
        transform: Transform {
            x: (col * (ENEMY_WIDTH + ENEMY_SPACING) - ENEMY_SPACING + ENEMY_GRID_X) as i64,
            y: (row * (ENEMY_HEIGHT + ENEMY_SPACING) - ENEMY_SPACING + ENEMY_GRID_Y) as i64,
            width: ENEMY_WIDTH,
            height: ENEMY_HEIGHT,
            direction: Direction::Up,
        },
        scale: Vec2 { x: 1, y: 1 },
        variation: grid_variation(row),
    }
}

/// The full `cols x rows` grid, laid out left-to-right, top-to-bottom.
pub open spec fn grid_enemies(cols: u8, rows: u8) -> Seq<Enemy> {
    Seq::new((cols as nat) * (rows as nat), |k: int| grid_enemy(cols as int, k))
}

/// A freshly generated formation.
pub open spec fn formation_new_spec(cols: u8, rows: u8) -> FormationView {
    FormationView {
        cols,
        rows,
        enemies: grid_enemies(cols, rows),
        reached_player: false,
        velocity: Vec2 { x: ENEMY_SPEED, y: 0 },
        zone: play_zone(),
    }
}

proof fn lemma_grid_enemy_wf(cols: int, total: int, k: int)
    requires
        1 <= cols <= 255,
        0 <= k < total,
        total <= 65025,
    ensures
        grid_enemy(cols, k).wf(),
        grid_enemy(cols, k).transform.y > 0,
{
    assert(0 <= k / cols && k / cols <= k && 0 <= k % cols < cols) by (nonlinear_arith)
        requires
            cols >= 1,
            0 <= k,
    ;
    let row = k / cols + 1;
    let col = k % cols + 1;
    assert(1 <= row <= 65025);
    assert(1 <= col <= 255);
    assert(42_000 <= col * 42_000 <= 10_710_000) by (nonlinear_arith)
        requires
            1 <= col <= 255,
    ;
    assert(34_000 <= row * 34_000 <= 2_210_850_000) by (nonlinear_arith)
        requires
            1 <= row <= 65025,
    ;
    assert(ENEMY_WIDTH + ENEMY_SPACING == 42_000);
    assert(ENEMY_HEIGHT + ENEMY_SPACING == 34_000);
}

/// One enemy after the shared motion of a tick: the shared horizontal
/// velocity displaces it, and on a bounce tick it also descends by one
/// enemy height.
pub open spec fn enemy_moved(e: Enemy, vel: Vec2, dt_ms: u64, bounced: bool) -> Enemy {
    Enemy {
        transform: Transform {
            x: clamped(e.transform.x + vel.x * dt_ms, COORD_MIN, COORD_MAX),
            y: if bounced {
                clamped(e.transform.y + ENEMY_HEIGHT, COORD_MIN, COORD_MAX)
            } else {
                e.transform.y
            },
            ..e.transform
        },
        ..e
    }
}

/// How one enemy's breach report updates the shared state. The order is the
/// fixed Up, Down, Left, Right of `exceeds_spec`; a top-edge breach cannot
/// occur for a well-formed formation and leaves the state unchanged here.
pub open spec fn scan_step(e: Enemy, zone: Transform, vel: Vec2, reached: bool, bounced: bool) -> (
    Vec2,
    bool,
    bool,
) {
    match exceeds_spec(e.transform, zone) {
        Option::None => (vel, reached, bounced),
        Option::Some(Direction::Up) => (vel, reached, bounced),
        Option::Some(Direction::Down) => (Vec2 { x: 0, y: 0 }, true, bounced),
        Option::Some(Direction::Right) => (Vec2 { x: (-ENEMY_SPEED) as i64, y: vel.y }, reached, true),
        Option::Some(Direction::Left) => (Vec2 { x: ENEMY_SPEED, y: vel.y }, reached, true),
    }
}

/// The shared state after scanning enemies `i..` in order: the final shared
/// velocity, the reached-player flag, and whether this tick is a bounce
/// tick.
pub open spec fn scan_rec(
    enemies: Seq<Enemy>,
    zone: Transform,
    i: int,
    vel: Vec2,
    reached: bool,
    bounced: bool,
) -> (Vec2, bool, bool)
    decreases enemies.len() - i,
{
    if i < 0 || i >= enemies.len() {
        (vel, reached, bounced)
    } else {
        let s = scan_step(enemies[i], zone, vel, reached, bounced);
        scan_rec(enemies, zone, i + 1, s.0, s.1, s.2)
    }
}

/// One tick of the formation state machine: scan every enemy for a breach,
/// then move every enemy by the resulting shared velocity, descending by
/// one enemy height if the tick bounced.
pub open spec fn formation_step(f: FormationView, dt_ms: u64) -> FormationView {
    let s = scan_rec(f.enemies, f.zone, 0, f.velocity, f.reached_player, false);
    FormationView {
        enemies: Seq::new(f.enemies.len(), |k: int| enemy_moved(f.enemies[k], s.0, dt_ms, s.2)),
        velocity: s.0,
        reached_player: s.1,
        ..f
    }
}

impl EnemyManager {
    /// Generate a fresh `cols x rows` wave: a centered grid, shared velocity
    /// at formation speed to the right, flag cleared.
    pub fn new(cols: u8, rows: u8) -> (m: EnemyManager)
        ensures
            m@ =~= formation_new_spec(cols, rows),
            formation_wf(m@),
    {
        EnemyManager {
            cols,
            rows,
            entities: EnemyManager::get_entities(cols, rows),
            state: Egs {
                zone: Transform {
                    x: 50_000,
                    y: 0,
                    width: WINDOW_WIDTH - 100_000,
                    height: WINDOW_HEIGHT - 50_000,
                    direction: Direction::Up,
                },
                velocity: Vec2 { x: ENEMY_SPEED, y: 0 },
            },
            reached_player: false,
        }
    }

    /// Lay the grid out left-to-right, top-to-bottom, assigning tiers by
    /// row: row 1 squids, rows 2-3 crabs, rows 4 and beyond octopuses.
    pub fn get_entities(c: u8, r: u8) -> (enemies: Vec<Enemy>)
        ensures
            enemies@ =~= grid_enemies(c, r),
            forall|k: int|
                0 <= k < enemies@.len() ==> (#[trigger] enemies@[k]).wf()
                    && enemies@[k].transform.y > 0,
    {
        proof {
            assert(c as int * r as int <= 65025) by (nonlinear_arith)
                requires
                    c <= 255,
                    r <= 255,
            ;
        }
        let total: usize = (c as usize) * (r as usize);
        let mut enemies: Vec<Enemy> = Vec::new();
        let mut curr_row: usize = 1;
        let mut curr_col: usize = 1;
        let mut kind = EnemyVariation::Squid;
        let mut i: usize = 0;
        while i < total
            invariant
                total == c as int * r as int,
                total <= 65025,
                enemies@.len() == i,
                0 <= i <= total,
                1 <= curr_row,
                curr_row <= i + 1,
                c as int > 0 ==> 1 <= curr_col <= c as int,
                c as int == 0 ==> total == 0,
                i == (curr_row - 1) * (c as int) + (curr_col - 1),
                curr_row == 1 ==> kind == EnemyVariation::Squid,
                forall|k: int| 0 <= k < i ==> enemies@[k] == grid_enemy(c as int, k),
            decreases total - i,
        {
            if curr_row > 1 {
                kind = EnemyVariation::Crab;
            }
            if curr_row > 3 {
                kind = EnemyVariation::Octopus;
            }
            assert(kind == grid_variation(curr_row as int));
            proof {
                let cc = curr_col as int;
                let cr = curr_row as int;
                assert(42_000 <= cc * 42_000 <= 10_710_000) by (nonlinear_arith)
                    requires
                        1 <= cc <= 255,
                ;
                assert(34_000 <= cr * 34_000 <= 2_210_850_000) by (nonlinear_arith)
                    requires
                        1 <= cr <= 65025,
                ;
                assert(ENEMY_WIDTH + ENEMY_SPACING == 42_000);
                assert(ENEMY_HEIGHT + ENEMY_SPACING == 34_000);
            }
            let ex: i64 = (curr_col as i64) * (ENEMY_WIDTH + ENEMY_SPACING) - ENEMY_SPACING
                + ENEMY_GRID_X;
            let ey: i64 = (curr_row as i64) * (ENEMY_HEIGHT + ENEMY_SPACING) - ENEMY_SPACING
                + ENEMY_GRID_Y;
            let e = Enemy::new(ex, ey, Vec2 { x: 1, y: 1 }, kind);
            enemies.push(e);
            proof {
                lemma_fundamental_div_mod_converse(
                    i as int,
                    c as int,
                    curr_row as int - 1,
                    curr_col as int - 1,
                );
                assert(e == grid_enemy(c as int, i as int));
            }
            i = i + 1;
            if curr_col == c as usize {
                proof {
                    assert((curr_row as int) * (c as int) == (curr_row as int - 1) * (c as int) + (
                    c as int)) by (nonlinear_arith);
                }
                curr_row = curr_row + 1;
                curr_col = 0;
            }
            curr_col = curr_col + 1;
        }
        proof {
            assert forall|k: int| 0 <= k < enemies@.len() implies (#[trigger] enemies@[k]).wf()
                && enemies@[k].transform.y > 0 by {
                lemma_grid_enemy_wf(c as int, total as int, k);
            }
        }
        enemies
    }

    /// One tick of the marching-grid state machine; see `formation_step`.
    pub fn update(&mut self, dt_ms: u64)
        requires
            formation_wf(old(self)@),
            dt_ms <= MAX_TICK_MS,
        ensures
            final(self)@ =~= formation_step(old(self)@, dt_ms),
            formation_wf(final(self)@),
    {
        let ghost f0 = self@;
        let zone = self.state.zone;
        let mut bounced = false;
        let n = self.entities.len();
        let mut i: usize = 0;
        while i < n
            invariant
                formation_wf(f0),
                n == self.entities.len(),
                self.entities@ == f0.enemies,
                self.cols == f0.cols,
                self.rows == f0.rows,
                zone == f0.zone,
                self.state.zone == f0.zone,
                0 <= i <= n,
                self.state.velocity.y == 0,
                self.state.velocity.x == ENEMY_SPEED || self.state.velocity.x == -ENEMY_SPEED
                    || self.state.velocity.x == 0,
                scan_rec(
                    f0.enemies,
                    f0.zone,
                    i as int,
                    self.state.velocity,
                    self.reached_player,
                    bounced,
                ) == scan_rec(f0.enemies, f0.zone, 0, f0.velocity, f0.reached_player, false),
            decreases n - i,
        {
            let e = self.entities[i];
            let (is_out, side) = e.transform.exceeds(&zone);
            if is_out {
                match side {
                    Option::None => {},
                    Option::Some(Direction::Up) => {
                        // Excluded by well-formedness: every enemy sits
                        // strictly below the zone's top edge.
                        proof {
                            assert(false);
                        }
                    },
                    Option::Some(Direction::Down) => {
                        self.reached_player = true;
                        self.state.velocity = Vec2 { x: 0, y: 0 };
                    },
                    Option::Some(Direction::Right) => {
                        self.state.velocity.x = -ENEMY_SPEED;
                        bounced = true;
                    },
                    Option::Some(Direction::Left) => {
                        self.state.velocity.x = ENEMY_SPEED;
                        bounced = true;
                    },
                }
            }
            i = i + 1;
        }
        let ghost s = scan_rec(f0.enemies, f0.zone, 0, f0.velocity, f0.reached_player, false);
        proof {
            assert(self.state.velocity == s.0 && self.reached_player == s.1 && bounced == s.2);
        }
        let vx = self.state.velocity.x;
        let mut j: usize = 0;
        while j < n
            invariant
                n == self.entities@.len(),
                n == f0.enemies.len(),
                0 <= j <= n,
                dt_ms <= MAX_TICK_MS,
                vx == s.0.x,
                bounced == s.2,
                vx == ENEMY_SPEED || vx == -ENEMY_SPEED || vx == 0,
                s.0.y == 0,
                formation_wf(f0),
                self.state.velocity == s.0,
                self.reached_player == s.1,
                self.state.zone == f0.zone,
                self.cols == f0.cols,
                self.rows == f0.rows,
                forall|k: int|
                    0 <= k < j ==> self.entities@[k] == enemy_moved(
                        f0.enemies[k],
                        s.0,
                        dt_ms,
                        s.2,
                    ),
                forall|k: int| j <= k < n ==> self.entities@[k] == f0.enemies[k],
            decreases n - j,
        {
            let mut e = self.entities[j];
            proof {
                assert(ENEMY_SPEED == 30 && MAX_TICK_MS == 10_000);
                assert(-300_000 <= (vx as int) * (dt_ms as int) <= 300_000) by (nonlinear_arith)
                    requires
                        -30 <= vx <= 30,
                        0 <= dt_ms <= 10_000,
                ;
            }
            let delta: i64 = vx * dt_ms as i64;
            e.transform.x = add_clamped(e.transform.x, delta, COORD_MIN, COORD_MAX);
            if bounced {
                e.transform.y = add_clamped(e.transform.y, ENEMY_HEIGHT, COORD_MIN, COORD_MAX);
            }
            self.entities.set(j, e);
            j = j + 1;
        }
        proof {
            let fs = formation_step(f0, dt_ms);
            assert(self@.enemies =~= fs.enemies);
            assert(self@ =~= fs);
            assert forall|k: int|
                0 <= k < self@.enemies.len() implies (#[trigger] self@.enemies[k]).wf()
                && self@.enemies[k].transform.y > self@.zone.y by {
                assert(self@.enemies[k] == enemy_moved(f0.enemies[k], s.0, dt_ms, s.2));
                assert(f0.enemies[k].wf() && f0.enemies[k].transform.y > f0.zone.y);
            }
        }
    }

    /// Remove and return the enemy at `index`.
    pub fn remove(&mut self, index: usize) -> (e: Enemy)
        requires
            index < old(self)@.enemies.len(),
        ensures
            e == old(self)@.enemies[index as int],
            final(self)@ =~= (FormationView {
                enemies: old(self)@.enemies.remove(index as int),
                ..old(self)@
            }),
            formation_wf(old(self)@) ==> formation_wf(final(self)@),
    {
        self.entities.remove(index)
    }
}

/// Law: a generated `cols x rows` wave holds exactly `cols * rows`
/// enemies, and the enemy at flat index `k` carries the tier of its
/// one-based row `k / cols + 1`.
pub proof fn lemma_grid_layout(cols: u8, rows: u8, k: int)
    requires
        cols > 0,
        0 <= k < cols as int * rows as int,
    ensures
        grid_enemies(cols, rows).len() == cols as int * rows as int,
        grid_enemies(cols, rows)[k].variation == grid_variation(k / (cols as int) + 1),
{
}

/// Law: when some enemy breaches the zone's right edge and no enemy
/// breaches the bottom or left edge, the tick is a bounce tick: the shared
/// velocity's x component flips to formation speed leftward (its sign flips
/// under normal play, where the formation was marching right), and every
/// enemy descends by exactly one enemy height.
pub proof fn lemma_right_breach_bounce(f: FormationView, dt_ms: u64)
    requires
        formation_wf(f),
        exists|k: int|
            0 <= k < f.enemies.len() && #[trigger] exceeds_spec(f.enemies[k].transform, f.zone)
                == Some(Direction::Right),
        forall|k: int|
            0 <= k < f.enemies.len() ==> #[trigger] exceeds_spec(f.enemies[k].transform, f.zone)
                != Some(Direction::Down) && exceeds_spec(f.enemies[k].transform, f.zone) != Some(
                Direction::Left,
            ),
    ensures
        formation_step(f, dt_ms).velocity == (Vec2 { x: (-ENEMY_SPEED) as i64, y: 0 }),
        formation_step(f, dt_ms).reached_player == f.reached_player,
        forall|k: int|
            0 <= k < f.enemies.len() ==> (#[trigger] formation_step(
                f,
                dt_ms,
            ).enemies[k]).transform.y == clamped(
                f.enemies[k].transform.y + ENEMY_HEIGHT,
                COORD_MIN,
                COORD_MAX,
            ),
        forall|k: int|
            0 <= k < f.enemies.len() && f.enemies[k].transform.y + ENEMY_HEIGHT <= COORD_MAX
                ==> (#[trigger] formation_step(f, dt_ms).enemies[k]).transform.y
                == f.enemies[k].transform.y + ENEMY_HEIGHT,
{
    lemma_scan_no_down_left(f.enemies, f.zone, 0, f.velocity, f.reached_player, false);
}

/// Law: when some enemy breaches the zone's bottom edge and no enemy
/// breaches the left or right edge, the formation reaches the player: the
/// flag is set and the shared velocity becomes zero.
pub proof fn lemma_bottom_breach_stops(f: FormationView, dt_ms: u64)
    requires
        formation_wf(f),
        exists|k: int|
            0 <= k < f.enemies.len() && #[trigger] exceeds_spec(f.enemies[k].transform, f.zone)
                == Some(Direction::Down),
        forall|k: int|
            0 <= k < f.enemies.len() ==> #[trigger] exceeds_spec(f.enemies[k].transform, f.zone)
                != Some(Direction::Right) && exceeds_spec(f.enemies[k].transform, f.zone) != Some(
                Direction::Left,
            ),
    ensures
        formation_step(f, dt_ms).reached_player,
        formation_step(f, dt_ms).velocity == (Vec2 { x: 0, y: 0 }),
{
    lemma_scan_no_right_left(f.enemies, f.zone, 0, f.velocity, f.reached_player, false);
}

/// Scanning a suffix in which no enemy reports Down or Left (Up excluded by
/// well-formedness) keeps the reached flag and the vertical velocity, and
/// ends with the velocity pointing left at formation speed and the bounce
/// flag set iff some enemy in the suffix reports Right (or they held
/// already).
proof fn lemma_scan_no_down_left(
    enemies: Seq<Enemy>,
    zone: Transform,
    i: int,
    vel: Vec2,
    reached: bool,
    bounced: bool,
)
    requires
        0 <= i <= enemies.len(),
        forall|k: int|
            i <= k < enemies.len() ==> #[trigger] exceeds_spec(enemies[k].transform, zone) != Some(
                Direction::Down,
            ) && exceeds_spec(enemies[k].transform, zone) != Some(Direction::Left),
    ensures
        scan_rec(enemies, zone, i, vel, reached, bounced).1 == reached,
        scan_rec(enemies, zone, i, vel, reached, bounced).0.y == vel.y,
        (exists|k: int|
            i <= k < enemies.len() && #[trigger] exceeds_spec(enemies[k].transform, zone) == Some(
                Direction::Right,
            )) ==> scan_rec(enemies, zone, i, vel, reached, bounced).0.x == -ENEMY_SPEED
            && scan_rec(enemies, zone, i, vel, reached, bounced).2,
        !(exists|k: int|
            i <= k < enemies.len() && #[trigger] exceeds_spec(enemies[k].transform, zone) == Some(
                Direction::Right,
            )) ==> scan_rec(enemies, zone, i, vel, reached, bounced) == (vel, reached, bounced),
    decreases enemies.len() - i,
{
    if i < enemies.len() {
        let s = scan_step(enemies[i], zone, vel, reached, bounced);
        lemma_scan_no_down_left(enemies, zone, i + 1, s.0, s.1, s.2);
    }
}

/// Scanning a suffix in which no enemy reports Right or Left keeps the
/// bounce flag, and ends stopped with the reached flag set iff some enemy
/// in the suffix reports Down (or the state held already).
proof fn lemma_scan_no_right_left(
    enemies: Seq<Enemy>,
    zone: Transform,
    i: int,
    vel: Vec2,
    reached: bool,
    bounced: bool,
)
    requires
        0 <= i <= enemies.len(),
        forall|k: int|
            i <= k < enemies.len() ==> #[trigger] exceeds_spec(enemies[k].transform, zone) != Some(
                Direction::Right,
            ) && exceeds_spec(enemies[k].transform, zone) != Some(Direction::Left),
    ensures
        scan_rec(enemies, zone, i, vel, reached, bounced).2 == bounced,
        (exists|k: int|
            i <= k < enemies.len() && #[trigger] exceeds_spec(enemies[k].transform, zone) == Some(
                Direction::Down,
            )) ==> scan_rec(enemies, zone, i, vel, reached, bounced).0 == (Vec2 { x: 0, y: 0 })
            && scan_rec(enemies, zone, i, vel, reached, bounced).1,
        !(exists|k: int|
            i <= k < enemies.len() && #[trigger] exceeds_spec(enemies[k].transform, zone) == Some(
                Direction::Down,
            )) ==> scan_rec(enemies, zone, i, vel, reached, bounced) == (vel, reached, bounced),
    decreases enemies.len() - i,
{
    if i < enemies.len() {
        let s = scan_step(enemies[i], zone, vel, reached, bounced);
        lemma_scan_no_right_left(enemies, zone, i + 1, s.0, s.1, s.2);
    }
}

} // verus!

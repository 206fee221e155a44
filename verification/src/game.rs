use vstd::prelude::*;

use crate::bullet::{bullet_step, spawn_spec, Bullet, Shooter};
use crate::components::{
    collides_spec, sat_add_u32, sat_add_u64, sat_u32, sat_u64, Direction, Transform, Vec2,
};
use crate::config::{
    ENEMY_BULLET_ACCEL_Y, ENEMY_BULLET_VEL_Y, ENEMY_GRID_COLS, ENEMY_GRID_ROWS,
    ENEMY_MAX_DAMAGE, ENEMY_MIN_DAMAGE, HEALTH_REGEN_MAX, HEALTH_REGEN_MIN, MAX_TICK_MS,
    PLAYER_BULLETS_FREQUENCY, PLAYER_BULLET_ACCEL_Y, PLAYER_BULLET_DAMAGE, PLAYER_BULLET_VEL_Y,
    PLAYER_WIDTH, WINDOW_HEIGHT,
};
use crate::enemy::{
    formation_new_spec, formation_step, formation_wf, points, points_of, Enemy, EnemyManager,
    FormationView,
};
use crate::player::{damaged, healed, initial_player, player_step, player_wf, Player};
use crate::rng::{rand_range_i64, rand_ratio};

verus! {

/// The random draws one tick consumes: whether an enemy fires, which enemy
/// fires (reduced modulo the live count), the new bullet's damage, and the
/// round-completion health regeneration.
#[derive(Clone, Copy, Debug, PartialEq, Eq, Structural)]
pub struct TickDraws {
    pub fire: bool,
    pub pick: usize,
    pub damage: i64,
    pub regen: i64,
}

/// The effect signals one tick produces, for an audio collaborator: how
/// many enemies were destroyed, whether the player was hit, and whether the
/// hit destroyed the player.
#[derive(Clone, Copy, Debug, PartialEq, Eq, Structural)]
pub struct TickEffects {
    pub enemies_destroyed: u64,
    pub player_hit: bool,
    pub player_destroyed: bool,
}

/// An orchestrator-level input action; the driver maps raw input events to
/// these.
#[derive(Clone, Copy, Debug, PartialEq, Eq, Structural)]
pub enum InputAction {
    MoveRight,
    MoveLeft,
    Fire,
    Restart,
}

/// The simulation orchestrator: it exclusively owns the player, the
/// projectile collection and the enemy formation, and advances them once
/// per tick.
pub struct GameManager {
    pub player: Player,
    pub bullets: Vec<Bullet>,
    pub enemies: EnemyManager,
    pub score: u64,
    pub rounds: u32,
    pub player_lost: bool,
}

/// Mathematical model of the whole game state.
#[verifier::ext_equal]
pub struct GameView {
    pub player: Player,
    pub bullets: Seq<Bullet>,
    pub enemies: FormationView,
    pub score: u64,
    pub rounds: u32,
    pub player_lost: bool,
}

impl View for GameManager {
    type V = GameView;

    open spec fn view(&self) -> GameView {
        GameView {
            player: self.player,
            bullets: self.bullets@,
            enemies: self.enemies@,
            score: self.score,
            rounds: self.rounds,
            player_lost: self.player_lost,
        }
    }
}

/// A well-formed game state: well-formed player, formation and bullets.
pub open spec fn game_wf(g: GameView) -> bool {
    &&& player_wf(g.player)
    &&& formation_wf(g.enemies)
    &&& forall|k: int| 0 <= k < g.bullets.len() ==> (#[trigger] g.bullets[k]).wf()
}

/// The state a game starts in, and is reset to on restart.
pub open spec fn initial_game() -> GameView {
    GameView {
        player: initial_player(),
        bullets: Seq::empty(),
        enemies: formation_new_spec(ENEMY_GRID_COLS, ENEMY_GRID_ROWS),
        score: 0,
        rounds: 0,
        player_lost: false,
    }
}

/// Loss condition at the start of a tick: dead player or a formation that
/// reached the player's row.
pub open spec fn lost_of(g: GameView) -> bool {
    g.player.health.value <= 0 || g.enemies.reached_player
}

/// A tick completes the round when the game is not lost and the enemy set
/// is empty.
pub open spec fn tick_completes(g: GameView) -> bool {
    !lost_of(g) && g.enemies.enemies.len() == 0
}

/// The enemy-owned bullet spawned at a chosen enemy's position.
pub open spec fn enemy_bullet_spec(e: Enemy, damage: i64) -> Bullet {
    spawn_spec(
        e.transform.x,
        e.transform.y,
        Vec2 { x: 1, y: -1i64 },
        Vec2 { x: 0, y: ENEMY_BULLET_ACCEL_Y },
        Vec2 { x: 0, y: ENEMY_BULLET_VEL_Y },
        damage,
        Shooter::Enemy,
    )
}

/// The player-owned bullet spawned from the player's center.
pub open spec fn player_bullet_spec(p: Player) -> Bullet {
    spawn_spec(
        (p.transform.x + PLAYER_WIDTH / 2) as i64,
        p.transform.y,
        Vec2 { x: 1, y: 1 },
        Vec2 { x: 0, y: PLAYER_BULLET_ACCEL_Y },
        Vec2 { x: 0, y: PLAYER_BULLET_VEL_Y },
        PLAYER_BULLET_DAMAGE,
        Shooter::Player,
    )
}

pub open spec fn no_effects() -> TickEffects {
    TickEffects { enemies_destroyed: 0, player_hit: false, player_destroyed: false }
}

/// The accumulator of the collision pass: the bullets moved so far, removal
/// marks for bullets and enemies, the player (its health absorbs hits), the
/// score, and the effect signals gathered so far.
#[verifier::ext_equal]
pub struct PassState {
    pub moved: Seq<Bullet>,
    pub bmarks: Seq<bool>,
    pub emarks: Seq<bool>,
    pub player: Player,
    pub score: u64,
    pub fx: TickEffects,
}

/// Builds a pass accumulator; the collision-pass loops state their
/// invariants through this constructor.
pub open spec fn pass_st(
    moved: Seq<Bullet>,
    bmarks: Seq<bool>,
    emarks: Seq<bool>,
    player: Player,
    score: u64,
    fx: TickEffects,
) -> PassState {
    PassState { moved, bmarks, emarks, player, score, fx }
}

/// One player-owned bullet tested against enemies `j..` in order: marks
/// every overlapped enemy, awards its tier points (scoring is per collision
/// pair, so an enemy overlapped by two bullets scores twice), counts an
/// enemy-destroyed signal per pair, and reports whether anything was hit.
pub open spec fn hits_rec(
    b: Bullet,
    enemies: Seq<Enemy>,
    j: int,
    emarks: Seq<bool>,
    score: u64,
    destroyed: u64,
    hit_any: bool,
) -> (Seq<bool>, u64, u64, bool)
    decreases enemies.len() - j,
{
    if j < 0 || j >= enemies.len() {
        (emarks, score, destroyed, hit_any)
    } else if collides_spec(b.transform, enemies[j].transform) {
        hits_rec(
            b,
            enemies,
            j + 1,
            emarks.update(j, true),
            sat_u64(score + points_of(enemies[j].variation)),
            sat_u64(destroyed + 1),
            true,
        )
    } else {
        hits_rec(b, enemies, j + 1, emarks, score, destroyed, hit_any)
    }
}

/// How one moved bullet changes the pass accumulator: a player-owned
/// bullet is tested against every enemy; an enemy-owned bullet is tested
/// against the player unless a hit was already registered this tick.
pub open spec fn pass_one(b: Bullet, enemies: Seq<Enemy>, st: PassState) -> PassState {
    match b.owner {
        Shooter::Player => {
            let h = hits_rec(b, enemies, 0, st.emarks, st.score, st.fx.enemies_destroyed, false);
            PassState {
                moved: st.moved.push(b),
                bmarks: st.bmarks.push(h.3),
                emarks: h.0,
                score: h.1,
                fx: TickEffects { enemies_destroyed: h.2, ..st.fx },
                ..st
            }
        },
        Shooter::Enemy => {
            if !st.fx.player_hit && collides_spec(b.transform, st.player.transform) {
                let p2 = damaged(st.player, b.damage);
                PassState {
                    moved: st.moved.push(b),
                    bmarks: st.bmarks.push(true),
                    player: p2,
                    fx: TickEffects {
                        player_hit: true,
                        player_destroyed: st.fx.player_destroyed || p2.health.value <= 0,
                        ..st.fx
                    },
                    ..st
                }
            } else {
                PassState { moved: st.moved.push(b), bmarks: st.bmarks.push(false), ..st }
            }
        },
    }
}

/// The full collision pass over bullets `i..`: each bullet is advanced by
/// the tick first, then resolved by `pass_one`.
pub open spec fn pass_rec(
    bullets: Seq<Bullet>,
    dt_ms: u64,
    enemies: Seq<Enemy>,
    i: int,
    st: PassState,
) -> PassState
    decreases bullets.len() - i,
{
    if i < 0 || i >= bullets.len() {
        st
    } else {
        let b = bullet_step(bullets[i], dt_ms);
        pass_rec(bullets, dt_ms, enemies, i + 1, pass_one(b, enemies, st))
    }
}

/// The elements of `s` from `i` on whose mark is false, appended to `acc`
/// in order: deferred removal applied after the collision pass.
pub open spec fn filter_rec<T>(s: Seq<T>, marks: Seq<bool>, i: int, acc: Seq<T>) -> Seq<T>
    decreases s.len() - i,
{
    if i < 0 || i >= s.len() {
        acc
    } else if i < marks.len() && marks[i] {
        filter_rec(s, marks, i + 1, acc)
    } else {
        filter_rec(s, marks, i + 1, acc.push(s[i]))
    }
}

/// Whether a bullet's y position is inside the vertical play area.
pub open spec fn in_vertical_bounds(b: Bullet) -> bool {
    0 <= b.transform.y < WINDOW_HEIGHT
}

/// The bullets from `i` on whose y position is inside the vertical play
/// area, appended to `acc` in order: the out-of-bounds cull.
pub open spec fn cull_rec(s: Seq<Bullet>, i: int, acc: Seq<Bullet>) -> Seq<Bullet>
    decreases s.len() - i,
{
    if i < 0 || i >= s.len() {
        acc
    } else if in_vertical_bounds(s[i]) {
        cull_rec(s, i + 1, acc.push(s[i]))
    } else {
        cull_rec(s, i + 1, acc)
    }
}

/// One full tick of the orchestrator, for given random draws: loss
/// detection, unconditional player and formation motion, round completion
/// with healing and a fresh wave, probabilistic enemy fire, the collision
/// pass, deferred removal, and the out-of-bounds cull.
pub open spec fn tick_of(g: GameView, dt_ms: u64, d: TickDraws) -> (GameView, TickEffects) {
    let lost = lost_of(g);
    let p1 = player_step(g.player, dt_ms);
    let e1 = formation_step(g.enemies, dt_ms);
    if lost {
        (GameView { player: p1, enemies: e1, player_lost: true, ..g }, no_effects())
    } else {
        let completed = e1.enemies.len() == 0;
        let rounds1 = if completed {
            sat_u32(g.rounds + 1)
        } else {
            g.rounds
        };
        let p2 = if completed {
            healed(p1, d.regen)
        } else {
            p1
        };
        let e2 = if completed {
            formation_new_spec(ENEMY_GRID_COLS, ENEMY_GRID_ROWS)
        } else {
            e1
        };
        let bullets1 = if d.fire {
            g.bullets.push(
                enemy_bullet_spec(
                    e2.enemies[(d.pick as int) % (e2.enemies.len() as int)],
                    d.damage,
                ),
            )
        } else {
            g.bullets
        };
        let st0 = pass_st(
            Seq::empty(),
            Seq::empty(),
            Seq::new(e2.enemies.len(), |j: int| false),
            p2,
            g.score,
            no_effects(),
        );
        let st = pass_rec(bullets1, dt_ms, e2.enemies, 0, st0);
        let bullets2 = filter_rec(st.moved, st.bmarks, 0, Seq::empty());
        let enemies2 = filter_rec(e2.enemies, st.emarks, 0, Seq::empty());
        let bullets3 = cull_rec(bullets2, 0, Seq::empty());
        (
            GameView {
                player: st.player,
                bullets: bullets3,
                enemies: FormationView { enemies: enemies2, ..e2 },
                score: st.score,
                rounds: rounds1,
                player_lost: false,
            },
            st.fx,
        )
    }
}

/// How many of the bullets from `i` on are player-owned.
pub open spec fn count_player_from(bullets: Seq<Bullet>, i: int) -> int
    decreases bullets.len() - i,
{
    if i < 0 || i >= bullets.len() {
        0
    } else {
        (if bullets[i].owner == Shooter::Player {
            1int
        } else {
            0int
        }) + count_player_from(bullets, i + 1)
    }
}

/// The round-scaled cap on live player-owned bullets.
pub open spec fn fire_cap(rounds: u32) -> int {
    rounds / PLAYER_BULLETS_FREQUENCY + 1
}

/// What one input action does to the game state, and whether it fired a
/// player bullet: direction presses latch a direction; fire spawns a
/// player bullet only if the player is alive and under the round-scaled
/// cap; restart resets the whole game only after a loss.
pub open spec fn press_of(g: GameView, action: InputAction) -> (GameView, bool) {
    match action {
        InputAction::MoveRight => (
            GameView {
                player: Player {
                    transform: Transform { direction: Direction::Right, ..g.player.transform },
                    ..g.player
                },
                ..g
            },
            false,
        ),
        InputAction::MoveLeft => (
            GameView {
                player: Player {
                    transform: Transform { direction: Direction::Left, ..g.player.transform },
                    ..g.player
                },
                ..g
            },
            false,
        ),
        InputAction::Restart => if g.player_lost {
            (initial_game(), false)
        } else {
            (g, false)
        },
        InputAction::Fire => if count_player_from(g.bullets, 0) < fire_cap(g.rounds)
            && g.player.health.value > 0 {
            (GameView { bullets: g.bullets.push(player_bullet_spec(g.player)), ..g }, true)
        } else {
            (g, false)
        },
    }
}

/// The draws `GameManager::update` hands to `update_with` are sampled like
/// this: damage uniform in the fixed range; regeneration uniform in the
/// round-scaled range, or its lower end when that range is empty.
pub open spec fn draws_ok(d: TickDraws, g: GameView) -> bool {
    let rounds1 = if tick_completes(g) {
        sat_u32(g.rounds + 1)
    } else {
        g.rounds
    };
    let lo = HEALTH_REGEN_MIN + rounds1;
    &&& ENEMY_MIN_DAMAGE <= d.damage < ENEMY_MAX_DAMAGE
    &&& (lo < HEALTH_REGEN_MAX ==> lo <= d.regen < HEALTH_REGEN_MAX)
    &&& (lo >= HEALTH_REGEN_MAX ==> d.regen == lo)
}

impl GameManager {
    /// A fresh game.
    pub fn start() -> (g: GameManager)
        ensures
            g@ =~= initial_game(),
            game_wf(g@),
    {
        GameManager {
            player: Player::new(),
            bullets: Vec::new(),
            enemies: EnemyManager::new(ENEMY_GRID_COLS, ENEMY_GRID_ROWS),
            score: 0,
            rounds: 0,
            player_lost: false,
        }
    }

    /// Reset everything to the starting state.
    pub fn restart(&mut self)
        ensures
            final(self)@ =~= initial_game(),
            game_wf(final(self)@),
    {
        self.player = Player::new();
        self.bullets = Vec::new();
        self.enemies = EnemyManager::new(ENEMY_GRID_COLS, ENEMY_GRID_ROWS);
        self.score = 0;
        self.rounds = 0;
        self.player_lost = false;
    }

    /// One tick of the simulation with the random draws passed in
    /// explicitly, so the tick is deterministic; see `tick_of`.
    pub fn update_with(&mut self, dt_ms: u64, d: TickDraws) -> (fx: TickEffects)
        requires
            game_wf(old(self)@),
            dt_ms <= MAX_TICK_MS,
            d.damage >= 0,
        ensures
            final(self)@ =~= tick_of(old(self)@, dt_ms, d).0,
            fx == tick_of(old(self)@, dt_ms, d).1,
            game_wf(final(self)@),
    {
        let ghost g0 = self@;
        let alive = self.player.is_alive();
        let lost = !alive || self.enemies.reached_player;
        self.player_lost = lost;
        self.player.update(dt_ms);
        self.enemies.update(dt_ms);
        if lost {
            proof {
                assert(self@ =~= tick_of(g0, dt_ms, d).0);
            }
            return TickEffects { enemies_destroyed: 0, player_hit: false, player_destroyed: false };
        }
        if self.enemies.entities.len() == 0 {
            self.rounds = sat_add_u32(self.rounds, 1);
            self.player.heal(d.regen);
            self.enemies = EnemyManager::new(ENEMY_GRID_COLS, ENEMY_GRID_ROWS);
        }
        if d.fire {
            let len = self.enemies.entities.len();
            let idx = d.pick % len;
            let e = self.enemies.entities[idx];
            let b = Bullet::spawn(
                e.transform.x,
                e.transform.y,
                Vec2 { x: 1, y: -1 },
                Vec2 { x: 0, y: ENEMY_BULLET_ACCEL_Y },
                Vec2 { x: 0, y: ENEMY_BULLET_VEL_Y },
                d.damage,
                Shooter::Enemy,
            );
            self.bullets.push(b);
        }
        self.collision_pass(dt_ms)
    }

    /// Advance every bullet and resolve its collisions, then apply the
    /// deferred removals and cull out-of-bounds bullets; see `pass_rec`.
    fn collision_pass(&mut self, dt_ms: u64) -> (fx: TickEffects)
        requires
            player_wf(old(self).player),
            formation_wf(old(self)@.enemies),
            dt_ms <= MAX_TICK_MS,
            forall|k: int| 0 <= k < old(self)@.bullets.len() ==> (#[trigger] old(self)@.bullets[k]).wf(),
        ensures
            ({
                let st0 = pass_st(
                    Seq::empty(),
                    Seq::empty(),
                    Seq::new(old(self)@.enemies.enemies.len(), |j: int| false),
                    old(self).player,
                    old(self).score,
                    no_effects(),
                );
                let st = pass_rec(
                    old(self)@.bullets,
                    dt_ms,
                    old(self)@.enemies.enemies,
                    0,
                    st0,
                );
                &&& final(self).player == st.player
                &&& final(self).score == st.score
                &&& fx == st.fx
                &&& final(self)@.bullets =~= cull_rec(
                    filter_rec(st.moved, st.bmarks, 0, Seq::empty()),
                    0,
                    Seq::empty(),
                )
                &&& final(self)@.enemies =~= (FormationView {
                    enemies: filter_rec(old(self)@.enemies.enemies, st.emarks, 0, Seq::empty()),
                    ..old(self)@.enemies
                })
                &&& final(self).rounds == old(self).rounds
                &&& final(self).player_lost == old(self).player_lost
            }),
            player_wf(final(self).player),
            formation_wf(final(self)@.enemies),
            forall|k: int|
                0 <= k < final(self)@.bullets.len() ==> (#[trigger] final(self)@.bullets[k]).wf(),
    {
        let ghost bullets1 = self.bullets@;
        let ghost enemies1 = self.enemies.entities@;
        let ghost fmv = self.enemies@;
        let ghost st0 = pass_st(
            Seq::empty(),
            Seq::empty(),
            Seq::new(enemies1.len(), |j: int| false),
            self.player,
            self.score,
            no_effects(),
        );
        let ne = self.enemies.entities.len();
        let mut emarks: Vec<bool> = Vec::new();
        while emarks.len() < ne
            invariant
                emarks@.len() <= ne,
                forall|k: int| 0 <= k < emarks@.len() ==> emarks@[k] == false,
            decreases ne - emarks@.len(),
        {
            emarks.push(false);
        }
        proof {
            assert(emarks@ =~= st0.emarks);
        }
        let mut bmarks: Vec<bool> = Vec::new();
        let mut fx = TickEffects { enemies_destroyed: 0, player_hit: false, player_destroyed: false };
        let nb = self.bullets.len();
        let mut i: usize = 0;
        proof {
            assert(self.bullets@.subrange(0, 0int) =~= Seq::<Bullet>::empty());
            assert(pass_st(
                self.bullets@.subrange(0, 0int),
                bmarks@,
                emarks@,
                self.player,
                self.score,
                fx,
            ) =~= st0);
        }
        while i < nb
            invariant
                dt_ms <= MAX_TICK_MS,
                ne == enemies1.len(),
                nb == self.bullets@.len(),
                nb == bullets1.len(),
                0 <= i <= nb,
                bmarks@.len() == i,
                emarks@.len() == enemies1.len(),
                self.enemies@ == fmv,
                self.enemies.entities@ == enemies1,
                fmv.enemies == enemies1,
                formation_wf(fmv),
                player_wf(self.player),
                self.rounds == old(self).rounds,
                self.player_lost == old(self).player_lost,
                st0 == (pass_st(
                    Seq::empty(),
                    Seq::empty(),
                    Seq::new(enemies1.len(), |j: int| false),
                    old(self).player,
                    old(self).score,
                    no_effects(),
                )),
                forall|k: int| i <= k < nb ==> self.bullets@[k] == bullets1[k],
                forall|k: int| 0 <= k < nb ==> (#[trigger] bullets1[k]).wf(),
                forall|k: int| 0 <= k < i ==> (#[trigger] self.bullets@[k]).wf(),
                pass_rec(bullets1, dt_ms, enemies1, i as int, pass_st(
                    self.bullets@.subrange(0, i as int),
                    bmarks@,
                    emarks@,
                    self.player,
                    self.score,
                    fx,
                )) == pass_rec(bullets1, dt_ms, enemies1, 0, st0),
            decreases nb - i,
        {
            let ghost st_top = pass_st(
                self.bullets@.subrange(0, i as int),
                bmarks@,
                emarks@,
                self.player,
                self.score,
                fx,
            );
            let mut b = self.bullets[i];
            b.update(dt_ms);
            self.bullets.set(i, b);
            proof {
                assert(b == bullet_step(bullets1[i as int], dt_ms));
                assert(self.bullets@.subrange(0, i as int) =~= st_top.moved);
            }
            match b.owner {
                Shooter::Player => {
                    let ghost em_top = emarks@;
                    let ghost sc_top = self.score;
                    let ghost cnt_top = fx.enemies_destroyed;
                    let ghost bullets_cur = self.bullets@;
                    let mut hit = false;
                    let mut j: usize = 0;
                    while j < ne
                        invariant
                            ne == enemies1.len(),
                            ne == self.enemies.entities@.len(),
                            self.enemies.entities@ == enemies1,
                            self.enemies@ == fmv,
                            self.bullets@ == bullets_cur,
                            self.player == st_top.player,
                            self.rounds == old(self).rounds,
                            self.player_lost == old(self).player_lost,
                            0 <= j <= ne,
                            emarks@.len() == ne,
                            b.wf(),
                            player_wf(self.player),
                            formation_wf(fmv),
                            fmv.enemies == enemies1,
                            hits_rec(b, enemies1, j as int, emarks@, self.score,
                                fx.enemies_destroyed, hit) == hits_rec(b, enemies1, 0, em_top,
                                sc_top, cnt_top, false),
                            fx.player_hit == st_top.fx.player_hit,
                            fx.player_destroyed == st_top.fx.player_destroyed,
                        decreases ne - j,
                    {
                        let enemy = self.enemies.entities[j];
                        if b.transform.collides(&enemy.transform) {
                            self.score = sat_add_u64(self.score, points(enemy.variation));
                            emarks.set(j, true);
                            fx.enemies_destroyed = sat_add_u64(fx.enemies_destroyed, 1);
                            hit = true;
                        }
                        j = j + 1;
                    }
                    bmarks.push(hit);
                },
                Shooter::Enemy => {
                    if !fx.player_hit && b.transform.collides(&self.player.transform) {
                        self.player.damage_by(b.damage);
                        fx.player_hit = true;
                        if !self.player.is_alive() {
                            fx.player_destroyed = true;
                        }
                        bmarks.push(true);
                    } else {
                        bmarks.push(false);
                    }
                },
            }
            proof {
                let st_next = pass_st(
                    self.bullets@.subrange(0, i as int + 1),
                    bmarks@,
                    emarks@,
                    self.player,
                    self.score,
                    fx,
                );
                assert(self.bullets@.subrange(0, i as int + 1) =~= st_top.moved.push(b));
                assert(st_next =~= pass_one(b, enemies1, st_top));
            }
            i = i + 1;
        }
        let ghost st = pass_rec(bullets1, dt_ms, enemies1, 0, st0);
        proof {
            assert(self.bullets@.subrange(0, nb as int) =~= self.bullets@);
            assert(st == pass_st(self.bullets@, bmarks@, emarks@, self.player, self.score, fx));
        }
        // deferred removal of marked bullets
        let mut kept: Vec<Bullet> = Vec::new();
        let mut i2: usize = 0;
        while i2 < nb
            invariant
                nb == self.bullets@.len(),
                bmarks@.len() == nb,
                0 <= i2 <= nb,
                forall|k: int| 0 <= k < nb ==> (#[trigger] self.bullets@[k]).wf(),
                forall|k: int| 0 <= k < kept@.len() ==> (#[trigger] kept@[k]).wf(),
                filter_rec(self.bullets@, bmarks@, i2 as int, kept@) == filter_rec(
                    self.bullets@,
                    bmarks@,
                    0,
                    Seq::empty(),
                ),
            decreases nb - i2,
        {
            if !bmarks[i2] {
                let b = self.bullets[i2];
                kept.push(b);
            }
            i2 = i2 + 1;
        }
        self.bullets = kept;
        // deferred removal of marked enemies
        let mut kept_e: Vec<Enemy> = Vec::new();
        let mut i3: usize = 0;
        while i3 < ne
            invariant
                ne == self.enemies.entities@.len(),
                self.enemies.entities@ == enemies1,
                self.enemies@ == fmv,
                formation_wf(fmv),
                fmv.enemies == enemies1,
                emarks@.len() == ne,
                0 <= i3 <= ne,
                forall|k: int|
                    0 <= k < kept_e@.len() ==> (#[trigger] kept_e@[k]).wf()
                        && kept_e@[k].transform.y > fmv.zone.y,
                filter_rec(enemies1, emarks@, i3 as int, kept_e@) == filter_rec(
                    enemies1,
                    emarks@,
                    0,
                    Seq::empty(),
                ),
            decreases ne - i3,
        {
            if !emarks[i3] {
                let e = self.enemies.entities[i3];
                kept_e.push(e);
            }
            i3 = i3 + 1;
        }
        self.enemies.entities = kept_e;
        // cull bullets that left the vertical play area
        let ghost pre_cull = self.bullets@;
        let mut kept2: Vec<Bullet> = Vec::new();
        let mut i4: usize = 0;
        let nb2 = self.bullets.len();
        while i4 < nb2
            invariant
                nb2 == self.bullets@.len(),
                self.bullets@ == pre_cull,
                0 <= i4 <= nb2,
                forall|k: int| 0 <= k < nb2 ==> (#[trigger] self.bullets@[k]).wf(),
                forall|k: int| 0 <= k < kept2@.len() ==> (#[trigger] kept2@[k]).wf(),
                cull_rec(pre_cull, i4 as int, kept2@) == cull_rec(pre_cull, 0, Seq::empty()),
            decreases nb2 - i4,
        {
            let b = self.bullets[i4];
            if b.transform.y >= 0 && b.transform.y < WINDOW_HEIGHT {
                kept2.push(b);
            }
            i4 = i4 + 1;
        }
        self.bullets = kept2;
        fx
    }

    /// One tick of the simulation, drawing the tick's randomness from the
    /// given source; the resulting state is `tick_of` for some draws
    /// sampled as `draws_ok` describes.
    pub fn update(&mut self, dt_ms: u64, rng: &mut rand::rngs::ThreadRng) -> (fx: TickEffects)
        requires
            game_wf(old(self)@),
            dt_ms <= MAX_TICK_MS,
        ensures
            game_wf(final(self)@),
            exists|d: TickDraws|
                #[trigger] draws_ok(d, old(self)@) && final(self)@ =~= tick_of(
                    old(self)@,
                    dt_ms,
                    d,
                ).0 && fx == tick_of(old(self)@, dt_ms, d).1,
    {
        let alive = self.player.is_alive();
        let lost = !alive || self.enemies.reached_player;
        let completing = !lost && self.enemies.entities.len() == 0;
        let rounds1: u32 = if completing {
            sat_add_u32(self.rounds, 1)
        } else {
            self.rounds
        };
        let lo: i64 = HEALTH_REGEN_MIN + rounds1 as i64;
        let regen: i64 = if lo < HEALTH_REGEN_MAX {
            rand_range_i64(rng, lo, HEALTH_REGEN_MAX)
        } else {
            lo
        };
        let damage: i64 = rand_range_i64(rng, ENEMY_MIN_DAMAGE, ENEMY_MAX_DAMAGE);
        let spawn_len: usize = if completing {
            (ENEMY_GRID_COLS as usize) * (ENEMY_GRID_ROWS as usize)
        } else if self.enemies.entities.len() > 0 {
            self.enemies.entities.len()
        } else {
            1
        };
        // The tick reduces the pick modulo the live count, so any sampled
        // index does; capping the sampled range keeps the cast in range and
        // is the identity for every reachable wave size.
        let capped_len: usize = if spawn_len > 1_000_000 {
            1_000_000
        } else {
            spawn_len
        };
        let pick: usize = rand_range_i64(rng, 0, capped_len as i64) as usize;
        let num: u32 = if rounds1 >= 99 {
            100
        } else {
            rounds1 + 1
        };
        let fire = rand_ratio(rng, num, 100);
        let d = TickDraws { fire, pick, damage, regen };
        let ghost g0 = self@;
        let fx = self.update_with(dt_ms, d);
        proof {
            assert(draws_ok(d, g0));
        }
        fx
    }

    /// Apply one orchestrator-level input action; returns whether a player
    /// bullet was fired (for a player-fired effect signal). See `press_of`.
    pub fn on_press(&mut self, action: InputAction) -> (fired: bool)
        requires
            game_wf(old(self)@),
        ensures
            final(self)@ =~= press_of(old(self)@, action).0,
            fired == press_of(old(self)@, action).1,
            game_wf(final(self)@),
    {
        match action {
            InputAction::MoveRight => {
                self.player.transform.direction = Direction::Right;
                false
            },
            InputAction::MoveLeft => {
                self.player.transform.direction = Direction::Left;
                false
            },
            InputAction::Restart => {
                if self.player_lost {
                    self.restart();
                }
                false
            },
            InputAction::Fire => {
                let ghost bullets0 = self.bullets@;
                let nb = self.bullets.len();
                let mut count: usize = 0;
                let mut i: usize = 0;
                while i < nb
                    invariant
                        nb == self.bullets@.len(),
                        self.bullets@ == bullets0,
                        0 <= i <= nb,
                        count <= i,
                        count + count_player_from(bullets0, i as int) == count_player_from(
                            bullets0,
                            0,
                        ),
                    decreases nb - i,
                {
                    match self.bullets[i].owner {
                        Shooter::Player => {
                            count = count + 1;
                        },
                        Shooter::Enemy => {},
                    }
                    i = i + 1;
                }
                let max_bullets: usize = ((self.rounds / PLAYER_BULLETS_FREQUENCY) + 1) as usize;
                if count < max_bullets && self.player.is_alive() {
                    let half: i64 = (PLAYER_WIDTH as u64 / 2) as i64;
                    let b = Bullet::spawn(
                        self.player.transform.x + half,
                        self.player.transform.y,
                        Vec2 { x: 1, y: 1 },
                        Vec2 { x: 0, y: PLAYER_BULLET_ACCEL_Y },
                        Vec2 { x: 0, y: PLAYER_BULLET_VEL_Y },
                        PLAYER_BULLET_DAMAGE,
                        Shooter::Player,
                    );
                    self.bullets.push(b);
                    true
                } else {
                    false
                }
            },
        }
    }
}

/// Law: once the formation has reached the player, the next tick sets the
/// loss flag, whatever the draws.
pub proof fn lemma_reached_causes_loss(g: GameView, dt_ms: u64, d: TickDraws)
    requires
        g.enemies.reached_player,
    ensures
        tick_of(g, dt_ms, d).0.player_lost,
{
}

/// Law: when some enemy breaches the zone's bottom edge on a tick that is
/// not already lost (and no side breach overrides it), that tick sets the
/// reached-player flag, and the following tick sets the loss flag, whatever
/// the draws.
pub proof fn lemma_bottom_breach_causes_loss(
    g: GameView,
    dt1: u64,
    d1: TickDraws,
    dt2: u64,
    d2: TickDraws,
)
    requires
        game_wf(g),
        !lost_of(g),
        exists|k: int|
            0 <= k < g.enemies.enemies.len() && #[trigger] crate::components::exceeds_spec(
                g.enemies.enemies[k].transform,
                g.enemies.zone,
            ) == Some(Direction::Down),
        forall|k: int|
            0 <= k < g.enemies.enemies.len() ==> #[trigger] crate::components::exceeds_spec(
                g.enemies.enemies[k].transform,
                g.enemies.zone,
            ) != Some(Direction::Right) && crate::components::exceeds_spec(
                g.enemies.enemies[k].transform,
                g.enemies.zone,
            ) != Some(Direction::Left),
    ensures
        tick_of(g, dt1, d1).0.enemies.reached_player,
        tick_of(tick_of(g, dt1, d1).0, dt2, d2).0.player_lost,
{
    crate::enemy::lemma_bottom_breach_stops(g.enemies, dt1);
    lemma_reached_causes_loss(tick_of(g, dt1, d1).0, dt2, d2);
}

/// Law: a fire press succeeds exactly when the player is alive and the
/// live player-owned bullet count is below the round-scaled cap; on
/// success it appends one player bullet, on rejection it changes nothing.
pub proof fn lemma_fire_cap(g: GameView)
    ensures
        press_of(g, InputAction::Fire).1 == (count_player_from(g.bullets, 0) < fire_cap(g.rounds)
            && g.player.health.value > 0),
        press_of(g, InputAction::Fire).1 ==> press_of(g, InputAction::Fire).0.bullets
            =~= g.bullets.push(player_bullet_spec(g.player)),
        !press_of(g, InputAction::Fire).1 ==> press_of(g, InputAction::Fire).0 =~= g,
{
}

/// Law: a restart press is a no-op until the game is lost, and resets the
/// whole state once it is.
pub proof fn lemma_restart_guard(g: GameView)
    ensures
        !g.player_lost ==> press_of(g, InputAction::Restart).0 =~= g,
        g.player_lost ==> press_of(g, InputAction::Restart).0 =~= initial_game(),
{
}

/// Filtering with an all-false mark sequence keeps every element.
proof fn lemma_filter_unmarked<T>(s: Seq<T>, marks: Seq<bool>, i: int, acc: Seq<T>)
    requires
        0 <= i <= s.len(),
        forall|k: int| 0 <= k < marks.len() ==> !marks[k],
    ensures
        filter_rec(s, marks, i, acc) =~= acc + s.subrange(i, s.len() as int),
    decreases s.len() - i,
{
    if i < s.len() {
        lemma_filter_unmarked(s, marks, i + 1, acc.push(s[i]));
        assert(acc.push(s[i]) + s.subrange(i + 1, s.len() as int) =~= acc + s.subrange(
            i,
            s.len() as int,
        ));
    } else {
        assert(acc + s.subrange(i, s.len() as int) =~= acc);
    }
}

/// Law: any tick that completes the round (not lost, enemy set empty)
/// advances the round count by exactly one, saturating only at the
/// counter's ceiling, whatever the draws and the live projectiles.
pub proof fn lemma_round_increment(g: GameView, dt_ms: u64, d: TickDraws)
    requires
        tick_completes(g),
    ensures
        tick_of(g, dt_ms, d).0.rounds == sat_u32(g.rounds + 1),
        g.rounds < u32::MAX ==> tick_of(g, dt_ms, d).0.rounds == g.rounds + 1,
{
}

/// Law: a tick that completes the round, taken with no live projectiles
/// and no enemy fire draw, increments the round count by exactly one,
/// strictly increases health by the regeneration draw, and produces a
/// fresh formation with the full grid of enemies.
pub proof fn lemma_round_completion(g: GameView, dt_ms: u64, d: TickDraws)
    requires
        game_wf(g),
        tick_completes(g),
        g.bullets.len() == 0,
        !d.fire,
        d.regen >= 1,
        g.rounds < u32::MAX,
        g.player.health.value + d.regen <= crate::config::HEALTH_LIMIT,
    ensures
        tick_of(g, dt_ms, d).0.rounds == g.rounds + 1,
        tick_of(g, dt_ms, d).0.player.health.value == g.player.health.value + d.regen,
        tick_of(g, dt_ms, d).0.player.health.value > g.player.health.value,
        tick_of(g, dt_ms, d).0.enemies.enemies.len() == ENEMY_GRID_COLS as int
            * ENEMY_GRID_ROWS as int,
{
    let e1 = formation_step(g.enemies, dt_ms);
    assert(e1.enemies.len() == 0);
    let e2 = formation_new_spec(ENEMY_GRID_COLS, ENEMY_GRID_ROWS);
    let st0 = pass_st(
        Seq::empty(),
        Seq::empty(),
        Seq::new(e2.enemies.len(), |j: int| false),
        healed(player_step(g.player, dt_ms), d.regen),
        g.score,
        no_effects(),
    );
    assert(pass_rec(g.bullets, dt_ms, e2.enemies, 0, st0) == st0);
    lemma_filter_unmarked(e2.enemies, st0.emarks, 0, Seq::empty());
    assert(filter_rec(e2.enemies, st0.emarks, 0, Seq::empty()) =~= e2.enemies);
}

/// Every bullet the cull keeps lies inside the vertical play area.
proof fn lemma_cull_bounds(s: Seq<Bullet>, i: int, acc: Seq<Bullet>)
    requires
        0 <= i <= s.len(),
        forall|k: int| 0 <= k < acc.len() ==> in_vertical_bounds(#[trigger] acc[k]),
    ensures
        forall|k: int|
            0 <= k < cull_rec(s, i, acc).len() ==> in_vertical_bounds(
                #[trigger] cull_rec(s, i, acc)[k],
            ),
    decreases s.len() - i,
{
    if i < s.len() {
        if in_vertical_bounds(s[i]) {
            assert forall|k: int|
                0 <= k < acc.push(s[i]).len() implies in_vertical_bounds(
                #[trigger] acc.push(s[i])[k],
            ) by {
                if k < acc.len() {
                    assert(acc.push(s[i])[k] == acc[k]);
                } else {
                    assert(acc.push(s[i])[k] == s[i]);
                }
            }
            lemma_cull_bounds(s, i + 1, acc.push(s[i]));
            assert(cull_rec(s, i, acc) == cull_rec(s, i + 1, acc.push(s[i])));
        } else {
            lemma_cull_bounds(s, i + 1, acc);
            assert(cull_rec(s, i, acc) == cull_rec(s, i + 1, acc));
        }
    } else {
        assert(cull_rec(s, i, acc) == acc);
    }
}

/// Law: after a tick that was not already lost, every surviving projectile
/// lies inside the vertical play area, whatever its owner: the cull step
/// removed the rest.
pub proof fn lemma_tick_culls_bullets(g: GameView, dt_ms: u64, d: TickDraws)
    requires
        !lost_of(g),
    ensures
        forall|k: int|
            0 <= k < tick_of(g, dt_ms, d).0.bullets.len() ==> in_vertical_bounds(
                #[trigger] tick_of(g, dt_ms, d).0.bullets[k],
            ),
{
    let e1 = formation_step(g.enemies, dt_ms);
    let completed = e1.enemies.len() == 0;
    let e2 = if completed {
        formation_new_spec(ENEMY_GRID_COLS, ENEMY_GRID_ROWS)
    } else {
        e1
    };
    let bullets1 = if d.fire {
        g.bullets.push(
            enemy_bullet_spec(e2.enemies[(d.pick as int) % (e2.enemies.len() as int)], d.damage),
        )
    } else {
        g.bullets
    };
    let st0 = pass_st(
        Seq::empty(),
        Seq::empty(),
        Seq::new(e2.enemies.len(), |j: int| false),
        if completed {
            healed(player_step(g.player, dt_ms), d.regen)
        } else {
            player_step(g.player, dt_ms)
        },
        g.score,
        no_effects(),
    );
    let st = pass_rec(bullets1, dt_ms, e2.enemies, 0, st0);
    let bullets2 = filter_rec(st.moved, st.bmarks, 0, Seq::empty());
    lemma_cull_bounds(bullets2, 0, Seq::empty());
}

} // verus!

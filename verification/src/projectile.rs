//! Projectiles: straight-flying energy balls, stationary pulses and
//! homing missiles.
//!
//! The homing turn works on the velocity vector directly: the per-tick
//! turn capability is stored as the fixed-point sine of the maximum turn
//! angle (`turning_rate`), its cosine is recovered with the integer square
//! root, and the missile either rotates by that pair toward the target or,
//! if that rotation would cross the bearing, snaps onto it.

use vstd::prelude::*;

use crate::fixed::{FX_ONE, MAG_LIMIT, POS_LIMIT, SPEED_CAP, div_fx, div_trunc, isqrt,
    sqrt_floor, lemma_sqrt_floor_bounds};
use crate::vec2::{Vec2Fx, v2_in, len2_spec, normalize_to_spec, lemma_len2_nonneg,
    lemma_coord_from_len2};
use crate::trig::{rotate_pair_spec, rotate_pair, lemma_rotate_pair_len2};
use crate::collision::Collider;
use crate::enemy::Enemy;

verus! {

#[derive(Debug, Clone, Copy, PartialEq, Eq, Structural)]
pub enum ProjectileType {
    EnergyBall,
    Pulse,
    HomingMissile,
}

/// Stats of one projectile. `turning_rate` is the fixed-point sine of the
/// largest angle a homing missile may turn in one tick.
#[derive(Debug, Clone, Copy, PartialEq, Eq, Structural)]
pub struct ProjectileStats {
    pub damage: i64,
    pub speed: i64,
    pub radius: i64,
    pub width: i64,
    pub height: i64,
    pub time_to_live: i64,
    pub turning_rate: i64,
}

pub open spec fn projectile_stats_wf(t: ProjectileType, s: ProjectileStats) -> bool {
    &&& 0 <= s.damage <= MAG_LIMIT
    &&& 0 < s.time_to_live <= MAG_LIMIT
    &&& 0 <= s.turning_rate <= FX_ONE
    &&& 0 <= s.radius <= MAG_LIMIT
    &&& 0 <= s.width <= MAG_LIMIT
    &&& 0 <= s.height <= MAG_LIMIT
    &&& 0 <= s.speed <= SPEED_CAP
    &&& match t {
        ProjectileType::EnergyBall | ProjectileType::HomingMissile => 0 < s.radius && FX_ONE
            <= s.speed,
        ProjectileType::Pulse => 0 < s.width && 0 < s.height,
    }
}

impl ProjectileStats {
    /// Baseline energy ball: fast, small, short-lived.
    pub fn energy_ball_default() -> (s: ProjectileStats)
        ensures
            s == energy_ball_default_spec(),
            projectile_stats_wf(ProjectileType::EnergyBall, s),
    {
        ProjectileStats {
            damage: 10240,
            speed: 307200,
            radius: 8192,
            width: 0,
            height: 0,
            time_to_live: 2048,
            turning_rate: 0,
        }
    }

    /// Baseline pulse: a stationary square that lives briefly.
    pub fn pulse_default() -> (s: ProjectileStats)
        ensures
            s == pulse_default_spec(),
            projectile_stats_wf(ProjectileType::Pulse, s),
    {
        ProjectileStats {
            damage: 15360,
            speed: 0,
            radius: 0,
            width: 102400,
            height: 102400,
            time_to_live: 307,
            turning_rate: 0,
        }
    }

    /// Baseline homing missile: slower than the ball, turns roughly a
    /// tenth of a radian per tick.
    pub fn homing_missile_default() -> (s: ProjectileStats)
        ensures
            s == homing_missile_default_spec(),
            projectile_stats_wf(ProjectileType::HomingMissile, s),
    {
        ProjectileStats {
            damage: 20480,
            speed: 256000,
            radius: 6144,
            width: 0,
            height: 0,
            time_to_live: 3072,
            turning_rate: 102,
        }
    }
}

pub open spec fn energy_ball_default_spec() -> ProjectileStats {
    ProjectileStats {
        damage: 10240,
        speed: 307200,
        radius: 8192,
        width: 0,
        height: 0,
        time_to_live: 2048,
        turning_rate: 0,
    }
}

pub open spec fn pulse_default_spec() -> ProjectileStats {
    ProjectileStats {
        damage: 15360,
        speed: 0,
        radius: 0,
        width: 102400,
        height: 102400,
        time_to_live: 307,
        turning_rate: 0,
    }
}

pub open spec fn homing_missile_default_spec() -> ProjectileStats {
    ProjectileStats {
        damage: 20480,
        speed: 256000,
        radius: 6144,
        width: 0,
        height: 0,
        time_to_live: 3072,
        turning_rate: 102,
    }
}

#[derive(Debug, Clone, Copy)]
pub struct Projectile {
    pub id: u64,
    pub pos: Vec2Fx,
    pub vel: Vec2Fx,
    pub projectile_type: ProjectileType,
    pub stats: ProjectileStats,
    pub time_remaining: i64,
    pub source_pos: Vec2Fx,
}

pub open spec fn projectile_wf(p: Projectile) -> bool {
    &&& projectile_stats_wf(p.projectile_type, p.stats)
    &&& v2_in(p.pos, POS_LIMIT as int)
    &&& v2_in(p.source_pos, POS_LIMIT as int)
    &&& v2_in(p.vel, MAG_LIMIT as int)
    &&& len2_spec(p.vel) <= 2 * SPEED_CAP * SPEED_CAP
    &&& 0 <= p.time_remaining <= MAG_LIMIT
}

impl Projectile {
    /// Spawn an energy ball travelling in `direction` at the stats' speed.
    pub fn spawn_energy_ball(id: u64, pos: Vec2Fx, direction: Vec2Fx, stats: ProjectileStats)
        -> (p: Projectile)
        requires
            projectile_stats_wf(ProjectileType::EnergyBall, stats),
            v2_in(pos, POS_LIMIT as int),
            v2_in(direction, crate::vec2::NORM_COORD_LIMIT as int),
            len2_spec(direction) > 0,
        ensures
            p.id == id,
            p.pos == pos,
            p.source_pos == pos,
            p.vel == normalize_to_spec(direction, stats.speed as int),
            p.projectile_type == ProjectileType::EnergyBall,
            p.stats == stats,
            p.time_remaining == stats.time_to_live,
            projectile_wf(p),
    {
        let vel = direction.normalize_to(stats.speed);
        proof {
            lemma_vel_from_speed(vel, stats.speed as int);
        }
        Projectile {
            id,
            pos,
            vel,
            projectile_type: ProjectileType::EnergyBall,
            stats,
            time_remaining: stats.time_to_live,
            source_pos: pos,
        }
    }

    /// Spawn a pulse anchored at `pos`.
    pub fn spawn_pulse(id: u64, pos: Vec2Fx, stats: ProjectileStats) -> (p: Projectile)
        requires
            projectile_stats_wf(ProjectileType::Pulse, stats),
            v2_in(pos, POS_LIMIT as int),
        ensures
            p.id == id,
            p.pos == pos,
            p.source_pos == pos,
            p.vel == (Vec2Fx { x: 0, y: 0 }),
            p.projectile_type == ProjectileType::Pulse,
            p.stats == stats,
            p.time_remaining == stats.time_to_live,
            projectile_wf(p),
    {
        proof {
            assert(len2_spec(Vec2Fx { x: 0, y: 0 }) == 0);
            assert(2 * SPEED_CAP * SPEED_CAP >= 0) by (nonlinear_arith);
        }
        Projectile {
            id,
            pos,
            vel: Vec2Fx::zero(),
            projectile_type: ProjectileType::Pulse,
            stats,
            time_remaining: stats.time_to_live,
            source_pos: pos,
        }
    }

    /// Spawn a homing missile, initially travelling in `direction`.
    pub fn spawn_homing_missile(id: u64, pos: Vec2Fx, direction: Vec2Fx, stats: ProjectileStats)
        -> (p: Projectile)
        requires
            projectile_stats_wf(ProjectileType::HomingMissile, stats),
            v2_in(pos, POS_LIMIT as int),
            v2_in(direction, crate::vec2::NORM_COORD_LIMIT as int),
            len2_spec(direction) > 0,
        ensures
            p.id == id,
            p.pos == pos,
            p.source_pos == pos,
            p.vel == normalize_to_spec(direction, stats.speed as int),
            p.projectile_type == ProjectileType::HomingMissile,
            p.stats == stats,
            p.time_remaining == stats.time_to_live,
            projectile_wf(p),
    {
        let vel = direction.normalize_to(stats.speed);
        proof {
            lemma_vel_from_speed(vel, stats.speed as int);
        }
        Projectile {
            id,
            pos,
            vel,
            projectile_type: ProjectileType::HomingMissile,
            stats,
            time_remaining: stats.time_to_live,
            source_pos: pos,
        }
    }

    /// One tick of motion: the countdown decreases (floored at zero) and
    /// the projectile moves by `vel * dt`, except a pulse, which stays
    /// anchored at its source.
    pub fn update(&mut self, dt: i64)
        requires
            projectile_wf(*old(self)),
            0 <= dt <= FX_ONE,
        ensures
            final(self).id == old(self).id,
            final(self).vel == old(self).vel,
            final(self).projectile_type == old(self).projectile_type,
            final(self).stats == old(self).stats,
            final(self).source_pos == old(self).source_pos,
            final(self).time_remaining == tick_down_spec(old(self).time_remaining as int, dt as int),
            final(self).pos == moved_pos_spec(*old(self), dt as int),
            projectile_wf(*final(self)),
    {
        if self.time_remaining > dt {
            self.time_remaining = self.time_remaining - dt;
        } else {
            self.time_remaining = 0;
        }
        match self.projectile_type {
            ProjectileType::EnergyBall | ProjectileType::HomingMissile => {
                proof {
                    assert(-(0x1000000i64 * 1024) <= self.vel.x * dt <= 0x1000000i64 * 1024
                        && -(0x1000000i64 * 1024) <= self.vel.y * dt <= 0x1000000i64 * 1024)
                        by (nonlinear_arith)
                        requires -0x1000000 <= self.vel.x <= 0x1000000,
                            -0x1000000 <= self.vel.y <= 0x1000000, 0 <= dt <= 1024;
                    crate::trig::lemma_div_trunc_abs(self.vel.x * dt, 0x400000int * 1024, FX_ONE as int);
                    crate::trig::lemma_div_trunc_abs(self.vel.y * dt, 0x400000int * 1024, FX_ONE as int);
                }
                let step = Vec2Fx::new(
                    div_fx(self.vel.x * dt, FX_ONE),
                    div_fx(self.vel.y * dt, FX_ONE),
                );
                self.pos = self.pos.plus_clamped(step, POS_LIMIT);
            },
            ProjectileType::Pulse => {
                self.pos = self.source_pos;
            },
        }
    }

    /// Whether the projectile's lifetime has run out.
    pub fn is_expired(&self) -> (r: bool)
        ensures
            r == (self.time_remaining <= 0),
    {
        self.time_remaining <= 0
    }

    /// Damage carried by one hit of this projectile.
    pub fn damage(&self) -> (d: i64)
        ensures
            d == self.stats.damage,
    {
        self.stats.damage
    }

    /// Retarget a homing missile toward the first nearest enemy; any other
    /// projectile, and a missile with nothing to chase, is left untouched.
    pub fn update_homing(&mut self, enemies: &Vec<Enemy>)
        requires
            projectile_wf(*old(self)),
            forall|j: int| 0 <= j < enemies@.len() ==> v2_in(#[trigger] enemies@[j].pos, POS_LIMIT as int),
        ensures
            final(self).id == old(self).id,
            final(self).pos == old(self).pos,
            final(self).projectile_type == old(self).projectile_type,
            final(self).stats == old(self).stats,
            final(self).source_pos == old(self).source_pos,
            final(self).time_remaining == old(self).time_remaining,
            old(self).projectile_type != ProjectileType::HomingMissile ==> final(self).vel == old(
                self,
            ).vel,
            enemies@.len() == 0 ==> final(self).vel == old(self).vel,
            forall|k: int|
                is_first_nearest(enemies@, old(self).pos, k) ==> final(self).vel
                    == homing_new_vel(*old(self), enemies@[k].pos),
            old(self).projectile_type == ProjectileType::HomingMissile && enemies@.len() > 0
                ==> exists|k: int| is_first_nearest(enemies@, old(self).pos, k),
            projectile_wf(*final(self)),
    {
        if !matches!(self.projectile_type, ProjectileType::HomingMissile) {
            proof {
                lemma_homing_vel_wf(*self);
            }
            return ;
        }
        if enemies.len() == 0 {
            proof {
                lemma_homing_vel_wf(*self);
            }
            return ;
        }
        let k = find_nearest(enemies, self.pos);
        let target = enemies[k].pos;
        let new_vel = homing_turn(*self, target);
        proof {
            lemma_homing_vel_wf(*self);
            assert forall|k2: int| is_first_nearest(enemies@, self.pos, k2) implies homing_new_vel(
                *self,
                enemies@[k2].pos,
            ) == new_vel by {
                lemma_first_nearest_unique(enemies@, self.pos, k as int, k2);
            }
        }
        self.vel = new_vel;
    }
}

/// Floor-at-zero countdown.
pub open spec fn tick_down_spec(t: int, dt: int) -> int {
    if t > dt {
        t - dt
    } else {
        0
    }
}

/// Position after one tick of motion: pulses sit on their source, the
/// rest move by `vel * dt`, coordinates saturating at the world bounds.
pub open spec fn moved_pos_spec(p: Projectile, dt: int) -> Vec2Fx {
    match p.projectile_type {
        ProjectileType::Pulse => p.source_pos,
        _ => Vec2Fx {
            x: crate::fixed::clamp_spec(
                p.pos.x + div_trunc(p.vel.x * dt, FX_ONE as int),
                -POS_LIMIT as int,
                POS_LIMIT as int,
            ) as i64,
            y: crate::fixed::clamp_spec(
                p.pos.y + div_trunc(p.vel.y * dt, FX_ONE as int),
                -POS_LIMIT as int,
                POS_LIMIT as int,
            ) as i64,
        },
    }
}

/// Squared distance from an enemy to a point.
pub open spec fn enemy_dist2(e: Enemy, p: Vec2Fx) -> int {
    len2_spec(Vec2Fx { x: (e.pos.x - p.x) as i64, y: (e.pos.y - p.y) as i64 })
}

/// `k` is the first index attaining the minimal squared distance to `p`.
pub open spec fn is_first_nearest(s: Seq<Enemy>, p: Vec2Fx, k: int) -> bool {
    &&& 0 <= k < s.len()
    &&& forall|j: int| 0 <= j < s.len() ==> enemy_dist2(#[trigger] s[j], p) >= enemy_dist2(s[k], p)
    &&& forall|j: int| 0 <= j < k ==> enemy_dist2(#[trigger] s[j], p) > enemy_dist2(s[k], p)
}

/// The first nearest enemy's index, as a function of the state; only
/// meaningful while some enemy exists.
pub open spec fn first_nearest_index(s: Seq<Enemy>, p: Vec2Fx) -> int {
    choose|k: int| is_first_nearest(s, p, k)
}

/// The projectile after one tick of motion (no retargeting yet).
pub open spec fn projectile_moved_spec(p: Projectile, dt: int) -> Projectile {
    Projectile {
        pos: moved_pos_spec(p, dt),
        time_remaining: tick_down_spec(p.time_remaining as int, dt) as i64,
        ..p
    }
}

/// There is at most one first-nearest index.
pub proof fn lemma_first_nearest_unique(s: Seq<Enemy>, p: Vec2Fx, k1: int, k2: int)
    requires
        is_first_nearest(s, p, k1),
        is_first_nearest(s, p, k2),
    ensures
        k1 == k2,
{
    if k1 < k2 {
        assert(enemy_dist2(s[k1], p) > enemy_dist2(s[k2], p));
        assert(enemy_dist2(s[k1], p) >= enemy_dist2(s[k2], p));
        assert(enemy_dist2(s[k2], p) >= enemy_dist2(s[k1], p));
    }
    if k2 < k1 {
        assert(enemy_dist2(s[k2], p) > enemy_dist2(s[k1], p));
        assert(enemy_dist2(s[k1], p) >= enemy_dist2(s[k2], p));
        assert(enemy_dist2(s[k2], p) >= enemy_dist2(s[k1], p));
    }
}

/// Find the first enemy index with minimal squared distance to `p`.
fn find_nearest(enemies: &Vec<Enemy>, p: Vec2Fx) -> (r: usize)
    requires
        enemies@.len() > 0,
        forall|j: int| 0 <= j < enemies@.len() ==> v2_in(#[trigger] enemies@[j].pos, POS_LIMIT as int),
        v2_in(p, POS_LIMIT as int),
    ensures
        is_first_nearest(enemies@, p, r as int),
{
    let mut best: usize = 0;
    let mut best_d2: i128 = enemies[0].pos.minus(p).len2_wide();
    let mut i: usize = 1;
    while i < enemies.len()
        invariant
            1 <= i <= enemies@.len(),
            0 <= best < i,
            forall|j: int| 0 <= j < enemies@.len() ==> v2_in(
                #[trigger] enemies@[j].pos,
                POS_LIMIT as int,
            ),
            v2_in(p, POS_LIMIT as int),
            best_d2 == enemy_dist2(enemies@[best as int], p),
            forall|j: int| 0 <= j < i ==> enemy_dist2(#[trigger] enemies@[j], p) >= best_d2,
            forall|j: int| 0 <= j < best ==> enemy_dist2(#[trigger] enemies@[j], p) > best_d2,
        decreases enemies@.len() - i,
    {
        let d2: i128 = enemies[i].pos.minus(p).len2_wide();
        if d2 < best_d2 {
            best = i;
            best_d2 = d2;
        }
        i = i + 1;
    }
    best
}

/// New velocity of a homing missile chasing `target`. With no turn
/// capability, or when already pointed at the target, the velocity is
/// unchanged; otherwise the velocity rotates by the stored turn pair
/// toward the target and is rescaled onto the stats' speed (so constant
/// turning does not erode the speed), snapping onto the exact bearing
/// when the rotation would cross it.
pub open spec fn homing_new_vel(p: Projectile, target: Vec2Fx) -> Vec2Fx {
    let t = Vec2Fx { x: (target.x - p.pos.x) as i64, y: (target.y - p.pos.y) as i64 };
    let s = p.stats.turning_rate;
    if p.projectile_type != ProjectileType::HomingMissile || len2_spec(t) == 0 || s == 0 {
        p.vel
    } else {
        let cross = p.vel.x * t.y - p.vel.y * t.x;
        let dot = p.vel.x * t.x + p.vel.y * t.y;
        if cross == 0 && dot >= 0 {
            p.vel
        } else {
            let c = sqrt_floor(FX_ONE * FX_ONE - s * s);
            let sgn: int = if cross >= 0 {
                1
            } else {
                -1
            };
            let w = rotate_pair_spec(p.vel, c, sgn * s);
            let cross2 = w.x * t.y - w.y * t.x;
            if sgn * cross2 > 0 {
                if len2_spec(w) > 0 {
                    normalize_to_spec(w, p.stats.speed as int)
                } else {
                    w
                }
            } else {
                normalize_to_spec(t, p.stats.speed as int)
            }
        }
    }
}


/// A homing missile with no turn capability never changes heading: with
/// `turning_rate` zero the retargeting step returns the velocity
/// unchanged, whatever the target is.
pub proof fn lemma_zero_turning_keeps_heading(p: Projectile, target: Vec2Fx)
    requires
        p.stats.turning_rate == 0,
    ensures
        homing_new_vel(p, target) == p.vel,
{
}

/// Executable twin of `homing_new_vel`.
fn homing_turn(p: Projectile, target: Vec2Fx) -> (r: Vec2Fx)
    requires
        projectile_wf(p),
        p.projectile_type == ProjectileType::HomingMissile,
        v2_in(target, POS_LIMIT as int),
    ensures
        r == homing_new_vel(p, target),
        v2_in(r, MAG_LIMIT as int),
        len2_spec(r) <= 2 * SPEED_CAP * SPEED_CAP,
{
    let t = target.minus(p.pos);
    let tl2: i128 = t.len2_wide();
    let s = p.stats.turning_rate;
    proof {
        lemma_homing_vel_wf(p);
    }
    if tl2 == 0 || s == 0 {
        return p.vel;
    }
    let cross: i128 = p.vel.cross_wide(t);
    let dot: i128 = p.vel.dot_wide(t);
    if cross == 0 && dot >= 0 {
        return p.vel;
    }
    proof {
        assert(0 <= FX_ONE * FX_ONE - s * s <= 1024 * 1024) by (nonlinear_arith)
            requires 0 <= s <= 1024;
        lemma_sqrt_floor_bounds(FX_ONE * FX_ONE - s * s);
    }
    let c64: i64 = isqrt((FX_ONE * FX_ONE - s * s) as u128) as i64;
    proof {
        let c = sqrt_floor(FX_ONE * FX_ONE - s * s);
        assert(c * c <= FX_ONE * FX_ONE - s * s);
        assert(c <= 1024) by (nonlinear_arith)
            requires c >= 0, c * c <= 1024 * 1024 - s * s, 0 <= s <= 1024;
    }
    let sgn_s: i64 = if cross >= 0 {
        s
    } else {
        -s
    };
    let w = rotate_pair(p.vel, c64, sgn_s);
    proof {
        let c = sqrt_floor(FX_ONE * FX_ONE - s * s);
        assert(c * c + (sgn_s as int) * (sgn_s as int) <= 1024 * 1024) by (nonlinear_arith)
            requires c >= 0, c * c <= 1024 * 1024 - s * s, sgn_s == s || sgn_s == -s,
                0 <= s <= 1024;
        lemma_rotate_pair_len2(p.vel, c as int, sgn_s as int);
        lemma_len2_nonneg(w);
        assert(2 * SPEED_CAP * SPEED_CAP < MAG_LIMIT * MAG_LIMIT) by (nonlinear_arith);
        lemma_coord_from_len2(w, MAG_LIMIT as int);
    }
    let cross2: i128 = w.cross_wide(t);
    proof {
        let sg: int = if cross >= 0 { 1int } else { -1int };
        assert(t == (Vec2Fx { x: (target.x - p.pos.x) as i64, y: (target.y - p.pos.y) as i64 }));
        assert(cross == p.vel.x * t.y - p.vel.y * t.x);
        assert(c64 == sqrt_floor(FX_ONE * FX_ONE - p.stats.turning_rate * p.stats.turning_rate));
        assert(sgn_s == sg * p.stats.turning_rate);
        assert(w == rotate_pair_spec(p.vel, c64 as int, sgn_s as int));
        assert(cross2 == w.x * t.y - w.y * t.x);
    }
    let crossed: bool = if cross >= 0 {
        cross2 > 0
    } else {
        cross2 < 0
    };
    if crossed {
        let wl2: i128 = w.len2_wide();
        if wl2 > 0 {
            let rescaled = w.normalize_to(p.stats.speed);
            proof {
                lemma_vel_from_speed(rescaled, p.stats.speed as int);
                let sg: int = if cross >= 0 { 1int } else { -1int };
                assert(sg * (w.x * t.y - w.y * t.x) > 0);
                assert(len2_spec(w) > 0);
                assert(rescaled == normalize_to_spec(w, p.stats.speed as int));
                assert(homing_new_vel(p, target) == rescaled);
            }
            rescaled
        } else {
            proof {
                assert(len2_spec(w) == 0);
                assert(homing_new_vel(p, target) == w);
            }
            w
        }
    } else {
        let snapped = t.normalize_to(p.stats.speed);
        proof {
            lemma_vel_from_speed(snapped, p.stats.speed as int);
        }
        snapped
    }
}

/// A velocity whose coordinates stay within a speed below the cap has a
/// well-formed squared length.
proof fn lemma_vel_from_speed(v: Vec2Fx, m: int)
    requires
        0 <= m <= SPEED_CAP,
        v2_in(v, m),
    ensures
        v2_in(v, MAG_LIMIT as int),
        len2_spec(v) <= 2 * SPEED_CAP * SPEED_CAP,
{
    assert(v.x * v.x <= SPEED_CAP * SPEED_CAP && v.y * v.y <= SPEED_CAP * SPEED_CAP)
        by (nonlinear_arith)
        requires -SPEED_CAP <= v.x <= SPEED_CAP, -SPEED_CAP <= v.y <= SPEED_CAP;
}

/// A well-formed projectile's velocity bound, restated for reuse.
proof fn lemma_homing_vel_wf(p: Projectile)
    requires
        projectile_wf(p),
    ensures
        v2_in(p.vel, MAG_LIMIT as int),
        len2_spec(p.vel) <= 2 * SPEED_CAP * SPEED_CAP,
{
}

/// The collision shape of a projectile: circles for the moving kinds, the
/// stats' box for a pulse.
impl crate::collision::Collidable for Projectile {
    open spec fn spec_collider(&self) -> Collider {
        match self.projectile_type {
            ProjectileType::EnergyBall | ProjectileType::HomingMissile => Collider::Circle {
                radius: self.stats.radius,
            },
            ProjectileType::Pulse => Collider::Rect {
                width: self.stats.width,
                height: self.stats.height,
            },
        }
    }

    open spec fn spec_position(&self) -> Vec2Fx {
        self.pos
    }

    fn collider(&self) -> (c: Collider) {
        match self.projectile_type {
            ProjectileType::EnergyBall | ProjectileType::HomingMissile => Collider::Circle {
                radius: self.stats.radius,
            },
            ProjectileType::Pulse => Collider::Rect {
                width: self.stats.width,
                height: self.stats.height,
            },
        }
    }

    fn position(&self) -> (r: Vec2Fx) {
        self.pos
    }
}

} // verus!

//! Enemies and their motion models.
//!
//! A `Basic` enemy keeps accelerating along the signs of its current
//! velocity; a `Chaser` steers proportionally toward the player. Both
//! clamp their speed to the stats' ceiling and then move by their
//! velocity, coordinates saturating at the world bounds.

use vstd::prelude::*;

use crate::fixed::{FX_ONE, MAG_LIMIT, POS_LIMIT, div_fx, div_trunc, clamp_spec};
use crate::vec2::{Vec2Fx, v2_in, len2_spec, length_spec, normalize_to_spec, lemma_coord_le_length};
use crate::entity::{EntityStats, entity_stats_wf};
use crate::collision::{Collidable, Collider};

verus! {

#[derive(Debug, Clone, Copy, PartialEq, Eq, Structural)]
pub enum EnemyType {
    Basic,
    Chaser,
}

#[derive(Debug, Clone, Copy)]
pub struct Enemy {
    pub id: u64,
    pub pos: Vec2Fx,
    pub vel: Vec2Fx,
    pub enemy_type: EnemyType,
    pub stats: EntityStats,
}

pub open spec fn enemy_wf(e: Enemy) -> bool {
    &&& entity_stats_wf(e.stats)
    &&& v2_in(e.pos, POS_LIMIT as int)
    &&& v2_in(e.vel, MAG_LIMIT as int)
}

/// Velocity clamped to the stats' ceiling: left alone while its length is
/// within `max_speed`, rescaled onto that length otherwise.
pub open spec fn clamp_vel_spec(v: Vec2Fx, max_speed: int) -> Vec2Fx {
    if length_spec(v) > max_speed {
        normalize_to_spec(v, max_speed)
    } else {
        v
    }
}

/// Basic wander: accelerate along the sign of each velocity coordinate,
/// then clamp to the speed ceiling.
pub open spec fn basic_steer_spec(v: Vec2Fx, acceleration: int, max_speed: int) -> Vec2Fx {
    let pushed = Vec2Fx {
        x: (v.x + (if v.x < 0 { -acceleration } else { acceleration })) as i64,
        y: (v.y + (if v.y < 0 { -acceleration } else { acceleration })) as i64,
    };
    clamp_vel_spec(pushed, max_speed)
}

/// Chaser steering: when further than one world unit from the target, nudge
/// the velocity toward the full-speed bearing by the acceleration fraction,
/// then clamp to the speed ceiling.
pub open spec fn chaser_steer_spec(v: Vec2Fx, pos: Vec2Fx, target: Vec2Fx, acceleration: int, max_speed: int)
    -> Vec2Fx {
    let to_player = Vec2Fx { x: (target.x - pos.x) as i64, y: (target.y - pos.y) as i64 };
    if length_spec(to_player) > FX_ONE {
        let desired = normalize_to_spec(to_player, max_speed);
        let steered = Vec2Fx {
            x: (v.x + div_trunc((desired.x - v.x) * acceleration, FX_ONE as int)) as i64,
            y: (v.y + div_trunc((desired.y - v.y) * acceleration, FX_ONE as int)) as i64,
        };
        clamp_vel_spec(steered, max_speed)
    } else {
        clamp_vel_spec(v, max_speed)
    }
}

/// The steered velocity of one enemy update, before the position moves.
pub open spec fn enemy_steer_spec(e: Enemy, player_pos: Option<Vec2Fx>) -> Vec2Fx {
    match e.enemy_type {
        EnemyType::Basic => basic_steer_spec(e.vel, e.stats.acceleration as int, e.stats.max_speed as int),
        EnemyType::Chaser => match player_pos {
            Option::Some(target) => chaser_steer_spec(
                e.vel,
                e.pos,
                target,
                e.stats.acceleration as int,
                e.stats.max_speed as int,
            ),
            Option::None => basic_steer_spec(
                e.vel,
                e.stats.acceleration as int,
                e.stats.max_speed as int,
            ),
        },
    }
}

/// Position advanced by a velocity, saturating at the world bounds.
pub open spec fn advance_pos_spec(pos: Vec2Fx, vel: Vec2Fx) -> Vec2Fx {
    Vec2Fx {
        x: clamp_spec(pos.x + vel.x, -POS_LIMIT as int, POS_LIMIT as int) as i64,
        y: clamp_spec(pos.y + vel.y, -POS_LIMIT as int, POS_LIMIT as int) as i64,
    }
}

impl Enemy {
    /// Create an enemy aimed at `target` with the given entry speed; when
    /// the target coincides with the spawn point the enemy flies along the
    /// positive x axis instead.
    pub fn spawn(id: u64, pos: Vec2Fx, enemy_type: EnemyType, stats: EntityStats, target: Vec2Fx, speed: i64)
        -> (e: Enemy)
        requires
            entity_stats_wf(stats),
            v2_in(pos, POS_LIMIT as int),
            v2_in(target, POS_LIMIT as int),
            0 <= speed <= stats.max_speed,
        ensures
            e.id == id,
            e.pos == pos,
            e.enemy_type == enemy_type,
            e.stats == stats,
            e.vel == spawn_vel_spec(pos, target, speed as int),
            enemy_wf(e),
    {
        let dir = target.minus(pos);
        let l2: i128 = dir.len2_wide();
        let vel: Vec2Fx = if l2 > 0 {
            dir.normalize_to(speed)
        } else {
            Vec2Fx::new(speed, 0)
        };
        Enemy { id, pos, vel, enemy_type, stats }
    }

    /// Replace the stats, e.g. after a configuration reload; position and
    /// velocity are untouched.
    pub fn override_stats(&mut self, stats: EntityStats)
        requires
            entity_stats_wf(stats),
            enemy_wf(*old(self)),
        ensures
            final(self).id == old(self).id,
            final(self).pos == old(self).pos,
            final(self).vel == old(self).vel,
            final(self).enemy_type == old(self).enemy_type,
            final(self).stats == stats,
            enemy_wf(*final(self)),
    {
        self.stats = stats;
    }

    /// One tick: steer by the motion model for this enemy's type, then
    /// move by the resulting velocity.
    pub fn update(&mut self, player_pos: Option<Vec2Fx>)
        requires
            enemy_wf(*old(self)),
            player_pos matches Option::Some(t) ==> v2_in(t, POS_LIMIT as int),
        ensures
            final(self).id == old(self).id,
            final(self).enemy_type == old(self).enemy_type,
            final(self).stats == old(self).stats,
            final(self).vel == enemy_steer_spec(*old(self), player_pos),
            final(self).pos == advance_pos_spec(old(self).pos, final(self).vel),
            v2_in(final(self).vel, old(self).stats.max_speed as int),
            enemy_wf(*final(self)),
    {
        match self.enemy_type {
            EnemyType::Basic => self.update_basic(),
            EnemyType::Chaser => {
                match player_pos {
                    Option::Some(target) => self.update_chaser(target),
                    Option::None => self.update_basic(),
                }
            },
        }
        self.pos = self.pos.plus_clamped(self.vel, POS_LIMIT);
    }

    /// Accelerate along the current velocity's signs, then clamp speed.
    fn update_basic(&mut self)
        requires
            enemy_wf(*old(self)),
        ensures
            final(self).id == old(self).id,
            final(self).pos == old(self).pos,
            final(self).enemy_type == old(self).enemy_type,
            final(self).stats == old(self).stats,
            final(self).vel == basic_steer_spec(
                old(self).vel,
                old(self).stats.acceleration as int,
                old(self).stats.max_speed as int,
            ),
            v2_in(final(self).vel, old(self).stats.max_speed as int),
    {
        let ax: i64 = if self.vel.x < 0 {
            -self.stats.acceleration
        } else {
            self.stats.acceleration
        };
        let ay: i64 = if self.vel.y < 0 {
            -self.stats.acceleration
        } else {
            self.stats.acceleration
        };
        self.vel = Vec2Fx::new(self.vel.x + ax, self.vel.y + ay);
        self.clamp_velocity();
    }

    /// Steer toward the player, then clamp speed.
    fn update_chaser(&mut self, target: Vec2Fx)
        requires
            enemy_wf(*old(self)),
            v2_in(target, POS_LIMIT as int),
        ensures
            final(self).id == old(self).id,
            final(self).pos == old(self).pos,
            final(self).enemy_type == old(self).enemy_type,
            final(self).stats == old(self).stats,
            final(self).vel == chaser_steer_spec(
                old(self).vel,
                old(self).pos,
                target,
                old(self).stats.acceleration as int,
                old(self).stats.max_speed as int,
            ),
            v2_in(final(self).vel, old(self).stats.max_speed as int),
    {
        let to_player = target.minus(self.pos);
        let dist = to_player.length();
        if dist > FX_ONE {
            proof {
                if len2_spec(to_player) == 0 {
                    assert(length_spec(to_player) == 0);
                    assert(false);
                }
            }
            let desired = to_player.normalize_to(self.stats.max_speed);
            proof {
                assert(-(0x2000000i64 * 0x100000i64) <= (desired.x - self.vel.x)
                    * self.stats.acceleration <= 0x2000000i64 * 0x100000i64
                    && -(0x2000000i64 * 0x100000i64) <= (desired.y - self.vel.y)
                    * self.stats.acceleration <= 0x2000000i64 * 0x100000i64) by (nonlinear_arith)
                    requires -0x2000000 <= desired.x - self.vel.x <= 0x2000000,
                        -0x2000000 <= desired.y - self.vel.y <= 0x2000000,
                        0 <= self.stats.acceleration <= 0x100000;
                crate::trig::lemma_div_trunc_abs(
                    (desired.x - self.vel.x) * self.stats.acceleration,
                    0x2000000int * 0x100000int / 1024,
                    FX_ONE as int,
                );
                crate::trig::lemma_div_trunc_abs(
                    (desired.y - self.vel.y) * self.stats.acceleration,
                    0x2000000int * 0x100000int / 1024,
                    FX_ONE as int,
                );
            }
            let sx: i64 = div_fx((desired.x - self.vel.x) * self.stats.acceleration, FX_ONE);
            let sy: i64 = div_fx((desired.y - self.vel.y) * self.stats.acceleration, FX_ONE);
            self.vel = Vec2Fx::new(self.vel.x + sx, self.vel.y + sy);
        }
        self.clamp_velocity();
    }

    /// Rescale the velocity onto the speed ceiling when it exceeds it.
    fn clamp_velocity(&mut self)
        requires
            entity_stats_wf(old(self).stats),
            v2_in(old(self).vel, crate::vec2::NORM_COORD_LIMIT as int),
        ensures
            final(self).id == old(self).id,
            final(self).pos == old(self).pos,
            final(self).enemy_type == old(self).enemy_type,
            final(self).stats == old(self).stats,
            final(self).vel == clamp_vel_spec(old(self).vel, old(self).stats.max_speed as int),
            v2_in(final(self).vel, old(self).stats.max_speed as int),
    {
        let speed = self.vel.length();
        if speed > self.stats.max_speed {
            proof {
                if len2_spec(self.vel) == 0 {
                    assert(length_spec(self.vel) == 0);
                    assert(false);
                }
            }
            self.vel = self.vel.normalize_to(self.stats.max_speed);
        } else {
            proof {
                lemma_coord_le_length(self.vel);
            }
        }
    }
}

/// Velocity an enemy enters the arena with: aimed at `target` and scaled
/// to the entry speed, or along the positive x axis from a degenerate
/// target.
pub open spec fn spawn_vel_spec(pos: Vec2Fx, target: Vec2Fx, speed: int) -> Vec2Fx {
    let dir = Vec2Fx { x: (target.x - pos.x) as i64, y: (target.y - pos.y) as i64 };
    if len2_spec(dir) > 0 {
        normalize_to_spec(dir, speed)
    } else {
        Vec2Fx { x: speed as i64, y: 0 }
    }
}

impl Collidable for Enemy {
    open spec fn spec_collider(&self) -> Collider {
        Collider::Circle { radius: self.stats.radius }
    }

    open spec fn spec_position(&self) -> Vec2Fx {
        self.pos
    }

    fn collider(&self) -> (c: Collider) {
        Collider::Circle { radius: self.stats.radius }
    }

    fn position(&self) -> (p: Vec2Fx) {
        self.pos
    }
}

} // verus!

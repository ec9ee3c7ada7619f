//! The player avatar: input-driven motion with a speed clamp and
//! friction, an aim direction, experience and levels, and up to three
//! distinct weapons.

use vstd::prelude::*;

use crate::fixed::{FX_ONE, MAG_LIMIT, POS_LIMIT, div_fx, div_trunc};
use crate::vec2::{Vec2Fx, v2_in, len2_spec, length_spec, normalize_to_spec,
    lemma_coord_le_length, lemma_normalize_nonzero};
use crate::entity::{EntityStats, entity_stats_wf, SpawnCommand};
use crate::enemy::{clamp_vel_spec, advance_pos_spec};
use crate::collision::{Collidable, Collider};
use crate::weapon::{Weapon, WeaponType, weapon_wf, cooldown_step_spec, fire_next_spec,
    fire_commands_spec, WEAPON_LEVEL_LIMIT};

verus! {

/// Most weapons a player can carry.
pub const WEAPON_SLOTS: usize = 3;

/// Highest player level the experience curve is evaluated for.
pub const PLAYER_LEVEL_LIMIT: u32 = 40000;

pub struct Player {
    pub pos: Vec2Fx,
    pub vel: Vec2Fx,
    pub facing: Vec2Fx,
    pub stats: EntityStats,
    pub weapons: Vec<Weapon>,
    pub xp: u32,
    pub level: u32,
}

/// Weapons are pairwise of distinct types.
pub open spec fn weapons_distinct(ws: Seq<Weapon>) -> bool {
    forall|i: int, j: int|
        0 <= i < j < ws.len() ==> (#[trigger] ws[i]).weapon_type != (#[trigger] ws[j]).weapon_type
}

pub open spec fn player_wf(p: Player) -> bool {
    &&& entity_stats_wf(p.stats)
    &&& v2_in(p.pos, POS_LIMIT as int)
    &&& v2_in(p.vel, MAG_LIMIT as int)
    &&& v2_in(p.facing, FX_ONE as int)
    &&& len2_spec(p.facing) > 0
    &&& p.weapons@.len() <= WEAPON_SLOTS
    &&& (forall|i: int| 0 <= i < p.weapons@.len() ==> weapon_wf(#[trigger] p.weapons@[i]))
    &&& weapons_distinct(p.weapons@)
    &&& p.level <= PLAYER_LEVEL_LIMIT
}

/// Cumulative experience needed to reach `level`: the sum of `5 * i` for
/// `i` from one to `level`, that is `5 * level * (level + 1) / 2`.
pub open spec fn xp_for_level_spec(level: int) -> int {
    5 * level * (level + 1) / 2
}

impl Player {
    /// A fresh player at `(x, y)`: at rest, facing along the positive x
    /// axis, with no weapons and no experience.
    pub fn new(x: i64, y: i64, stats: EntityStats) -> (p: Player)
        requires
            entity_stats_wf(stats),
            -POS_LIMIT <= x <= POS_LIMIT,
            -POS_LIMIT <= y <= POS_LIMIT,
        ensures
            p.pos == (Vec2Fx { x, y }),
            p.vel == (Vec2Fx { x: 0, y: 0 }),
            p.facing == (Vec2Fx { x: FX_ONE as i64, y: 0 }),
            p.stats == stats,
            p.weapons@.len() == 0,
            p.xp == 0,
            p.level == 0,
            player_wf(p),
    {
        let p = Player {
            pos: Vec2Fx::new(x, y),
            vel: Vec2Fx::zero(),
            facing: Vec2Fx::new(FX_ONE, 0),
            stats,
            weapons: Vec::new(),
            xp: 0,
            level: 0,
        };
        proof {
            assert(len2_spec(p.facing) == FX_ONE * FX_ONE);
            assert(FX_ONE * FX_ONE > 0) by (nonlinear_arith);
            assert(len2_spec(p.vel) == 0);
        }
        p
    }

    /// Return to the starting state at `(x, y)`, keeping the stats.
    pub fn reset(&mut self, x: i64, y: i64)
        requires
            player_wf(*old(self)),
            -POS_LIMIT <= x <= POS_LIMIT,
            -POS_LIMIT <= y <= POS_LIMIT,
        ensures
            final(self).pos == (Vec2Fx { x, y }),
            final(self).vel == (Vec2Fx { x: 0, y: 0 }),
            final(self).facing == (Vec2Fx { x: FX_ONE as i64, y: 0 }),
            final(self).stats == old(self).stats,
            final(self).weapons@.len() == 0,
            final(self).xp == 0,
            final(self).level == 0,
            player_wf(*final(self)),
    {
        self.pos = Vec2Fx::new(x, y);
        self.vel = Vec2Fx::zero();
        self.facing = Vec2Fx::new(FX_ONE, 0);
        self.weapons = Vec::new();
        self.xp = 0;
        self.level = 0;
        proof {
            assert(len2_spec(self.facing) == FX_ONE * FX_ONE);
            assert(FX_ONE * FX_ONE > 0) by (nonlinear_arith);
        }
    }

    /// Cumulative experience needed to reach `level`.
    pub fn xp_for_level(level: u32) -> (total: u32)
        requires
            level <= PLAYER_LEVEL_LIMIT + 1,
        ensures
            total == xp_for_level_spec(level as int),
    {
        let mut total: u32 = 0;
        let mut i: u32 = 0;
        while i < level
            invariant
                0 <= i <= level <= PLAYER_LEVEL_LIMIT + 1,
                total == xp_for_level_spec(i as int),
                total <= 5 * 40001 * 40002 / 2,
            decreases level - i,
        {
            proof {
                assert(xp_for_level_spec(i as int) + 5 * (i + 1) == xp_for_level_spec(i + 1)
                    && xp_for_level_spec(i + 1) <= 5 * 40001 * 40002 / 2) by (nonlinear_arith)
                    requires 0 <= i <= 40001 - 1;
            }
            i = i + 1;
            total = total + 5 * i;
        }
        total
    }

    /// Experience needed to reach the next level from the current one.
    pub fn xp_for_next_level(&self) -> (total: u32)
        requires
            player_wf(*self),
        ensures
            total == xp_for_level_spec(self.level + 1),
    {
        Player::xp_for_level(self.level + 1)
    }

    /// Award experience; reports whether a level was gained. At most one
    /// level is gained per call, and none once the level cap is reached.
    pub fn add_xp(&mut self, xp: u32) -> (leveled: bool)
        requires
            player_wf(*old(self)),
            old(self).xp + xp <= u32::MAX,
        ensures
            final(self).xp == old(self).xp + xp,
            leveled == (old(self).level < PLAYER_LEVEL_LIMIT && old(self).xp + xp
                >= xp_for_level_spec(old(self).level + 1)),
            final(self).level == if leveled {
                old(self).level + 1
            } else {
                old(self).level as int
            },
            final(self).pos == old(self).pos && final(self).vel == old(self).vel && final(self).facing == old(self).facing && final(self).stats == old(self).stats && final(self).weapons == old(self).weapons,
            player_wf(*final(self)),
    {
        self.xp = self.xp + xp;
        if self.level < PLAYER_LEVEL_LIMIT {
            let threshold = Player::xp_for_level(self.level + 1);
            if self.xp >= threshold {
                self.level = self.level + 1;
                return true;
            }
        }
        false
    }

    pub fn get_level(&self) -> (l: u32)
        ensures
            l == self.level,
    {
        self.level
    }

    pub fn get_xp(&self) -> (x: u32)
        ensures
            x == self.xp,
    {
        self.xp
    }

    pub fn get_weapons(&self) -> (ws: &Vec<Weapon>)
        ensures
            ws == &self.weapons,
    {
        &self.weapons
    }

    /// The first weapon slot holding the given type, if any.
    pub fn weapon_position(&self, weapon_type: WeaponType) -> (r: Option<usize>)
        ensures
            match r {
                Option::Some(i) => i < self.weapons@.len() && self.weapons@[i as int].weapon_type
                    == weapon_type && forall|j: int|
                    0 <= j < i ==> (#[trigger] self.weapons@[j]).weapon_type != weapon_type,
                Option::None => forall|j: int|
                    0 <= j < self.weapons@.len() ==> (#[trigger] self.weapons@[j]).weapon_type
                        != weapon_type,
            },
    {
        let mut i: usize = 0;
        while i < self.weapons.len()
            invariant
                0 <= i <= self.weapons@.len(),
                forall|j: int| 0 <= j < i ==> (#[trigger] self.weapons@[j]).weapon_type
                    != weapon_type,
            decreases self.weapons@.len() - i,
        {
            if weapon_type_eq(self.weapons[i].weapon_type, weapon_type) {
                return Option::Some(i);
            }
            i = i + 1;
        }
        Option::None
    }

    /// Add a new weapon of a type not yet carried, in a free slot.
    pub fn add_weapon(&mut self, weapon_type: WeaponType)
        requires
            player_wf(*old(self)),
            old(self).weapons@.len() < WEAPON_SLOTS,
            forall|j: int| 0 <= j < old(self).weapons@.len() ==> (#[trigger] old(self).weapons@[j]).weapon_type != weapon_type,
        ensures
            final(self).weapons@.len() == old(self).weapons@.len() + 1,
            final(self).weapons@[old(self).weapons@.len() as int] == (crate::weapon::Weapon {
                weapon_type,
                level: 1,
                cooldown_remaining: 0,
                stats: crate::weapon::base_stats_spec(weapon_type),
            }),
            forall|j: int| 0 <= j < old(self).weapons@.len() ==> final(self).weapons@[j] == old(self).weapons@[j],
            final(self).pos == old(self).pos && final(self).vel == old(self).vel && final(self).facing == old(self).facing && final(self).stats == old(self).stats && final(self).xp
                == old(self).xp && final(self).level == old(self).level,
            player_wf(*final(self)),
    {
        let weapon = Weapon::new(weapon_type);
        self.weapons.push(weapon);
    }

    /// Level up the weapon in the given slot; slots out of range, or a
    /// weapon already at the level cap, are left untouched.
    pub fn level_up_weapon(&mut self, index: usize)
        requires
            player_wf(*old(self)),
        ensures
            final(self).weapons@.len() == old(self).weapons@.len(),
            forall|j: int|
                0 <= j < old(self).weapons@.len() && j != index ==> final(self).weapons@[j] == old(self).weapons@[j],
            index < old(self).weapons@.len() && old(self).weapons@[index as int].level
                < WEAPON_LEVEL_LIMIT ==> final(self).weapons@[index as int]
                == crate::weapon::level_up_spec(old(self).weapons@[index as int]),
            index < old(self).weapons@.len() && old(self).weapons@[index as int].level
                >= WEAPON_LEVEL_LIMIT ==> final(self).weapons@[index as int] == old(self).weapons@[index as int],
            final(self).pos == old(self).pos && final(self).vel == old(self).vel && final(self).facing == old(self).facing && final(self).stats == old(self).stats && final(self).xp
                == old(self).xp && final(self).level == old(self).level,
            player_wf(*final(self)),
    {
        if index < self.weapons.len() {
            let w = &self.weapons[index];
            if w.get_level() < WEAPON_LEVEL_LIMIT {
                let mut w2 = self.weapons[index];
                w2.level_up();
                self.weapons.set(index, w2);
            }
        }
    }

    /// Replace the stats, e.g. after a configuration reload.
    pub fn override_stats(&mut self, stats: EntityStats)
        requires
            player_wf(*old(self)),
            entity_stats_wf(stats),
        ensures
            *final(self) == (Player { stats, ..*old(self) }),
            player_wf(*final(self)),
    {
        self.stats = stats;
    }

    /// Apply one tick of input: accelerate along the pressed cardinal
    /// directions, re-aim at the cursor when it is more than one world
    /// unit away, and clamp the speed.
    pub fn apply_input(&mut self, left: bool, right: bool, up: bool, down: bool, cursor: Vec2Fx)
        requires
            player_wf(*old(self)),
            v2_in(cursor, POS_LIMIT as int),
        ensures
            final(self).vel == clamp_vel_spec(
                input_pushed_vel(*old(self), left, right, up, down),
                old(self).stats.max_speed as int,
            ),
            final(self).facing == input_facing(*old(self), cursor),
            final(self).pos == old(self).pos && final(self).stats == old(self).stats && final(self).weapons == old(self).weapons && final(self).xp == old(self).xp && final(self).level
                == old(self).level,
            player_wf(*final(self)),
    {
        let mut ax: i64 = 0;
        let mut ay: i64 = 0;
        if left {
            ax = ax - self.stats.acceleration;
        }
        if right {
            ax = ax + self.stats.acceleration;
        }
        if up {
            ay = ay - self.stats.acceleration;
        }
        if down {
            ay = ay + self.stats.acceleration;
        }
        self.vel = Vec2Fx::new(self.vel.x + ax, self.vel.y + ay);

        let to_cursor = cursor.minus(self.pos);
        let dist = to_cursor.length();
        if dist > FX_ONE {
            proof {
                if len2_spec(to_cursor) == 0 {
                    assert(length_spec(to_cursor) == 0);
                    assert(false);
                }
                lemma_normalize_nonzero(to_cursor, FX_ONE as int);
            }
            self.facing = to_cursor.normalize_to(FX_ONE);
            proof {
                crate::vec2::lemma_len2_nonneg(self.facing);
            }
        }
        self.clamp_velocity();
    }

    /// One tick of motion: move by the velocity, apply friction for the
    /// next tick, let each weapon's cooldown advance and collect every
    /// spawn request the weapons emit at the new position.
    pub fn update(&mut self, dt: i64) -> (commands: Vec<SpawnCommand>)
        requires
            player_wf(*old(self)),
            0 <= dt <= MAG_LIMIT,
        ensures
            final(self).pos == advance_pos_spec(old(self).pos, old(self).vel),
            final(self).vel == friction_vel_spec(old(self).vel, old(self).stats.friction as int),
            final(self).facing == old(self).facing && final(self).stats == old(self).stats
                && final(self).xp == old(self).xp && final(self).level == old(self).level,
            final(self).weapons@.len() == old(self).weapons@.len(),
            forall|i: int|
                0 <= i < old(self).weapons@.len() ==> final(self).weapons@[i] == fire_next_spec(
                    cooldown_step_spec(#[trigger] old(self).weapons@[i], dt as int),
                ),
            commands@ == weapons_fire_spec(
                old(self).weapons@,
                dt as int,
                advance_pos_spec(old(self).pos, old(self).vel),
                old(self).facing,
            ),
            forall|i: int| 0 <= i < commands@.len() ==> crate::entity::spawn_command_wf(
                #[trigger] commands@[i],
            ),
            player_wf(*final(self)),
    {
        self.pos = self.pos.plus_clamped(self.vel, POS_LIMIT);
        proof {
            assert(-(0x1000000i64 * 1024) <= self.vel.x * self.stats.friction <= 0x1000000i64
                * 1024 && -(0x1000000i64 * 1024) <= self.vel.y * self.stats.friction
                <= 0x1000000i64 * 1024) by (nonlinear_arith)
                requires -0x1000000 <= self.vel.x <= 0x1000000, -0x1000000 <= self.vel.y
                    <= 0x1000000, 0 <= self.stats.friction <= 1024;
            crate::trig::lemma_div_trunc_abs(
                self.vel.x * self.stats.friction,
                MAG_LIMIT as int,
                FX_ONE as int,
            );
            crate::trig::lemma_div_trunc_abs(
                self.vel.y * self.stats.friction,
                MAG_LIMIT as int,
                FX_ONE as int,
            );
        }
        let fx: i64 = div_fx(self.vel.x * self.stats.friction, FX_ONE);
        let fy: i64 = div_fx(self.vel.y * self.stats.friction, FX_ONE);
        self.vel = Vec2Fx::new(fx, fy);

        let ghost pre_weapons = self.weapons@;
        let ghost mid = *self;
        let mut commands: Vec<SpawnCommand> = Vec::new();
        let mut i: usize = 0;
        while i < self.weapons.len()
            invariant
                0 <= i <= self.weapons@.len(),
                self.weapons@.len() == pre_weapons.len(),
                self.pos == mid.pos,
                self.vel == mid.vel,
                self.facing == mid.facing,
                self.stats == mid.stats,
                self.xp == mid.xp,
                self.level == mid.level,
                v2_in(self.pos, POS_LIMIT as int),
                v2_in(self.vel, MAG_LIMIT as int),
                v2_in(self.facing, FX_ONE as int),
                len2_spec(self.facing) > 0,
                entity_stats_wf(self.stats),
                self.level <= PLAYER_LEVEL_LIMIT,
                weapons_distinct_types(pre_weapons, self.weapons@),
                0 <= dt <= MAG_LIMIT,
                forall|j: int| 0 <= j < pre_weapons.len() ==> weapon_wf(#[trigger] pre_weapons[j]),
                forall|j: int| i <= j < pre_weapons.len() ==> self.weapons@[j]
                    == #[trigger] pre_weapons[j],
                forall|j: int|
                    0 <= j < i ==> self.weapons@[j] == fire_next_spec(
                        cooldown_step_spec(#[trigger] pre_weapons[j], dt as int),
                    ),
                forall|j: int| 0 <= j < self.weapons@.len() ==> weapon_wf(
                    #[trigger] self.weapons@[j],
                ),
                commands@ == weapons_fire_spec(pre_weapons.take(i as int), dt as int, self.pos, self.facing),
                forall|j: int| 0 <= j < commands@.len() ==> crate::entity::spawn_command_wf(
                    #[trigger] commands@[j],
                ),
            decreases self.weapons@.len() - i,
        {
            let mut w = self.weapons[i];
            w.update(dt);
            let mut fired = w.fire(self.pos, self.facing);
            proof {
                let pre = pre_weapons.take(i as int);
                let cur = pre_weapons.take(i as int + 1);
                assert(cur.drop_last() =~= pre);
                assert(cur.last() == pre_weapons[i as int]);
                lemma_weapons_fire_step(pre_weapons, i as int, dt as int, self.pos, self.facing);
            }
            commands.append(&mut fired);
            self.weapons.set(i, w);
            i = i + 1;
        }
        proof {
            assert(pre_weapons.take(pre_weapons.len() as int) =~= pre_weapons);
        }
        commands
    }

    /// Rescale the velocity onto the speed ceiling when it exceeds it.
    fn clamp_velocity(&mut self)
        requires
            entity_stats_wf(old(self).stats),
            v2_in(old(self).vel, crate::vec2::NORM_COORD_LIMIT as int),
        ensures
            final(self).vel == clamp_vel_spec(old(self).vel, old(self).stats.max_speed as int),
            v2_in(final(self).vel, old(self).stats.max_speed as int),
            final(self).pos == old(self).pos && final(self).facing == old(self).facing && final(self).stats == old(self).stats && final(self).weapons == old(self).weapons && final(self).xp == old(self).xp && final(self).level == old(self).level,
    {
        let speed = self.vel.length();
        if speed > self.stats.max_speed {
            proof {
                if len2_spec(self.vel) == 0 {
                    assert(length_spec(self.vel) == 0);
                    assert(false);
                }
            }
            self.vel = self.vel.normalize_to(self.stats.max_speed);
        } else {
            proof {
                lemma_coord_le_length(self.vel);
            }
        }
    }
}

/// The velocity after the cardinal input impulses, before the clamp.
/// Opposite directions cancel; diagonals are not normalized.
pub open spec fn input_pushed_vel(p: Player, left: bool, right: bool, up: bool, down: bool)
    -> Vec2Fx {
    let acc = p.stats.acceleration;
    let ax = (if left { -acc as int } else { 0 }) + (if right { acc as int } else { 0 });
    let ay = (if up { -acc as int } else { 0 }) + (if down { acc as int } else { 0 });
    Vec2Fx { x: (p.vel.x + ax) as i64, y: (p.vel.y + ay) as i64 }
}

/// The aim after one input tick: re-aimed at the cursor when it is more
/// than one world unit away, otherwise kept (a deadzone against flicker).
pub open spec fn input_facing(p: Player, cursor: Vec2Fx) -> Vec2Fx {
    let to_cursor = Vec2Fx { x: (cursor.x - p.pos.x) as i64, y: (cursor.y - p.pos.y) as i64 };
    if length_spec(to_cursor) > FX_ONE {
        normalize_to_spec(to_cursor, FX_ONE as int)
    } else {
        p.facing
    }
}

/// The velocity after one tick of friction.
pub open spec fn friction_vel_spec(v: Vec2Fx, friction: int) -> Vec2Fx {
    Vec2Fx {
        x: div_trunc(v.x * friction, FX_ONE as int) as i64,
        y: div_trunc(v.y * friction, FX_ONE as int) as i64,
    }
}

/// All spawn requests the weapons emit in one tick, in slot order, each
/// weapon's cooldown having first advanced by `dt`.
pub open spec fn weapons_fire_spec(ws: Seq<Weapon>, dt: int, pos: Vec2Fx, facing: Vec2Fx)
    -> Seq<SpawnCommand>
    decreases ws.len(),
{
    if ws.len() == 0 {
        Seq::empty()
    } else {
        weapons_fire_spec(ws.drop_last(), dt, pos, facing) + fire_commands_spec(
            cooldown_step_spec(ws.last(), dt),
            pos,
            facing,
        )
    }
}

/// The updated weapons carry the same types slot for slot.
pub open spec fn weapons_distinct_types(pre: Seq<Weapon>, cur: Seq<Weapon>) -> bool {
    cur.len() == pre.len() && forall|j: int|
        0 <= j < pre.len() ==> (#[trigger] cur[j]).weapon_type == pre[j].weapon_type
}

/// One step of the weapons' firing accumulation.
proof fn lemma_weapons_fire_step(ws: Seq<Weapon>, i: int, dt: int, pos: Vec2Fx, facing: Vec2Fx)
    requires
        0 <= i < ws.len(),
    ensures
        weapons_fire_spec(ws.take(i + 1), dt, pos, facing) == weapons_fire_spec(
            ws.take(i),
            dt,
            pos,
            facing,
        ) + fire_commands_spec(cooldown_step_spec(ws[i], dt), pos, facing),
{
    let cur = ws.take(i + 1);
    assert(cur.len() == i + 1);
    assert(cur.drop_last() =~= ws.take(i));
    assert(cur.last() == ws[i]);
}

/// Equality test on weapon types.
fn weapon_type_eq(a: WeaponType, b: WeaponType) -> (r: bool)
    ensures
        r == (a == b),
{
    match (a, b) {
        (WeaponType::EnergyBall, WeaponType::EnergyBall) => true,
        (WeaponType::Pulse, WeaponType::Pulse) => true,
        (WeaponType::HomingMissile, WeaponType::HomingMissile) => true,
        _ => false,
    }
}

impl Collidable for Player {
    open spec fn spec_collider(&self) -> Collider {
        Collider::Circle { radius: self.stats.radius }
    }

    open spec fn spec_position(&self) -> Vec2Fx {
        self.pos
    }

    fn collider(&self) -> (c: Collider) {
        Collider::Circle { radius: self.stats.radius }
    }

    fn position(&self) -> (p: Vec2Fx) {
        self.pos
    }
}

} // verus!

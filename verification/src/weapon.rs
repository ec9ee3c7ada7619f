//! Weapons: cooldown timers, firing patterns and level progression.
//!
//! A weapon fires only when its cooldown has fully elapsed; firing resets
//! the cooldown and emits one spawn request per projectile. Multi-shot
//! patterns fan evenly across `±spread_angle` degrees, both extremes
//! included. Leveling tightens the cooldown toward a per-type floor and
//! raises damage, speed, size or turn rate, saturating at the fixed-point
//! representation's caps.

use vstd::prelude::*;

use crate::fixed::{FX_ONE, MAG_LIMIT, POS_LIMIT, SPEED_CAP, div_fx, div_trunc};
use crate::vec2::{Vec2Fx, v2_in, len2_spec, normalize_to_spec};
use crate::trig::{rotate_deg, rotate_deg_spec};
use crate::entity::SpawnCommand;
use crate::projectile::{ProjectileStats, ProjectileType, projectile_stats_wf};

verus! {

/// Most projectiles one pattern may emit.
pub const FAN_COUNT_LIMIT: u32 = 64;

/// Most levels a weapon can gain.
pub const WEAPON_LEVEL_LIMIT: u32 = 1000000;

#[derive(Debug, Clone, Copy, PartialEq, Eq, Structural)]
pub enum WeaponType {
    EnergyBall,
    Pulse,
    HomingMissile,
}

/// The projectile kind a weapon type emits.
pub open spec fn projectile_type_of(t: WeaponType) -> ProjectileType {
    match t {
        WeaponType::EnergyBall => ProjectileType::EnergyBall,
        WeaponType::Pulse => ProjectileType::Pulse,
        WeaponType::HomingMissile => ProjectileType::HomingMissile,
    }
}

/// Stats of one weapon. `spread_angle` is in whole degrees.
#[derive(Debug, Clone, Copy, PartialEq, Eq, Structural)]
pub struct WeaponStats {
    pub cooldown: i64,
    pub projectile_count: u32,
    pub spread_angle: i64,
    pub projectile_stats: ProjectileStats,
}

pub open spec fn weapon_stats_wf(t: WeaponType, s: WeaponStats) -> bool {
    &&& 0 < s.cooldown <= MAG_LIMIT
    &&& 1 <= s.projectile_count <= FAN_COUNT_LIMIT
    &&& 0 <= s.spread_angle <= 90
    &&& projectile_stats_wf(projectile_type_of(t), s.projectile_stats)
}

/// Baseline stats of each weapon type at level one.
pub open spec fn base_stats_spec(t: WeaponType) -> WeaponStats {
    match t {
        WeaponType::EnergyBall => WeaponStats {
            cooldown: 1536,
            projectile_count: 1,
            spread_angle: 0,
            projectile_stats: crate::projectile::energy_ball_default_spec(),
        },
        WeaponType::Pulse => WeaponStats {
            cooldown: 3072,
            projectile_count: 1,
            spread_angle: 0,
            projectile_stats: crate::projectile::pulse_default_spec(),
        },
        WeaponType::HomingMissile => WeaponStats {
            cooldown: 2048,
            projectile_count: 1,
            spread_angle: 0,
            projectile_stats: crate::projectile::homing_missile_default_spec(),
        },
    }
}

impl From<WeaponType> for WeaponStats {
    fn from(weapon_type: WeaponType) -> (s: WeaponStats) {
        match weapon_type {
            WeaponType::EnergyBall => WeaponStats {
                cooldown: 1536,
                projectile_count: 1,
                spread_angle: 0,
                projectile_stats: ProjectileStats::energy_ball_default(),
            },
            WeaponType::Pulse => WeaponStats {
                cooldown: 3072,
                projectile_count: 1,
                spread_angle: 0,
                projectile_stats: ProjectileStats::pulse_default(),
            },
            WeaponType::HomingMissile => WeaponStats {
                cooldown: 2048,
                projectile_count: 1,
                spread_angle: 0,
                projectile_stats: ProjectileStats::homing_missile_default(),
            },
        }
    }
}

impl vstd::std_specs::convert::FromSpecImpl<WeaponType> for WeaponStats {
    open spec fn obeys_from_spec() -> bool {
        true
    }

    open spec fn from_spec(t: WeaponType) -> WeaponStats {
        base_stats_spec(t)
    }
}

#[derive(Debug, Clone, Copy)]
pub struct Weapon {
    pub weapon_type: WeaponType,
    pub level: u32,
    pub cooldown_remaining: i64,
    pub stats: WeaponStats,
}

pub open spec fn weapon_wf(w: Weapon) -> bool {
    &&& weapon_stats_wf(w.weapon_type, w.stats)
    &&& -MAG_LIMIT <= w.cooldown_remaining <= MAG_LIMIT
    &&& 1 <= w.level <= WEAPON_LEVEL_LIMIT
}

/// Angular offset of the `i`-th projectile in a fan of `count` across
/// `±spread` degrees: the extremes are hit exactly, intermediate angles
/// round toward the lower extreme.
pub open spec fn fan_offset(spread: int, count: int, i: int) -> int {
    if count <= 1 {
        0
    } else {
        -spread + div_trunc(2 * spread * i, count - 1)
    }
}

/// Direction of the `i`-th projectile: the facing rotated by the fan
/// offset, or the facing itself for a single shot or if the rotation
/// degenerates to zero.
pub open spec fn fan_direction(facing: Vec2Fx, spread: int, count: int, i: int) -> Vec2Fx {
    if count <= 1 {
        facing
    } else {
        let d = rotate_deg_spec(facing, fan_offset(spread, count, i));
        if len2_spec(d) > 0 {
            d
        } else {
            facing
        }
    }
}

/// The spawn requests of one firing of an energy ball or missile pattern.
pub open spec fn fan_commands_spec(t: ProjectileType, ws: WeaponStats, pos: Vec2Fx, facing: Vec2Fx)
    -> Seq<SpawnCommand> {
    Seq::new(
        ws.projectile_count as nat,
        |i: int| SpawnCommand::Projectile {
            projectile_type: t,
            pos,
            vel: normalize_to_spec(
                fan_direction(facing, ws.spread_angle as int, ws.projectile_count as int, i),
                ws.projectile_stats.speed as int,
            ),
            stats: ws.projectile_stats,
        },
    )
}

/// All spawn requests of one call to `fire`: none while the cooldown is
/// still running; a pulse ignores facing and spread and drops one pulse at
/// the owner's position; the other types fan.
pub open spec fn fire_commands_spec(w: Weapon, pos: Vec2Fx, facing: Vec2Fx) -> Seq<SpawnCommand> {
    if w.cooldown_remaining > 0 {
        Seq::empty()
    } else {
        match w.weapon_type {
            WeaponType::Pulse => seq![
                SpawnCommand::Projectile {
                    projectile_type: ProjectileType::Pulse,
                    pos,
                    vel: Vec2Fx { x: 0, y: 0 },
                    stats: w.stats.projectile_stats,
                },
            ],
            WeaponType::EnergyBall => fan_commands_spec(
                ProjectileType::EnergyBall,
                w.stats,
                pos,
                facing,
            ),
            WeaponType::HomingMissile => fan_commands_spec(
                ProjectileType::HomingMissile,
                w.stats,
                pos,
                facing,
            ),
        }
    }
}

/// The weapon state after one call to `fire`: the cooldown restarts iff
/// it had elapsed.
pub open spec fn fire_next_spec(w: Weapon) -> Weapon {
    if w.cooldown_remaining > 0 {
        w
    } else {
        Weapon { cooldown_remaining: w.stats.cooldown, ..w }
    }
}

/// The weapon state after `dt` of cooldown has passed.
pub open spec fn cooldown_step_spec(w: Weapon, dt: int) -> Weapon {
    if w.cooldown_remaining > 0 {
        Weapon { cooldown_remaining: (w.cooldown_remaining - dt) as i64, ..w }
    } else {
        w
    }
}

impl Weapon {
    /// A fresh weapon: level one, ready to fire at once.
    pub fn new(weapon_type: WeaponType) -> (w: Weapon)
        ensures
            w.weapon_type == weapon_type,
            w.level == 1,
            w.cooldown_remaining == 0,
            w.stats == base_stats_spec(weapon_type),
            weapon_wf(w),
    {
        let stats = WeaponStats::from(weapon_type);
        Weapon { weapon_type, level: 1, cooldown_remaining: 0, stats }
    }

    /// Let `dt` of time pass on the cooldown. The timer only moves while
    /// it is positive, so no debt beyond one step accumulates.
    pub fn update(&mut self, dt: i64)
        requires
            weapon_wf(*old(self)),
            0 <= dt <= MAG_LIMIT,
        ensures
            *final(self) == cooldown_step_spec(*old(self), dt as int),
            weapon_wf(*final(self)),
    {
        if self.cooldown_remaining > 0 {
            self.cooldown_remaining = self.cooldown_remaining - dt;
        }
    }

    /// Whether the cooldown has fully elapsed.
    pub fn can_fire(&self) -> (r: bool)
        ensures
            r == (self.cooldown_remaining <= 0),
    {
        self.cooldown_remaining <= 0
    }

    /// Fire: no spawn requests while the cooldown runs, otherwise reset
    /// the cooldown and emit the pattern for this weapon type.
    pub fn fire(&mut self, player_pos: Vec2Fx, player_facing: Vec2Fx) -> (commands: Vec<
        SpawnCommand,
    >)
        requires
            weapon_wf(*old(self)),
            v2_in(player_pos, POS_LIMIT as int),
            v2_in(player_facing, 2 * FX_ONE as int),
            len2_spec(player_facing) > 0,
        ensures
            commands@ == fire_commands_spec(*old(self), player_pos, player_facing),
            *final(self) == fire_next_spec(*old(self)),
            weapon_wf(*final(self)),
            forall|i: int| 0 <= i < commands@.len() ==> crate::entity::spawn_command_wf(
                #[trigger] commands@[i],
            ),
    {
        if !self.can_fire() {
            let commands: Vec<SpawnCommand> = Vec::new();
            proof {
                assert(commands@ =~= fire_commands_spec(*self, player_pos, player_facing));
            }
            return commands;
        }
        self.cooldown_remaining = self.stats.cooldown;
        match self.weapon_type {
            WeaponType::Pulse => {
                let mut commands: Vec<SpawnCommand> = Vec::new();
                commands.push(
                    SpawnCommand::Projectile {
                        projectile_type: ProjectileType::Pulse,
                        pos: player_pos,
                        vel: Vec2Fx::zero(),
                        stats: self.stats.projectile_stats,
                    },
                );
                proof {
                    assert(commands@ =~= fire_commands_spec(
                        *old(self),
                        player_pos,
                        player_facing,
                    ));
                }
                commands
            },
            WeaponType::EnergyBall => {
                let commands = fan_fire(
                    &self.stats,
                    ProjectileType::EnergyBall,
                    player_pos,
                    player_facing,
                );
                proof {
                    assert(commands@ =~= fire_commands_spec(
                        *old(self),
                        player_pos,
                        player_facing,
                    ));
                }
                commands
            },
            WeaponType::HomingMissile => {
                let commands = fan_fire(
                    &self.stats,
                    ProjectileType::HomingMissile,
                    player_pos,
                    player_facing,
                );
                proof {
                    assert(commands@ =~= fire_commands_spec(
                        *old(self),
                        player_pos,
                        player_facing,
                    ));
                }
                commands
            },
        }
    }

    /// Current level of this weapon.
    pub fn get_level(&self) -> (l: u32)
        ensures
            l == self.level,
    {
        self.level
    }
}

/// Emit the fan pattern of an energy ball or missile weapon.
fn fan_fire(ws: &WeaponStats, t: ProjectileType, pos: Vec2Fx, facing: Vec2Fx) -> (commands: Vec<
    SpawnCommand,
>)
    requires
        1 <= ws.projectile_count <= FAN_COUNT_LIMIT,
        0 <= ws.spread_angle <= 90,
        projectile_stats_wf(t, ws.projectile_stats),
        t != ProjectileType::Pulse,
        v2_in(pos, POS_LIMIT as int),
        v2_in(facing, 2 * FX_ONE as int),
        len2_spec(facing) > 0,
    ensures
        commands@ == fan_commands_spec(t, *ws, pos, facing),
        forall|i: int| 0 <= i < commands@.len() ==> crate::entity::spawn_command_wf(
            #[trigger] commands@[i],
        ),
{
    let ghost target = fan_commands_spec(t, *ws, pos, facing);
    let mut commands: Vec<SpawnCommand> = Vec::new();
    let count = ws.projectile_count;
    if count == 1 {
        let vel = facing.normalize_to(ws.projectile_stats.speed);
        proof {
            crate::vec2::lemma_normalize_nonzero(facing, ws.projectile_stats.speed as int);
            crate::vec2::lemma_len2_nonneg(vel);
        }
        commands.push(
            SpawnCommand::Projectile {
                projectile_type: t,
                pos,
                vel,
                stats: ws.projectile_stats,
            },
        );
        proof {
            assert(fan_direction(facing, ws.spread_angle as int, 1, 0) == facing);
            assert(commands@ =~= target);
        }
        return commands;
    }
    let mut i: u32 = 0;
    while i < count
        invariant
            2 <= count <= FAN_COUNT_LIMIT,
            count == ws.projectile_count,
            0 <= i <= count,
            0 <= ws.spread_angle <= 90,
            projectile_stats_wf(t, ws.projectile_stats),
            t != ProjectileType::Pulse,
            v2_in(pos, POS_LIMIT as int),
            v2_in(facing, 2 * FX_ONE as int),
            len2_spec(facing) > 0,
            target == fan_commands_spec(t, *ws, pos, facing),
            commands@.len() == i,
            forall|j: int| 0 <= j < i ==> commands@[j] == target[j],
            forall|j: int| 0 <= j < commands@.len() ==> crate::entity::spawn_command_wf(
                #[trigger] commands@[j],
            ),
        decreases count - i,
    {
        proof {
            assert(0 <= 2 * ws.spread_angle * (i as i64) <= 180 * 63) by (nonlinear_arith)
                requires 0 <= ws.spread_angle <= 90, 0 <= i < 64;
        }
        let num: i64 = 2 * ws.spread_angle * (i as i64);
        let offset: i64 = -ws.spread_angle + div_fx(num, (count as i64) - 1);
        proof {
            assert(div_trunc(num as int, count - 1) * (count - 1) <= num
                && div_trunc(num as int, count - 1) >= 0) by (nonlinear_arith)
                requires num >= 0, count - 1 >= 1, div_trunc(num as int, count - 1) == num as int
                    / (count - 1);
            assert(div_trunc(num as int, count - 1) <= 2 * ws.spread_angle) by (nonlinear_arith)
                requires num == 2 * ws.spread_angle * i, 0 <= i <= count - 1, count - 1 >= 1,
                    ws.spread_angle >= 0, div_trunc(num as int, count - 1) == num as int / (count
                    - 1);
        }
        let dir = rotate_deg(facing, offset);
        let l2: i128 = dir.len2_wide();
        let chosen: Vec2Fx = if l2 > 0 {
            dir
        } else {
            facing
        };
        let vel = chosen.normalize_to(ws.projectile_stats.speed);
        proof {
            crate::vec2::lemma_normalize_nonzero(chosen, ws.projectile_stats.speed as int);
            crate::vec2::lemma_len2_nonneg(vel);
        }
        commands.push(
            SpawnCommand::Projectile {
                projectile_type: t,
                pos,
                vel,
                stats: ws.projectile_stats,
            },
        );
        proof {
            assert(fan_direction(facing, ws.spread_angle as int, count as int, i as int)
                == chosen);
            assert(commands@[i as int] == target[i as int]);
        }
        i = i + 1;
    }
    proof {
        assert(commands@ =~= target);
    }
    commands
}


/// Saturating helpers for the progression arithmetic.
pub open spec fn min_i64(a: int, b: int) -> int {
    if a <= b { a } else { b }
}

pub open spec fn max_i64(a: int, b: int) -> int {
    if a >= b { a } else { b }
}

/// The stats after one level gained, per weapon type. Cooldowns decay
/// multiplicatively toward a per-type floor; damage, speed, size and turn
/// rate grow, saturating at the fixed-point caps. Level five and beyond
/// uses a steeper tier with a wider spread.
pub open spec fn level_up_spec(w: Weapon) -> Weapon {
    let lvl = w.level + 1;
    let s = w.stats;
    let p = s.projectile_stats;
    let stats = match w.weapon_type {
        WeaponType::EnergyBall => {
            if lvl >= 5 {
                WeaponStats {
                    cooldown: max_i64(div_trunc(s.cooldown * 85, 100), 102) as i64,
                    projectile_count: min_i64(s.projectile_count + 3, FAN_COUNT_LIMIT as int) as u32,
                    spread_angle: 75,
                    projectile_stats: ProjectileStats {
                        speed: min_i64(div_trunc(p.speed * 125, 100), SPEED_CAP as int) as i64,
                        damage: min_i64(p.damage + 2048, MAG_LIMIT as int) as i64,
                        ..p
                    },
                }
            } else {
                WeaponStats {
                    cooldown: max_i64(div_trunc(s.cooldown * 95, 100), 307) as i64,
                    projectile_count: min_i64(s.projectile_count + 1, FAN_COUNT_LIMIT as int) as u32,
                    spread_angle: 30,
                    projectile_stats: ProjectileStats {
                        speed: min_i64(div_trunc(p.speed * 105, 100), SPEED_CAP as int) as i64,
                        damage: min_i64(p.damage + 2048, MAG_LIMIT as int) as i64,
                        ..p
                    },
                }
            }
        },
        WeaponType::Pulse => {
            if lvl >= 5 {
                WeaponStats {
                    cooldown: max_i64(div_trunc(s.cooldown * 80, 100), 512) as i64,
                    projectile_stats: ProjectileStats {
                        width: min_i64(p.width + 25600, MAG_LIMIT as int) as i64,
                        height: min_i64(p.height + 25600, MAG_LIMIT as int) as i64,
                        damage: min_i64(p.damage + 3072, MAG_LIMIT as int) as i64,
                        time_to_live: min_i64(p.time_to_live + 102, MAG_LIMIT as int) as i64,
                        ..p
                    },
                    ..s
                }
            } else {
                WeaponStats {
                    cooldown: max_i64(div_trunc(s.cooldown * 95, 100), 1024) as i64,
                    projectile_stats: ProjectileStats {
                        width: min_i64(p.width + 15360, MAG_LIMIT as int) as i64,
                        height: min_i64(p.height + 15360, MAG_LIMIT as int) as i64,
                        damage: min_i64(p.damage + 3072, MAG_LIMIT as int) as i64,
                        time_to_live: min_i64(p.time_to_live + 51, MAG_LIMIT as int) as i64,
                        ..p
                    },
                    ..s
                }
            }
        },
        WeaponType::HomingMissile => {
            if lvl >= 5 {
                WeaponStats {
                    cooldown: max_i64(div_trunc(s.cooldown * 85, 100), 102) as i64,
                    projectile_count: min_i64(s.projectile_count + 2, FAN_COUNT_LIMIT as int) as u32,
                    spread_angle: 30,
                    projectile_stats: ProjectileStats {
                        turning_rate: min_i64(div_trunc(p.turning_rate * 125, 100), FX_ONE as int) as i64,
                        speed: min_i64(div_trunc(p.speed * 135, 100), SPEED_CAP as int) as i64,
                        ..p
                    },
                }
            } else {
                WeaponStats {
                    cooldown: max_i64(div_trunc(s.cooldown * 92, 100), 410) as i64,
                    projectile_stats: ProjectileStats {
                        damage: min_i64(p.damage + 4096, MAG_LIMIT as int) as i64,
                        turning_rate: min_i64(div_trunc(p.turning_rate * 115, 100), FX_ONE as int) as i64,
                        speed: min_i64(div_trunc(p.speed * 110, 100), SPEED_CAP as int) as i64,
                        ..p
                    },
                    ..s
                }
            }
        },
    };
    Weapon { level: lvl as u32, stats, ..w }
}

impl Weapon {
    /// Gain one level, improving the stats per this type's progression.
    pub fn level_up(&mut self)
        requires
            weapon_wf(*old(self)),
            old(self).level < WEAPON_LEVEL_LIMIT,
        ensures
            *final(self) == level_up_spec(*old(self)),
            final(self).level == old(self).level + 1,
            weapon_wf(*final(self)),
    {
        self.level = self.level + 1;
        let p = self.stats.projectile_stats;
        match self.weapon_type {
            WeaponType::EnergyBall => {
                if self.level >= 5 {
                    self.stats.cooldown = max_fx(mul_div_100(self.stats.cooldown, 85), 102);
                    self.stats.projectile_count = min_u32(self.stats.projectile_count + 3, FAN_COUNT_LIMIT);
                    self.stats.spread_angle = 75;
                    self.stats.projectile_stats.speed = min_fx(mul_div_100(p.speed, 125), SPEED_CAP);
                    self.stats.projectile_stats.damage = min_fx(p.damage + 2048, MAG_LIMIT);
                } else {
                    self.stats.cooldown = max_fx(mul_div_100(self.stats.cooldown, 95), 307);
                    self.stats.projectile_count = min_u32(self.stats.projectile_count + 1, FAN_COUNT_LIMIT);
                    self.stats.spread_angle = 30;
                    self.stats.projectile_stats.speed = min_fx(mul_div_100(p.speed, 105), SPEED_CAP);
                    self.stats.projectile_stats.damage = min_fx(p.damage + 2048, MAG_LIMIT);
                }
            },
            WeaponType::Pulse => {
                if self.level >= 5 {
                    self.stats.cooldown = max_fx(mul_div_100(self.stats.cooldown, 80), 512);
                    self.stats.projectile_stats.width = min_fx(p.width + 25600, MAG_LIMIT);
                    self.stats.projectile_stats.height = min_fx(p.height + 25600, MAG_LIMIT);
                    self.stats.projectile_stats.damage = min_fx(p.damage + 3072, MAG_LIMIT);
                    self.stats.projectile_stats.time_to_live = min_fx(p.time_to_live + 102, MAG_LIMIT);
                } else {
                    self.stats.cooldown = max_fx(mul_div_100(self.stats.cooldown, 95), 1024);
                    self.stats.projectile_stats.width = min_fx(p.width + 15360, MAG_LIMIT);
                    self.stats.projectile_stats.height = min_fx(p.height + 15360, MAG_LIMIT);
                    self.stats.projectile_stats.damage = min_fx(p.damage + 3072, MAG_LIMIT);
                    self.stats.projectile_stats.time_to_live = min_fx(p.time_to_live + 51, MAG_LIMIT);
                }
            },
            WeaponType::HomingMissile => {
                if self.level >= 5 {
                    self.stats.cooldown = max_fx(mul_div_100(self.stats.cooldown, 85), 102);
                    self.stats.projectile_count = min_u32(self.stats.projectile_count + 2, FAN_COUNT_LIMIT);
                    self.stats.spread_angle = 30;
                    self.stats.projectile_stats.turning_rate = min_fx(mul_div_100(p.turning_rate, 125), FX_ONE);
                    self.stats.projectile_stats.speed = min_fx(mul_div_100(p.speed, 135), SPEED_CAP);
                } else {
                    self.stats.cooldown = max_fx(mul_div_100(self.stats.cooldown, 92), 410);
                    self.stats.projectile_stats.damage = min_fx(p.damage + 4096, MAG_LIMIT);
                    self.stats.projectile_stats.turning_rate = min_fx(mul_div_100(p.turning_rate, 115), FX_ONE);
                    self.stats.projectile_stats.speed = min_fx(mul_div_100(p.speed, 110), SPEED_CAP);
                }
            },
        }
    }
}

/// `a * f / 100`, exact in `i64` for the progression's ranges.
fn mul_div_100(a: i64, f: i64) -> (r: i64)
    requires
        0 <= a <= MAG_LIMIT,
        0 <= f <= 200,
    ensures
        r == div_trunc(a * f, 100),
        r >= 0,
{
    proof {
        assert(0 <= a * f <= 0x1000000i64 * 200) by (nonlinear_arith)
            requires 0 <= a <= 0x1000000, 0 <= f <= 200;
        crate::fixed::lemma_div_trunc_sign(a * f, 100);
    }
    div_fx(a * f, 100)
}

fn min_fx(a: i64, b: i64) -> (r: i64)
    ensures
        r == min_i64(a as int, b as int),
{
    if a <= b { a } else { b }
}

fn max_fx(a: i64, b: i64) -> (r: i64)
    ensures
        r == max_i64(a as int, b as int),
{
    if a >= b { a } else { b }
}

fn min_u32(a: u32, b: u32) -> (r: u32)
    ensures
        r == min_i64(a as int, b as int),
{
    if a <= b { a } else { b }
}

/// A ready weapon fires at least one spawn request, and an immediate
/// second attempt with no time passed fires none: the first shot restarts
/// the cooldown, which is positive.
pub proof fn lemma_fire_then_dry(w: Weapon, pos: Vec2Fx, facing: Vec2Fx)
    requires
        weapon_wf(w),
        w.cooldown_remaining <= 0,
    ensures
        fire_commands_spec(w, pos, facing).len() >= 1,
        fire_commands_spec(cooldown_step_spec(fire_next_spec(w), 0), pos, facing).len() == 0,
{
    let fired = fire_next_spec(w);
    assert(fired.cooldown_remaining == w.stats.cooldown > 0);
    assert(cooldown_step_spec(fired, 0).cooldown_remaining > 0);
}

} // verus!

//! Shared entity vocabulary: identifiers, kinematic stats and the spawn
//! requests that weapons and wave logic hand to the simulation.

use vstd::prelude::*;

use crate::fixed::{ACCEL_LIMIT, FX_ONE, MAG_LIMIT, POS_LIMIT};
use crate::vec2::{Vec2Fx, v2_in};
use crate::enemy::EnemyType;
use crate::projectile::{ProjectileStats, ProjectileType, projectile_stats_wf};

verus! {

/// Unique entity identifier, assigned monotonically and never reused
/// within one game session.
pub type EntityId = u64;

/// Kinematic parameters of a player or enemy. `friction` is a fixed-point
/// fraction in `(0, 1]` applied to the velocity each tick.
#[derive(Debug, Clone, Copy, PartialEq, Eq, Structural)]
pub struct EntityStats {
    pub radius: i64,
    pub max_speed: i64,
    pub acceleration: i64,
    pub friction: i64,
}

pub open spec fn entity_stats_wf(s: EntityStats) -> bool {
    &&& 0 < s.radius <= MAG_LIMIT
    &&& 0 <= s.max_speed <= MAG_LIMIT
    &&& 0 <= s.acceleration <= ACCEL_LIMIT
    &&& 0 < s.friction <= FX_ONE
}

/// A request to create an entity, produced during a tick and executed by
/// the simulation once the tick's read-only passes are done.
#[derive(Debug, Clone, Copy, PartialEq, Eq, Structural)]
pub enum SpawnCommand {
    Projectile { projectile_type: ProjectileType, pos: Vec2Fx, vel: Vec2Fx, stats: ProjectileStats },
    Enemy { enemy_type: EnemyType, pos: Vec2Fx },
}

pub open spec fn spawn_command_wf(c: SpawnCommand) -> bool {
    match c {
        SpawnCommand::Projectile { projectile_type, pos, vel, stats } => {
            &&& projectile_stats_wf(projectile_type, stats)
            &&& v2_in(pos, POS_LIMIT as int)
            &&& v2_in(vel, MAG_LIMIT as int)
            &&& (projectile_type != ProjectileType::Pulse ==> crate::vec2::len2_spec(vel) > 0)
        },
        SpawnCommand::Enemy { enemy_type, pos } => v2_in(pos, POS_LIMIT as int),
    }
}

} // verus!

//! Configuration data handed in by the host: wave composition, game
//! constants and the stat tables. The simulation never fetches these
//! itself; the host resolves them (or fails) and passes plain values.

use vstd::prelude::*;

use crate::fixed::MAG_LIMIT;
use crate::entity::{EntityStats, entity_stats_wf};

verus! {

/// Enemy counts of one wave.
#[derive(Debug, Clone, Copy, PartialEq, Eq, Structural)]
pub struct WaveConfig {
    pub basic_enemy_count: u32,
    pub chaser_enemy_count: u32,
}

/// Most enemies one wave may bring, per kind.
pub const WAVE_COUNT_LIMIT: u32 = 4096;

pub open spec fn wave_config_wf(w: WaveConfig) -> bool {
    w.basic_enemy_count <= WAVE_COUNT_LIMIT && w.chaser_enemy_count <= WAVE_COUNT_LIMIT
}

/// Tuning constants of the simulation boundaries.
#[derive(Debug, Clone, Copy, PartialEq, Eq, Structural)]
pub struct GameConstants {
    pub out_of_bounds_margin: i64,
    pub spawn_target_offset: i64,
    pub max_waves: u32,
}

pub open spec fn game_constants_wf(c: GameConstants) -> bool {
    &&& 0 <= c.out_of_bounds_margin <= MAG_LIMIT
    &&& 0 <= c.spawn_target_offset <= MAG_LIMIT
}

/// One coherent set of reloadable configuration values. It replaces the
/// live values atomically: either all of it is applied or none.
#[derive(Debug, Clone, Copy, PartialEq, Eq, Structural)]
pub struct ConfigSnapshot {
    pub player_stats: EntityStats,
    pub basic_enemy_stats: EntityStats,
    pub chaser_enemy_stats: EntityStats,
    pub game_constants: GameConstants,
}

pub open spec fn config_snapshot_wf(s: ConfigSnapshot) -> bool {
    &&& entity_stats_wf(s.player_stats)
    &&& entity_stats_wf(s.basic_enemy_stats)
    &&& entity_stats_wf(s.chaser_enemy_stats)
    &&& game_constants_wf(s.game_constants)
}

impl ConfigSnapshot {
    /// The built-in defaults used when the host has no configuration to
    /// offer at startup.
    pub fn fallback() -> (s: ConfigSnapshot)
        ensures
            s == fallback_config_spec(),
            config_snapshot_wf(s),
    {
        ConfigSnapshot {
            player_stats: EntityStats {
                radius: 20480,
                max_speed: 5120,
                acceleration: 1024,
                friction: 921,
            },
            basic_enemy_stats: EntityStats {
                radius: 15360,
                max_speed: 3072,
                acceleration: 512,
                friction: 972,
            },
            chaser_enemy_stats: EntityStats {
                radius: 12288,
                max_speed: 4096,
                acceleration: 819,
                friction: 972,
            },
            game_constants: GameConstants {
                out_of_bounds_margin: 51200,
                spawn_target_offset: 102400,
                max_waves: 10,
            },
        }
    }
}

pub open spec fn fallback_config_spec() -> ConfigSnapshot {
    ConfigSnapshot {
        player_stats: EntityStats {
            radius: 20480,
            max_speed: 5120,
            acceleration: 1024,
            friction: 921,
        },
        basic_enemy_stats: EntityStats {
            radius: 15360,
            max_speed: 3072,
            acceleration: 512,
            friction: 972,
        },
        chaser_enemy_stats: EntityStats {
            radius: 12288,
            max_speed: 4096,
            acceleration: 819,
            friction: 972,
        },
        game_constants: GameConstants {
            out_of_bounds_margin: 51200,
            spawn_target_offset: 102400,
            max_waves: 10,
        },
    }
}



/// The clamped form of a stat block.
pub open spec fn clamp_stats_spec(raw: EntityStats) -> EntityStats {
    EntityStats {
        radius: crate::fixed::clamp_spec(raw.radius as int, 1, MAG_LIMIT as int) as i64,
        max_speed: crate::fixed::clamp_spec(raw.max_speed as int, 0, MAG_LIMIT as int) as i64,
        acceleration: crate::fixed::clamp_spec(
            raw.acceleration as int,
            0,
            crate::fixed::ACCEL_LIMIT as int,
        ) as i64,
        friction: crate::fixed::clamp_spec(
            raw.friction as int,
            1,
            crate::fixed::FX_ONE as int,
        ) as i64,
    }
}

/// Clamp each stat into its well-formed range, changing nothing that is
/// already in range.
pub fn clamp_stats(raw: EntityStats) -> (s: EntityStats)
    ensures
        s.radius == crate::fixed::clamp_spec(raw.radius as int, 1, MAG_LIMIT as int),
        s.max_speed == crate::fixed::clamp_spec(raw.max_speed as int, 0, MAG_LIMIT as int),
        s.acceleration == crate::fixed::clamp_spec(
            raw.acceleration as int,
            0,
            crate::fixed::ACCEL_LIMIT as int,
        ),
        s.friction == crate::fixed::clamp_spec(raw.friction as int, 1, crate::fixed::FX_ONE as int),
        entity_stats_wf(s),
{
    EntityStats {
        radius: crate::fixed::clamp_fx(raw.radius, 1, MAG_LIMIT),
        max_speed: crate::fixed::clamp_fx(raw.max_speed, 0, MAG_LIMIT),
        acceleration: crate::fixed::clamp_fx(raw.acceleration, 0, crate::fixed::ACCEL_LIMIT),
        friction: crate::fixed::clamp_fx(raw.friction, 1, crate::fixed::FX_ONE),
    }
}

/// Clamp a raw snapshot, as converted by the host from its configuration
/// source, into the simulation's accepted ranges; every in-range value
/// passes through unchanged.
pub fn clamp_config(raw: ConfigSnapshot) -> (s: ConfigSnapshot)
    ensures
        s.player_stats.radius == crate::fixed::clamp_spec(
            raw.player_stats.radius as int,
            1,
            MAG_LIMIT as int,
        ),
        s.player_stats.max_speed == crate::fixed::clamp_spec(
            raw.player_stats.max_speed as int,
            0,
            MAG_LIMIT as int,
        ),
        s.player_stats.acceleration == crate::fixed::clamp_spec(
            raw.player_stats.acceleration as int,
            0,
            crate::fixed::ACCEL_LIMIT as int,
        ),
        s.player_stats.friction == crate::fixed::clamp_spec(
            raw.player_stats.friction as int,
            1,
            crate::fixed::FX_ONE as int,
        ),
        s.basic_enemy_stats == clamp_stats_spec(raw.basic_enemy_stats),
        s.chaser_enemy_stats == clamp_stats_spec(raw.chaser_enemy_stats),
        s.player_stats == clamp_stats_spec(raw.player_stats),
        s.game_constants.out_of_bounds_margin == crate::fixed::clamp_spec(
            raw.game_constants.out_of_bounds_margin as int,
            0,
            MAG_LIMIT as int,
        ),
        s.game_constants.spawn_target_offset == crate::fixed::clamp_spec(
            raw.game_constants.spawn_target_offset as int,
            0,
            MAG_LIMIT as int,
        ),
        s.game_constants.max_waves == raw.game_constants.max_waves,
        config_snapshot_wf(s),
{
    ConfigSnapshot {
        player_stats: clamp_stats(raw.player_stats),
        basic_enemy_stats: clamp_stats(raw.basic_enemy_stats),
        chaser_enemy_stats: clamp_stats(raw.chaser_enemy_stats),
        game_constants: GameConstants {
            out_of_bounds_margin: crate::fixed::clamp_fx(
                raw.game_constants.out_of_bounds_margin,
                0,
                MAG_LIMIT,
            ),
            spawn_target_offset: crate::fixed::clamp_fx(
                raw.game_constants.spawn_target_offset,
                0,
                MAG_LIMIT,
            ),
            max_waves: raw.game_constants.max_waves,
        },
    }
}

} // verus!

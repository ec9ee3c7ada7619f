//! The simulation: entity collections, the fixed-step tick pipeline, the
//! mark-then-compact despawn machinery and the phase state machine.
//!
//! One tick runs: player input and motion, weapon fire, spawn execution,
//! enemy and projectile motion, expiry and out-of-bounds marking, the
//! collision passes, and finally the despawn compaction with experience
//! award. Phase changes requested during a tick are applied once per
//! frame in an explicit step, so no tick observes a half-switched state.

use vstd::prelude::*;

use crate::fixed::{FX_ONE, MAG_LIMIT, POS_LIMIT, div_fx, div_trunc, clamp_spec};
use crate::vec2::{Vec2Fx, v2_in};
use crate::entity::{EntityStats, entity_stats_wf, SpawnCommand, spawn_command_wf};
use crate::enemy::{Enemy, EnemyType, enemy_wf, spawn_vel_spec, clamp_vel_spec, advance_pos_spec};
use crate::projectile::{Projectile, ProjectileType, projectile_wf};
use crate::player::{Player, player_wf, input_pushed_vel, input_facing, friction_vel_spec, weapons_fire_spec};
use crate::collision::{Collider, check_collision, check_collision_spec, Collidable};
use crate::config::{WaveConfig, wave_config_wf, GameConstants, game_constants_wf, ConfigSnapshot,
    config_snapshot_wf};
use crate::weapon::WeaponType;

verus! {

/// Duration of one simulation tick in fixed-point seconds (one thirtieth
/// of a second, rounded down).
pub const DT: i64 = 34;

/// Largest arena edge length the simulation accepts.
pub const ARENA_LIMIT: i64 = 0x400_0000;

/// The phases of a session.
#[derive(Debug, Clone, Copy, PartialEq, Eq, Structural)]
pub enum GameStateEnum {
    WeaponSelection,
    Playing,
    GameOver,
    ScriptError,
    Won,
}

/// One tick's worth of player input: pressed movement keys and the
/// cursor position to aim at.
#[derive(Debug, Clone, Copy, PartialEq, Eq, Structural)]
pub struct PlayerInput {
    pub left: bool,
    pub right: bool,
    pub up: bool,
    pub down: bool,
    pub cursor: Vec2Fx,
}

pub struct GameState {
    pub player: Player,
    pub t_passed: i64,
    pub enemies: Vec<Enemy>,
    pub projectiles: Vec<Projectile>,
    pub state: GameStateEnum,
    pub next_state: Option<GameStateEnum>,
    pub wave: u32,
    pub error_message: Option<String>,
    pub paused: bool,
    pub game_constants: GameConstants,
    pub basic_enemy_stats: EntityStats,
    pub chaser_enemy_stats: EntityStats,
    pub next_entity_id: u64,
    pub enemies_to_despawn: Vec<u64>,
    pub projectiles_to_despawn: Vec<u64>,
    pub arena_w: i64,
    pub arena_h: i64,
}

/// Some live enemy carries this id.
pub open spec fn has_enemy_id(es: Seq<Enemy>, id: u64) -> bool {
    exists|i: int| 0 <= i < es.len() && (#[trigger] es[i]).id == id
}

/// Some live projectile carries this id.
pub open spec fn has_projectile_id(ps: Seq<Projectile>, id: u64) -> bool {
    exists|i: int| 0 <= i < ps.len() && (#[trigger] ps[i]).id == id
}

/// The entries of a despawn list are pairwise distinct.
pub open spec fn ids_distinct(s: Seq<u64>) -> bool {
    forall|i: int, j: int| 0 <= i < j < s.len() ==> s[i] != s[j]
}

pub open spec fn gamestate_wf(g: GameState) -> bool {
    &&& player_wf(g.player)
    &&& entity_stats_wf(g.basic_enemy_stats)
    &&& entity_stats_wf(g.chaser_enemy_stats)
    &&& game_constants_wf(g.game_constants)
    &&& 0 < g.arena_w <= ARENA_LIMIT
    &&& 0 < g.arena_h <= ARENA_LIMIT
    &&& 0 <= g.t_passed < DT
    &&& (forall|i: int| 0 <= i < g.enemies@.len() ==> enemy_wf(#[trigger] g.enemies@[i]))
    &&& (forall|i: int, j: int|
        0 <= i < j < g.enemies@.len() ==> (#[trigger] g.enemies@[i]).id
            != (#[trigger] g.enemies@[j]).id)
    &&& (forall|i: int| 0 <= i < g.enemies@.len() ==> (#[trigger] g.enemies@[i]).id
        < g.next_entity_id)
    &&& (forall|i: int| 0 <= i < g.projectiles@.len() ==> projectile_wf(
        #[trigger] g.projectiles@[i],
    ))
    &&& (forall|i: int, j: int|
        0 <= i < j < g.projectiles@.len() ==> (#[trigger] g.projectiles@[i]).id
            != (#[trigger] g.projectiles@[j]).id)
    &&& (forall|i: int| 0 <= i < g.projectiles@.len() ==> (#[trigger] g.projectiles@[i]).id
        < g.next_entity_id)
    &&& ids_distinct(g.enemies_to_despawn@)
    &&& (forall|k: int| 0 <= k < g.enemies_to_despawn@.len() ==> has_enemy_id(
        g.enemies@,
        #[trigger] g.enemies_to_despawn@[k],
    ))
    &&& ids_distinct(g.projectiles_to_despawn@)
    &&& (forall|k: int| 0 <= k < g.projectiles_to_despawn@.len() ==> has_projectile_id(
        g.projectiles@,
        #[trigger] g.projectiles_to_despawn@[k],
    ))
}

/// A position is inside the arena, grown by `margin` on every side.
pub open spec fn in_bounds_spec(pos: Vec2Fx, margin: int, w: int, h: int) -> bool {
    -margin <= pos.x <= w + margin && -margin <= pos.y <= h + margin
}

impl GameState {
    /// A fresh session on an arena of the given size, with the given
    /// configuration: the player at the arena center, no entities, the
    /// initial weapon-selection phase.
    pub fn new(arena_w: i64, arena_h: i64, config: ConfigSnapshot) -> (g: GameState)
        requires
            0 < arena_w <= ARENA_LIMIT,
            0 < arena_h <= ARENA_LIMIT,
            config_snapshot_wf(config),
        ensures
            g.player.pos == (Vec2Fx {
                x: div_trunc(arena_w as int, 2) as i64,
                y: div_trunc(arena_h as int, 2) as i64,
            }),
            g.player.stats == config.player_stats,
            g.player.weapons@.len() == 0,
            g.player.xp == 0 && g.player.level == 0,
            g.t_passed == 0,
            g.enemies@.len() == 0,
            g.projectiles@.len() == 0,
            g.state == GameStateEnum::WeaponSelection,
            g.next_state is None,
            g.wave == 0,
            g.error_message is None,
            g.paused == false,
            g.game_constants == config.game_constants,
            g.basic_enemy_stats == config.basic_enemy_stats,
            g.chaser_enemy_stats == config.chaser_enemy_stats,
            g.next_entity_id == 0,
            g.enemies_to_despawn@.len() == 0,
            g.projectiles_to_despawn@.len() == 0,
            g.arena_w == arena_w && g.arena_h == arena_h,
            gamestate_wf(g),
    {
        let cx = div_fx(arena_w, 2);
        let cy = div_fx(arena_h, 2);
        GameState {
            player: Player::new(cx, cy, config.player_stats),
            t_passed: 0,
            enemies: Vec::new(),
            projectiles: Vec::new(),
            state: GameStateEnum::WeaponSelection,
            next_state: Option::None,
            wave: 0,
            error_message: Option::None,
            paused: false,
            game_constants: config.game_constants,
            basic_enemy_stats: config.basic_enemy_stats,
            chaser_enemy_stats: config.chaser_enemy_stats,
            next_entity_id: 0,
            enemies_to_despawn: Vec::new(),
            projectiles_to_despawn: Vec::new(),
            arena_w,
            arena_h,
        }
    }

    /// Add the wall-clock time since the last frame to the accumulator
    /// and drain it in whole ticks: the returned count is how many fixed
    /// steps the caller must now simulate. With less than one tick
    /// accumulated the count is zero and the entities are untouched.
    pub fn update_time_for_logic(&mut self, wall_delta: i64) -> (n: u32)
        requires
            gamestate_wf(*old(self)),
            0 <= wall_delta <= MAG_LIMIT,
        ensures
            old(self).t_passed + wall_delta == n * DT + final(self).t_passed,
            0 <= final(self).t_passed < DT,
            old(self).t_passed + wall_delta < DT ==> n == 0,
            *final(self) == (GameState { t_passed: final(self).t_passed, ..*old(self) }),
            gamestate_wf(*final(self)),
    {
        let mut t: i64 = self.t_passed + wall_delta;
        let mut n: u32 = 0;
        while t >= DT
            invariant
                0 <= old(self).t_passed < DT,
                0 <= wall_delta <= MAG_LIMIT,
                0 <= t <= old(self).t_passed + wall_delta,
                old(self).t_passed + wall_delta == n * DT + t,
                n <= old(self).t_passed + wall_delta,
            decreases t,
        {
            t = t - DT;
            n = n + 1;
        }
        self.t_passed = t;
        n
    }

    /// Request a phase change; it takes effect at the frame's explicit
    /// apply step.
    pub fn set_next_state(&mut self, next_state: GameStateEnum)
        requires
            gamestate_wf(*old(self)),
        ensures
            *final(self) == (GameState { next_state: Option::Some(next_state), ..*old(self) }),
            gamestate_wf(*final(self)),
    {
        self.next_state = Option::Some(next_state);
    }

    /// Flip the pause flag.
    pub fn toggle_pause(&mut self)
        requires
            gamestate_wf(*old(self)),
        ensures
            *final(self) == (GameState { paused: !old(self).paused, ..*old(self) }),
            gamestate_wf(*final(self)),
    {
        self.paused = !self.paused;
    }

    /// Apply a pending phase change, running the entry action of the new
    /// phase: entering the game-over phase resets the player to the arena
    /// center for the next session.
    pub fn apply_next_state(&mut self)
        requires
            gamestate_wf(*old(self)),
        ensures
            final(self).next_state is None,
            old(self).next_state is None ==> *final(self) == *old(self),
            old(self).next_state matches Option::Some(ns) ==> final(self).state == ns,
            old(self).next_state matches Option::Some(ns) ==> if ns == GameStateEnum::GameOver {
                final(self).player.pos == (Vec2Fx {
                    x: div_trunc(old(self).arena_w as int, 2) as i64,
                    y: div_trunc(old(self).arena_h as int, 2) as i64,
                }) && final(self).player.weapons@.len() == 0 && final(self).player.xp == 0
                    && final(self).player.level == 0 && final(self).player.stats == old(self).player.stats
            } else {
                final(self).player == old(self).player
            },
            final(self).enemies == old(self).enemies && final(self).projectiles == old(self).projectiles && final(self).wave == old(self).wave && final(self).paused == old(self).paused && final(self).next_entity_id == old(self).next_entity_id,
            final(self).error_message == old(self).error_message && final(self).game_constants
                == old(self).game_constants && final(self).basic_enemy_stats == old(self).basic_enemy_stats && final(self).chaser_enemy_stats == old(self).chaser_enemy_stats,
            final(self).arena_w == old(self).arena_w && final(self).arena_h == old(self).arena_h
                && final(self).t_passed == old(self).t_passed,
            final(self).enemies_to_despawn == old(self).enemies_to_despawn && final(self).projectiles_to_despawn == old(self).projectiles_to_despawn,
            gamestate_wf(*final(self)),
    {
        match self.next_state {
            Option::None => {
            },
            Option::Some(ns) => {
                self.next_state = Option::None;
                match ns {
                    GameStateEnum::GameOver => {
                        let cx = div_fx(self.arena_w, 2);
                        let cy = div_fx(self.arena_h, 2);
                        self.player.reset(cx, cy);
                    },
                    _ => {
                    },
                }
                self.state = ns;
            },
        }
    }

    /// A player outside the visible arena (no margin) loses at once.
    pub fn check_player_bounds(&mut self)
        requires
            gamestate_wf(*old(self)),
        ensures
            final(self).next_state == if !in_bounds_spec(
                old(self).player.pos,
                0,
                old(self).arena_w as int,
                old(self).arena_h as int,
            ) {
                Option::Some(GameStateEnum::GameOver)
            } else {
                old(self).next_state
            },
            *final(self) == (GameState { next_state: final(self).next_state, ..*old(self) }),
            gamestate_wf(*final(self)),
    {
        if self.player.pos.x < 0 || self.player.pos.x > self.arena_w || self.player.pos.y < 0
            || self.player.pos.y > self.arena_h {
            self.set_next_state(GameStateEnum::GameOver);
        }
    }

    /// Mark every enemy that has strayed beyond the arena margin.
    pub fn despawn_enemies_out_of_bounds(&mut self)
        requires
            gamestate_wf(*old(self)),
        ensures
            *final(self) == (GameState {
                enemies_to_despawn: final(self).enemies_to_despawn,
                ..*old(self)
            }),
            forall|id: u64|
                final(self).enemies_to_despawn@.contains(id) <==> old(self).enemies_to_despawn@.contains(id) || (exists|i: int|
                    0 <= i < old(self).enemies@.len() && (#[trigger] old(self).enemies@[i]).id
                        == id && !in_bounds_spec(
                        old(self).enemies@[i].pos,
                        old(self).game_constants.out_of_bounds_margin as int,
                        old(self).arena_w as int,
                        old(self).arena_h as int,
                    )),
            gamestate_wf(*final(self)),
    {
        let margin = self.game_constants.out_of_bounds_margin;
        let mut i: usize = 0;
        while i < self.enemies.len()
            invariant
                gamestate_wf(*self),
                0 <= i <= self.enemies@.len(),
                *self == (GameState { enemies_to_despawn: self.enemies_to_despawn, ..*old(self) }),
                margin == self.game_constants.out_of_bounds_margin,
                forall|id: u64|
                    self.enemies_to_despawn@.contains(id) <==> old(self).enemies_to_despawn@.contains(id) || (exists|j: int|
                        0 <= j < i && (#[trigger] self.enemies@[j]).id == id && !in_bounds_spec(
                            self.enemies@[j].pos,
                            margin as int,
                            self.arena_w as int,
                            self.arena_h as int,
                        )),
            decreases self.enemies@.len() - i,
    {
            let e = self.enemies[i];
            let inside = e.pos.x >= -margin && e.pos.x <= self.arena_w + margin && e.pos.y
                >= -margin && e.pos.y <= self.arena_h + margin;
            if !inside {
                mark_id(&mut self.enemies_to_despawn, e.id);
            }
            i = i + 1;
        }
    }

    /// Mark every energy ball and missile beyond the arena margin. A
    /// pulse is never marked by this pass, wherever it sits.
    pub fn despawn_projectiles_out_of_bounds(&mut self)
        requires
            gamestate_wf(*old(self)),
        ensures
            *final(self) == (GameState {
                projectiles_to_despawn: final(self).projectiles_to_despawn,
                ..*old(self)
            }),
            forall|id: u64|
                final(self).projectiles_to_despawn@.contains(id) <==> old(self).projectiles_to_despawn@.contains(id) || (exists|i: int|
                    0 <= i < old(self).projectiles@.len() && (#[trigger] old(self).projectiles@[i]).id == id && old(self).projectiles@[i].projectile_type
                        != ProjectileType::Pulse && !in_bounds_spec(
                        old(self).projectiles@[i].pos,
                        old(self).game_constants.out_of_bounds_margin as int,
                        old(self).arena_w as int,
                        old(self).arena_h as int,
                    )),
            forall|k: int|
                0 <= k < old(self).projectiles@.len() && (#[trigger] old(self).projectiles@[k]).projectile_type == ProjectileType::Pulse ==> (final(self).projectiles_to_despawn@.contains(old(self).projectiles@[k].id) <==> old(self).projectiles_to_despawn@.contains(old(self).projectiles@[k].id)),
            gamestate_wf(*final(self)),
    {
        let margin = self.game_constants.out_of_bounds_margin;
        let mut i: usize = 0;
        while i < self.projectiles.len()
            invariant
                gamestate_wf(*self),
                0 <= i <= self.projectiles@.len(),
                *self == (GameState {
                    projectiles_to_despawn: self.projectiles_to_despawn,
                    ..*old(self)
                }),
                margin == self.game_constants.out_of_bounds_margin,
                forall|id: u64|
                    self.projectiles_to_despawn@.contains(id) <==> old(self).projectiles_to_despawn@.contains(id) || (exists|j: int|
                        0 <= j < i && (#[trigger] self.projectiles@[j]).id == id
                            && self.projectiles@[j].projectile_type != ProjectileType::Pulse
                            && !in_bounds_spec(
                            self.projectiles@[j].pos,
                            margin as int,
                            self.arena_w as int,
                            self.arena_h as int,
                        )),
            decreases self.projectiles@.len() - i,
        {
            let p = self.projectiles[i];
            let is_pulse = matches!(p.projectile_type, ProjectileType::Pulse);
            if !is_pulse {
                let inside = p.pos.x >= -margin && p.pos.x <= self.arena_w + margin && p.pos.y
                    >= -margin && p.pos.y <= self.arena_h + margin;
                if !inside {
                    mark_id(&mut self.projectiles_to_despawn, p.id);
                }
            }
            i = i + 1;
        }
    }

    /// Mark every projectile whose lifetime has run out.
    pub fn mark_expired_projectiles(&mut self)
        requires
            gamestate_wf(*old(self)),
        ensures
            *final(self) == (GameState {
                projectiles_to_despawn: final(self).projectiles_to_despawn,
                ..*old(self)
            }),
            forall|id: u64|
                final(self).projectiles_to_despawn@.contains(id) <==> old(self).projectiles_to_despawn@.contains(id) || (exists|i: int|
                    0 <= i < old(self).projectiles@.len() && (#[trigger] old(self).projectiles@[i]).id == id && old(self).projectiles@[i].time_remaining <= 0),
            gamestate_wf(*final(self)),
    {
        let mut i: usize = 0;
        while i < self.projectiles.len()
            invariant
                gamestate_wf(*self),
                0 <= i <= self.projectiles@.len(),
                *self == (GameState {
                    projectiles_to_despawn: self.projectiles_to_despawn,
                    ..*old(self)
                }),
                forall|id: u64|
                    self.projectiles_to_despawn@.contains(id) <==> old(self).projectiles_to_despawn@.contains(id) || (exists|j: int|
                        0 <= j < i && (#[trigger] self.projectiles@[j]).id == id
                            && self.projectiles@[j].time_remaining <= 0),
            decreases self.projectiles@.len() - i,
        {
            let p = self.projectiles[i];
            if p.is_expired() {
                mark_id(&mut self.projectiles_to_despawn, p.id);
            }
            i = i + 1;
        }
    }
}


/// The collision outcome of the player against one enemy.
pub open spec fn player_enemy_hit(p: Player, e: Enemy) -> bool {
    check_collision_spec(
        Collider::Circle { radius: p.stats.radius },
        p.pos,
        Collider::Circle { radius: e.stats.radius },
        e.pos,
    ).collided
}

/// The collision outcome of one projectile against one enemy.
pub open spec fn projectile_enemy_hit(p: Projectile, e: Enemy) -> bool {
    check_collision_spec(
        p.spec_collider(),
        p.pos,
        Collider::Circle { radius: e.stats.radius },
        e.pos,
    ).collided
}

impl GameState {
    /// Any enemy touching the player is marked for despawn and the
    /// game-over transition is requested; with no contact nothing
    /// changes.
    pub fn check_player_enemy_collisions(&mut self)
        requires
            gamestate_wf(*old(self)),
        ensures
            *final(self) == (GameState {
                enemies_to_despawn: final(self).enemies_to_despawn,
                next_state: final(self).next_state,
                ..*old(self)
            }),
            forall|id: u64|
                final(self).enemies_to_despawn@.contains(id) <==> old(self).enemies_to_despawn@.contains(id) || (exists|i: int|
                    0 <= i < old(self).enemies@.len() && (#[trigger] old(self).enemies@[i]).id
                        == id && player_enemy_hit(old(self).player, old(self).enemies@[i])),
            final(self).next_state == if (exists|i: int|
                0 <= i < old(self).enemies@.len() && player_enemy_hit(
                    old(self).player,
                    #[trigger] old(self).enemies@[i],
                )) {
                Option::Some(GameStateEnum::GameOver)
            } else {
                old(self).next_state
            },
            gamestate_wf(*final(self)),
    {
        let mut game_over: bool = false;
        let mut i: usize = 0;
        while i < self.enemies.len()
            invariant
                gamestate_wf(*self),
                0 <= i <= self.enemies@.len(),
                *self == (GameState { enemies_to_despawn: self.enemies_to_despawn, ..*old(self) }),
                forall|id: u64|
                    self.enemies_to_despawn@.contains(id) <==> old(self).enemies_to_despawn@.contains(id) || (exists|j: int|
                        0 <= j < i && (#[trigger] self.enemies@[j]).id == id && player_enemy_hit(
                            self.player,
                            self.enemies@[j],
                        )),
                game_over == (exists|j: int|
                    0 <= j < i && player_enemy_hit(self.player, #[trigger] self.enemies@[j])),
            decreases self.enemies@.len() - i,
        {
            let e = self.enemies[i];
            let data = check_collision(
                &self.player.collider(),
                self.player.position(),
                &e.collider(),
                e.position(),
            );
            if data.collided {
                game_over = true;
                mark_id(&mut self.enemies_to_despawn, e.id);
            }
            i = i + 1;
        }
        if game_over {
            self.set_next_state(GameStateEnum::GameOver);
        }
    }

    /// Every enemy touched by a projectile is marked for despawn; energy
    /// balls and missiles that touched something are marked too, while a
    /// pulse persists and can keep hitting.
    pub fn check_projectile_enemy_collisions(&mut self)
        requires
            gamestate_wf(*old(self)),
        ensures
            *final(self) == (GameState {
                enemies_to_despawn: final(self).enemies_to_despawn,
                projectiles_to_despawn: final(self).projectiles_to_despawn,
                ..*old(self)
            }),
            forall|id: u64|
                final(self).enemies_to_despawn@.contains(id) <==> old(self).enemies_to_despawn@.contains(id) || (exists|i: int, j: int|
                    0 <= i < old(self).projectiles@.len() && 0 <= j < old(self).enemies@.len()
                        && (#[trigger] old(self).enemies@[j]).id == id && projectile_enemy_hit(
                        #[trigger] old(self).projectiles@[i],
                        old(self).enemies@[j],
                    )),
            forall|id: u64|
                final(self).projectiles_to_despawn@.contains(id) <==> old(self).projectiles_to_despawn@.contains(id) || (exists|i: int, j: int|
                    0 <= i < old(self).projectiles@.len() && 0 <= j < old(self).enemies@.len()
                        && (#[trigger] old(self).projectiles@[i]).id == id && old(self).projectiles@[i].projectile_type != ProjectileType::Pulse
                        && projectile_enemy_hit(
                        old(self).projectiles@[i],
                        #[trigger] old(self).enemies@[j],
                    )),
            gamestate_wf(*final(self)),
    {
        let mut i: usize = 0;
        while i < self.projectiles.len()
            invariant
                gamestate_wf(*self),
                0 <= i <= self.projectiles@.len(),
                *self == (GameState {
                    enemies_to_despawn: self.enemies_to_despawn,
                    projectiles_to_despawn: self.projectiles_to_despawn,
                    ..*old(self)
                }),
                forall|id: u64|
                    self.enemies_to_despawn@.contains(id) <==> old(self).enemies_to_despawn@.contains(id) || (exists|i2: int, j2: int|
                        0 <= i2 < i && 0 <= j2 < self.enemies@.len()
                            && (#[trigger] self.enemies@[j2]).id == id && projectile_enemy_hit(
                            #[trigger] self.projectiles@[i2],
                            self.enemies@[j2],
                        )),
                forall|id: u64|
                    self.projectiles_to_despawn@.contains(id) <==> old(self).projectiles_to_despawn@.contains(id) || (exists|i2: int, j2: int|
                        0 <= i2 < i && 0 <= j2 < self.enemies@.len()
                            && (#[trigger] self.projectiles@[i2]).id == id
                            && self.projectiles@[i2].projectile_type != ProjectileType::Pulse
                            && projectile_enemy_hit(
                            self.projectiles@[i2],
                            #[trigger] self.enemies@[j2],
                        )),
            decreases self.projectiles@.len() - i,
        {
            let p = self.projectiles[i];
            proof {
                assert(projectile_wf(p));
            }
            let mut j: usize = 0;
            while j < self.enemies.len()
                invariant
                    gamestate_wf(*self),
                    0 <= i < self.projectiles@.len(),
                    0 <= j <= self.enemies@.len(),
                    p == self.projectiles@[i as int],
                    projectile_wf(p),
                    *self == (GameState {
                        enemies_to_despawn: self.enemies_to_despawn,
                        projectiles_to_despawn: self.projectiles_to_despawn,
                        ..*old(self)
                    }),
                    forall|id: u64|
                        self.enemies_to_despawn@.contains(id) <==> old(self).enemies_to_despawn@.contains(id) || (exists|i2: int, j2: int|
                            0 <= i2 < i && 0 <= j2 < self.enemies@.len()
                                && (#[trigger] self.enemies@[j2]).id == id && projectile_enemy_hit(
                                #[trigger] self.projectiles@[i2],
                                self.enemies@[j2],
                            )) || (exists|j2: int|
                            0 <= j2 < j && (#[trigger] self.enemies@[j2]).id == id
                                && projectile_enemy_hit(p, self.enemies@[j2])),
                    forall|id: u64|
                        self.projectiles_to_despawn@.contains(id) <==> old(self).projectiles_to_despawn@.contains(id) || (exists|i2: int, j2: int|
                            0 <= i2 < i && 0 <= j2 < self.enemies@.len()
                                && (#[trigger] self.projectiles@[i2]).id == id
                                && self.projectiles@[i2].projectile_type != ProjectileType::Pulse
                                && projectile_enemy_hit(
                                self.projectiles@[i2],
                                #[trigger] self.enemies@[j2],
                            )) || (p.projectile_type != ProjectileType::Pulse && (exists|j2: int|
                            0 <= j2 < j && id == p.id && projectile_enemy_hit(
                                p,
                                #[trigger] self.enemies@[j2],
                            ))),
                decreases self.enemies@.len() - j,
            {
                let e = self.enemies[j];
                let data = check_collision(&p.collider(), p.position(), &e.collider(), e.position());
                if data.collided {
                    mark_id(&mut self.enemies_to_despawn, e.id);
                    let is_pulse = matches!(p.projectile_type, ProjectileType::Pulse);
                    if !is_pulse {
                        mark_id(&mut self.projectiles_to_despawn, p.id);
                    }
                }
                j = j + 1;
            }
            i = i + 1;
        }
    }
}

/// Velocities of a sequence of enemies, in order.
pub open spec fn vels_of(es: Seq<Enemy>) -> Seq<Vec2Fx> {
    Seq::new(es.len(), |k: int| es[k].vel)
}

/// The velocities after the elastic response of the pair `(i, j)`: when
/// the two enemies overlap and are closing along the contact normal, the
/// normal component of the relative velocity is exchanged (equal masses),
/// each coordinate saturating at the velocity bound; separating or
/// separate pairs are untouched.
pub open spec fn vel_pair_update(es: Seq<Enemy>, vs: Seq<Vec2Fx>, i: int, j: int) -> Seq<Vec2Fx> {
    let data = check_collision_spec(
        Collider::Circle { radius: es[i].stats.radius },
        es[i].pos,
        Collider::Circle { radius: es[j].stats.radius },
        es[j].pos,
    );
    if data.collided {
        let n = data.normal;
        let rvx = vs[i].x - vs[j].x;
        let rvy = vs[i].y - vs[j].y;
        let va = div_trunc(rvx * n.x + rvy * n.y, FX_ONE as int);
        if va < 0 {
            let ix = div_trunc(n.x * va, FX_ONE as int);
            let iy = div_trunc(n.y * va, FX_ONE as int);
            let v1 = Vec2Fx {
                x: clamp_spec(vs[i].x - ix, -MAG_LIMIT as int, MAG_LIMIT as int) as i64,
                y: clamp_spec(vs[i].y - iy, -MAG_LIMIT as int, MAG_LIMIT as int) as i64,
            };
            let v2 = Vec2Fx {
                x: clamp_spec(vs[j].x + ix, -MAG_LIMIT as int, MAG_LIMIT as int) as i64,
                y: clamp_spec(vs[j].y + iy, -MAG_LIMIT as int, MAG_LIMIT as int) as i64,
            };
            vs.update(i, v1).update(j, v2)
        } else {
            vs
        }
    } else {
        vs
    }
}

/// Fold of the pair response over the partners `j, j+1, ...` of enemy `i`.
pub open spec fn bounce_inner(es: Seq<Enemy>, vs: Seq<Vec2Fx>, i: int, j: int) -> Seq<Vec2Fx>
    decreases es.len() - j,
{
    if j >= es.len() || !(0 <= i < j) {
        vs
    } else {
        bounce_inner(es, vel_pair_update(es, vs, i, j), i, j + 1)
    }
}

/// Fold of the pair response over all pairs `(i, j)` with `i < j`, in the
/// order the scan visits them.
pub open spec fn bounce_outer(es: Seq<Enemy>, vs: Seq<Vec2Fx>, i: int) -> Seq<Vec2Fx>
    decreases es.len() - i,
{
    if i < 0 || i + 1 >= es.len() {
        vs
    } else {
        bounce_outer(es, bounce_inner(es, vs, i, i + 1), i + 1)
    }
}

impl GameState {
    /// Pairwise elastic bounce between enemies: every overlapping,
    /// closing pair exchanges the normal component of its relative
    /// velocity. Positions, identities and stats are untouched.
    pub fn check_enemy_collisions(&mut self)
        requires
            gamestate_wf(*old(self)),
        ensures
            *final(self) == (GameState { enemies: final(self).enemies, ..*old(self) }),
            final(self).enemies@.len() == old(self).enemies@.len(),
            forall|k: int|
                0 <= k < old(self).enemies@.len() ==> #[trigger] final(self).enemies@[k]
                    == (Enemy {
                    vel: bounce_outer(old(self).enemies@, vels_of(old(self).enemies@), 0)[k],
                    ..old(self).enemies@[k]
                }),
            gamestate_wf(*final(self)),
    {
        let ghost es0 = self.enemies@;
        let ghost vs0 = vels_of(self.enemies@);
        let n = self.enemies.len();
        let mut i: usize = 0;
        while i < n
            invariant
                gamestate_wf(*self),
                n == self.enemies@.len(),
                0 <= i <= n,
                es0.len() == n,
                *self == (GameState { enemies: self.enemies, ..*old(self) }),
                forall|k: int|
                    0 <= k < n ==> #[trigger] self.enemies@[k] == (Enemy {
                        vel: self.enemies@[k].vel,
                        ..es0[k]
                    }),
                bounce_outer(es0, vs0, 0) == bounce_outer(es0, vels_of(self.enemies@), i as int),
            decreases n - i,
        {
            let ghost vs_outer = vels_of(self.enemies@);
            let mut j: usize = i + 1;
            while j < n
                invariant
                    gamestate_wf(*self),
                    n == self.enemies@.len(),
                    0 <= i < j <= n || (i as int + 1 >= n && j == i + 1),
                    es0.len() == n,
                    *self == (GameState { enemies: self.enemies, ..*old(self) }),
                    forall|k: int|
                        0 <= k < n ==> #[trigger] self.enemies@[k] == (Enemy {
                            vel: self.enemies@[k].vel,
                            ..es0[k]
                        }),
                    bounce_inner(es0, vs_outer, i as int, i as int + 1) == bounce_inner(
                        es0,
                        vels_of(self.enemies@),
                        i as int,
                        j as int,
                    ),
                decreases n - j,
            {
                let e1 = self.enemies[i];
                let e2 = self.enemies[j];
                let ghost vs_now = vels_of(self.enemies@);
                let ghost pre = self.enemies@;
                let data = check_collision(
                    &Collider::Circle { radius: e1.stats.radius },
                    e1.pos,
                    &Collider::Circle { radius: e2.stats.radius },
                    e2.pos,
                );
                if data.collided {
                    let rvx: i64 = e1.vel.x - e2.vel.x;
                    let rvy: i64 = e1.vel.y - e2.vel.y;
                    proof {
                        assert(-(0x2000000i64 * 1024) <= rvx * data.normal.x <= 0x2000000i64 * 1024
                            && -(0x2000000i64 * 1024) <= rvy * data.normal.y <= 0x2000000i64 * 1024)
                            by (nonlinear_arith)
                            requires -0x2000000 <= rvx <= 0x2000000, -0x2000000 <= rvy <= 0x2000000,
                                -1024 <= data.normal.x <= 1024, -1024 <= data.normal.y <= 1024;
                        crate::trig::lemma_div_trunc_abs(
                            rvx * data.normal.x + rvy * data.normal.y,
                            0x4000000int,
                            FX_ONE as int,
                        );
                    }
                    let va: i64 = div_fx(rvx * data.normal.x + rvy * data.normal.y, FX_ONE);
                    if va < 0 {
                        proof {
                            assert(-(0x4000000i64 * 1024) <= data.normal.x * va <= 0x4000000i64
                                * 1024 && -(0x4000000i64 * 1024) <= data.normal.y * va
                                <= 0x4000000i64 * 1024) by (nonlinear_arith)
                                requires -0x4000000 <= va <= 0x4000000, -1024 <= data.normal.x
                                    <= 1024, -1024 <= data.normal.y <= 1024;
                            crate::trig::lemma_div_trunc_abs(
                                data.normal.x * va,
                                0x4000000int,
                                FX_ONE as int,
                            );
                            crate::trig::lemma_div_trunc_abs(
                                data.normal.y * va,
                                0x4000000int,
                                FX_ONE as int,
                            );
                        }
                        let ix: i64 = div_fx(data.normal.x * va, FX_ONE);
                        let iy: i64 = div_fx(data.normal.y * va, FX_ONE);
                        let mut ne1 = e1;
                        ne1.vel = Vec2Fx::new(
                            crate::fixed::clamp_fx(e1.vel.x - ix, -MAG_LIMIT, MAG_LIMIT),
                            crate::fixed::clamp_fx(e1.vel.y - iy, -MAG_LIMIT, MAG_LIMIT),
                        );
                        let mut ne2 = e2;
                        ne2.vel = Vec2Fx::new(
                            crate::fixed::clamp_fx(e2.vel.x + ix, -MAG_LIMIT, MAG_LIMIT),
                            crate::fixed::clamp_fx(e2.vel.y + iy, -MAG_LIMIT, MAG_LIMIT),
                        );
                        self.enemies.set(i, ne1);
                        self.enemies.set(j, ne2);
                    }
                }
                proof {
                    assert(vels_of(self.enemies@) =~= vel_pair_update(
                        es0,
                        vs_now,
                        i as int,
                        j as int,
                    ));
                    assert(self.enemies@.len() == pre.len());
                    assert forall|k: int| 0 <= k < self.enemies@.len() implies (
                        #[trigger] self.enemies@[k]).id == pre[k].id by {}
                    assert forall|k: int|
                        0 <= k < self.enemies_to_despawn@.len() implies has_enemy_id(
                        self.enemies@,
                        #[trigger] self.enemies_to_despawn@[k],
                    ) by {
                        let id = self.enemies_to_despawn@[k];
                        assert(has_enemy_id(pre, id));
                        let w = choose|w: int| 0 <= w < pre.len() && (#[trigger] pre[w]).id == id;
                        assert(self.enemies@[w].id == id);
                    }
                }
                j = j + 1;
            }
            proof {
                assert(bounce_inner(es0, vels_of(self.enemies@), i as int, n as int) == vels_of(
                    self.enemies@,
                ));
            }
            i = i + 1;
        }
        proof {
            assert(bounce_outer(es0, vels_of(self.enemies@), n as int) == vels_of(self.enemies@));
            assert forall|k: int| 0 <= k < n implies #[trigger] self.enemies@[k] == (Enemy {
                vel: bounce_outer(es0, vs0, 0)[k],
                ..es0[k]
            }) by {
                assert(bounce_outer(es0, vs0, 0)[k] == vels_of(self.enemies@)[k]);
            }
        }
    }

    /// The three collision passes of one tick, in order: player against
    /// enemies, projectiles against enemies, then the enemy pair bounce.
    /// Composed effect: any enemy touching the player or a projectile is
    /// marked for despawn, a non-pulse projectile that touched an enemy
    /// is marked too, a player contact requests the game-over transition,
    /// and the enemies' velocities take the elastic pair response while
    /// everything else is untouched.
    pub fn check_collisions(&mut self)
        requires
            gamestate_wf(*old(self)),
        ensures
            *final(self) == (GameState {
                enemies: final(self).enemies,
                enemies_to_despawn: final(self).enemies_to_despawn,
                projectiles_to_despawn: final(self).projectiles_to_despawn,
                next_state: final(self).next_state,
                ..*old(self)
            }),
            final(self).enemies@.len() == old(self).enemies@.len(),
            forall|k: int|
                0 <= k < old(self).enemies@.len() ==> #[trigger] final(self).enemies@[k]
                    == (Enemy {
                    vel: bounce_outer(old(self).enemies@, vels_of(old(self).enemies@), 0)[k],
                    ..old(self).enemies@[k]
                }),
            forall|id: u64|
                final(self).enemies_to_despawn@.contains(id) <==> old(self).enemies_to_despawn@.contains(id) || (exists|i: int|
                    0 <= i < old(self).enemies@.len() && (#[trigger] old(self).enemies@[i]).id
                        == id && player_enemy_hit(old(self).player, old(self).enemies@[i]))
                    || (exists|i: int, j: int|
                    0 <= i < old(self).projectiles@.len() && 0 <= j < old(self).enemies@.len()
                        && (#[trigger] old(self).enemies@[j]).id == id && projectile_enemy_hit(
                        #[trigger] old(self).projectiles@[i],
                        old(self).enemies@[j],
                    )),
            forall|id: u64|
                final(self).projectiles_to_despawn@.contains(id) <==> old(self).projectiles_to_despawn@.contains(id) || (exists|i: int, j: int|
                    0 <= i < old(self).projectiles@.len() && 0 <= j < old(self).enemies@.len()
                        && (#[trigger] old(self).projectiles@[i]).id == id && old(self).projectiles@[i].projectile_type != ProjectileType::Pulse
                        && projectile_enemy_hit(
                        old(self).projectiles@[i],
                        #[trigger] old(self).enemies@[j],
                    )),
            final(self).next_state == if (exists|i: int|
                0 <= i < old(self).enemies@.len() && player_enemy_hit(
                    old(self).player,
                    #[trigger] old(self).enemies@[i],
                )) {
                Option::Some(GameStateEnum::GameOver)
            } else {
                old(self).next_state
            },
            gamestate_wf(*final(self)),
    {
        self.check_player_enemy_collisions();
        self.check_projectile_enemy_collisions();
        self.check_enemy_collisions();
    }
}


/// The projectile a spawn request creates, given its fresh id.
pub open spec fn spawned_projectile_spec(c: SpawnCommand, id: u64) -> Projectile {
    match c {
        SpawnCommand::Projectile { projectile_type, pos, vel, stats } => match projectile_type {
            ProjectileType::Pulse => Projectile {
                id,
                pos,
                vel: Vec2Fx { x: 0, y: 0 },
                projectile_type,
                stats,
                time_remaining: stats.time_to_live,
                source_pos: pos,
            },
            _ => Projectile {
                id,
                pos,
                vel: crate::vec2::normalize_to_spec(vel, stats.speed as int),
                projectile_type,
                stats,
                time_remaining: stats.time_to_live,
                source_pos: pos,
            },
        },
        SpawnCommand::Enemy { .. } => Projectile {
            id,
            pos: Vec2Fx { x: 0, y: 0 },
            vel: Vec2Fx { x: 0, y: 0 },
            projectile_type: ProjectileType::Pulse,
            stats: crate::projectile::pulse_default_spec(),
            time_remaining: 0,
            source_pos: Vec2Fx { x: 0, y: 0 },
        },
    }
}

/// Every request in the batch asks for a projectile.
pub open spec fn cmds_all_projectiles(cmds: Seq<SpawnCommand>) -> bool {
    forall|k: int| 0 <= k < cmds.len() ==> (#[trigger] cmds[k]) matches SpawnCommand::Projectile { .. }
}

/// The projectile list after executing a batch of spawn requests in
/// order: ids advance one per request of either kind, and each projectile
/// request appends its projectile under the id it drew.
pub open spec fn spawn_fold(ps: Seq<Projectile>, cmds: Seq<SpawnCommand>, id0: int) -> Seq<Projectile>
    decreases cmds.len(),
{
    if cmds.len() == 0 {
        ps
    } else {
        match cmds[0] {
            SpawnCommand::Projectile { .. } => spawn_fold(
                ps.push(spawned_projectile_spec(cmds[0], id0 as u64)),
                cmds.drop_first(),
                id0 + 1,
            ),
            SpawnCommand::Enemy { .. } => spawn_fold(ps, cmds.drop_first(), id0 + 1),
        }
    }
}

/// Number of enemy requests in a batch.
pub open spec fn enemy_cmd_count(cmds: Seq<SpawnCommand>) -> int
    decreases cmds.len(),
{
    if cmds.len() == 0 {
        0
    } else {
        enemy_cmd_count(cmds.drop_last()) + (if cmds.last() matches SpawnCommand::Enemy { .. } {
            1int
        } else {
            0int
        })
    }
}

/// Whether a spawn request is an enemy request matching the given
/// enemy's kind and position.
pub open spec fn enemy_cmd_matches(c: SpawnCommand, e: Enemy) -> bool {
    match c {
        SpawnCommand::Enemy { enemy_type, pos } => e.enemy_type == enemy_type && e.pos == pos,
        SpawnCommand::Projectile { .. } => false,
    }
}

/// A batch without enemy requests spawns no enemies.
proof fn lemma_no_enemy_cmds(cmds: Seq<SpawnCommand>)
    requires
        cmds_all_projectiles(cmds),
    ensures
        enemy_cmd_count(cmds) == 0,
    decreases cmds.len(),
{
    if cmds.len() > 0 {
        assert forall|k: int|
            0 <= k < cmds.drop_last().len() implies (#[trigger] cmds.drop_last()[k]) matches SpawnCommand::Projectile { .. } by {
            assert(cmds.drop_last()[k] == cmds[k]);
        }
        lemma_no_enemy_cmds(cmds.drop_last());
        assert(cmds.last() == cmds[cmds.len() - 1]);
    }
}

/// The live enemies that survive a despawn list: the original order, with
/// every marked id removed.
pub open spec fn keep_enemies(es: Seq<Enemy>, marks: Seq<u64>) -> Seq<Enemy>
    decreases es.len(),
{
    if es.len() == 0 {
        Seq::empty()
    } else {
        let rest = keep_enemies(es.drop_last(), marks);
        if marks.contains(es.last().id) {
            rest
        } else {
            rest.push(es.last())
        }
    }
}

/// The live projectiles that survive a despawn list.
pub open spec fn keep_projectiles(ps: Seq<Projectile>, marks: Seq<u64>) -> Seq<Projectile>
    decreases ps.len(),
{
    if ps.len() == 0 {
        Seq::empty()
    } else {
        let rest = keep_projectiles(ps.drop_last(), marks);
        if marks.contains(ps.last().id) {
            rest
        } else {
            rest.push(ps.last())
        }
    }
}

/// Every survivor is one of the original enemies (so it keeps its
/// well-formedness), no survivor is marked, and distinct ids stay
/// distinct.
pub proof fn lemma_keep_enemies_props(es: Seq<Enemy>, marks: Seq<u64>)
    requires
        forall|i: int, j: int| 0 <= i < j < es.len() ==> (#[trigger] es[i]).id != (
        #[trigger] es[j]).id,
    ensures
        forall|k: int| 0 <= k < keep_enemies(es, marks).len() ==> es.contains(
            #[trigger] keep_enemies(es, marks)[k],
        ) && !marks.contains(keep_enemies(es, marks)[k].id),
        forall|i: int, j: int|
            0 <= i < j < keep_enemies(es, marks).len() ==> (#[trigger] keep_enemies(
                es,
                marks,
            )[i]).id != (#[trigger] keep_enemies(es, marks)[j]).id,
    decreases es.len(),
{
    if es.len() > 0 {
        let prefix = es.drop_last();
        lemma_keep_enemies_props(prefix, marks);
        let rest = keep_enemies(prefix, marks);
        assert forall|k: int| 0 <= k < rest.len() implies es.contains(#[trigger] rest[k]) by {
            assert(prefix.contains(rest[k]));
            let w = choose|w: int| 0 <= w < prefix.len() && prefix[w] == rest[k];
            assert(es[w] == rest[k]);
        }
        if !marks.contains(es.last().id) {
            let keep = keep_enemies(es, marks);
            assert(keep == rest.push(es.last()));
            assert(es.contains(es.last())) by {
                assert(es[es.len() - 1] == es.last());
            }
            assert forall|i: int, j: int|
                0 <= i < j < keep.len() implies (#[trigger] keep[i]).id != (
            #[trigger] keep[j]).id by {
                if j == keep.len() - 1 {
                    assert(keep[j] == es.last());
                    assert(prefix.contains(keep[i]));
                    let w = choose|w: int| 0 <= w < prefix.len() && prefix[w] == keep[i];
                    assert(es[w] == keep[i]);
                    assert(es[w].id != es[es.len() - 1].id);
                }
            }
        }
    }
}

/// The projectile twin of the survivor lemma.
pub proof fn lemma_keep_projectiles_props(ps: Seq<Projectile>, marks: Seq<u64>)
    requires
        forall|i: int, j: int| 0 <= i < j < ps.len() ==> (#[trigger] ps[i]).id != (
        #[trigger] ps[j]).id,
    ensures
        forall|k: int| 0 <= k < keep_projectiles(ps, marks).len() ==> ps.contains(
            #[trigger] keep_projectiles(ps, marks)[k],
        ) && !marks.contains(keep_projectiles(ps, marks)[k].id),
        forall|i: int, j: int|
            0 <= i < j < keep_projectiles(ps, marks).len() ==> (#[trigger] keep_projectiles(
                ps,
                marks,
            )[i]).id != (#[trigger] keep_projectiles(ps, marks)[j]).id,
    decreases ps.len(),
{
    if ps.len() > 0 {
        let prefix = ps.drop_last();
        lemma_keep_projectiles_props(prefix, marks);
        let rest = keep_projectiles(prefix, marks);
        assert forall|k: int| 0 <= k < rest.len() implies ps.contains(#[trigger] rest[k]) by {
            assert(prefix.contains(rest[k]));
            let w = choose|w: int| 0 <= w < prefix.len() && prefix[w] == rest[k];
            assert(ps[w] == rest[k]);
        }
        if !marks.contains(ps.last().id) {
            let keep = keep_projectiles(ps, marks);
            assert(keep == rest.push(ps.last()));
            assert(ps.contains(ps.last())) by {
                assert(ps[ps.len() - 1] == ps.last());
            }
            assert forall|i: int, j: int|
                0 <= i < j < keep.len() implies (#[trigger] keep[i]).id != (
            #[trigger] keep[j]).id by {
                if j == keep.len() - 1 {
                    assert(keep[j] == ps.last());
                    assert(prefix.contains(keep[i]));
                    let w = choose|w: int| 0 <= w < prefix.len() && prefix[w] == keep[i];
                    assert(ps[w] == keep[i]);
                    assert(ps[w].id != ps[ps.len() - 1].id);
                }
            }
        }
    }
}

impl GameState {
    /// Execute a batch of spawn requests in order, ids advancing one per
    /// request: each projectile request becomes a live projectile under
    /// the id it drew, and each enemy request spawns an enemy of its kind
    /// at its position, aimed near the arena center with a random entry
    /// speed.
    pub fn execute_spawn_commands(&mut self, commands: Vec<SpawnCommand>)
        requires
            gamestate_wf(*old(self)),
            forall|k: int| 0 <= k < commands@.len() ==> spawn_command_wf(#[trigger] commands@[k]),
            old(self).next_entity_id + commands@.len() <= u64::MAX,
        ensures
            *final(self) == (GameState {
                projectiles: final(self).projectiles,
                enemies: final(self).enemies,
                next_entity_id: final(self).next_entity_id,
                ..*old(self)
            }),
            final(self).projectiles@ == spawn_fold(
                old(self).projectiles@,
                commands@,
                old(self).next_entity_id as int,
            ),
            final(self).next_entity_id == old(self).next_entity_id + commands@.len(),
            final(self).enemies@.len() == old(self).enemies@.len() + enemy_cmd_count(commands@),
            forall|k: int| 0 <= k < old(self).enemies@.len() ==> final(self).enemies@[k]
                == #[trigger] old(self).enemies@[k],
            forall|k: int|
                old(self).enemies@.len() <= k < final(self).enemies@.len() ==> ({
                    let e = #[trigger] final(self).enemies@[k];
                    &&& (exists|j: int|
                        0 <= j < commands@.len() && enemy_cmd_matches(#[trigger] commands@[j], e)
                            && e.id == old(self).next_entity_id + j)
                    &&& e.stats == (match e.enemy_type {
                        EnemyType::Basic => old(self).basic_enemy_stats,
                        EnemyType::Chaser => old(self).chaser_enemy_stats,
                    })
                    &&& (exists|target: Vec2Fx, speed: i64|
                        v2_in(target, POS_LIMIT as int) && 0 <= speed <= e.stats.max_speed
                            && e.vel == #[trigger] spawn_vel_spec(e.pos, target, speed as int))
                }),
            forall|k1: int, k2: int|
                old(self).enemies@.len() <= k1 < k2 < final(self).enemies@.len() ==> (
                #[trigger] final(self).enemies@[k1]).id < (#[trigger] final(self).enemies@[k2]).id,
            gamestate_wf(*final(self)),
    {
        let ghost ps0 = self.projectiles@;
        let ghost es_len0 = self.enemies@.len() as int;
        let ghost id0 = self.next_entity_id as int;
        proof {
            assert(commands@.skip(0) =~= commands@);
            assert(commands@.take(0) =~= Seq::<SpawnCommand>::empty());
        }
        let mut i: usize = 0;
        while i < commands.len()
            invariant
                gamestate_wf(*self),
                0 <= i <= commands@.len(),
                forall|k: int| 0 <= k < commands@.len() ==> spawn_command_wf(
                    #[trigger] commands@[k],
                ),
                id0 + commands@.len() <= u64::MAX,
                *self == (GameState {
                    projectiles: self.projectiles,
                    enemies: self.enemies,
                    next_entity_id: self.next_entity_id,
                    ..*old(self)
                }),
                self.next_entity_id == id0 + i,
                spawn_fold(ps0, commands@, id0) == spawn_fold(
                    self.projectiles@,
                    commands@.skip(i as int),
                    self.next_entity_id as int,
                ),
                es_len0 == old(self).enemies@.len(),
                self.enemies@.len() == es_len0 + enemy_cmd_count(commands@.take(i as int)),
                es_len0 <= self.enemies@.len(),
                forall|k: int| 0 <= k < es_len0 ==> self.enemies@[k] == #[trigger] old(self).enemies@[k],
                forall|k: int|
                    es_len0 <= k < self.enemies@.len() ==> ({
                        let e = #[trigger] self.enemies@[k];
                        &&& (exists|j: int|
                            0 <= j < i && enemy_cmd_matches(#[trigger] commands@[j], e) && e.id
                                == id0 + j)
                        &&& e.stats == (match e.enemy_type {
                            EnemyType::Basic => old(self).basic_enemy_stats,
                            EnemyType::Chaser => old(self).chaser_enemy_stats,
                        })
                        &&& (exists|target: Vec2Fx, speed: i64|
                            v2_in(target, POS_LIMIT as int) && 0 <= speed <= e.stats.max_speed
                                && e.vel == #[trigger] spawn_vel_spec(e.pos, target, speed as int))
                    }),
                forall|k: int| es_len0 <= k < self.enemies@.len() ==> (
                #[trigger] self.enemies@[k]).id < id0 + i,
                forall|k1: int, k2: int|
                    es_len0 <= k1 < k2 < self.enemies@.len() ==> (#[trigger] self.enemies@[k1]).id
                        < (#[trigger] self.enemies@[k2]).id,
            decreases commands@.len() - i,
        {
            let ghost pre_marks = self.projectiles_to_despawn@;
            let ghost pre = self.projectiles@;
            let ghost pre_es = self.enemies@;
            let c = commands[i];
            match c {
                SpawnCommand::Projectile { projectile_type, pos, vel, stats } => {
                    let id = self.next_entity_id;
                    self.next_entity_id = self.next_entity_id + 1;
                    let p = match projectile_type {
                        ProjectileType::EnergyBall => Projectile::spawn_energy_ball(
                            id,
                            pos,
                            vel,
                            stats,
                        ),
                        ProjectileType::Pulse => Projectile::spawn_pulse(id, pos, stats),
                        ProjectileType::HomingMissile => Projectile::spawn_homing_missile(
                            id,
                            pos,
                            vel,
                            stats,
                        ),
                    };
                    proof {
                        assert(p == spawned_projectile_spec(commands@[i as int], id));
                    }
                    self.projectiles.push(p);
                    proof {
                        assert(self.projectiles@ =~= pre.push(
                            spawned_projectile_spec(commands@[i as int], id),
                        ));
                        assert forall|k: int|
                            0 <= k < self.projectiles_to_despawn@.len() implies has_projectile_id(
                            self.projectiles@,
                            #[trigger] self.projectiles_to_despawn@[k],
                        ) by {
                            let mid = self.projectiles_to_despawn@[k];
                            assert(has_projectile_id(pre, mid));
                            let w = choose|w: int|
                                0 <= w < pre.len() && (#[trigger] pre[w]).id == mid;
                            assert(self.projectiles@[w].id == mid);
                        }
                    }
                },
                SpawnCommand::Enemy { enemy_type, pos } => {
                    self.spawn_enemy(enemy_type, pos);
                    proof {
                        assert(self.enemies@.len() == pre_es.len() + 1);
                        let last = self.enemies@.last();
                        assert(last.id == id0 + i && last.pos == pos && last.enemy_type
                            == enemy_type);
                        assert(enemy_cmd_matches(commands@[i as int], last));
                        assert forall|k: int|
                            es_len0 <= k < self.enemies@.len() implies ({
                            let e = #[trigger] self.enemies@[k];
                            &&& (exists|j: int|
                                0 <= j < i + 1 && enemy_cmd_matches(#[trigger] commands@[j], e)
                                    && e.id == id0 + j)
                            &&& e.stats == (match e.enemy_type {
                                EnemyType::Basic => old(self).basic_enemy_stats,
                                EnemyType::Chaser => old(self).chaser_enemy_stats,
                            })
                            &&& (exists|target: Vec2Fx, speed: i64|
                                v2_in(target, POS_LIMIT as int) && 0 <= speed <= e.stats.max_speed
                                    && e.vel == #[trigger] spawn_vel_spec(
                                    e.pos,
                                    target,
                                    speed as int,
                                ))
                        }) by {
                            if k < pre_es.len() {
                                assert(self.enemies@[k] == pre_es[k]);
                                let e = pre_es[k];
                                let jw = choose|j: int|
                                    0 <= j < i && enemy_cmd_matches(#[trigger] commands@[j], e)
                                        && e.id == id0 + j;
                                assert(enemy_cmd_matches(commands@[jw], e));
                            } else {
                                assert(self.enemies@[k] == last);
                                assert(enemy_cmd_matches(commands@[i as int], last));
                            }
                        }
                        assert forall|k: int|
                            es_len0 <= k < self.enemies@.len() implies (
                        #[trigger] self.enemies@[k]).id < id0 + i + 1 by {
                            if k < pre_es.len() {
                                assert(self.enemies@[k] == pre_es[k]);
                            } else {
                                assert(self.enemies@[k] == last);
                            }
                        }
                        assert forall|k1: int, k2: int|
                            es_len0 <= k1 < k2 < self.enemies@.len() implies (
                        #[trigger] self.enemies@[k1]).id < (#[trigger] self.enemies@[k2]).id by {
                            assert(self.enemies@[k1] == pre_es[k1]);
                            if k2 < pre_es.len() {
                                assert(self.enemies@[k2] == pre_es[k2]);
                            } else {
                                assert(self.enemies@[k2] == last);
                                assert(pre_es[k1].id < id0 + i);
                            }
                        }
                        assert forall|k: int|
                            0 <= k < es_len0 implies self.enemies@[k] == #[trigger] old(self).enemies@[k] by {
                            assert(self.enemies@[k] == pre_es[k]);
                        }
                    }
                },
            }
            proof {
                let rest_pre = commands@.skip(i as int);
                let rest_post = commands@.skip(i as int + 1);
                assert(rest_pre.drop_first() =~= rest_post);
                assert(rest_pre[0] == commands@[i as int]);
                let cur = commands@.take(i as int + 1);
                assert(cur.drop_last() =~= commands@.take(i as int));
                assert(cur.last() == commands@[i as int]);
            }
            i = i + 1;
        }
        proof {
            assert(commands@.skip(commands@.len() as int) =~= Seq::<SpawnCommand>::empty());
            assert(commands@.take(commands@.len() as int) =~= commands@);
        }
    }

    /// Execute a batch known to hold only projectile requests; the thin
    /// face of `execute_spawn_commands` that the tick uses.
    fn execute_projectile_commands(&mut self, commands: Vec<SpawnCommand>)
        requires
            gamestate_wf(*old(self)),
            cmds_all_projectiles(commands@),
            forall|k: int| 0 <= k < commands@.len() ==> spawn_command_wf(#[trigger] commands@[k]),
            old(self).next_entity_id + commands@.len() <= u64::MAX,
        ensures
            final(self).player == old(self).player,
            final(self).enemies@ == old(self).enemies@,
            final(self).state == old(self).state && final(self).next_state == old(self).next_state,
            final(self).wave == old(self).wave && final(self).paused == old(self).paused,
            final(self).error_message == old(self).error_message,
            final(self).game_constants == old(self).game_constants,
            final(self).basic_enemy_stats == old(self).basic_enemy_stats,
            final(self).chaser_enemy_stats == old(self).chaser_enemy_stats,
            final(self).arena_w == old(self).arena_w && final(self).arena_h == old(self).arena_h,
            final(self).t_passed == old(self).t_passed,
            final(self).enemies_to_despawn == old(self).enemies_to_despawn,
            final(self).projectiles_to_despawn == old(self).projectiles_to_despawn,
            final(self).projectiles@ == spawn_fold(
                old(self).projectiles@,
                commands@,
                old(self).next_entity_id as int,
            ),
            final(self).next_entity_id == old(self).next_entity_id + commands@.len(),
            gamestate_wf(*final(self)),
    {
        proof {
            lemma_no_enemy_cmds(commands@);
        }
        self.execute_spawn_commands(commands);
        proof {
            assert(self.enemies@ =~= old(self).enemies@);
        }
    }

    /// Create one enemy of the given kind at `pos`, aimed at `target`
    /// with the given entry speed, under a fresh id and the kind's
    /// current stats.
    pub fn spawn_enemy_at(&mut self, enemy_type: EnemyType, pos: Vec2Fx, target: Vec2Fx, speed: i64)
        requires
            gamestate_wf(*old(self)),
            v2_in(pos, POS_LIMIT as int),
            v2_in(target, POS_LIMIT as int),
            0 <= speed <= (match enemy_type {
                EnemyType::Basic => old(self).basic_enemy_stats.max_speed,
                EnemyType::Chaser => old(self).chaser_enemy_stats.max_speed,
            }),
            old(self).next_entity_id < u64::MAX,
        ensures
            *final(self) == (GameState {
                enemies: final(self).enemies,
                next_entity_id: (old(self).next_entity_id + 1) as u64,
                ..*old(self)
            }),
            final(self).enemies@ == old(self).enemies@.push(
                Enemy {
                    id: old(self).next_entity_id,
                    pos,
                    vel: spawn_vel_spec(pos, target, speed as int),
                    enemy_type,
                    stats: match enemy_type {
                        EnemyType::Basic => old(self).basic_enemy_stats,
                        EnemyType::Chaser => old(self).chaser_enemy_stats,
                    },
                },
            ),
            gamestate_wf(*final(self)),
    {
        let ghost pre = self.enemies@;
        let id = self.next_entity_id;
        self.next_entity_id = self.next_entity_id + 1;
        let stats = match enemy_type {
            EnemyType::Basic => self.basic_enemy_stats,
            EnemyType::Chaser => self.chaser_enemy_stats,
        };
        let e = Enemy::spawn(id, pos, enemy_type, stats, target, speed);
        self.enemies.push(e);
        proof {
            assert forall|k: int|
                0 <= k < self.enemies_to_despawn@.len() implies has_enemy_id(
                self.enemies@,
                #[trigger] self.enemies_to_despawn@[k],
            ) by {
                let mid = self.enemies_to_despawn@[k];
                assert(has_enemy_id(pre, mid));
                let w = choose|w: int| 0 <= w < pre.len() && (#[trigger] pre[w]).id == mid;
                assert(self.enemies@[w].id == mid);
            }
        }
    }

    /// Create one enemy at `pos`, aimed at a point drawn near the arena
    /// center with a random entry speed. Exactly one enemy is appended;
    /// its target and speed lie in the stated ranges, nothing more is
    /// assumed of them.
    pub fn spawn_enemy(&mut self, enemy_type: EnemyType, pos: Vec2Fx)
        requires
            gamestate_wf(*old(self)),
            v2_in(pos, POS_LIMIT as int),
            old(self).next_entity_id < u64::MAX,
        ensures
            *final(self) == (GameState {
                enemies: final(self).enemies,
                next_entity_id: (old(self).next_entity_id + 1) as u64,
                ..*old(self)
            }),
            final(self).enemies@.len() == old(self).enemies@.len() + 1,
            forall|k: int| 0 <= k < old(self).enemies@.len() ==> final(self).enemies@[k] == old(self).enemies@[k],
            ({
                let e = final(self).enemies@.last();
                let stats = match enemy_type {
                    EnemyType::Basic => old(self).basic_enemy_stats,
                    EnemyType::Chaser => old(self).chaser_enemy_stats,
                };
                &&& e.id == old(self).next_entity_id
                &&& e.pos == pos
                &&& e.enemy_type == enemy_type
                &&& e.stats == stats
                &&& (exists|target: Vec2Fx, speed: i64|
                    v2_in(target, POS_LIMIT as int) && (if stats.max_speed < FX_ONE {
                        stats.max_speed as int
                    } else {
                        FX_ONE as int
                    }) <= speed <= stats.max_speed && e.vel == #[trigger] spawn_vel_spec(
                        pos,
                        target,
                        speed as int,
                    ))
            }),
            gamestate_wf(*final(self)),
    {
        let stats = match enemy_type {
            EnemyType::Basic => self.basic_enemy_stats,
            EnemyType::Chaser => self.chaser_enemy_stats,
        };
        let cx = div_fx(self.arena_w, 2);
        let cy = div_fx(self.arena_h, 2);
        let off = self.game_constants.spawn_target_offset;
        let tx = crate::rng::gen_range_fx(cx - off, cx + off);
        let ty = crate::rng::gen_range_fx(cy - off, cy + off);
        let target = Vec2Fx::new(tx, ty);
        let lo: i64 = if stats.max_speed < FX_ONE {
            stats.max_speed
        } else {
            FX_ONE
        };
        let speed = crate::rng::gen_range_fx(lo, stats.max_speed);
        self.spawn_enemy_at(enemy_type, pos, target, speed);
    }
}


/// A point on the arena border: both coordinates inside the arena, at
/// least one of them on an edge.
pub open spec fn on_border_spec(x: int, y: int, w: int, h: int) -> bool {
    0 <= x <= w && 0 <= y <= h && (x == 0 || x == w || y == 0 || y == h)
}

/// Draw a random point on the arena border, uniformly-ish over the four
/// edges. Only the border property is assumed of the result.
fn get_spawn_position(w: i64, h: i64) -> (r: (i64, i64))
    requires
        0 < w <= ARENA_LIMIT,
        0 < h <= ARENA_LIMIT,
    ensures
        on_border_spec(r.0 as int, r.1 as int, w as int, h as int),
{
    let x: i64 = if crate::rng::gen_range_fx(0, 2) == 0 {
        if crate::rng::gen_range_fx(0, 2) == 0 {
            0
        } else {
            w
        }
    } else {
        crate::rng::gen_range_fx(0, w)
    };
    let y: i64 = if x == 0 || x == w {
        crate::rng::gen_range_fx(0, h)
    } else if crate::rng::gen_range_fx(0, 2) == 0 {
        0
    } else {
        h
    };
    (x, y)
}

/// All spawn requests a weapon batch produces ask for projectiles.
proof fn lemma_weapons_fire_all_projectiles(ws: Seq<crate::weapon::Weapon>, dt: int, pos: Vec2Fx, facing: Vec2Fx)
    ensures
        cmds_all_projectiles(crate::player::weapons_fire_spec(ws, dt, pos, facing)),
    decreases ws.len(),
{
    if ws.len() > 0 {
        lemma_weapons_fire_all_projectiles(ws.drop_last(), dt, pos, facing);
        let tail = crate::weapon::fire_commands_spec(
            crate::weapon::cooldown_step_spec(ws.last(), dt),
            pos,
            facing,
        );
        assert(cmds_all_projectiles(tail)) by {
            assert forall|k: int| 0 <= k < tail.len() implies (#[trigger] tail[k]) matches SpawnCommand::Projectile { .. } by {}
        }
        let whole = crate::player::weapons_fire_spec(ws, dt, pos, facing);
        let front = crate::player::weapons_fire_spec(ws.drop_last(), dt, pos, facing);
        assert forall|k: int| 0 <= k < whole.len() implies (#[trigger] whole[k]) matches SpawnCommand::Projectile { .. } by {
            if k < front.len() {
                assert(whole[k] == front[k]);
            } else {
                assert(whole[k] == tail[k - front.len()]);
            }
        }
    }
}

impl GameState {
    /// Spawn a full wave at random border positions: first the basic
    /// enemies, then the chasers, each aimed near the arena center.
    pub fn spawn_wave(&mut self, config: WaveConfig)
        requires
            gamestate_wf(*old(self)),
            wave_config_wf(config),
            old(self).next_entity_id + config.basic_enemy_count + config.chaser_enemy_count
                <= u64::MAX,
        ensures
            *final(self) == (GameState {
                enemies: final(self).enemies,
                next_entity_id: final(self).next_entity_id,
                ..*old(self)
            }),
            final(self).enemies@.len() == old(self).enemies@.len() + config.basic_enemy_count
                + config.chaser_enemy_count,
            forall|k: int| 0 <= k < old(self).enemies@.len() ==> final(self).enemies@[k] == old(self).enemies@[k],
            forall|k: int|
                old(self).enemies@.len() <= k < old(self).enemies@.len()
                    + config.basic_enemy_count ==> (#[trigger] final(self).enemies@[k]).enemy_type
                    == EnemyType::Basic,
            forall|k: int|
                old(self).enemies@.len() + config.basic_enemy_count <= k < final(self).enemies@.len() ==> (#[trigger] final(self).enemies@[k]).enemy_type
                    == EnemyType::Chaser,
            forall|k: int|
                old(self).enemies@.len() <= k < final(self).enemies@.len() ==> on_border_spec(
                    (#[trigger] final(self).enemies@[k]).pos.x as int,
                    final(self).enemies@[k].pos.y as int,
                    old(self).arena_w as int,
                    old(self).arena_h as int,
                ),
            final(self).next_entity_id == old(self).next_entity_id + config.basic_enemy_count
                + config.chaser_enemy_count,
            gamestate_wf(*final(self)),
    {
        let ghost len0 = self.enemies@.len();
        let ghost id0 = self.next_entity_id;
        let mut i: u32 = 0;
        while i < config.basic_enemy_count
            invariant
                gamestate_wf(*self),
                0 <= i <= config.basic_enemy_count,
                wave_config_wf(config),
                id0 + config.basic_enemy_count + config.chaser_enemy_count <= u64::MAX,
                *self == (GameState {
                    enemies: self.enemies,
                    next_entity_id: self.next_entity_id,
                    ..*old(self)
                }),
                self.enemies@.len() == len0 + i,
                self.next_entity_id == id0 + i,
                forall|k: int| 0 <= k < len0 ==> self.enemies@[k] == old(self).enemies@[k],
                forall|k: int|
                    len0 <= k < self.enemies@.len() ==> (#[trigger] self.enemies@[k]).enemy_type
                        == EnemyType::Basic,
                forall|k: int|
                    len0 <= k < self.enemies@.len() ==> on_border_spec(
                        (#[trigger] self.enemies@[k]).pos.x as int,
                        self.enemies@[k].pos.y as int,
                        self.arena_w as int,
                        self.arena_h as int,
                    ),
            decreases config.basic_enemy_count - i,
        {
            let (x, y) = get_spawn_position(self.arena_w, self.arena_h);
            self.spawn_enemy(EnemyType::Basic, Vec2Fx::new(x, y));
            i = i + 1;
        }
        let ghost mid_len = self.enemies@.len();
        let mut j: u32 = 0;
        while j < config.chaser_enemy_count
            invariant
                gamestate_wf(*self),
                0 <= j <= config.chaser_enemy_count,
                wave_config_wf(config),
                mid_len == len0 + config.basic_enemy_count,
                id0 + config.basic_enemy_count + config.chaser_enemy_count <= u64::MAX,
                *self == (GameState {
                    enemies: self.enemies,
                    next_entity_id: self.next_entity_id,
                    ..*old(self)
                }),
                self.enemies@.len() == mid_len + j,
                self.next_entity_id == id0 + config.basic_enemy_count + j,
                forall|k: int| 0 <= k < len0 ==> self.enemies@[k] == old(self).enemies@[k],
                forall|k: int|
                    len0 <= k < mid_len ==> (#[trigger] self.enemies@[k]).enemy_type
                        == EnemyType::Basic,
                forall|k: int|
                    mid_len <= k < self.enemies@.len() ==> (#[trigger] self.enemies@[k]).enemy_type
                        == EnemyType::Chaser,
                forall|k: int|
                    len0 <= k < self.enemies@.len() ==> on_border_spec(
                        (#[trigger] self.enemies@[k]).pos.x as int,
                        self.enemies@[k].pos.y as int,
                        self.arena_w as int,
                        self.arena_h as int,
                    ),
            decreases config.chaser_enemy_count - j,
        {
            let (x, y) = get_spawn_position(self.arena_w, self.arena_h);
            self.spawn_enemy(EnemyType::Chaser, Vec2Fx::new(x, y));
            j = j + 1;
        }
    }

    /// Begin the next wave from the host's configuration answer: an error
    /// enters the script-error phase at once (keeping the message); past
    /// the final wave the session is won; otherwise the wave spawns and
    /// the counter advances. Wave counts beyond `WAVE_COUNT_LIMIT` per
    /// kind are clamped to that limit, a representation cap the
    /// configuration source is not expected to reach.
    pub fn begin_wave(&mut self, outcome: Result<WaveConfig, String>)
        requires
            gamestate_wf(*old(self)),
            old(self).next_entity_id + 2 * crate::config::WAVE_COUNT_LIMIT <= u64::MAX,
            old(self).wave < u32::MAX,
        ensures
            outcome matches Result::Err(m) ==> final(self).state == GameStateEnum::ScriptError
                && final(self).error_message == Option::Some(m) && final(self).enemies == old(self).enemies && final(self).wave == old(self).wave,
            outcome matches Result::Ok(c) ==> (if old(self).wave >= old(self).game_constants.max_waves {
                final(self).next_state == Option::Some(GameStateEnum::Won) && final(self).enemies
                    == old(self).enemies && final(self).wave == old(self).wave
            } else {
                final(self).wave == old(self).wave + 1 && final(self).enemies@.len() == old(self).enemies@.len() + min_u32_spec(
                    c.basic_enemy_count,
                    crate::config::WAVE_COUNT_LIMIT,
                ) + min_u32_spec(c.chaser_enemy_count, crate::config::WAVE_COUNT_LIMIT)
                    && (forall|k: int|
                    0 <= k < old(self).enemies@.len() ==> final(self).enemies@[k] == old(self).enemies@[k]) && (forall|k: int|
                    old(self).enemies@.len() <= k < final(self).enemies@.len()
                        ==> on_border_spec(
                        (#[trigger] final(self).enemies@[k]).pos.x as int,
                        final(self).enemies@[k].pos.y as int,
                        old(self).arena_w as int,
                        old(self).arena_h as int,
                    ))
            }),
            final(self).player == old(self).player,
            final(self).projectiles == old(self).projectiles,
            gamestate_wf(*final(self)),
    {
        match outcome {
            Result::Ok(config) => {
                if self.wave >= self.game_constants.max_waves {
                    self.set_next_state(GameStateEnum::Won);
                } else {
                    let clamped = WaveConfig {
                        basic_enemy_count: if config.basic_enemy_count
                            < crate::config::WAVE_COUNT_LIMIT {
                            config.basic_enemy_count
                        } else {
                            crate::config::WAVE_COUNT_LIMIT
                        },
                        chaser_enemy_count: if config.chaser_enemy_count
                            < crate::config::WAVE_COUNT_LIMIT {
                            config.chaser_enemy_count
                        } else {
                            crate::config::WAVE_COUNT_LIMIT
                        },
                    };
                    self.spawn_wave(clamped);
                    self.wave = self.wave + 1;
                }
            },
            Result::Err(msg) => {
                self.state = GameStateEnum::ScriptError;
                self.error_message = Option::Some(msg);
            },
        }
    }

    /// Compact the despawn lists: marked enemies and projectiles leave
    /// the collections, one experience point is awarded per removed
    /// enemy (saturating at the counter's ceiling), a gained level
    /// requests the weapon-selection phase, and both lists are cleared.
    pub fn process_despawns(&mut self)
        requires
            gamestate_wf(*old(self)),
        ensures
            final(self).enemies@ == keep_enemies(old(self).enemies@, old(self).enemies_to_despawn@),
            final(self).projectiles@ == keep_projectiles(
                old(self).projectiles@,
                old(self).projectiles_to_despawn@,
            ),
            final(self).enemies_to_despawn@.len() == 0,
            final(self).projectiles_to_despawn@.len() == 0,
            ({
                let kills = old(self).enemies_to_despawn@.len() as int;
                let award = if old(self).player.xp + kills <= u32::MAX {
                    kills
                } else {
                    u32::MAX - old(self).player.xp
                };
                let leveled = kills > 0 && old(self).player.level
                    < crate::player::PLAYER_LEVEL_LIMIT && old(self).player.xp + award
                    >= crate::player::xp_for_level_spec(old(self).player.level + 1);
                &&& final(self).player.xp == old(self).player.xp + award
                &&& final(self).player.level == old(self).player.level + (if leveled {
                    1int
                } else {
                    0int
                })
                &&& final(self).next_state == (if leveled {
                    Option::Some(GameStateEnum::WeaponSelection)
                } else {
                    old(self).next_state
                })
            }),
            final(self).player.pos == old(self).player.pos && final(self).player.vel == old(self).player.vel && final(self).player.facing == old(self).player.facing && final(self).player.stats == old(self).player.stats && final(self).player.weapons == old(self).player.weapons,
            final(self).state == old(self).state && final(self).wave == old(self).wave && final(self).paused == old(self).paused && final(self).next_entity_id == old(self).next_entity_id,
            *final(self) == (GameState {
                player: final(self).player,
                enemies: final(self).enemies,
                projectiles: final(self).projectiles,
                enemies_to_despawn: final(self).enemies_to_despawn,
                projectiles_to_despawn: final(self).projectiles_to_despawn,
                next_state: final(self).next_state,
                ..*old(self)
            }),
            gamestate_wf(*final(self)),
    {
        let ghost es0 = self.enemies@;
        let ghost ps0 = self.projectiles@;
        let ghost e_marks = self.enemies_to_despawn@;
        let ghost p_marks = self.projectiles_to_despawn@;

        let kills_usize = self.enemies_to_despawn.len();
        if kills_usize > 0 {
            let kills: u32 = if kills_usize <= 0xFFFF_FFFFusize {
                kills_usize as u32
            } else {
                0xFFFF_FFFFu32
            };
            proof {
                lemma_marks_bounded(es0, e_marks);
            }
            let award: u32 = if self.player.xp <= 0xFFFF_FFFFu32 - kills {
                kills
            } else {
                0xFFFF_FFFFu32 - self.player.xp
            };
            let leveled = self.player.add_xp(award);
            if leveled {
                self.set_next_state(GameStateEnum::WeaponSelection);
            }
        }

        let mut kept_e: Vec<Enemy> = Vec::new();
        let mut i: usize = 0;
        while i < self.enemies.len()
            invariant
                0 <= i <= self.enemies@.len(),
                self.enemies@ == es0,
                self.enemies_to_despawn@ == e_marks,
                ids_distinct(e_marks),
                forall|a: int, b: int| 0 <= a < b < es0.len() ==> (#[trigger] es0[a]).id != (
                #[trigger] es0[b]).id,
                kept_e@ == keep_enemies(es0.take(i as int), e_marks),
            decreases self.enemies@.len() - i,
        {
            let e = self.enemies[i];
            let marked = contains_id(&self.enemies_to_despawn, e.id);
            proof {
                let cur = es0.take(i as int + 1);
                assert(cur.drop_last() =~= es0.take(i as int));
                assert(cur.last() == es0[i as int]);
            }
            if !marked {
                kept_e.push(e);
            }
            i = i + 1;
        }
        proof {
            assert(es0.take(es0.len() as int) =~= es0);
        }
        self.enemies = kept_e;

        let mut kept_p: Vec<Projectile> = Vec::new();
        let mut j: usize = 0;
        while j < self.projectiles.len()
            invariant
                0 <= j <= self.projectiles@.len(),
                self.projectiles@ == ps0,
                self.projectiles_to_despawn@ == p_marks,
                kept_p@ == keep_projectiles(ps0.take(j as int), p_marks),
            decreases self.projectiles@.len() - j,
        {
            let p = self.projectiles[j];
            let marked = contains_id(&self.projectiles_to_despawn, p.id);
            proof {
                let cur = ps0.take(j as int + 1);
                assert(cur.drop_last() =~= ps0.take(j as int));
                assert(cur.last() == ps0[j as int]);
            }
            if !marked {
                kept_p.push(p);
            }
            j = j + 1;
        }
        proof {
            assert(ps0.take(ps0.len() as int) =~= ps0);
        }
        self.projectiles = kept_p;

        self.enemies_to_despawn = Vec::new();
        self.projectiles_to_despawn = Vec::new();
        proof {
            lemma_keep_enemies_props(es0, e_marks);
            lemma_keep_projectiles_props(ps0, p_marks);
            assert forall|k: int| 0 <= k < self.enemies@.len() implies enemy_wf(
                #[trigger] self.enemies@[k],
            ) && self.enemies@[k].id < self.next_entity_id by {
                assert(es0.contains(self.enemies@[k]));
                let w = choose|w: int| 0 <= w < es0.len() && es0[w] == self.enemies@[k];
                assert(enemy_wf(es0[w]));
            }
            assert forall|k: int| 0 <= k < self.projectiles@.len() implies projectile_wf(
                #[trigger] self.projectiles@[k],
            ) && self.projectiles@[k].id < self.next_entity_id by {
                assert(ps0.contains(self.projectiles@[k]));
                let w = choose|w: int| 0 <= w < ps0.len() && ps0[w] == self.projectiles@[k];
                assert(projectile_wf(ps0[w]));
            }
        }
    }

    /// Choose or upgrade a weapon in the selection phase: a type already
    /// carried gains a level (saturating at the level cap), a new type is
    /// added at level one while a slot is free, and either action returns
    /// to play. With all slots taken and a new type chosen, nothing
    /// happens.
    pub fn handle_weapon_selection(&mut self, weapon_type: WeaponType)
        requires
            gamestate_wf(*old(self)),
        ensures
            final(self).enemies == old(self).enemies && final(self).projectiles == old(self).projectiles && final(self).state == old(self).state && final(self).wave == old(self).wave,
            final(self).player.pos == old(self).player.pos && final(self).player.vel == old(self).player.vel && final(self).player.facing == old(self).player.facing && final(self).player.stats == old(self).player.stats && final(self).player.xp == old(self).player.xp && final(self).player.level == old(self).player.level,
            ({
                let had = exists|j: int|
                    0 <= j < old(self).player.weapons@.len() && (#[trigger] old(self).player.weapons@[j]).weapon_type == weapon_type;
                let room = old(self).player.weapons@.len() < crate::player::WEAPON_SLOTS;
                let ws0 = old(self).player.weapons@;
                let ws1 = final(self).player.weapons@;
                &&& had ==> ({
                    let i = weapon_slot_spec(ws0, weapon_type);
                    &&& ws1.len() == ws0.len()
                    &&& (forall|j: int| 0 <= j < ws0.len() && j != i ==> ws1[j] == #[trigger] ws0[j])
                    &&& (ws0[i].level < crate::weapon::WEAPON_LEVEL_LIMIT ==> ws1[i]
                        == crate::weapon::level_up_spec(ws0[i]))
                    &&& (ws0[i].level >= crate::weapon::WEAPON_LEVEL_LIMIT ==> ws1[i] == ws0[i])
                    &&& final(self).next_state == Option::Some(GameStateEnum::Playing)
                })
                &&& (!had && room) ==> ws1 == ws0.push(
                    crate::weapon::Weapon {
                        weapon_type,
                        level: 1,
                        cooldown_remaining: 0,
                        stats: crate::weapon::base_stats_spec(weapon_type),
                    },
                ) && final(self).next_state == Option::Some(GameStateEnum::Playing)
                &&& (!had && !room) ==> *final(self) == *old(self)
            }),
            gamestate_wf(*final(self)),
    {
        match self.player.weapon_position(weapon_type) {
            Option::Some(index) => {
                self.player.level_up_weapon(index);
                self.set_next_state(GameStateEnum::Playing);
                proof {
                    let ws0 = old(self).player.weapons@;
                    assert(0 <= index < ws0.len() && ws0[index as int].weapon_type == weapon_type);
                    let ci = weapon_slot_spec(ws0, weapon_type);
                    assert(0 <= ci < ws0.len() && ws0[ci].weapon_type == weapon_type) by {
                        assert(0 <= index < ws0.len() && ws0[index as int].weapon_type
                            == weapon_type);
                    }
                    if ci != index as int {
                        assert(false);
                    }
                }
            },
            Option::None => {
                if self.player.get_weapons().len() < 3 {
                    let ghost ws0 = self.player.weapons@;
                    self.player.add_weapon(weapon_type);
                    self.set_next_state(GameStateEnum::Playing);
                    proof {
                        assert(self.player.weapons@ =~= ws0.push(
                            crate::weapon::Weapon {
                                weapon_type,
                                level: 1,
                                cooldown_remaining: 0,
                                stats: crate::weapon::base_stats_spec(weapon_type),
                            },
                        ));
                    }
                }
            },
        }
    }

    /// Apply the host's reload answer: success swaps in the whole
    /// configuration snapshot (player, constants and every live enemy's
    /// stats) and returns to play; failure enters the script-error phase
    /// with the message, leaving the previous configuration untouched.
    pub fn apply_reload(&mut self, outcome: Result<ConfigSnapshot, String>)
        requires
            gamestate_wf(*old(self)),
            outcome matches Result::Ok(s) ==> config_snapshot_wf(s),
        ensures
            outcome matches Result::Ok(s) ==> final(self).player.stats == s.player_stats && final(self).game_constants == s.game_constants && final(self).basic_enemy_stats
                == s.basic_enemy_stats && final(self).chaser_enemy_stats == s.chaser_enemy_stats
                && final(self).next_state == Option::Some(GameStateEnum::Playing) && final(self).error_message is None && final(self).enemies@.len() == old(self).enemies@.len()
                && (forall|k: int|
                0 <= k < old(self).enemies@.len() ==> #[trigger] final(self).enemies@[k]
                    == (Enemy {
                    stats: match old(self).enemies@[k].enemy_type {
                        EnemyType::Basic => s.basic_enemy_stats,
                        EnemyType::Chaser => s.chaser_enemy_stats,
                    },
                    ..old(self).enemies@[k]
                })),
            outcome matches Result::Err(m) ==> final(self).next_state == Option::Some(
                GameStateEnum::ScriptError,
            ) && final(self).error_message == Option::Some(m) && final(self).player == old(self).player && final(self).enemies == old(self).enemies && final(self).game_constants
                == old(self).game_constants,
            final(self).projectiles == old(self).projectiles && final(self).state == old(self).state && final(self).wave == old(self).wave,
            gamestate_wf(*final(self)),
    {
        match outcome {
            Result::Ok(snapshot) => {
                self.player.override_stats(snapshot.player_stats);
                self.game_constants = snapshot.game_constants;
                self.basic_enemy_stats = snapshot.basic_enemy_stats;
                self.chaser_enemy_stats = snapshot.chaser_enemy_stats;
                let ghost pre = self.enemies@;
                let mut i: usize = 0;
                while i < self.enemies.len()
                    invariant
                        gamestate_wf(*self),
                        0 <= i <= self.enemies@.len(),
                        self.enemies@.len() == pre.len(),
                        config_snapshot_wf(snapshot),
                        self.basic_enemy_stats == snapshot.basic_enemy_stats,
                        self.chaser_enemy_stats == snapshot.chaser_enemy_stats,
                        self.player == (crate::player::Player {
                            stats: snapshot.player_stats,
                            ..old(self).player
                        }),
                        self.game_constants == snapshot.game_constants,
                        *self == (GameState {
                            player: self.player,
                            enemies: self.enemies,
                            game_constants: self.game_constants,
                            basic_enemy_stats: self.basic_enemy_stats,
                            chaser_enemy_stats: self.chaser_enemy_stats,
                            ..*old(self)
                        }),
                        forall|k: int| i <= k < pre.len() ==> self.enemies@[k] == #[trigger] pre[k],
                        forall|k: int|
                            0 <= k < i ==> #[trigger] self.enemies@[k] == (Enemy {
                                stats: match pre[k].enemy_type {
                                    EnemyType::Basic => snapshot.basic_enemy_stats,
                                    EnemyType::Chaser => snapshot.chaser_enemy_stats,
                                },
                                ..pre[k]
                            }),
                    decreases self.enemies@.len() - i,
                {
                    let ghost before = self.enemies@;
                    let mut e = self.enemies[i];
                    let stats = match e.enemy_type {
                        EnemyType::Basic => self.basic_enemy_stats,
                        EnemyType::Chaser => self.chaser_enemy_stats,
                    };
                    e.override_stats(stats);
                    self.enemies.set(i, e);
                    proof {
                        assert forall|k: int|
                            0 <= k < self.enemies_to_despawn@.len() implies has_enemy_id(
                            self.enemies@,
                            #[trigger] self.enemies_to_despawn@[k],
                        ) by {
                            let mid = self.enemies_to_despawn@[k];
                            assert(has_enemy_id(before, mid));
                            let w = choose|w: int|
                                0 <= w < before.len() && (#[trigger] before[w]).id == mid;
                            assert(self.enemies@[w].id == mid);
                        }
                    }
                    i = i + 1;
                }
                self.set_next_state(GameStateEnum::Playing);
                self.error_message = Option::None;
            },
            Result::Err(msg) => {
                self.set_next_state(GameStateEnum::ScriptError);
                self.error_message = Option::Some(msg);
            },
        }
    }
}


/// One projectile's full tick: motion, then (for a missile with a live
/// target) the homing retarget toward the first nearest enemy.
pub open spec fn projectile_tick_spec(p: Projectile, es: Seq<Enemy>, dt: int) -> Projectile {
    let m = crate::projectile::projectile_moved_spec(p, dt);
    if m.projectile_type == ProjectileType::HomingMissile && es.len() > 0 {
        Projectile {
            vel: crate::projectile::homing_new_vel(
                m,
                es[crate::projectile::first_nearest_index(es, m.pos)].pos,
            ),
            ..m
        }
    } else {
        m
    }
}

/// Two circles at two positions overlap.
pub open spec fn circles_hit(p1: Vec2Fx, r1: i64, p2: Vec2Fx, r2: i64) -> bool {
    check_collision_spec(
        Collider::Circle { radius: r1 },
        p1,
        Collider::Circle { radius: r2 },
        p2,
    ).collided
}

/// Whether one tick condemns the enemy carrying `id`: it was already
/// marked, strayed past the margin, touched the player (at position `hp`
/// with radius `hr`), or was hit by a projectile. `es` and `ps` are the
/// tick's post-motion entities.
pub open spec fn tick_enemy_dead(
    base: Seq<u64>,
    es: Seq<Enemy>,
    ps: Seq<Projectile>,
    hp: Vec2Fx,
    hr: i64,
    margin: int,
    w: int,
    h: int,
    id: u64,
) -> bool {
    base.contains(id) || (exists|i: int|
        0 <= i < es.len() && (#[trigger] es[i]).id == id && (!in_bounds_spec(
            es[i].pos,
            margin,
            w,
            h,
        ) || circles_hit(hp, hr, es[i].pos, es[i].stats.radius) || (exists|q: int|
            0 <= q < ps.len() && projectile_enemy_hit(#[trigger] ps[q], es[i]))))
}

/// Whether one tick condemns the projectile carrying `id`: it was already
/// marked, expired, or (except a pulse) left the margin or hit an enemy.
pub open spec fn tick_projectile_dead(
    base: Seq<u64>,
    es: Seq<Enemy>,
    ps: Seq<Projectile>,
    margin: int,
    w: int,
    h: int,
    id: u64,
) -> bool {
    base.contains(id) || (exists|i: int|
        0 <= i < ps.len() && (#[trigger] ps[i]).id == id && (ps[i].time_remaining <= 0 || (
        ps[i].projectile_type != ProjectileType::Pulse && (!in_bounds_spec(
            ps[i].pos,
            margin,
            w,
            h,
        ) || (exists|j: int| 0 <= j < es.len() && projectile_enemy_hit(
            ps[i],
            #[trigger] es[j],
        ))))))
}

/// The enemies of `all` that the tick's dead-predicate spares, in order.
pub open spec fn surviving_enemies(
    all: Seq<Enemy>,
    base: Seq<u64>,
    es: Seq<Enemy>,
    ps: Seq<Projectile>,
    hp: Vec2Fx,
    hr: i64,
    margin: int,
    w: int,
    h: int,
) -> Seq<Enemy>
    decreases all.len(),
{
    if all.len() == 0 {
        Seq::empty()
    } else {
        let rest = surviving_enemies(all.drop_last(), base, es, ps, hp, hr, margin, w, h);
        if tick_enemy_dead(base, es, ps, hp, hr, margin, w, h, all.last().id) {
            rest
        } else {
            rest.push(all.last())
        }
    }
}

/// The projectiles of `all` that the tick's dead-predicate spares.
pub open spec fn surviving_projectiles(
    all: Seq<Projectile>,
    base: Seq<u64>,
    es: Seq<Enemy>,
    ps: Seq<Projectile>,
    margin: int,
    w: int,
    h: int,
) -> Seq<Projectile>
    decreases all.len(),
{
    if all.len() == 0 {
        Seq::empty()
    } else {
        let rest = surviving_projectiles(all.drop_last(), base, es, ps, margin, w, h);
        if tick_projectile_dead(base, es, ps, margin, w, h, all.last().id) {
            rest
        } else {
            rest.push(all.last())
        }
    }
}

/// A despawn list whose member set matches the tick's dead-predicate
/// filters exactly like the predicate.
proof fn lemma_keep_enemies_by_tick_pred(
    all: Seq<Enemy>,
    marks: Seq<u64>,
    base: Seq<u64>,
    es: Seq<Enemy>,
    ps: Seq<Projectile>,
    hp: Vec2Fx,
    hr: i64,
    margin: int,
    w: int,
    h: int,
)
    requires
        forall|id: u64| #[trigger] marks.contains(id) <==> tick_enemy_dead(
            base,
            es,
            ps,
            hp,
            hr,
            margin,
            w,
            h,
            id,
        ),
    ensures
        keep_enemies(all, marks) == surviving_enemies(all, base, es, ps, hp, hr, margin, w, h),
    decreases all.len(),
{
    if all.len() > 0 {
        lemma_keep_enemies_by_tick_pred(all.drop_last(), marks, base, es, ps, hp, hr, margin, w, h);
        assert(marks.contains(all.last().id) <==> tick_enemy_dead(
            base,
            es,
            ps,
            hp,
            hr,
            margin,
            w,
            h,
            all.last().id,
        ));
    }
}

proof fn lemma_keep_projectiles_by_tick_pred(
    all: Seq<Projectile>,
    marks: Seq<u64>,
    base: Seq<u64>,
    es: Seq<Enemy>,
    ps: Seq<Projectile>,
    margin: int,
    w: int,
    h: int,
)
    requires
        forall|id: u64| #[trigger] marks.contains(id) <==> tick_projectile_dead(
            base,
            es,
            ps,
            margin,
            w,
            h,
            id,
        ),
    ensures
        keep_projectiles(all, marks) == surviving_projectiles(all, base, es, ps, margin, w, h),
    decreases all.len(),
{
    if all.len() > 0 {
        lemma_keep_projectiles_by_tick_pred(all.drop_last(), marks, base, es, ps, margin, w, h);
        assert(marks.contains(all.last().id) <==> tick_projectile_dead(
            base,
            es,
            ps,
            margin,
            w,
            h,
            all.last().id,
        ));
    }
}

/// The slot holding the given weapon type; under the distinct-types
/// invariant at most one slot can.
pub open spec fn weapon_slot_spec(ws: Seq<crate::weapon::Weapon>, t: WeaponType) -> int {
    choose|i: int| 0 <= i < ws.len() && (#[trigger] ws[i]).weapon_type == t
}

/// Minimum of two unsigned counters.
pub open spec fn min_u32_spec(a: u32, b: u32) -> int {
    if a <= b {
        a as int
    } else {
        b as int
    }
}

/// There are no more marked enemy ids than live enemies: the marks are
/// distinct ids of live enemies.
proof fn lemma_marks_bounded(es: Seq<Enemy>, marks: Seq<u64>)
    requires
        ids_distinct(marks),
        forall|k: int| 0 <= k < marks.len() ==> has_enemy_id(es, #[trigger] marks[k]),
        forall|a: int, b: int| 0 <= a < b < es.len() ==> (#[trigger] es[a]).id != (
        #[trigger] es[b]).id,
    ensures
        marks.len() <= es.len(),
{
    let mapped = Seq::new(
        marks.len(),
        |k: int| choose|w: int| 0 <= w < es.len() && (#[trigger] es[w]).id == marks[k],
    );
    assert forall|k: int|
        0 <= k < mapped.len() implies 0 <= #[trigger] mapped[k] < es.len() && es[mapped[k]].id
        == marks[k] by {
        assert(has_enemy_id(es, marks[k]));
        let w = choose|w: int| 0 <= w < es.len() && (#[trigger] es[w]).id == marks[k];
        assert(mapped[k] == w);
    }
    assert forall|a: int, b: int|
        0 <= a < mapped.len() && 0 <= b < mapped.len() && a != b implies #[trigger] mapped[a]
        != #[trigger] mapped[b] by {
        if a < b {
            assert(marks[a] != marks[b]);
            assert(es[mapped[a]].id == marks[a] && es[mapped[b]].id == marks[b]);
        } else {
            assert(marks[b] != marks[a]);
            assert(es[mapped[a]].id == marks[a] && es[mapped[b]].id == marks[b]);
        }
    }
    lemma_injective_bound(mapped, es.len() as int);
}

/// A sequence of pairwise-distinct indices into `0..n` is no longer than
/// `n`.
proof fn lemma_injective_bound(s: Seq<int>, n: int)
    requires
        forall|a: int, b: int| 0 <= a < s.len() && 0 <= b < s.len() && a != b ==> s[a] != s[b],
        forall|k: int| 0 <= k < s.len() ==> 0 <= #[trigger] s[k] < n,
        n >= 0,
    ensures
        s.len() <= n,
    decreases n,
{
    if s.len() > n {
        if n == 0 {
            assert(0 <= s[0] < n);
            assert(false);
        } else {
            let hits = Seq::new(s.len(), |k: int| s[k]);
            let without = s.remove_value(n - 1);
            if s.contains(n - 1) {
                let w = choose|w: int| 0 <= w < s.len() && s[w] == n - 1;
                let shorter = s.remove(w);
                assert forall|a: int, b: int|
                    0 <= a < shorter.len() && 0 <= b < shorter.len() && a != b implies shorter[a]
                    != shorter[b] by {
                    let a0 = if a < w { a } else { a + 1 };
                    let b0 = if b < w { b } else { b + 1 };
                    assert(shorter[a] == s[a0] && shorter[b] == s[b0]);
                }
                assert forall|k: int| 0 <= k < shorter.len() implies 0 <= #[trigger] shorter[k] < n
                    - 1 by {
                    let k0 = if k < w { k } else { k + 1 };
                    assert(shorter[k] == s[k0]);
                    assert(s[k0] != n - 1);
                }
                lemma_injective_bound(shorter, n - 1);
            } else {
                assert forall|k: int| 0 <= k < s.len() implies 0 <= #[trigger] s[k] < n - 1 by {
                    if s[k] == n - 1 {
                        assert(s.contains(n - 1));
                    }
                }
                lemma_injective_bound(s, n - 1);
            }
        }
    }
}


/// The enemy after one tick of its motion model.
pub open spec fn enemy_updated_spec(e: Enemy, target: Option<Vec2Fx>) -> Enemy {
    let v = crate::enemy::enemy_steer_spec(e, target);
    Enemy { vel: v, pos: crate::enemy::advance_pos_spec(e.pos, v), ..e }
}

impl GameState {
    /// Move every enemy by its motion model, fed the player's position.
    pub fn update_enemies(&mut self)
        requires
            gamestate_wf(*old(self)),
        ensures
            *final(self) == (GameState { enemies: final(self).enemies, ..*old(self) }),
            final(self).enemies@.len() == old(self).enemies@.len(),
            forall|k: int|
                0 <= k < old(self).enemies@.len() ==> #[trigger] final(self).enemies@[k]
                    == enemy_updated_spec(
                    old(self).enemies@[k],
                    Option::Some(old(self).player.pos),
                ),
            gamestate_wf(*final(self)),
    {
        let player_pos = self.player.pos;
        let mut i: usize = 0;
        while i < self.enemies.len()
            invariant
                gamestate_wf(*self),
                0 <= i <= self.enemies@.len(),
                self.enemies@.len() == old(self).enemies@.len(),
                player_pos == old(self).player.pos,
                v2_in(player_pos, POS_LIMIT as int),
                *self == (GameState { enemies: self.enemies, ..*old(self) }),
                forall|k: int| i <= k < self.enemies@.len() ==> self.enemies@[k] == #[trigger] old(self).enemies@[k],
                forall|k: int|
                    0 <= k < i ==> #[trigger] self.enemies@[k] == enemy_updated_spec(
                        old(self).enemies@[k],
                        Option::Some(player_pos),
                    ),
            decreases self.enemies@.len() - i,
        {
            let ghost before = self.enemies@;
            let mut e = self.enemies[i];
            e.update(Option::Some(player_pos));
            self.enemies.set(i, e);
            proof {
                assert forall|k: int|
                    0 <= k < self.enemies_to_despawn@.len() implies has_enemy_id(
                    self.enemies@,
                    #[trigger] self.enemies_to_despawn@[k],
                ) by {
                    let mid = self.enemies_to_despawn@[k];
                    assert(has_enemy_id(before, mid));
                    let w = choose|w: int| 0 <= w < before.len() && (#[trigger] before[w]).id
                        == mid;
                    assert(self.enemies@[w].id == mid);
                }
            }
            i = i + 1;
        }
    }

    /// Move every projectile and let each missile retarget the nearest
    /// enemy.
    pub fn update_projectiles(&mut self)
        requires
            gamestate_wf(*old(self)),
        ensures
            *final(self) == (GameState { projectiles: final(self).projectiles, ..*old(self) }),
            final(self).projectiles@.len() == old(self).projectiles@.len(),
            forall|k: int|
                0 <= k < old(self).projectiles@.len() ==> ({
                    let p0 = old(self).projectiles@[k];
                    let p1 = #[trigger] final(self).projectiles@[k];
                    &&& p1.id == p0.id
                    &&& p1.projectile_type == p0.projectile_type
                    &&& p1.stats == p0.stats
                    &&& p1.source_pos == p0.source_pos
                    &&& p1.time_remaining == crate::projectile::tick_down_spec(
                        p0.time_remaining as int,
                        DT as int,
                    )
                    &&& p1.pos == crate::projectile::moved_pos_spec(p0, DT as int)
                    &&& (p0.projectile_type != ProjectileType::HomingMissile ==> p1.vel == p0.vel)
                    &&& (p0.stats.turning_rate == 0 ==> p1.vel == p0.vel)
                    &&& (p0.projectile_type == ProjectileType::HomingMissile && old(self).enemies@.len() > 0 ==> p1.vel
                        == crate::projectile::homing_new_vel(
                        crate::projectile::projectile_moved_spec(p0, DT as int),
                        old(self).enemies@[crate::projectile::first_nearest_index(
                            old(self).enemies@,
                            crate::projectile::projectile_moved_spec(p0, DT as int).pos,
                        )].pos,
                    ))
                    &&& (p0.projectile_type == ProjectileType::HomingMissile && old(self).enemies@.len() == 0 ==> p1.vel == p0.vel)
                }),
            gamestate_wf(*final(self)),
    {
        let mut i: usize = 0;
        while i < self.projectiles.len()
            invariant
                gamestate_wf(*self),
                0 <= i <= self.projectiles@.len(),
                self.projectiles@.len() == old(self).projectiles@.len(),
                *self == (GameState { projectiles: self.projectiles, ..*old(self) }),
                forall|k: int|
                    i <= k < self.projectiles@.len() ==> self.projectiles@[k] == #[trigger] old(self).projectiles@[k],
                forall|k: int|
                    0 <= k < i ==> ({
                        let p0 = old(self).projectiles@[k];
                        let p1 = #[trigger] self.projectiles@[k];
                        &&& p1.id == p0.id
                        &&& p1.projectile_type == p0.projectile_type
                        &&& p1.stats == p0.stats
                        &&& p1.source_pos == p0.source_pos
                        &&& p1.time_remaining == crate::projectile::tick_down_spec(
                            p0.time_remaining as int,
                            DT as int,
                        )
                        &&& p1.pos == crate::projectile::moved_pos_spec(p0, DT as int)
                        &&& (p0.projectile_type != ProjectileType::HomingMissile ==> p1.vel
                            == p0.vel)
                        &&& (p0.stats.turning_rate == 0 ==> p1.vel == p0.vel)
                        &&& (p0.projectile_type == ProjectileType::HomingMissile && old(self).enemies@.len() > 0 ==> p1.vel
                            == crate::projectile::homing_new_vel(
                            crate::projectile::projectile_moved_spec(p0, DT as int),
                            old(self).enemies@[crate::projectile::first_nearest_index(
                                old(self).enemies@,
                                crate::projectile::projectile_moved_spec(p0, DT as int).pos,
                            )].pos,
                        ))
                        &&& (p0.projectile_type == ProjectileType::HomingMissile && old(self).enemies@.len() == 0 ==> p1.vel == p0.vel)
                    }),
            decreases self.projectiles@.len() - i,
        {
            let ghost before = self.projectiles@;
            let mut p = self.projectiles[i];
            let ghost p0 = p;
            p.update(DT);
            let ghost pm = p;
            p.update_homing(&self.enemies);
            proof {
                assert(pm == crate::projectile::projectile_moved_spec(p0, DT as int));
                if p0.projectile_type == ProjectileType::HomingMissile && self.enemies@.len() > 0 {
                    let ki = crate::projectile::first_nearest_index(self.enemies@, pm.pos);
                    assert(crate::projectile::is_first_nearest(self.enemies@, pm.pos, ki));
                }
            }
            self.projectiles.set(i, p);
            proof {
                assert forall|k: int|
                    0 <= k < self.projectiles_to_despawn@.len() implies has_projectile_id(
                    self.projectiles@,
                    #[trigger] self.projectiles_to_despawn@[k],
                ) by {
                    let mid = self.projectiles_to_despawn@[k];
                    assert(has_projectile_id(before, mid));
                    let w = choose|w: int| 0 <= w < before.len() && (#[trigger] before[w]).id
                        == mid;
                    assert(self.projectiles@[w].id == mid);
                }
            }
            i = i + 1;
        }
    }

    /// One fixed simulation tick while playing: apply the input to the
    /// player, move the player and fire its weapons, execute the spawn
    /// requests, move enemies and projectiles, mark expiries and
    /// out-of-bounds entities, run the collision passes, check the player
    /// against the arena and compact the despawns. The phase itself never
    /// changes inside a tick; at most a transition is requested.
    #[verifier::rlimit(100)]
    pub fn playing_tick(&mut self, input: PlayerInput)
        requires
            gamestate_wf(*old(self)),
            v2_in(input.cursor, POS_LIMIT as int),
            old(self).next_entity_id + 0x10000 <= u64::MAX,
        ensures
            final(self).state == old(self).state,
            final(self).wave == old(self).wave,
            final(self).paused == old(self).paused,
            final(self).error_message == old(self).error_message,
            final(self).game_constants == old(self).game_constants,
            final(self).basic_enemy_stats == old(self).basic_enemy_stats,
            final(self).chaser_enemy_stats == old(self).chaser_enemy_stats,
            final(self).arena_w == old(self).arena_w && final(self).arena_h == old(self).arena_h,
            final(self).t_passed == old(self).t_passed,
            ({
                let p0 = old(self).player;
                let v1 = clamp_vel_spec(
                    input_pushed_vel(p0, input.left, input.right, input.up, input.down),
                    p0.stats.max_speed as int,
                );
                let aimed = input_facing(p0, input.cursor);
                let new_pos = advance_pos_spec(p0.pos, v1);
                let cmds = weapons_fire_spec(p0.weapons@, DT as int, new_pos, aimed);
                &&& final(self).player.pos == new_pos
                &&& final(self).player.vel == friction_vel_spec(v1, p0.stats.friction as int)
                &&& final(self).player.facing == aimed
                &&& final(self).player.stats == p0.stats
                &&& final(self).player.weapons@.len() == p0.weapons@.len()
                &&& (forall|i: int|
                    0 <= i < p0.weapons@.len() ==> final(self).player.weapons@[i]
                        == crate::weapon::fire_next_spec(
                        crate::weapon::cooldown_step_spec(#[trigger] p0.weapons@[i], DT as int),
                    ))
                &&& final(self).next_entity_id == old(self).next_entity_id + cmds.len()
                &&& ({
                    let es1 = Seq::new(
                        old(self).enemies@.len(),
                        |k: int| enemy_updated_spec(old(self).enemies@[k], Option::Some(new_pos)),
                    );
                    let ps1 = spawn_fold(
                        old(self).projectiles@,
                        cmds,
                        old(self).next_entity_id as int,
                    );
                    let ps2 = Seq::new(
                        ps1.len(),
                        |k: int| projectile_tick_spec(ps1[k], es1, DT as int),
                    );
                    let es2 = Seq::new(
                        es1.len(),
                        |k: int| (Enemy { vel: bounce_outer(es1, vels_of(es1), 0)[k], ..es1[k] }),
                    );
                    let margin = old(self).game_constants.out_of_bounds_margin as int;
                    let aw = old(self).arena_w as int;
                    let ah = old(self).arena_h as int;
                    &&& final(self).enemies@ == surviving_enemies(
                        es2,
                        old(self).enemies_to_despawn@,
                        es1,
                        ps2,
                        new_pos,
                        p0.stats.radius,
                        margin,
                        aw,
                        ah,
                    )
                    &&& final(self).projectiles@ == surviving_projectiles(
                        ps2,
                        old(self).projectiles_to_despawn@,
                        es1,
                        ps2,
                        margin,
                        aw,
                        ah,
                    )
                })
            }),
            final(self).player.xp >= old(self).player.xp,
            old(self).player.level <= final(self).player.level <= old(self).player.level + 1,
            final(self).enemies_to_despawn@.len() == 0,
            final(self).projectiles_to_despawn@.len() == 0,
            gamestate_wf(*final(self)),
    {
        let ghost p0 = old(self).player;
        let ghost v1 = clamp_vel_spec(
            input_pushed_vel(p0, input.left, input.right, input.up, input.down),
            p0.stats.max_speed as int,
        );
        let ghost aimed = input_facing(p0, input.cursor);
        let ghost new_pos = advance_pos_spec(p0.pos, v1);
        self.player.apply_input(input.left, input.right, input.up, input.down, input.cursor);
        proof {
            assert(self.player.vel == v1);
            assert(self.player.facing == aimed);
        }
        let commands = self.player.update(DT);
        proof {
            assert(self.player.pos == new_pos);
            assert(self.player.vel == friction_vel_spec(v1, p0.stats.friction as int));
            assert(commands@ == weapons_fire_spec(p0.weapons@, DT as int, new_pos, aimed));
        }
        proof {
            lemma_weapons_fire_all_projectiles(
                old(self).player.weapons@,
                DT as int,
                self.player.pos,
                self.player.facing,
            );
            lemma_weapons_fire_len(
                old(self).player.weapons@,
                DT as int,
                self.player.pos,
                self.player.facing,
            );
            let ghost nw = old(self).player.weapons@.len() as int;
            assert(nw <= 3);
            assert(nw * crate::weapon::FAN_COUNT_LIMIT <= 0x10000) by (nonlinear_arith)
                requires 0 <= nw <= 3;
        }
        let ghost ps1g = spawn_fold(
            old(self).projectiles@,
            commands@,
            old(self).next_entity_id as int,
        );
        let ghost es1g = Seq::new(
            old(self).enemies@.len(),
            |k: int| enemy_updated_spec(old(self).enemies@[k], Option::Some(new_pos)),
        );
        let ghost margin = old(self).game_constants.out_of_bounds_margin as int;
        let ghost aw = old(self).arena_w as int;
        let ghost ah = old(self).arena_h as int;
        let ghost me0 = old(self).enemies_to_despawn@;
        let ghost mp0 = old(self).projectiles_to_despawn@;
        self.execute_projectile_commands(commands);
        proof {
            assert(self.projectiles@ == ps1g);
        }
        self.update_enemies();
        proof {
            assert(self.enemies@ =~= es1g);
        }
        self.update_projectiles();
        let ghost ps2g = Seq::new(ps1g.len(), |k: int| projectile_tick_spec(ps1g[k], es1g, DT as int));
        proof {
            assert forall|k: int| 0 <= k < ps2g.len() implies self.projectiles@[k] == ps2g[k] by {
                let m = crate::projectile::projectile_moved_spec(ps1g[k], DT as int);
                assert(ps2g[k] == projectile_tick_spec(ps1g[k], es1g, DT as int));
            }
            assert(self.projectiles@ =~= ps2g);
        }
        self.mark_expired_projectiles();
        self.despawn_projectiles_out_of_bounds();
        self.despawn_enemies_out_of_bounds();
        self.check_collisions();
        let ghost es2g = Seq::new(
            es1g.len(),
            |k: int| (Enemy { vel: bounce_outer(es1g, vels_of(es1g), 0)[k], ..es1g[k] }),
        );
        proof {
            assert(self.enemies@ =~= es2g);
        }
        self.check_player_bounds();
        proof {
            assert forall|id: u64|
                self.enemies_to_despawn@.contains(id) <==> tick_enemy_dead(
                me0,
                es1g,
                ps2g,
                new_pos,
                p0.stats.radius,
                margin,
                aw,
                ah,
                id,
            ) by {
                assert(self.player.pos == new_pos && self.player.stats.radius == p0.stats.radius);
            }
            assert forall|id: u64|
                self.projectiles_to_despawn@.contains(id) <==> tick_projectile_dead(
                mp0,
                es1g,
                ps2g,
                margin,
                aw,
                ah,
                id,
            ) by {}
            lemma_keep_enemies_by_tick_pred(
                es2g,
                self.enemies_to_despawn@,
                me0,
                es1g,
                ps2g,
                new_pos,
                p0.stats.radius,
                margin,
                aw,
                ah,
            );
            lemma_keep_projectiles_by_tick_pred(
                ps2g,
                self.projectiles_to_despawn@,
                mp0,
                es1g,
                ps2g,
                margin,
                aw,
                ah,
            );
        }
        self.process_despawns();
    }
}

/// A weapon batch emits at most the fan limit per weapon.
proof fn lemma_weapons_fire_len(ws: Seq<crate::weapon::Weapon>, dt: int, pos: Vec2Fx, facing: Vec2Fx)
    requires
        forall|k: int| 0 <= k < ws.len() ==> crate::weapon::weapon_wf(#[trigger] ws[k]),
    ensures
        crate::player::weapons_fire_spec(ws, dt, pos, facing).len() <= ws.len()
            * crate::weapon::FAN_COUNT_LIMIT,
    decreases ws.len(),
{
    if ws.len() == 0 {
    } else {
        assert forall|k: int| 0 <= k < ws.drop_last().len() implies crate::weapon::weapon_wf(
            #[trigger] ws.drop_last()[k],
        ) by {
            assert(ws.drop_last()[k] == ws[k]);
        }
        lemma_weapons_fire_len(ws.drop_last(), dt, pos, facing);
        assert(crate::weapon::weapon_wf(ws.last()));
        let tail = crate::weapon::fire_commands_spec(
            crate::weapon::cooldown_step_spec(ws.last(), dt),
            pos,
            facing,
        );
        assert(tail.len() <= crate::weapon::FAN_COUNT_LIMIT);
        assert((ws.len() - 1) * crate::weapon::FAN_COUNT_LIMIT + crate::weapon::FAN_COUNT_LIMIT
            == ws.len() * crate::weapon::FAN_COUNT_LIMIT) by (nonlinear_arith);
    }
}

/// Whether the list already carries this id.
fn contains_id(v: &Vec<u64>, id: u64) -> (r: bool)
    ensures
        r == v@.contains(id),
{
    let mut i: usize = 0;
    while i < v.len()
        invariant
            0 <= i <= v@.len(),
            forall|j: int| 0 <= j < i ==> v@[j] != id,
        decreases v@.len() - i,
    {
        if v[i] == id {
            return true;
        }
        i = i + 1;
    }
    false
}

/// Add an id to a despawn list unless it is already there, keeping the
/// entries distinct.
fn mark_id(v: &mut Vec<u64>, id: u64)
    requires
        ids_distinct(old(v)@),
    ensures
        final(v)@ == if old(v)@.contains(id) {
            old(v)@
        } else {
            old(v)@.push(id)
        },
        ids_distinct(final(v)@),
        forall|x: u64| final(v)@.contains(x) <==> old(v)@.contains(x) || x == id,
    {
    if !contains_id(v, id) {
        v.push(id);
        proof {
            assert(final(v)@.last() == id);
            assert forall|x: u64| final(v)@.contains(x) implies old(v)@.contains(x) || x == id by {
                let k = choose|k: int| 0 <= k < final(v)@.len() && final(v)@[k] == x;
                if k < old(v)@.len() {
                    assert(old(v)@[k] == x);
                }
            }
            assert forall|x: u64| old(v)@.contains(x) || x == id implies final(v)@.contains(x) by {
                if old(v)@.contains(x) {
                    let k = choose|k: int| 0 <= k < old(v)@.len() && old(v)@[k] == x;
                    assert(final(v)@[k] == x);
                } else {
                    assert(final(v)@[old(v)@.len() as int] == id);
                }
            }
        }
    } else {
        proof {
            assert forall|x: u64| final(v)@.contains(x) implies old(v)@.contains(x) || x == id by {}
        }
    }
}

} // verus!

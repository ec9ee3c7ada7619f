use arena_survivor::config::{ConfigSnapshot, GameConstants, WaveConfig};
use arena_survivor::enemy::{Enemy, EnemyType};
use arena_survivor::entity::{EntityStats, SpawnCommand};
use arena_survivor::gamestate::{GameState, GameStateEnum, PlayerInput, DT};
use arena_survivor::projectile::{Projectile, ProjectileStats, ProjectileType};
use arena_survivor::vec2::Vec2Fx;
use arena_survivor::weapon::WeaponType;

const FX: i64 = 1024;
const W: i64 = 800 * FX;
const H: i64 = 800 * FX;

fn gs() -> GameState {
    GameState::new(W, H, ConfigSnapshot::fallback())
}

fn idle_input() -> PlayerInput {
    PlayerInput { left: false, right: false, up: false, down: false, cursor: Vec2Fx { x: 0, y: 0 } }
}

fn far_ball(id: u64) -> Projectile {
    let s = ProjectileStats::energy_ball_default();
    let mut p = Projectile::spawn_energy_ball(
        id,
        Vec2Fx { x: 0, y: 0 },
        Vec2Fx { x: -FX, y: 0 },
        s,
    );
    p.pos = Vec2Fx { x: -200 * FX, y: 0 };
    p
}

fn far_pulse(id: u64) -> Projectile {
    let s = ProjectileStats::pulse_default();
    let mut p = Projectile::spawn_pulse(id, Vec2Fx { x: 0, y: 0 }, s);
    p.pos = Vec2Fx { x: -200 * FX, y: 0 };
    p.source_pos = p.pos;
    p
}

#[test]
fn new_session_starts_in_weapon_selection_at_the_center() {
    let g = gs();
    assert!(matches!(g.state, GameStateEnum::WeaponSelection));
    assert_eq!(g.player.pos, Vec2Fx { x: 400 * FX, y: 400 * FX });
    assert_eq!(g.wave, 0);
    assert!(g.enemies.is_empty());
    assert!(g.projectiles.is_empty());
}

#[test]
fn time_accumulator_drains_whole_ticks() {
    let mut g = gs();
    let n = g.update_time_for_logic(100);
    assert_eq!(n, 2);
    assert_eq!(g.t_passed, 100 - 2 * DT);
}

#[test]
fn less_than_one_tick_means_zero_updates_and_untouched_entities() {
    let mut g = gs();
    g.enemies.push(Enemy::spawn(
        0,
        Vec2Fx { x: 10 * FX, y: 10 * FX },
        EnemyType::Basic,
        g.basic_enemy_stats,
        Vec2Fx { x: 400 * FX, y: 400 * FX },
        FX,
    ));
    g.next_entity_id = 1;
    let pos_before = g.enemies[0].pos;
    let vel_before = g.enemies[0].vel;
    let n = g.update_time_for_logic(DT - 1);
    assert_eq!(n, 0);
    assert_eq!(g.enemies[0].pos, pos_before);
    assert_eq!(g.enemies[0].vel, vel_before);
    assert_eq!(g.player.pos, Vec2Fx { x: 400 * FX, y: 400 * FX });
}

#[test]
fn pulse_survives_the_bounds_pass_where_a_ball_does_not() {
    let mut g = gs();
    g.projectiles.push(far_ball(0));
    g.projectiles.push(far_pulse(1));
    g.next_entity_id = 2;
    g.despawn_projectiles_out_of_bounds();
    assert_eq!(g.projectiles_to_despawn.len(), 1);
    assert_eq!(g.projectiles_to_despawn[0], 0);
    g.process_despawns();
    assert_eq!(g.projectiles.len(), 1);
    assert_eq!(g.projectiles[0].id, 1);
    assert!(matches!(g.projectiles[0].projectile_type, ProjectileType::Pulse));
}

#[test]
fn out_of_bounds_enemy_is_despawned() {
    let mut g = gs();
    g.enemies.push(Enemy::spawn(
        0,
        Vec2Fx { x: -300 * FX, y: 0 },
        EnemyType::Basic,
        g.basic_enemy_stats,
        Vec2Fx { x: 400 * FX, y: 400 * FX },
        FX,
    ));
    g.next_entity_id = 1;
    g.despawn_enemies_out_of_bounds();
    g.process_despawns();
    assert!(g.enemies.is_empty());
}

#[test]
fn enemy_within_the_margin_stays() {
    let mut g = gs();
    // The fallback margin is fifty units: forty units outside is kept.
    g.enemies.push(Enemy::spawn(
        0,
        Vec2Fx { x: -40 * FX, y: 0 },
        EnemyType::Basic,
        g.basic_enemy_stats,
        Vec2Fx { x: 400 * FX, y: 400 * FX },
        FX,
    ));
    g.next_entity_id = 1;
    g.despawn_enemies_out_of_bounds();
    assert!(g.enemies_to_despawn.is_empty());
}

#[test]
fn despawned_enemies_grant_experience_and_a_level() {
    let mut g = gs();
    for id in 0..5u64 {
        g.enemies.push(Enemy::spawn(
            id,
            Vec2Fx { x: 10 * FX + (id as i64) * 30 * FX, y: 10 * FX },
            EnemyType::Basic,
            g.basic_enemy_stats,
            Vec2Fx { x: 400 * FX, y: 400 * FX },
            FX,
        ));
        g.enemies_to_despawn.push(id);
    }
    g.next_entity_id = 5;
    g.process_despawns();
    assert!(g.enemies.is_empty());
    assert_eq!(g.player.xp, 5);
    assert_eq!(g.player.level, 1);
    assert_eq!(g.next_state, Some(GameStateEnum::WeaponSelection));
}

#[test]
fn player_touching_an_enemy_ends_the_game() {
    let mut g = gs();
    g.enemies.push(Enemy::spawn(
        0,
        g.player.pos,
        EnemyType::Chaser,
        g.chaser_enemy_stats,
        Vec2Fx { x: 0, y: 0 },
        FX,
    ));
    g.next_entity_id = 1;
    g.check_player_enemy_collisions();
    assert_eq!(g.next_state, Some(GameStateEnum::GameOver));
    assert_eq!(g.enemies_to_despawn.len(), 1);
}

#[test]
fn projectile_hit_removes_enemy_and_ball_but_not_pulse() {
    let mut g = gs();
    let s = ProjectileStats::energy_ball_default();
    let mut ball = Projectile::spawn_energy_ball(
        0,
        Vec2Fx { x: 100 * FX, y: 100 * FX },
        Vec2Fx { x: FX, y: 0 },
        s,
    );
    ball.pos = Vec2Fx { x: 100 * FX, y: 100 * FX };
    let pulse = Projectile::spawn_pulse(
        1,
        Vec2Fx { x: 200 * FX, y: 200 * FX },
        ProjectileStats::pulse_default(),
    );
    g.projectiles.push(ball);
    g.projectiles.push(pulse);
    g.enemies.push(Enemy::spawn(
        2,
        Vec2Fx { x: 100 * FX, y: 100 * FX },
        EnemyType::Basic,
        g.basic_enemy_stats,
        Vec2Fx { x: 400 * FX, y: 400 * FX },
        FX,
    ));
    g.enemies.push(Enemy::spawn(
        3,
        Vec2Fx { x: 200 * FX, y: 200 * FX },
        EnemyType::Basic,
        g.basic_enemy_stats,
        Vec2Fx { x: 400 * FX, y: 400 * FX },
        FX,
    ));
    g.next_entity_id = 4;
    g.check_projectile_enemy_collisions();
    g.process_despawns();
    assert!(g.enemies.is_empty());
    assert_eq!(g.projectiles.len(), 1);
    assert_eq!(g.projectiles[0].id, 1);
}

#[test]
fn closing_enemies_exchange_normal_velocity() {
    let mut g = gs();
    let mut a = Enemy::spawn(
        0,
        Vec2Fx { x: 100 * FX, y: 0 },
        EnemyType::Basic,
        g.basic_enemy_stats,
        Vec2Fx { x: 400 * FX, y: 400 * FX },
        FX,
    );
    a.vel = Vec2Fx { x: 2 * FX, y: 0 };
    let mut b = Enemy::spawn(
        1,
        Vec2Fx { x: 110 * FX, y: 0 },
        EnemyType::Basic,
        g.basic_enemy_stats,
        Vec2Fx { x: 400 * FX, y: 400 * FX },
        FX,
    );
    b.vel = Vec2Fx { x: -2 * FX, y: 0 };
    g.enemies.push(a);
    g.enemies.push(b);
    g.next_entity_id = 2;
    let sum_before = g.enemies[0].vel.x + g.enemies[1].vel.x;
    g.check_enemy_collisions();
    // The pair closes head-on along x: the velocities swap (equal mass).
    assert!(g.enemies[0].vel.x < 0);
    assert!(g.enemies[1].vel.x > 0);
    assert_eq!(g.enemies[0].vel.x + g.enemies[1].vel.x, sum_before);
    // Positions are untouched by the bounce pass.
    assert_eq!(g.enemies[0].pos, Vec2Fx { x: 100 * FX, y: 0 });
}

#[test]
fn separating_enemies_are_left_alone() {
    let mut g = gs();
    let mut a = Enemy::spawn(
        0,
        Vec2Fx { x: 100 * FX, y: 0 },
        EnemyType::Basic,
        g.basic_enemy_stats,
        Vec2Fx { x: 400 * FX, y: 400 * FX },
        FX,
    );
    a.vel = Vec2Fx { x: -2 * FX, y: 0 };
    let mut b = Enemy::spawn(
        1,
        Vec2Fx { x: 110 * FX, y: 0 },
        EnemyType::Basic,
        g.basic_enemy_stats,
        Vec2Fx { x: 400 * FX, y: 400 * FX },
        FX,
    );
    b.vel = Vec2Fx { x: 2 * FX, y: 0 };
    g.enemies.push(a);
    g.enemies.push(b);
    g.next_entity_id = 2;
    g.check_enemy_collisions();
    assert_eq!(g.enemies[0].vel, Vec2Fx { x: -2 * FX, y: 0 });
    assert_eq!(g.enemies[1].vel, Vec2Fx { x: 2 * FX, y: 0 });
}

#[test]
fn leaving_the_arena_is_game_over() {
    let mut g = gs();
    g.player.pos = Vec2Fx { x: -FX, y: 400 * FX };
    g.check_player_bounds();
    assert_eq!(g.next_state, Some(GameStateEnum::GameOver));
    g.apply_next_state();
    assert!(matches!(g.state, GameStateEnum::GameOver));
    // Entering the game-over phase resets the player to the center.
    assert_eq!(g.player.pos, Vec2Fx { x: 400 * FX, y: 400 * FX });
}

#[test]
fn weapon_selection_adds_then_upgrades_and_returns_to_play() {
    let mut g = gs();
    g.handle_weapon_selection(WeaponType::EnergyBall);
    assert_eq!(g.player.get_weapons().len(), 1);
    assert_eq!(g.next_state, Some(GameStateEnum::Playing));
    g.apply_next_state();
    assert!(matches!(g.state, GameStateEnum::Playing));
    g.handle_weapon_selection(WeaponType::EnergyBall);
    assert_eq!(g.player.get_weapons().len(), 1);
    assert_eq!(g.player.get_weapons()[0].get_level(), 2);
}

#[test]
fn full_slots_reject_a_fourth_weapon_type() {
    let mut g = gs();
    g.handle_weapon_selection(WeaponType::EnergyBall);
    g.handle_weapon_selection(WeaponType::Pulse);
    g.handle_weapon_selection(WeaponType::HomingMissile);
    assert_eq!(g.player.get_weapons().len(), 3);
}

#[test]
fn failed_wave_lookup_enters_the_script_error_phase() {
    let mut g = gs();
    g.begin_wave(Err(String::from("missing wave table")));
    assert!(matches!(g.state, GameStateEnum::ScriptError));
    assert_eq!(g.error_message.as_deref(), Some("missing wave table"));
}

#[test]
fn successful_wave_lookup_spawns_the_composition() {
    let mut g = gs();
    g.begin_wave(Ok(WaveConfig { basic_enemy_count: 3, chaser_enemy_count: 2 }));
    assert_eq!(g.wave, 1);
    assert_eq!(g.enemies.len(), 5);
    assert!(matches!(g.enemies[0].enemy_type, EnemyType::Basic));
    assert!(matches!(g.enemies[4].enemy_type, EnemyType::Chaser));
    for e in g.enemies.iter() {
        // Wave enemies enter from the arena border.
        let on_border = e.pos.x == 0 || e.pos.x == W || e.pos.y == 0 || e.pos.y == H;
        assert!(on_border);
    }
}

#[test]
fn surviving_the_final_wave_wins() {
    let mut g = gs();
    g.wave = g.game_constants.max_waves;
    g.begin_wave(Ok(WaveConfig { basic_enemy_count: 1, chaser_enemy_count: 0 }));
    assert_eq!(g.next_state, Some(GameStateEnum::Won));
    assert!(g.enemies.is_empty());
}

#[test]
fn reload_success_swaps_the_whole_snapshot() {
    let mut g = gs();
    g.enemies.push(Enemy::spawn(
        0,
        Vec2Fx { x: 10 * FX, y: 10 * FX },
        EnemyType::Basic,
        g.basic_enemy_stats,
        Vec2Fx { x: 400 * FX, y: 400 * FX },
        FX,
    ));
    g.next_entity_id = 1;
    let mut snap = ConfigSnapshot::fallback();
    snap.player_stats = EntityStats { radius: 10 * FX, max_speed: 8 * FX, acceleration: FX, friction: 900 };
    snap.basic_enemy_stats = EntityStats { radius: 7 * FX, max_speed: 2 * FX, acceleration: 256, friction: 950 };
    snap.game_constants = GameConstants { out_of_bounds_margin: 30 * FX, spawn_target_offset: 50 * FX, max_waves: 4 };
    g.apply_reload(Ok(snap));
    assert_eq!(g.player.stats, snap.player_stats);
    assert_eq!(g.basic_enemy_stats, snap.basic_enemy_stats);
    assert_eq!(g.game_constants, snap.game_constants);
    assert_eq!(g.enemies[0].stats, snap.basic_enemy_stats);
    assert_eq!(g.next_state, Some(GameStateEnum::Playing));
    assert!(g.error_message.is_none());
}

#[test]
fn reload_failure_keeps_the_old_configuration() {
    let mut g = gs();
    let stats_before = g.player.stats;
    g.apply_reload(Err(String::from("syntax error in line 3")));
    assert_eq!(g.player.stats, stats_before);
    assert_eq!(g.next_state, Some(GameStateEnum::ScriptError));
    assert_eq!(g.error_message.as_deref(), Some("syntax error in line 3"));
}

#[test]
fn a_playing_tick_fires_the_selected_weapon() {
    let mut g = gs();
    g.handle_weapon_selection(WeaponType::EnergyBall);
    g.apply_next_state();
    g.playing_tick(idle_input());
    assert_eq!(g.projectiles.len(), 1);
    assert!(matches!(g.projectiles[0].projectile_type, ProjectileType::EnergyBall));
    // The cooldown is running now: the next tick fires nothing new.
    g.playing_tick(idle_input());
    assert_eq!(g.projectiles.len(), 1);
}

#[test]
fn movement_input_accelerates_and_friction_slows() {
    let mut g = gs();
    let input = PlayerInput {
        left: false,
        right: true,
        up: false,
        down: false,
        cursor: Vec2Fx { x: 0, y: 0 },
    };
    g.handle_weapon_selection(WeaponType::Pulse);
    g.apply_next_state();
    let x0 = g.player.pos.x;
    g.playing_tick(input);
    assert!(g.player.pos.x > x0);
    assert!(g.player.vel.x > 0);
}

#[test]
fn pause_toggle_flips() {
    let mut g = gs();
    assert!(!g.paused);
    g.toggle_pause();
    assert!(g.paused);
    g.toggle_pause();
    assert!(!g.paused);
}

#[test]
fn executor_handles_mixed_spawn_requests() {
    let mut g = gs();
    let s = ProjectileStats::energy_ball_default();
    let cmds = vec![
        SpawnCommand::Enemy {
            enemy_type: EnemyType::Chaser,
            pos: Vec2Fx { x: 10 * FX, y: 20 * FX },
        },
        SpawnCommand::Projectile {
            projectile_type: ProjectileType::EnergyBall,
            pos: Vec2Fx { x: 30 * FX, y: 40 * FX },
            vel: Vec2Fx { x: FX, y: 0 },
            stats: s,
        },
    ];
    g.execute_spawn_commands(cmds);
    assert_eq!(g.enemies.len(), 1);
    assert_eq!(g.projectiles.len(), 1);
    // Ids advance one per request, in order.
    assert_eq!(g.enemies[0].id, 0);
    assert!(matches!(g.enemies[0].enemy_type, EnemyType::Chaser));
    assert_eq!(g.enemies[0].pos, Vec2Fx { x: 10 * FX, y: 20 * FX });
    assert_eq!(g.enemies[0].stats, g.chaser_enemy_stats);
    assert_eq!(g.projectiles[0].id, 1);
    assert_eq!(g.projectiles[0].pos, Vec2Fx { x: 30 * FX, y: 40 * FX });
    assert_eq!(g.next_entity_id, 2);
}

#[test]
fn config_clamp_passes_in_range_values_through() {
    let snap = ConfigSnapshot::fallback();
    let clamped = arena_survivor::config::clamp_config(snap);
    assert_eq!(clamped, snap);
    let mut wild = snap;
    wild.player_stats.radius = -5;
    wild.player_stats.friction = 4 * FX;
    let fixed = arena_survivor::config::clamp_config(wild);
    assert_eq!(fixed.player_stats.radius, 1);
    assert_eq!(fixed.player_stats.friction, FX);
    assert_eq!(fixed.basic_enemy_stats, snap.basic_enemy_stats);
}

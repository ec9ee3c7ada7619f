use arena_survivor::enemy::{Enemy, EnemyType};
use arena_survivor::entity::{EntityStats, SpawnCommand};
use arena_survivor::player::Player;
use arena_survivor::projectile::{Projectile, ProjectileStats, ProjectileType};
use arena_survivor::vec2::Vec2Fx;
use arena_survivor::weapon::{Weapon, WeaponStats, WeaponType};

const FX: i64 = 1024;

fn stats() -> EntityStats {
    EntityStats { radius: 15 * FX, max_speed: 3 * FX, acceleration: FX / 2, friction: 972 }
}

#[test]
fn xp_thresholds_follow_triangular_curve() {
    assert_eq!(Player::xp_for_level(0), 0);
    assert_eq!(Player::xp_for_level(1), 5);
    assert_eq!(Player::xp_for_level(2), 15);
    assert_eq!(Player::xp_for_level(3), 30);
    assert_eq!(Player::xp_for_level(4), 50);
    assert_eq!(Player::xp_for_level(10), 275);
}

#[test]
fn add_xp_levels_exactly_at_the_threshold() {
    let mut p = Player::new(0, 0, stats());
    assert!(!p.add_xp(4));
    assert_eq!(p.get_level(), 0);
    assert!(p.add_xp(1));
    assert_eq!(p.get_level(), 1);
    assert_eq!(p.get_xp(), 5);
    // Ten more reaches the cumulative 15 needed for level two.
    assert!(p.add_xp(10));
    assert_eq!(p.get_level(), 2);
}

#[test]
fn fresh_weapon_fires_once_then_dry_fires() {
    let mut w = Weapon::new(WeaponType::EnergyBall);
    assert!(w.can_fire());
    let first = w.fire(Vec2Fx { x: 0, y: 0 }, Vec2Fx { x: FX, y: 0 });
    assert_eq!(first.len(), 1);
    assert!(!w.can_fire());
    w.update(0);
    let second = w.fire(Vec2Fx { x: 0, y: 0 }, Vec2Fx { x: FX, y: 0 });
    assert_eq!(second.len(), 0);
}

#[test]
fn cooldown_elapses_and_the_weapon_fires_again() {
    let mut w = Weapon::new(WeaponType::Pulse);
    let _ = w.fire(Vec2Fx { x: 7, y: 9 }, Vec2Fx { x: FX, y: 0 });
    assert!(!w.can_fire());
    w.update(3 * FX);
    assert!(w.can_fire());
}

#[test]
fn pulse_fire_ignores_facing_and_sits_on_the_owner() {
    let mut w = Weapon::new(WeaponType::Pulse);
    let commands = w.fire(Vec2Fx { x: 5 * FX, y: 6 * FX }, Vec2Fx { x: 0, y: FX });
    assert_eq!(commands.len(), 1);
    match commands[0] {
        SpawnCommand::Projectile { projectile_type, pos, vel, .. } => {
            assert!(matches!(projectile_type, ProjectileType::Pulse));
            assert_eq!(pos, Vec2Fx { x: 5 * FX, y: 6 * FX });
            assert_eq!(vel, Vec2Fx { x: 0, y: 0 });
        },
        _ => panic!("expected a projectile request"),
    }
}

#[test]
fn energy_ball_level_up_progression() {
    let mut w = Weapon::new(WeaponType::EnergyBall);
    w.level_up();
    assert_eq!(w.get_level(), 2);
    assert_eq!(w.stats.projectile_count, 2);
    assert_eq!(w.stats.spread_angle, 30);
    assert_eq!(w.stats.cooldown, 1459);
    assert_eq!(w.stats.projectile_stats.speed, 322560);
    assert_eq!(w.stats.projectile_stats.damage, 12288);
}

#[test]
fn level_two_fan_spreads_across_both_extremes() {
    let mut w = Weapon::new(WeaponType::EnergyBall);
    w.level_up();
    let commands = w.fire(Vec2Fx { x: 0, y: 0 }, Vec2Fx { x: FX, y: 0 });
    assert_eq!(commands.len(), 2);
    let vels: Vec<Vec2Fx> = commands
        .iter()
        .map(|c| match c {
            SpawnCommand::Projectile { vel, .. } => *vel,
            _ => panic!("expected a projectile request"),
        })
        .collect();
    // Thirty degrees below and above the facing, at the leveled speed.
    assert_eq!(vels[0], Vec2Fx { x: 279405, y: -161280 });
    assert_eq!(vels[1], Vec2Fx { x: 279405, y: 161280 });
}

#[test]
fn base_weapon_stats_by_type() {
    let eb = WeaponStats::from(WeaponType::EnergyBall);
    assert_eq!(eb.cooldown, 1536);
    assert_eq!(eb.projectile_count, 1);
    let pu = WeaponStats::from(WeaponType::Pulse);
    assert_eq!(pu.cooldown, 3072);
    assert_eq!(pu.projectile_stats.width, 100 * FX);
    let hm = WeaponStats::from(WeaponType::HomingMissile);
    assert_eq!(hm.cooldown, 2048);
    assert_eq!(hm.projectile_stats.turning_rate, 102);
}

#[test]
fn basic_enemy_accelerates_along_its_velocity_signs() {
    let mut e = Enemy::spawn(
        1,
        Vec2Fx { x: 0, y: 0 },
        EnemyType::Basic,
        stats(),
        Vec2Fx { x: 10 * FX, y: 0 },
        FX / 2,
    );
    assert_eq!(e.vel, Vec2Fx { x: FX / 2, y: 0 });
    e.update(None);
    // Acceleration of half a unit pushes along (+, +) for nonnegative
    // velocity signs, then the position advances by the velocity.
    assert_eq!(e.vel, Vec2Fx { x: FX, y: FX / 2 });
    assert_eq!(e.pos, Vec2Fx { x: FX, y: FX / 2 });
}

#[test]
fn chaser_steers_toward_the_player() {
    let mut e = Enemy::spawn(
        2,
        Vec2Fx { x: 0, y: 0 },
        EnemyType::Chaser,
        stats(),
        Vec2Fx { x: 10 * FX, y: 0 },
        0,
    );
    assert_eq!(e.vel, Vec2Fx { x: 0, y: 0 });
    e.update(Some(Vec2Fx { x: 0, y: 100 * FX }));
    assert!(e.vel.y > 0);
    assert_eq!(e.vel.x, 0);
}

#[test]
fn energy_ball_moves_and_expires() {
    let s = ProjectileStats::energy_ball_default();
    let mut p = Projectile::spawn_energy_ball(
        7,
        Vec2Fx { x: 0, y: 0 },
        Vec2Fx { x: FX, y: 0 },
        s,
    );
    assert_eq!(p.vel, Vec2Fx { x: s.speed, y: 0 });
    p.update(34);
    // One tick moves by speed * dt / one: 307200 * 34 / 1024.
    assert_eq!(p.pos, Vec2Fx { x: 10200, y: 0 });
    assert_eq!(p.time_remaining, s.time_to_live - 34);
    assert!(!p.is_expired());
    p.update(s.time_to_live);
    assert!(p.is_expired());
}

#[test]
fn pulse_stays_anchored_to_its_source() {
    let s = ProjectileStats::pulse_default();
    let mut p = Projectile::spawn_pulse(8, Vec2Fx { x: 3 * FX, y: 4 * FX }, s);
    p.update(34);
    p.update(34);
    assert_eq!(p.pos, Vec2Fx { x: 3 * FX, y: 4 * FX });
    assert_eq!(p.source_pos, Vec2Fx { x: 3 * FX, y: 4 * FX });
}

#[test]
fn zero_turning_missile_keeps_its_heading() {
    let mut s = ProjectileStats::homing_missile_default();
    s.turning_rate = 0;
    let mut p = Projectile::spawn_homing_missile(
        9,
        Vec2Fx { x: 0, y: 0 },
        Vec2Fx { x: FX, y: 0 },
        s,
    );
    let before = p.vel;
    let enemies = vec![
        Enemy::spawn(1, Vec2Fx { x: 0, y: 50 * FX }, EnemyType::Basic, stats(), Vec2Fx { x: 0, y: 0 }, FX),
        Enemy::spawn(2, Vec2Fx { x: -30 * FX, y: -40 * FX }, EnemyType::Basic, stats(), Vec2Fx { x: 0, y: 0 }, FX),
    ];
    p.update_homing(&enemies);
    assert_eq!(p.vel, before);
}

#[test]
fn homing_missile_turns_toward_the_nearest_enemy() {
    let s = ProjectileStats::homing_missile_default();
    let mut p = Projectile::spawn_homing_missile(
        10,
        Vec2Fx { x: 0, y: 0 },
        Vec2Fx { x: FX, y: 0 },
        s,
    );
    assert_eq!(p.vel.y, 0);
    let enemies = vec![
        Enemy::spawn(1, Vec2Fx { x: 0, y: 50 * FX }, EnemyType::Basic, stats(), Vec2Fx { x: 0, y: 0 }, FX),
    ];
    p.update_homing(&enemies);
    assert!(p.vel.y > 0);
    // The turn preserves the speed magnitude up to fixed-point rounding.
    assert_eq!(p.vel, Vec2Fx { x: 254724, y: 25522 });
    let l2 = p.vel.x * p.vel.x + p.vel.y * p.vel.y;
    assert!((s.speed - 3) * (s.speed - 3) <= l2 && l2 <= s.speed * s.speed);
}

#[test]
fn player_weapons_stay_distinct_and_capped() {
    let mut p = Player::new(0, 0, stats());
    p.add_weapon(WeaponType::EnergyBall);
    p.add_weapon(WeaponType::Pulse);
    assert_eq!(p.get_weapons().len(), 2);
    assert_eq!(p.weapon_position(WeaponType::Pulse), Some(1));
    assert_eq!(p.weapon_position(WeaponType::HomingMissile), None);
    p.level_up_weapon(0);
    assert_eq!(p.get_weapons()[0].get_level(), 2);
    assert_eq!(p.get_weapons()[1].get_level(), 1);
}

#[test]
fn player_reset_clears_progress_but_keeps_stats() {
    let mut p = Player::new(5 * FX, 5 * FX, stats());
    p.add_weapon(WeaponType::EnergyBall);
    p.add_xp(7);
    p.reset(2 * FX, 3 * FX);
    assert_eq!(p.pos, Vec2Fx { x: 2 * FX, y: 3 * FX });
    assert_eq!(p.get_xp(), 0);
    assert_eq!(p.get_level(), 0);
    assert_eq!(p.get_weapons().len(), 0);
    assert_eq!(p.stats, stats());
}

#[test]
fn projectile_damage_reads_its_stats() {
    let s = ProjectileStats::homing_missile_default();
    let p = Projectile::spawn_homing_missile(
        11,
        Vec2Fx { x: 0, y: 0 },
        Vec2Fx { x: FX, y: 0 },
        s,
    );
    assert_eq!(p.damage(), 20 * FX);
}

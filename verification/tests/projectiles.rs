use shooter_core::basic_enemy;
use shooter_core::beam::{update_beam, Beam, BeamEntity, BeamType, ShootPattern, ShootType};
use shooter_core::canon::{self, Position};
use shooter_core::enemy_core::{EnemyEntity, ShootTimer};
use shooter_core::geometry::{circle_box_overlap, Vec2, MICRO};
use shooter_core::level::Wave;
use shooter_core::player::{FrontWeaponTimer, Player, PlayerEntity};
use shooter_core::timer::{Timer, TimerMode};

fn flying_beam(direction: Vec2, speed: i64) -> BeamEntity {
    BeamEntity {
        beam: Beam::new(&BeamType::Proton, direction).speed(speed),
        pos: Vec2 { x: 0, y: 0 },
        enemy_fire: false,
    }
}

#[test]
fn beam_table_is_exact() {
    let d = Vec2 { x: 0, y: 1000 };
    let proton = Beam::new(&BeamType::Proton, d);
    assert_eq!((proton.speed, proton.power, proton.lifetime_ms), (450, 20, 4000));
    let laser = Beam::new(&BeamType::Laser, d);
    assert_eq!((laser.speed, laser.power, laser.lifetime_ms), (500, 30, 4000));
    let wave = Beam::new(&BeamType::Wave, d);
    assert_eq!((wave.speed, wave.power, wave.lifetime_ms), (600, 50, 4000));
    let orb = Beam::new(&BeamType::PlasmaOrb, d);
    assert_eq!((orb.speed, orb.power, orb.lifetime_ms), (500, 50, 4000));
    let fireball = Beam::new(&BeamType::FireBall, d);
    assert_eq!((fireball.speed, fireball.power, fireball.lifetime_ms), (600, 10, 4000));
}

#[test]
fn projectile_position_is_origin_plus_velocity_times_time() {
    // 450 units/second for one second: exactly 450 units travelled.
    let mut beams = vec![flying_beam(Vec2 { x: 1000, y: 0 }, 450)];
    update_beam(&mut beams, 1000);
    assert_eq!(beams[0].pos, Vec2 { x: 450 * MICRO, y: 0 });
    assert_eq!(beams[0].beam.lifetime_ms, 3000);
}

#[test]
fn projectile_motion_is_additive_over_ticks() {
    let mut split = vec![flying_beam(Vec2 { x: 600, y: -800 }, 500)];
    update_beam(&mut split, 400);
    update_beam(&mut split, 600);
    let mut whole = vec![flying_beam(Vec2 { x: 600, y: -800 }, 500)];
    update_beam(&mut whole, 1000);
    assert_eq!(split[0], whole[0]);
    assert_eq!(split[0].pos, Vec2 { x: 300 * MICRO, y: -400 * MICRO });
}

#[test]
fn projectile_expires_exactly_at_lifetime() {
    let mut beams = vec![flying_beam(Vec2 { x: 0, y: 1000 }, 100)];
    update_beam(&mut beams, 3999);
    assert_eq!(beams.len(), 1);
    assert_eq!(beams[0].beam.lifetime_ms, 1);
    update_beam(&mut beams, 1);
    assert_eq!(beams.len(), 0);

    let mut at_once = vec![flying_beam(Vec2 { x: 0, y: 1000 }, 100)];
    update_beam(&mut at_once, 4000);
    assert_eq!(at_once.len(), 0);
}

#[test]
fn flat_spray_is_a_fan_of_eleven_fireballs() {
    let p = ShootPattern::flat_spray();
    assert_eq!(p.beam.len(), 11);
    for (i, b) in p.beam.iter().enumerate() {
        assert!(matches!(b.beam_type, BeamType::FireBall));
        assert_eq!(b.speed, 200);
        assert_eq!(b.power, 10);
        assert_eq!(b.direction, Vec2 { x: 1000 - 100 * i as i64, y: -1000 });
    }
    assert_eq!(p.timer.duration_ms, 250);
}

#[test]
fn line_spray_trails_by_decreasing_speed() {
    let p = ShootPattern::line_spray();
    assert_eq!(p.beam.len(), 11);
    for (i, b) in p.beam.iter().enumerate() {
        assert!(matches!(b.beam_type, BeamType::FireBall));
        assert_eq!(b.speed, 250 - 20 * i as i64);
        assert_eq!(b.direction, Vec2 { x: 0, y: -1000 });
        assert_eq!(b.power, 10);
    }
    assert_eq!(p.timer.duration_ms, 250);
}

#[test]
fn basic_enemy_fires_on_the_shared_cadence() {
    let core = shooter_core::enemy_core::EnemyCore::builder().shoot(true).build();
    let mut enemies = vec![EnemyEntity {
        id: 3,
        core,
        pos: Vec2 { x: 5 * MICRO, y: 200 * MICRO },
        wave: Wave::One,
        blinking: None,
    }];
    let mut timer = ShootTimer(Timer::new(2000, TimerMode::Repeating));
    let mut beams: Vec<BeamEntity> = Vec::new();
    basic_enemy::enemy_fire(&mut enemies, &mut timer, &mut beams, 100);
    assert_eq!(beams.len(), 0);
    basic_enemy::enemy_fire(&mut enemies, &mut timer, &mut beams, 1900);
    assert_eq!(beams.len(), 1);
    assert_eq!(beams[0].pos, Vec2 { x: 5 * MICRO, y: 200 * MICRO });
    assert_eq!(beams[0].beam.direction, Vec2 { x: 0, y: -1000 });
    assert_eq!(beams[0].beam.speed, 250);
    assert_eq!(beams[0].beam.power, 20);
    assert!(beams[0].enemy_fire);
}

#[test]
fn disabled_shooter_stays_silent() {
    let core = shooter_core::enemy_core::EnemyCore::builder().shoot(false).build();
    let mut enemies = vec![EnemyEntity {
        id: 3,
        core,
        pos: Vec2 { x: 0, y: 0 },
        wave: Wave::Three,
        blinking: None,
    }];
    let mut timer = ShootTimer(Timer::new(2000, TimerMode::Repeating));
    let mut beams: Vec<BeamEntity> = Vec::new();
    basic_enemy::enemy_fire(&mut enemies, &mut timer, &mut beams, 2000);
    assert_eq!(beams.len(), 0);
}

#[test]
fn multi_beam_pattern_releases_whole_burst() {
    let core = shooter_core::enemy_core::EnemyCore::builder()
        .shoot(true)
        .shoot_type(ShootType::TestHell(ShootPattern::flat_spray()))
        .shoot_timer(ShootTimer(Timer::new(100, TimerMode::Repeating)))
        .build();
    let mut enemies = vec![EnemyEntity {
        id: 4,
        core,
        pos: Vec2 { x: 0, y: 500 * MICRO },
        wave: Wave::Two,
        blinking: None,
    }];
    let mut timer = ShootTimer(Timer::new(2000, TimerMode::Repeating));
    let mut beams: Vec<BeamEntity> = Vec::new();
    basic_enemy::enemy_fire(&mut enemies, &mut timer, &mut beams, 100);
    assert_eq!(beams.len(), 11);
    assert!(beams.iter().all(|b| b.enemy_fire));
    assert!(beams.iter().all(|b| b.pos == Vec2 { x: 0, y: 500 * MICRO }));
    assert_eq!(beams[0].beam.direction, Vec2 { x: 1000, y: -1000 });
    assert_eq!(beams[10].beam.direction, Vec2 { x: 0, y: -1000 });
}

#[test]
fn front_weapon_repeats_while_held() {
    let mut p = PlayerEntity {
        id: 0,
        pos: Vec2 { x: 0, y: 0 },
        facing: Vec2 { x: 0, y: 1000 },
        player: Player::default(),
        front_weapon_timer: FrontWeaponTimer(Timer::new(10, TimerMode::Once)),
        despawn_timer: None,
        blinking: None,
    };
    let mut beams: Vec<BeamEntity> = Vec::new();
    // needs_cooldown starts false: the first held tick fires at once
    shooter_core::player::user_fire_beam(&mut p, true, &mut beams, 1);
    assert_eq!(beams.len(), 1);
    assert!(matches!(beams[0].beam.beam_type, BeamType::Wave));
    assert_eq!(beams[0].beam.direction, Vec2 { x: 0, y: 1000 });
    assert!(!beams[0].enemy_fire);
    // cooling down: nothing for the next few milliseconds
    shooter_core::player::user_fire_beam(&mut p, true, &mut beams, 5);
    assert_eq!(beams.len(), 1);
    // lockout over: fires again
    shooter_core::player::user_fire_beam(&mut p, true, &mut beams, 5);
    assert_eq!(beams.len(), 2);
    // releasing the intent stops the stream
    shooter_core::player::user_fire_beam(&mut p, false, &mut beams, 1000);
    assert_eq!(beams.len(), 2);
}

#[test]
fn canon_fires_plasma_orbs_on_its_own_cadence() {
    let canons = canon::setup(Vec2 { x: 0, y: 0 }, true, false);
    let mut canons = canons;
    assert_eq!(canons.len(), 1);
    assert!(matches!(canons[0].canon.position, Position::Left));
    let mut beams: Vec<BeamEntity> = Vec::new();
    canon::fire_canon(&mut canons, true, &mut beams, 16);
    assert_eq!(beams.len(), 1);
    assert!(matches!(beams[0].beam.beam_type, BeamType::PlasmaOrb));
    assert_eq!(beams[0].beam.direction, Vec2 { x: 0, y: 1000 });
    assert_eq!(beams[0].pos, Vec2 { x: -20 * MICRO, y: 0 });
    // 0.35 s lockout: far slower than the front weapon
    canon::fire_canon(&mut canons, true, &mut beams, 100);
    assert_eq!(beams.len(), 1);
    canon::fire_canon(&mut canons, true, &mut beams, 250);
    assert_eq!(beams.len(), 2);
    // without the held intent nothing happens at all
    canon::fire_canon(&mut canons, false, &mut beams, 1000);
    assert_eq!(beams.len(), 2);
}

#[test]
fn overlap_counts_boundary_contact() {
    let c = Vec2 { x: 0, y: 0 };
    let r = 10 * MICRO;
    let half = Vec2 { x: 500_000, y: 500_000 };
    // box edge exactly touching the circle
    assert!(circle_box_overlap(c, r, Vec2 { x: r + 500_000, y: 0 }, half));
    // one step further: clear
    assert!(!circle_box_overlap(c, r, Vec2 { x: r + 500_001, y: 0 }, half));
    // far corner case
    assert!(circle_box_overlap(c, r, Vec2 { x: 0, y: 0 }, half));
}

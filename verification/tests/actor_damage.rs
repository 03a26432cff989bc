use shooter_core::actor::apply_damage;
use shooter_core::basic_enemy;
use shooter_core::beam::{Beam, BeamEntity, BeamType};
use shooter_core::collision_core::CollisionEvent;
use shooter_core::enemy_core::{EnemyCore, EnemyEntity, EnemyState};
use shooter_core::explosion_core::ExplosionEvent;
use shooter_core::camera::CameraShakeEvent;
use shooter_core::geometry::Vec2;
use shooter_core::level::Wave;
use shooter_core::player::{
    FrontWeaponTimer, Player, PlayerEntity, PlayerState,
};
use shooter_core::timer::{Timer, TimerMode};

fn test_player(health: i64, shield: i64) -> PlayerEntity {
    let mut player = Player::default();
    player.health = health;
    player.shield = shield;
    PlayerEntity {
        id: 7,
        pos: Vec2 { x: 0, y: 0 },
        facing: Vec2 { x: 0, y: 1000 },
        player,
        front_weapon_timer: FrontWeaponTimer(Timer::new(10, TimerMode::Once)),
        despawn_timer: None,
        blinking: None,
    }
}

fn enemy_bolt_at(pos: Vec2, power: i64) -> BeamEntity {
    let mut beam = Beam::new(&BeamType::Proton, Vec2 { x: 0, y: -1000 });
    beam.power = power;
    BeamEntity {
        beam,
        pos,
        enemy_fire: true,
    }
}

fn test_enemy(health: i64) -> EnemyEntity {
    let core: EnemyCore = EnemyCore::builder().direction(1000, 0).health(health).build();
    EnemyEntity {
        id: 1,
        core,
        pos: Vec2 { x: 0, y: 0 },
        wave: Wave::One,
        blinking: None,
    }
}

#[test]
fn shield_takes_whole_hit() {
    let mut health: i64 = 100;
    let mut shield: i64 = 100;
    let died = apply_damage(&mut health, &mut shield, 60);
    assert_eq!(shield, 40);
    assert_eq!(health, 100);
    assert!(!died);
}

#[test]
fn damage_overflows_shield_exactly() {
    let mut health: i64 = 100;
    let mut shield: i64 = 40;
    let died = apply_damage(&mut health, &mut shield, 60);
    assert_eq!(shield, 0);
    assert_eq!(health, 80);
    assert!(!died);
}

#[test]
fn no_shield_hits_health_directly() {
    let mut health: i64 = 50;
    let mut shield: i64 = 0;
    let died = apply_damage(&mut health, &mut shield, 30);
    assert_eq!(shield, 0);
    assert_eq!(health, 20);
    assert!(!died);
}

#[test]
fn health_clamps_at_zero() {
    let mut health: i64 = 10;
    let mut shield: i64 = 0;
    let died = apply_damage(&mut health, &mut shield, 60);
    assert_eq!(health, 0);
    assert!(died);
}

#[test]
fn death_crossing_reported_once() {
    let mut health: i64 = 20;
    let mut shield: i64 = 0;
    assert!(apply_damage(&mut health, &mut shield, 20));
    assert_eq!(health, 0);
    assert!(!apply_damage(&mut health, &mut shield, 20));
}

#[test]
fn two_sixty_power_hits_in_one_tick() {
    // Scenario: health 100, shield 100, two power-60 hits in the same tick.
    // After hit one: shield 40, health 100.  After hit two: overflow 20,
    // shield 0, health 80.
    let mut player = Some(test_player(100, 100));
    let mut state = PlayerState::Spawned;
    let mut beams = vec![
        enemy_bolt_at(Vec2 { x: 0, y: 0 }, 60),
        enemy_bolt_at(Vec2 { x: 0, y: 0 }, 60),
    ];
    let mut hits: Vec<CollisionEvent> = Vec::new();
    let mut shakes: Vec<CameraShakeEvent> = Vec::new();
    shooter_core::player::check_collision(
        player.as_mut().unwrap(),
        &mut state,
        &mut beams,
        &mut hits,
        &mut shakes,
    );
    let p = player.unwrap();
    assert_eq!(p.player.shield, 0);
    assert_eq!(p.player.health, 80);
    assert_eq!(hits.len(), 2);
    assert!(hits.iter().all(|e| e.0 == 7));
    // only the second hit broke through the shield
    assert_eq!(shakes.len(), 1);
    // both projectiles were consumed
    assert_eq!(beams.len(), 0);
    assert!(matches!(state, PlayerState::Spawned));
}

#[test]
fn player_dies_when_health_runs_out() {
    let mut player = Some(test_player(10, 0));
    let mut state = PlayerState::Spawned;
    let mut beams = vec![enemy_bolt_at(Vec2 { x: 0, y: 0 }, 60)];
    let mut hits: Vec<CollisionEvent> = Vec::new();
    let mut shakes: Vec<CameraShakeEvent> = Vec::new();
    shooter_core::player::check_collision(
        player.as_mut().unwrap(),
        &mut state,
        &mut beams,
        &mut hits,
        &mut shakes,
    );
    assert_eq!(player.as_ref().unwrap().player.health, 0);
    assert!(matches!(state, PlayerState::Dead));
}

#[test]
fn enemy_hit_five_times_dies_and_lingers_one_tick() {
    // Scenario: enemy with health 100 takes five power-20 hits; after the
    // fifth its health is 0 (< 1), its state turns Dead, and the entity is
    // removed on the following resolver pass, not the same one.
    let mut enemies = vec![test_enemy(100)];
    let mut beams: Vec<BeamEntity> = (0..5)
        .map(|_| {
            let mut b = enemy_bolt_at(Vec2 { x: 0, y: 0 }, 20);
            b.enemy_fire = false;
            b
        })
        .collect();
    let mut hits: Vec<CollisionEvent> = Vec::new();
    let mut deaths: Vec<ExplosionEvent> = Vec::new();
    basic_enemy::check_collision(&mut enemies, &mut beams, &mut hits, &mut deaths);
    assert_eq!(enemies.len(), 1);
    assert_eq!(enemies[0].core.health, 0);
    assert!(matches!(enemies[0].core.state, EnemyState::Dead));
    assert_eq!(hits.len(), 5);
    assert_eq!(deaths.len(), 1);
    assert_eq!(deaths[0].0, Vec2 { x: 0, y: 0 });
    assert_eq!(beams.len(), 0);
    // the following pass removes the corpse and emits nothing further
    basic_enemy::check_collision(&mut enemies, &mut beams, &mut hits, &mut deaths);
    assert_eq!(enemies.len(), 0);
    assert_eq!(hits.len(), 5);
    assert_eq!(deaths.len(), 1);
}

#[test]
fn beam_missing_the_player_survives() {
    let mut player = Some(test_player(100, 100));
    let mut state = PlayerState::Spawned;
    // 30 units to the right: outside the 20-unit hit circle + half-unit box
    let mut beams = vec![enemy_bolt_at(Vec2 { x: 30_000_000, y: 0 }, 60)];
    let mut hits: Vec<CollisionEvent> = Vec::new();
    let mut shakes: Vec<CameraShakeEvent> = Vec::new();
    shooter_core::player::check_collision(
        player.as_mut().unwrap(),
        &mut state,
        &mut beams,
        &mut hits,
        &mut shakes,
    );
    assert_eq!(player.unwrap().player.health, 100);
    assert_eq!(beams.len(), 1);
    assert_eq!(hits.len(), 0);
}

#[test]
fn player_fire_does_not_hurt_player() {
    let mut player = Some(test_player(100, 100));
    let mut state = PlayerState::Spawned;
    let mut own = enemy_bolt_at(Vec2 { x: 0, y: 0 }, 60);
    own.enemy_fire = false;
    let mut beams = vec![own];
    let mut hits: Vec<CollisionEvent> = Vec::new();
    let mut shakes: Vec<CameraShakeEvent> = Vec::new();
    shooter_core::player::check_collision(
        player.as_mut().unwrap(),
        &mut state,
        &mut beams,
        &mut hits,
        &mut shakes,
    );
    assert_eq!(player.unwrap().player.health, 100);
    assert_eq!(beams.len(), 1);
}

#[test]
fn enemy_fire_does_not_hurt_enemies() {
    let mut enemies = vec![test_enemy(100)];
    let mut beams = vec![enemy_bolt_at(Vec2 { x: 0, y: 0 }, 20)];
    let mut hits: Vec<CollisionEvent> = Vec::new();
    let mut deaths: Vec<ExplosionEvent> = Vec::new();
    basic_enemy::check_collision(&mut enemies, &mut beams, &mut hits, &mut deaths);
    assert_eq!(enemies[0].core.health, 100);
    assert_eq!(beams.len(), 1);
    assert_eq!(hits.len(), 0);
}

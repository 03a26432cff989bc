use shooter_core::basic_enemy::BasicEnemy;
use shooter_core::basic_enemy_move_patterns::EnemyMovePattern;
use shooter_core::beam::{BeamType, ShootType};
use shooter_core::canon::{Canon, Position};
use shooter_core::enemy_core::{EnemyCore, EnemyCoreBundle, EnemyState};
use shooter_core::player::{Player, WaveGun, WeaponType};
use shooter_core::timer::TimerMode;

#[test]
fn builder_defaults_are_the_stock_basic_enemy() {
    let core = EnemyCore::builder().build();
    assert_eq!(core.x_direction, 0);
    assert_eq!(core.y_direction, 0);
    assert_eq!(core.health, 100);
    assert!(matches!(core.move_pattern, EnemyMovePattern::Basic));
    assert!(matches!(core.state, EnemyState::Active));
    assert!(core.shoot);
    assert!(matches!(core.shoot_type, ShootType::Basic));
    assert_eq!(core.shoot_timer.0.duration_ms, 300);
    assert!(matches!(core.shoot_timer.0.mode, TimerMode::Repeating));
}

#[test]
fn builder_setters_override_each_field() {
    let core = EnemyCore::builder()
        .direction(-1000, 500)
        .health(7)
        .state(EnemyState::Dead)
        .shoot(false)
        .move_pattern(EnemyMovePattern::Down)
        .build();
    assert_eq!(core.x_direction, -1000);
    assert_eq!(core.y_direction, 500);
    assert_eq!(core.health, 7);
    assert!(matches!(core.state, EnemyState::Dead));
    assert!(!core.shoot);
    assert!(matches!(core.move_pattern, EnemyMovePattern::Down));
}

#[test]
fn default_bundle_does_not_shoot() {
    let bundle = EnemyCoreBundle::default();
    assert!(!bundle.enemy_core.shoot);
    assert_eq!(bundle.enemy_core.health, 100);
}

#[test]
fn basic_enemy_builders_and_core_conversion() {
    let e = BasicEnemy::new(EnemyMovePattern::Down).shoot(false).health(1);
    assert_eq!(e.x_direction, 1000);
    assert_eq!(e.y_direction, 0);
    assert_eq!(e.health, 1);
    assert!(!e.shoot);
    assert!(matches!(e.state, EnemyState::Active));
    let core = e.into_core();
    assert_eq!(core.health, 1);
    assert!(!core.shoot);
    assert!(matches!(core.move_pattern, EnemyMovePattern::Down));
    assert!(matches!(core.shoot_type, ShootType::Basic));
}

#[test]
fn stock_player_loadout() {
    let p = Player::default();
    assert_eq!(p.health, 100);
    assert_eq!(p.shield, 100);
    assert!(matches!(p.front_weapon, WeaponType::WaveGun));
    assert!(matches!(p.front_weapon_beam_type, BeamType::Wave));
    assert!(!p.front_weapon_needs_cooldown);
    assert!(matches!(p.left_weapon, WeaponType::PlasmaCanon));
    assert!(matches!(p.right_weapon, WeaponType::PlasmaCanon));
    assert_eq!(WaveGun::new().lockout_time_ms, 10);
}

#[test]
fn canon_lockout_is_350_ms() {
    let c = Canon::new(0, Position::Right);
    assert_eq!(c.lockout_time_ms, 350);
    assert!(!c.needs_cooldown);
    assert!(matches!(c.position, Position::Right));
}

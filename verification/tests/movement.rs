use shooter_core::basic_enemy::{self, BasicEnemy};
use shooter_core::basic_enemy_move_patterns::{basic_move, EnemyMovePattern};
use shooter_core::camera::{shake_camera, shake_camera_event, CameraShakeEvent, MainCamera};
use shooter_core::collision_core::{blink, collision, Blinking, CollisionEvent};
use shooter_core::canon;
use shooter_core::enemy_core::{EnemyCore, EnemyEntity};
use shooter_core::explosion_core::{animate_explosion, spawn_explosion, ExplosionEvent};
use shooter_core::geometry::{Vec2, MICRO};
use shooter_core::level::Wave;
use shooter_core::player::{FrontWeaponTimer, Player, PlayerEntity};
use shooter_core::timer::{Timer, TimerMode};

fn patroller_at(x: i64) -> EnemyEntity {
    EnemyEntity {
        id: 1,
        core: EnemyCore::builder().direction(1000, 0).build(),
        pos: Vec2 { x, y: 300 * MICRO },
        wave: Wave::One,
        blinking: None,
    }
}

fn descender_at(x: i64, y: i64) -> EnemyEntity {
    EnemyEntity {
        id: 2,
        core: EnemyCore::builder()
            .move_pattern(EnemyMovePattern::Down)
            .direction(1000, 0)
            .shoot(false)
            .build(),
        pos: Vec2 { x, y },
        wave: Wave::Three,
        blinking: None,
    }
}

#[test]
fn linear_patrol_reaches_bound_in_exactly_1500_ms() {
    // 600 units at 400 units/second: exactly 1.5 seconds.
    let mut enemies = vec![patroller_at(0)];
    basic_enemy::move_enemy(&mut enemies, 0, 1500);
    assert_eq!(enemies[0].pos.x, 600 * MICRO);
    // the reversal happens on the next tick, when the bound is observed
    assert_eq!(enemies[0].core.x_direction, 1000);
    basic_enemy::move_enemy(&mut enemies, 0, 1000);
    assert_eq!(enemies[0].core.x_direction, -1000);
    assert_eq!(enemies[0].pos.x, 600 * MICRO - 400 * MICRO);
}

#[test]
fn patrol_reverses_at_negative_bound_too() {
    let mut enemy = BasicEnemy::new(EnemyMovePattern::Basic);
    basic_move(-600 * MICRO, &mut enemy);
    assert_eq!(enemy.x_direction, 1000);
    basic_move(600 * MICRO, &mut enemy);
    assert_eq!(enemy.x_direction, -1000);
    basic_move(0, &mut enemy);
    assert_eq!(enemy.x_direction, -1000);
}

#[test]
fn descender_falls_and_tracks_the_player() {
    let mut enemies = vec![descender_at(0, 500 * MICRO)];
    basic_enemy::move_enemy(&mut enemies, 300 * MICRO, 1000);
    // falls at the full speed, tracks at half speed
    assert_eq!(enemies[0].pos.y, 100 * MICRO);
    assert_eq!(enemies[0].pos.x, 200 * MICRO);
    assert_eq!(enemies[0].core.x_direction, 1000);
    assert_eq!(enemies[0].core.y_direction, -1000);
    // past the player: steering flips instantly
    basic_enemy::move_enemy(&mut enemies, 100 * MICRO, 100);
    assert_eq!(enemies[0].core.x_direction, -1000);
    // exactly under the player: no horizontal motion at all
    let mut centred = vec![descender_at(50 * MICRO, 400 * MICRO)];
    basic_enemy::move_enemy(&mut centred, 50 * MICRO, 100);
    assert_eq!(centred[0].pos.x, 50 * MICRO);
    assert_eq!(centred[0].core.x_direction, 0);
}

#[test]
fn descender_despawns_below_the_lower_bound() {
    let mut enemies = vec![descender_at(0, -99 * MICRO)];
    basic_enemy::move_enemy(&mut enemies, 0, 1000);
    assert_eq!(enemies.len(), 0);
    // a patroller below the bound stays: the despawn is only for descenders
    let mut low_patroller = vec![patroller_at(0)];
    low_patroller[0].pos.y = -500 * MICRO;
    basic_enemy::move_enemy(&mut low_patroller, 0, 1000);
    assert_eq!(low_patroller.len(), 1);
}

#[test]
fn scripted_enemy_holds_still() {
    let mut enemies = vec![EnemyEntity {
        id: 9,
        core: EnemyCore::builder()
            .move_pattern(EnemyMovePattern::StartShootGo)
            .direction(1000, 0)
            .build(),
        pos: Vec2 { x: 10 * MICRO, y: 20 * MICRO },
        wave: Wave::Two,
        blinking: None,
    }];
    basic_enemy::move_enemy(&mut enemies, 0, 5000);
    assert_eq!(enemies[0].pos, Vec2 { x: 10 * MICRO, y: 20 * MICRO });
}

#[test]
fn player_moves_by_intent_times_speed() {
    let mut p = PlayerEntity {
        id: 0,
        pos: Vec2 { x: 0, y: 0 },
        facing: Vec2 { x: 0, y: 1000 },
        player: Player::default(),
        front_weapon_timer: FrontWeaponTimer(Timer::new(10, TimerMode::Once)),
        despawn_timer: None,
        blinking: None,
    };
    shooter_core::player::move_user(&mut p, 1, -1, 500);
    // 300 units/second for half a second
    assert_eq!(p.pos, Vec2 { x: 150 * MICRO, y: -150 * MICRO });
    shooter_core::player::move_user(&mut p, 0, 0, 1000);
    assert_eq!(p.pos, Vec2 { x: 150 * MICRO, y: -150 * MICRO });
}

#[test]
fn aim_normalizes_toward_cursor() {
    let mut p = PlayerEntity {
        id: 0,
        pos: Vec2 { x: 0, y: 0 },
        facing: Vec2 { x: 0, y: 1000 },
        player: Player::default(),
        front_weapon_timer: FrontWeaponTimer(Timer::new(10, TimerMode::Once)),
        despawn_timer: None,
        blinking: None,
    };
    // a 3-4-5 triangle: the unit direction is exactly (0.6, 0.8)
    shooter_core::player::rotate_user(&mut p, Some(Vec2 { x: 3 * MICRO, y: 4 * MICRO }));
    assert_eq!(p.facing, Vec2 { x: 600, y: 800 });
    // negative quadrant
    shooter_core::player::rotate_user(&mut p, Some(Vec2 { x: -3 * MICRO, y: -4 * MICRO }));
    assert_eq!(p.facing, Vec2 { x: -600, y: -800 });
    // no cursor: facing kept
    shooter_core::player::rotate_user(&mut p, None);
    assert_eq!(p.facing, Vec2 { x: -600, y: -800 });
    // cursor exactly on the player: previous facing kept, no NaN-like default
    shooter_core::player::rotate_user(&mut p, Some(Vec2 { x: 0, y: 0 }));
    assert_eq!(p.facing, Vec2 { x: -600, y: -800 });
}

#[test]
fn canon_parks_in_its_dead_zone_and_catches_up_outside() {
    let mut canons = canon::setup(Vec2 { x: 0, y: 0 }, true, true);
    assert_eq!(canons.len(), 2);
    assert_eq!(canons[0].pos, Vec2 { x: -20 * MICRO, y: 0 });
    assert_eq!(canons[1].pos, Vec2 { x: 20 * MICRO, y: 0 });
    // player unmoved: both canons are inside their dead zones and stay put
    canon::move_canon(&mut canons, Vec2 { x: 0, y: 0 }, 1000);
    assert_eq!(canons[0].pos, Vec2 { x: -20 * MICRO, y: 0 });
    // player jumps far right: the left canon is 120 units from its station
    // and closes 3/1000 of the gap per millisecond
    canon::move_canon(&mut canons, Vec2 { x: 100 * MICRO, y: 0 }, 16);
    assert_eq!(canons[0].pos.x, -20 * MICRO + 100 * MICRO * 3 * 16 / 1000);
}

#[test]
fn timers_count_down_and_rearm() {
    let mut rep = Timer::new(100, TimerMode::Repeating);
    assert!(!rep.tick(99));
    assert_eq!(rep.remaining_ms, 1);
    assert!(rep.tick(1));
    assert_eq!(rep.remaining_ms, 100);
    let mut once = Timer::new(100, TimerMode::Once);
    assert!(once.tick(100));
    assert!(once.is_finished());
    // a finished one-shot timer stays finished and never fires again
    assert!(!once.tick(50));
    assert_eq!(once.remaining_ms, 0);
    assert_eq!(once.elapsed_ms(), 100);
    // zero elapsed time changes nothing
    let mut frozen = Timer::new(100, TimerMode::Repeating);
    assert!(!frozen.tick(0));
    assert_eq!(frozen.remaining_ms, 100);
}

#[test]
fn hit_reaction_blinks_and_fades() {
    let mut enemies = vec![patroller_at(0)];
    let mut player: Option<PlayerEntity> = None;
    let events = vec![CollisionEvent(1)];
    collision(&events, &mut enemies, &mut player);
    match enemies[0].blinking {
        Some(Blinking(t)) => assert_eq!(t.duration_ms, 350),
        None => panic!("expected a blink"),
    }
    blink(&mut enemies, &mut player, 200);
    match enemies[0].blinking {
        Some(Blinking(t)) => assert_eq!(t.remaining_ms, 150),
        None => panic!("blink ended early"),
    }
    blink(&mut enemies, &mut player, 150);
    assert!(enemies[0].blinking.is_none());
    // an event for an entity that no longer exists is a silent no-op
    let stale = vec![CollisionEvent(99)];
    collision(&stale, &mut enemies, &mut player);
    assert!(enemies[0].blinking.is_none());
}

#[test]
fn explosions_play_five_frames_then_vanish() {
    let mut explosions = Vec::new();
    let events = vec![ExplosionEvent(Vec2 { x: 1, y: 2 })];
    spawn_explosion(&events, &mut explosions);
    assert_eq!(explosions.len(), 1);
    assert_eq!(explosions[0].frame, 0);
    for expected in 1..=4 {
        animate_explosion(&mut explosions, 120);
        assert_eq!(explosions[0].frame, expected);
    }
    animate_explosion(&mut explosions, 120);
    assert_eq!(explosions.len(), 0);
}

#[test]
fn camera_shakes_and_settles() {
    let mut camera = MainCamera::new();
    shake_camera_event(&vec![CameraShakeEvent], &mut camera);
    assert!(camera.shake.is_some());
    shake_camera(&mut camera, 50);
    // 100 units/second of elapsed shake time: 50 ms elapsed nudges 5 units
    assert_eq!(camera.pos.x, 5 * MICRO);
    shake_camera(&mut camera, 50);
    assert!(camera.shake.is_none());
    assert_eq!(camera.pos.x, 5 * MICRO);
    // no event: an idle camera never moves
    shake_camera_event(&Vec::new(), &mut camera);
    assert!(camera.shake.is_none());
}

use shooter_core::beam::{Beam, BeamEntity, BeamType, ShootType};
use shooter_core::enemy_core::EnemyEntity;
use shooter_core::geometry::{Vec2, MICRO};
use shooter_core::level::{
    check_wave_complete, increment_state, spawn_horde, SpawnTimer, Wave, WaveHordeCount,
    WaveState,
};
use shooter_core::player::PlayerState;
use shooter_core::timer::{Timer, TimerMode};
use shooter_core::world::{InputIntent, World};
use shooter_core::GameState;

fn idle() -> InputIntent {
    InputIntent::idle()
}

#[test]
fn new_world_layout() {
    let w = World::new();
    assert!(matches!(w.game_state, GameState::Playing));
    assert!(matches!(w.player_state, PlayerState::Spawned));
    let p = w.player.as_ref().unwrap();
    assert_eq!(p.id, 0);
    assert_eq!(p.pos, Vec2 { x: 100 * MICRO, y: 0 });
    assert_eq!(p.player.health, 100);
    assert_eq!(p.player.shield, 100);
    assert_eq!(w.canons.len(), 2);
    assert!(matches!(w.wave, Wave::One));
    assert!(matches!(w.wave_state, WaveState::Active));
    assert_eq!(w.enemies.len(), 3);
    let xs: Vec<i64> = w.enemies.iter().map(|e| e.pos.x).collect();
    assert_eq!(xs, vec![60 * MICRO, 0, -60 * MICRO]);
    assert!(w.enemies.iter().all(|e| e.pos.y == 300 * MICRO));
    assert!(w.enemies.iter().all(|e| matches!(e.wave, Wave::One)));
    assert!(w.enemies.iter().all(|e| e.core.health == 100));
    assert_eq!(w.next_id, 4);
    assert_eq!(w.beams.len(), 0);
}

#[test]
fn wave_sequence_is_fixed() {
    assert!(matches!(Wave::One.next(), Wave::Two));
    assert!(matches!(Wave::Two.next(), Wave::Three));
    assert!(matches!(Wave::Three.next(), Wave::Four));
    assert!(matches!(Wave::Four.next(), Wave::Five));
    assert!(matches!(Wave::Five.next(), Wave::Boss));
    assert!(matches!(Wave::Boss.next(), Wave::Finished));
    assert!(matches!(Wave::Finished.next(), Wave::Finished));
}

#[test]
fn completion_counts_only_the_current_wave() {
    let enemies: Vec<EnemyEntity> = Vec::new();
    assert!(check_wave_complete(&enemies, Wave::One));
    let w = World::new();
    assert!(!check_wave_complete(&w.enemies, Wave::One));
    // enemies of another wave do not hold this one open
    assert!(check_wave_complete(&w.enemies, Wave::Two));
}

#[test]
fn increment_stops_at_the_terminal_ordinal() {
    let mut wave = Wave::Boss;
    let mut state = WaveState::Completed;
    increment_state(&mut wave, &mut state);
    assert!(matches!(wave, Wave::Finished));
    assert!(matches!(state, WaveState::Active));
    let mut state2 = WaveState::Completed;
    increment_state(&mut wave, &mut state2);
    assert!(matches!(wave, Wave::Finished));
    assert!(matches!(state2, WaveState::Completed));
}

#[test]
fn cleared_wave_advances_within_one_tick() {
    // all enemies of wave one removed: the next tick completes the wave
    // and makes wave two active, spawning its two shooters
    let mut w = World::new();
    w.enemies = Vec::new();
    w.tick(idle(), 16);
    assert!(matches!(w.wave, Wave::Two));
    assert!(matches!(w.wave_state, WaveState::Active));
    assert_eq!(w.enemies.len(), 2);
    assert!(w.enemies.iter().all(|e| matches!(e.wave, Wave::Two)));
    assert!(w
        .enemies
        .iter()
        .all(|e| matches!(e.core.shoot_type, ShootType::TestHell(_))));
    assert_eq!(w.enemies[0].pos, Vec2 { x: 0, y: 500 * MICRO });
    assert_eq!(w.enemies[1].pos, Vec2 { x: 300 * MICRO, y: 300 * MICRO });
    assert_eq!(w.next_id, 6);
    // clearing wave two in turn arms the wave-three horde
    w.enemies = Vec::new();
    w.tick(idle(), 16);
    assert!(matches!(w.wave, Wave::Three));
    assert!(w.horde.is_some());
}

#[test]
fn horde_spawns_one_per_period_up_to_the_cap() {
    let mut horde = WaveHordeCount::new(2);
    let mut timer = SpawnTimer(Timer::new(100, TimerMode::Repeating));
    assert!(spawn_horde(&mut horde, &mut timer, 100).is_some());
    assert_eq!(horde.count, 1);
    assert!(spawn_horde(&mut horde, &mut timer, 50).is_none());
    assert_eq!(horde.count, 1);
    assert!(spawn_horde(&mut horde, &mut timer, 50).is_some());
    assert_eq!(horde.count, 2);
    // at the cap: no spawn, and the cadence is left untouched
    assert!(spawn_horde(&mut horde, &mut timer, 100).is_none());
    assert_eq!(horde.count, 2);
    assert_eq!(timer.0.remaining_ms, 100);
}

#[test]
fn horde_spawn_is_a_fragile_descender() {
    let mut horde = WaveHordeCount::new(1);
    let mut timer = SpawnTimer(Timer::new(100, TimerMode::Repeating));
    let ev = spawn_horde(&mut horde, &mut timer, 100).unwrap();
    let core = ev.0 .0.enemy_core;
    assert_eq!(core.health, 1);
    assert!(!core.shoot);
    assert!(matches!(
        core.move_pattern,
        shooter_core::basic_enemy_move_patterns::EnemyMovePattern::Down
    ));
    assert_eq!(ev.0 .2, Vec2 { x: 0, y: 400 * MICRO });
    assert!(matches!(ev.0 .3, Wave::Three));
}

#[test]
fn empty_waves_cascade_to_the_terminal_ordinal() {
    let mut w = World::new();
    w.enemies = Vec::new();
    w.tick(idle(), 16);
    assert!(matches!(w.wave, Wave::Two));
    w.enemies = Vec::new();
    w.tick(idle(), 16);
    assert!(matches!(w.wave, Wave::Three));
    // pretend the horde has already run its course, then clear the field
    w.horde = Some(WaveHordeCount { count: 100, max: 100 });
    w.enemies = Vec::new();
    w.tick(idle(), 16);
    assert!(matches!(w.wave, Wave::Four));
    // the placeholder waves have empty rosters and complete at once
    w.tick(idle(), 16);
    assert!(matches!(w.wave, Wave::Five));
    w.tick(idle(), 16);
    assert!(matches!(w.wave, Wave::Boss));
    w.tick(idle(), 16);
    assert!(matches!(w.wave, Wave::Finished));
    assert!(matches!(w.wave_state, WaveState::Active));
    // the terminal ordinal never advances further
    w.tick(idle(), 16);
    assert!(matches!(w.wave, Wave::Finished));
    assert!(matches!(w.wave_state, WaveState::Completed));
}

#[test]
fn zero_dt_changes_no_position_timer_or_health() {
    let mut w = World::new();
    let player_pos = w.player.as_ref().unwrap().pos;
    let front_timer = w.player.as_ref().unwrap().front_weapon_timer.0;
    let enemy_pos: Vec<Vec2> = w.enemies.iter().map(|e| e.pos).collect();
    let enemy_health: Vec<i64> = w.enemies.iter().map(|e| e.core.health).collect();
    let basic_timer = w.basic_shot_timer.0;
    let spawn_timer = w.spawn_timer.0;
    let canon_pos: Vec<Vec2> = w.canons.iter().map(|c| c.pos).collect();
    w.tick(idle(), 0);
    assert_eq!(w.player.as_ref().unwrap().pos, player_pos);
    assert_eq!(w.player.as_ref().unwrap().front_weapon_timer.0, front_timer);
    assert_eq!(w.player.as_ref().unwrap().player.health, 100);
    assert_eq!(w.enemies.iter().map(|e| e.pos).collect::<Vec<_>>(), enemy_pos);
    assert_eq!(
        w.enemies.iter().map(|e| e.core.health).collect::<Vec<_>>(),
        enemy_health
    );
    assert_eq!(w.basic_shot_timer.0, basic_timer);
    assert_eq!(w.spawn_timer.0, spawn_timer);
    assert_eq!(w.canons.iter().map(|c| c.pos).collect::<Vec<_>>(), canon_pos);
    assert_eq!(w.beams.len(), 0);
}

#[test]
fn pause_freezes_and_resumes_exactly() {
    let mut w = World::new();
    let pause = InputIntent {
        pause_pressed: true,
        ..idle()
    };
    w.tick(pause, 16);
    assert!(matches!(w.game_state, GameState::Paused));
    let before: Vec<Vec2> = w.enemies.iter().map(|e| e.pos).collect();
    // a long, busy frame while paused moves nothing
    let busy = InputIntent {
        x_intent: 1,
        y_intent: 1,
        fire_held: true,
        pause_pressed: false,
        cursor: None,
    };
    w.tick(busy, 5000);
    assert_eq!(w.enemies.iter().map(|e| e.pos).collect::<Vec<_>>(), before);
    assert_eq!(w.beams.len(), 0);
    assert_eq!(w.player.as_ref().unwrap().pos, Vec2 { x: 100 * MICRO, y: 0 });
    // unpausing resumes where it left off
    w.tick(pause, 16);
    assert!(matches!(w.game_state, GameState::Playing));
}

#[test]
fn whole_tick_moves_fires_and_resolves() {
    let mut w = World::new();
    // hold fire for one short frame: the front weapon and both canons open up
    let firing = InputIntent {
        fire_held: true,
        ..idle()
    };
    w.tick(firing, 16);
    assert_eq!(w.beams.len(), 3);
    // enemies patrolled right at 400 units/second
    assert_eq!(w.enemies[0].pos.x, 60 * MICRO + 400 * 16 * 1000);
    // player held still
    assert_eq!(w.player.as_ref().unwrap().pos, Vec2 { x: 100 * MICRO, y: 0 });
}

#[test]
fn player_death_freezes_input_and_emits_explosion() {
    let mut w = World::new();
    {
        let p = w.player.as_mut().unwrap();
        p.player.health = 1;
        p.player.shield = 0;
    }
    let ppos = w.player.as_ref().unwrap().pos;
    w.beams.push(BeamEntity {
        beam: Beam::new(&BeamType::Proton, Vec2 { x: 0, y: -1000 }),
        pos: ppos,
        enemy_fire: true,
    });
    w.tick(idle(), 1);
    assert!(matches!(w.player_state, PlayerState::Dead));
    assert_eq!(w.player.as_ref().unwrap().player.health, 0);
    assert!(w.player.as_ref().unwrap().despawn_timer.is_some());
    assert_eq!(w.explosion_events.len(), 1);
    assert_eq!(w.camera_shake_events.len(), 1);
    assert_eq!(w.explosions.len(), 1);
    // dead: movement and fire intents are ignored from now on
    let pos_at_death = w.player.as_ref().unwrap().pos;
    let busy = InputIntent {
        x_intent: 1,
        y_intent: -1,
        fire_held: true,
        pause_pressed: false,
        cursor: None,
    };
    w.tick(busy, 1000);
    assert_eq!(w.player.as_ref().unwrap().pos, pos_at_death);
    assert_eq!(w.beams.len(), 0);
}

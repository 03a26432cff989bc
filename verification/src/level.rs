//! Wave/level director: the fixed wave sequence, per-wave enemy rosters,
//! the timed horde spawner of the third wave, and the completion check
//! that advances the sequence.

use vstd::prelude::*;
use crate::basic_enemy::BasicEnemy;
use crate::basic_enemy_move_patterns::EnemyMovePattern;
use crate::beam::{ShootPattern, ShootType};
use crate::enemy_core::{
    built_core, spec_builder_default, EnemyCore, EnemyCoreBuilder, EnemyCoreBundle, EnemyEntity,
    EnemyType, ShootTimer, SpawnEnemyEvent,
};
use crate::geometry::{Vec2, MAX_TICK_MS, MICRO};
use crate::timer::{timer_after_tick, timer_fires, Timer, TimerMode};

verus! {

/// Progress of the current wave.
#[derive(Clone, Copy, PartialEq, Eq, Structural, Debug)]
pub enum WaveState {
    Initialized,
    Active,
    Completed,
}

/// The fixed wave ordinals (the last, `Finished`, is terminal); every enemy carries the wave it was spawned
/// in, and the ordinal is the population-counting key.
#[derive(Clone, Copy, PartialEq, Eq, Structural, Debug)]
pub enum Wave {
    One,
    Two,
    Three,
    Four,
    Five,
    Boss,
    Finished,
}

/// The successor in the fixed wave sequence; the terminal ordinal has no
/// further advance.
pub open spec fn wave_next(w: Wave) -> Wave {
    match w {
        Wave::One => Wave::Two,
        Wave::Two => Wave::Three,
        Wave::Three => Wave::Four,
        Wave::Four => Wave::Five,
        Wave::Five => Wave::Boss,
        Wave::Boss => Wave::Finished,
        Wave::Finished => Wave::Finished,
    }
}

impl Wave {
    pub fn next(&self) -> (w: Wave)
        ensures
            w == wave_next(*self),
    {
        match *self {
            Wave::One => Wave::Two,
            Wave::Two => Wave::Three,
            Wave::Three => Wave::Four,
            Wave::Four => Wave::Five,
            Wave::Five => Wave::Boss,
            Wave::Boss => Wave::Finished,
            Wave::Finished => Wave::Finished,
        }
    }
}

/// On completion of a non-terminal wave, advance to the next ordinal and
/// rearm the wave state; at the terminal ordinal nothing changes.
pub fn increment_state(wave: &mut Wave, wave_state: &mut WaveState)
    ensures
        *old(wave) is Finished ==> *final(wave) == *old(wave) && *final(wave_state) == *old(
            wave_state,
        ),
        !(*old(wave) is Finished) ==> *final(wave) == wave_next(*old(wave)) && *final(wave_state)
            is Active,
{
    match *wave {
        Wave::Finished => {}
        _ => {
            *wave = wave.next();
            *wave_state = WaveState::Active;
        }
    }
}

/// Whether no live enemy of `current` remains.
pub open spec fn wave_cleared(enemies: Seq<EnemyEntity>, current: Wave) -> bool {
    forall|i: int| 0 <= i < enemies.len() ==> (#[trigger] enemies[i]).wave != current
}

/// The completion check: the current wave is complete when the count of
/// live enemies tagged with it has reached zero.
pub fn check_wave_complete(enemies: &Vec<EnemyEntity>, current: Wave) -> (complete: bool)
    ensures
        complete == wave_cleared(enemies@, current),
{
    let mut i: usize = 0;
    while i < enemies.len()
        invariant
            i <= enemies@.len(),
            forall|j: int| 0 <= j < i ==> (#[trigger] enemies@[j]).wave != current,
        decreases enemies@.len() - i,
    {
        if enemies[i].wave == current {
            return false;
        }
        i = i + 1;
    }
    true
}

/// A basic patroller of wave one at `x` world units: flying right,
/// shooting on the shared basic cadence.
pub open spec fn wave_one_enemy(x_units: int) -> SpawnEnemyEvent {
    SpawnEnemyEvent(
        (
            EnemyCoreBundle {
                enemy_core: built_core(
                    EnemyCoreBuilder {
                        x_direction: 1000,
                        y_direction: 0,
                        shoot: true,
                        shoot_type: ShootType::Basic,
                        ..spec_builder_default()
                    },
                ),
            },
            EnemyType::Basic,
            Vec2 { x: (x_units * MICRO) as i64, y: (300 * MICRO) as i64 },
            Wave::One,
        ),
    )
}

/// Enter wave one: arm the wave and request its roster of three basic
/// patrollers.
pub fn wave_one(wave_state: &mut WaveState) -> (roster: Vec<SpawnEnemyEvent>)
    ensures
        *final(wave_state) is Active,
        roster@.len() == 3,
        roster@[0] == wave_one_enemy(60),
        roster@[1] == wave_one_enemy(0),
        roster@[2] == wave_one_enemy(-60),
{
    *wave_state = WaveState::Active;
    let mut roster: Vec<SpawnEnemyEvent> = Vec::new();
    roster.push(
        SpawnEnemyEvent(
            (
                EnemyCoreBundle {
                    enemy_core: EnemyCore::builder().direction(1000, 0).shoot(true).shoot_type(
                        ShootType::Basic,
                    ).build(),
                },
                EnemyType::Basic,
                Vec2 { x: 60 * MICRO, y: 300 * MICRO },
                Wave::One,
            ),
        ),
    );
    roster.push(
        SpawnEnemyEvent(
            (
                EnemyCoreBundle {
                    enemy_core: EnemyCore::builder().direction(1000, 0).shoot(true).shoot_type(
                        ShootType::Basic,
                    ).build(),
                },
                EnemyType::Basic,
                Vec2 { x: 0, y: 300 * MICRO },
                Wave::One,
            ),
        ),
    );
    roster.push(
        SpawnEnemyEvent(
            (
                EnemyCoreBundle {
                    enemy_core: EnemyCore::builder().direction(1000, 0).shoot(true).shoot_type(
                        ShootType::Basic,
                    ).build(),
                },
                EnemyType::Basic,
                Vec2 { x: -60 * MICRO, y: 300 * MICRO },
                Wave::One,
            ),
        ),
    );
    roster
}

/// The multi-beam cooldown wave two arms its shooters with.
pub open spec fn wave_two_shoot_timer() -> ShootTimer {
    ShootTimer(Timer { duration_ms: 100, remaining_ms: 100, mode: TimerMode::Repeating })
}

/// Enter wave two: request its two multi-beam shooters, a flat-spray fan
/// on a scripted entry and a line-spray shooter patrolling.
/// The wave-two shooter around `pattern`, for stating what the roster
/// holds: every field but the burst pattern is fixed.
pub open spec fn wave_two_core(pattern: ShootPattern, move_pattern: EnemyMovePattern) -> EnemyCore {
    built_core(
        EnemyCoreBuilder {
            move_pattern,
            x_direction: 1000,
            y_direction: 0,
            shoot: true,
            shoot_type: ShootType::TestHell(pattern),
            shoot_timer: wave_two_shoot_timer(),
            ..spec_builder_default()
        },
    )
}

pub fn wave_two() -> (roster: Vec<SpawnEnemyEvent>)
    ensures
        roster@.len() == 2,
        roster@[0].0.0.enemy_core.shoot_type matches ShootType::TestHell(p) && p.beam@
            == crate::shoot_patterns::flat_spray::flat_spray_beams() && p.timer == (Timer {
            duration_ms: crate::shoot_patterns::flat_spray::FLAT_SPRAY_PERIOD_MS,
            remaining_ms: crate::shoot_patterns::flat_spray::FLAT_SPRAY_PERIOD_MS,
            mode: TimerMode::Repeating,
        }) && roster@[0].0.0.enemy_core == wave_two_core(p, EnemyMovePattern::StartShootGo),
        roster@[0].0.1 is EnemyB,
        roster@[0].0.2 == (Vec2 { x: 0i64, y: (500 * MICRO) as i64 }),
        roster@[0].0.3 is Two,
        roster@[1].0.0.enemy_core.shoot_type matches ShootType::TestHell(p) && p.beam@
            == crate::shoot_patterns::line_spray::line_spray_beams() && p.timer == (Timer {
            duration_ms: crate::shoot_patterns::line_spray::LINE_SPRAY_PERIOD_MS,
            remaining_ms: crate::shoot_patterns::line_spray::LINE_SPRAY_PERIOD_MS,
            mode: TimerMode::Repeating,
        }) && roster@[1].0.0.enemy_core == wave_two_core(p, EnemyMovePattern::Basic),
        roster@[1].0.1 is EnemyB,
        roster@[1].0.2 == (Vec2 { x: (300 * MICRO) as i64, y: (300 * MICRO) as i64 }),
        roster@[1].0.3 is Two,
{
    let mut roster: Vec<SpawnEnemyEvent> = Vec::new();
    let shoot_pat = ShootPattern::flat_spray();
    roster.push(
        SpawnEnemyEvent(
            (
                EnemyCoreBundle {
                    enemy_core: EnemyCore::builder().move_pattern(
                        EnemyMovePattern::StartShootGo,
                    ).direction(1000, 0).shoot(true).shoot_type(
                        ShootType::TestHell(shoot_pat),
                    ).shoot_timer(ShootTimer(Timer::new(100, TimerMode::Repeating))).build(),
                },
                EnemyType::EnemyB,
                Vec2 { x: 0, y: 500 * MICRO },
                Wave::Two,
            ),
        ),
    );
    roster.push(
        SpawnEnemyEvent(
            (
                EnemyCoreBundle {
                    enemy_core: EnemyCore::builder().direction(1000, 0).shoot(true).shoot_type(
                        ShootType::TestHell(ShootPattern::line_spray()),
                    ).shoot_timer(ShootTimer(Timer::new(100, TimerMode::Repeating))).build(),
                },
                EnemyType::EnemyB,
                Vec2 { x: 300 * MICRO, y: 300 * MICRO },
                Wave::Two,
            ),
        ),
    );
    roster
}

/// The horde spawner's cadence, in milliseconds.
pub const HORDE_SPAWN_PERIOD_MS: i64 = 100;

/// How many enemies the third wave's horde spawns in all.
pub const HORDE_MAX: i32 = 100;

/// Cadence of the horde spawner.
#[derive(Clone, Copy, PartialEq, Eq, Structural, Debug)]
pub struct SpawnTimer(pub Timer);

/// Progress of the horde: how many enemies have been spawned, against the
/// cap.  The count advances only when a spawn is actually emitted, so it
/// never passes the cap.
#[derive(Clone, Copy, PartialEq, Eq, Structural, Debug)]
pub struct WaveHordeCount {
    pub count: i32,
    pub max: i32,
}

impl WaveHordeCount {
    pub open spec fn wf(self) -> bool {
        0 <= self.count <= self.max
    }

    pub fn new(max: i32) -> (h: WaveHordeCount)
        requires
            max >= 0,
        ensures
            h == (WaveHordeCount { count: 0, max }),
    {
        WaveHordeCount { count: 0, max }
    }
}

/// Enter wave three: arm the wave, put up the horde counter, and rewind
/// the spawn cadence.  The roster itself trickles in through
/// `spawn_horde`.
pub fn wave_three(wave_state: &mut WaveState, spawn_timer: &mut SpawnTimer) -> (h: WaveHordeCount)
    requires
        old(spawn_timer).0.wf(),
    ensures
        *final(wave_state) is Active,
        h == (WaveHordeCount { count: 0, max: HORDE_MAX }),
        *final(spawn_timer) == (SpawnTimer(
            Timer { remaining_ms: old(spawn_timer).0.duration_ms, ..old(spawn_timer).0 },
        )),
{
    *wave_state = WaveState::Active;
    spawn_timer.0.reset();
    WaveHordeCount::new(HORDE_MAX)
}

/// Enter wave four: a placeholder with an empty roster, so the wave
/// completes on the next check and the sequence runs on.
pub fn wave_four() -> (roster: Vec<SpawnEnemyEvent>)
    ensures
        roster@.len() == 0,
{
    Vec::new()
}

/// The fragile descender the horde trickles out: tracking the player,
/// not shooting, one hit from death.
pub open spec fn horde_enemy() -> SpawnEnemyEvent {
    SpawnEnemyEvent(
        (
            EnemyCoreBundle {
                enemy_core: built_core(
                    EnemyCoreBuilder {
                        x_direction: 1000,
                        y_direction: 0,
                        health: 1,
                        move_pattern: EnemyMovePattern::Down,
                        shoot: false,
                        ..spec_builder_default()
                    },
                ),
            },
            EnemyType::Basic,
            Vec2 { x: 0i64, y: (400 * MICRO) as i64 },
            Wave::Three,
        ),
    )
}

/// The timed horde spawner of wave three: while the count is below the
/// cap, each firing of the spawn cadence emits one fragile descender and
/// advances the count.  The count only moves when a spawn is emitted, so
/// spawning stops exactly at the cap.
pub fn spawn_horde(
    horde: &mut WaveHordeCount,
    spawn_timer: &mut SpawnTimer,
    dt_ms: i64,
) -> (spawned: Option<SpawnEnemyEvent>)
    requires
        old(horde).wf(),
        old(spawn_timer).0.wf(),
        0 <= dt_ms <= MAX_TICK_MS,
    ensures
        final(horde).wf(),
        final(horde).max == old(horde).max,
        if old(horde).count < old(horde).max && timer_fires(old(spawn_timer).0, dt_ms as int) {
            &&& spawned matches Some(ev) && ev.0.0.enemy_core == horde_enemy().0.0.enemy_core
                && ev.0.1 == horde_enemy().0.1 && ev.0.2 == horde_enemy().0.2 && ev.0.3
                == horde_enemy().0.3
            &&& final(horde).count == old(horde).count + 1
        } else {
            &&& spawned is None
            &&& final(horde).count == old(horde).count
        },
        *final(spawn_timer) == if old(horde).count < old(horde).max {
            SpawnTimer(timer_after_tick(old(spawn_timer).0, dt_ms as int))
        } else {
            *old(spawn_timer)
        },
{
    if horde.count < horde.max {
        let fired = spawn_timer.0.tick(dt_ms);
        if fired {
            horde.count = horde.count + 1;
            let basic = BasicEnemy::new(EnemyMovePattern::Down).shoot(false).health(1);
            return Some(
                SpawnEnemyEvent(
                    (
                        EnemyCoreBundle { enemy_core: basic.into_core() },
                        EnemyType::Basic,
                        Vec2 { x: 0, y: 400 * MICRO },
                        Wave::Three,
                    ),
                ),
            );
        }
    }
    None
}

} // verus!

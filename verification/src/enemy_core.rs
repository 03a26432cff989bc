//! Enemy data model: the shared enemy component, its builder-style
//! configuration, and spawning from queued spawn requests.

use vstd::prelude::*;
use crate::basic_enemy_move_patterns::EnemyMovePattern;
use crate::beam::{ShootPattern, ShootType};
use crate::collision_core::Blinking;
use crate::geometry::{in_arena, Vec2, MAX_DIR};
use crate::level::Wave;
use crate::timer::{Timer, TimerMode};

verus! {

/// Cooldown between an enemy's bursts.
#[derive(Clone, Copy, PartialEq, Eq, Structural, Debug)]
pub struct ShootTimer(pub Timer);

/// Lifecycle state: an `Active` enemy fights; a `Dead` one is removed on
/// the next resolver pass.
#[derive(Clone, Copy, PartialEq, Eq, Structural, Debug)]
pub enum EnemyState {
    Active,
    Dead,
}

/// Which roster entry an enemy was spawned as (selects its looks; the
/// behaviour lives in the move and shoot patterns).
#[derive(Clone, Copy, PartialEq, Eq, Structural, Debug)]
pub enum EnemyType {
    Basic,
    EnemyB,
}

/// The shared enemy component: direction of travel (in thousandths),
/// health pool, movement pattern, lifecycle state, and shoot behaviour.
#[derive(Clone, Debug)]
pub struct EnemyCore {
    pub x_direction: i64,
    pub y_direction: i64,
    pub health: i64,
    pub move_pattern: EnemyMovePattern,
    pub state: EnemyState,
    pub shoot: bool,
    pub shoot_type: ShootType,
    pub shoot_timer: ShootTimer,
}

impl EnemyCore {
    pub open spec fn wf(self) -> bool {
        &&& -MAX_DIR <= self.x_direction <= MAX_DIR
        &&& -MAX_DIR <= self.y_direction <= MAX_DIR
        &&& self.health >= 0
        &&& self.shoot_timer.0.wf()
        &&& match self.shoot_type {
            ShootType::Basic => true,
            ShootType::TestHell(p) => p.wf(),
        }
    }

    pub fn builder() -> (b: EnemyCoreBuilder)
        ensures
            b == spec_builder_default(),
    {
        EnemyCoreBuilder::default()
    }
}

/// Step-by-step configuration for an `EnemyCore`, starting from the stock
/// basic enemy.
pub struct EnemyCoreBuilder {
    pub x_direction: i64,
    pub y_direction: i64,
    pub health: i64,
    pub move_pattern: EnemyMovePattern,
    pub state: EnemyState,
    pub shoot: bool,
    pub shoot_type: ShootType,
    pub shoot_timer: ShootTimer,
}

/// The stock configuration: a still, healthy, active basic shooter on a
/// 0.3 second cadence.
pub open spec fn spec_builder_default() -> EnemyCoreBuilder {
    EnemyCoreBuilder {
        x_direction: 0,
        y_direction: 0,
        health: 100,
        move_pattern: EnemyMovePattern::Basic,
        state: EnemyState::Active,
        shoot: true,
        shoot_type: ShootType::Basic,
        shoot_timer: ShootTimer(
            Timer { duration_ms: 300, remaining_ms: 300, mode: TimerMode::Repeating },
        ),
    }
}

impl EnemyCoreBuilder {
    pub fn default() -> (b: EnemyCoreBuilder)
        ensures
            b == spec_builder_default(),
    {
        EnemyCoreBuilder {
            x_direction: 0,
            y_direction: 0,
            health: 100,
            move_pattern: EnemyMovePattern::Basic,
            state: EnemyState::Active,
            shoot: true,
            shoot_type: ShootType::Basic,
            shoot_timer: ShootTimer(Timer::new(300, TimerMode::Repeating)),
        }
    }

    pub fn direction(self, x: i64, y: i64) -> (b: EnemyCoreBuilder)
        requires
            -MAX_DIR <= x <= MAX_DIR,
            -MAX_DIR <= y <= MAX_DIR,
        ensures
            b == (EnemyCoreBuilder { x_direction: x, y_direction: y, ..self }),
    {
        EnemyCoreBuilder { x_direction: x, y_direction: y, ..self }
    }

    pub fn health(self, health: i64) -> (b: EnemyCoreBuilder)
        requires
            health >= 0,
        ensures
            b == (EnemyCoreBuilder { health, ..self }),
    {
        EnemyCoreBuilder { health, ..self }
    }

    pub fn state(self, state: EnemyState) -> (b: EnemyCoreBuilder)
        ensures
            b == (EnemyCoreBuilder { state, ..self }),
    {
        EnemyCoreBuilder { state, ..self }
    }

    pub fn shoot(self, shoot: bool) -> (b: EnemyCoreBuilder)
        ensures
            b == (EnemyCoreBuilder { shoot, ..self }),
    {
        EnemyCoreBuilder { shoot, ..self }
    }

    pub fn shoot_type(self, shoot_type: ShootType) -> (b: EnemyCoreBuilder)
        ensures
            b == (EnemyCoreBuilder { shoot_type, ..self }),
    {
        EnemyCoreBuilder { shoot_type, ..self }
    }

    pub fn shoot_timer(self, shoot_timer: ShootTimer) -> (b: EnemyCoreBuilder)
        ensures
            b == (EnemyCoreBuilder { shoot_timer, ..self }),
    {
        EnemyCoreBuilder { shoot_timer, ..self }
    }

    pub fn move_pattern(self, move_pattern: EnemyMovePattern) -> (b: EnemyCoreBuilder)
        ensures
            b == (EnemyCoreBuilder { move_pattern, ..self }),
    {
        EnemyCoreBuilder { move_pattern, ..self }
    }

    pub fn build(self) -> (core: EnemyCore)
        ensures
            core == built_core(self),
    {
        EnemyCore {
            x_direction: self.x_direction,
            y_direction: self.y_direction,
            health: self.health,
            move_pattern: self.move_pattern,
            state: self.state,
            shoot: self.shoot,
            shoot_type: self.shoot_type,
            shoot_timer: self.shoot_timer,
        }
    }
}

/// The core a builder configures.
pub open spec fn built_core(b: EnemyCoreBuilder) -> EnemyCore {
    EnemyCore {
        x_direction: b.x_direction,
        y_direction: b.y_direction,
        health: b.health,
        move_pattern: b.move_pattern,
        state: b.state,
        shoot: b.shoot,
        shoot_type: b.shoot_type,
        shoot_timer: b.shoot_timer,
    }
}

/// An `EnemyCore` boxed up for spawning.
pub struct EnemyCoreBundle {
    pub enemy_core: EnemyCore,
}

impl Default for EnemyCoreBundle {
    /// The stock bundle: a still, healthy basic enemy with its shooting
    /// disabled until a roster turns it on.
    fn default() -> (b: EnemyCoreBundle)
        ensures
            b.enemy_core == (EnemyCore { shoot: false, ..built_core(spec_builder_default()) }),
    {
        EnemyCoreBundle {
            enemy_core: EnemyCore {
                x_direction: 0,
                y_direction: 0,
                health: 100,
                move_pattern: EnemyMovePattern::Basic,
                state: EnemyState::Active,
                shoot: false,
                shoot_type: ShootType::Basic,
                shoot_timer: ShootTimer(Timer::new(300, TimerMode::Repeating)),
            },
        }
    }
}

/// A request to spawn an enemy: its component bundle, roster entry, spawn
/// position and wave membership.
pub struct SpawnEnemyEvent(pub (EnemyCoreBundle, EnemyType, Vec2, Wave));

/// An enemy owned by the world: its component, an id for events, its
/// position, the wave it counts toward, and its transient hit highlight.
pub struct EnemyEntity {
    pub id: u64,
    pub core: EnemyCore,
    pub pos: Vec2,
    pub wave: Wave,
    pub blinking: Option<Blinking>,
}

impl EnemyEntity {
    pub open spec fn wf(self) -> bool {
        &&& self.core.wf()
        &&& in_arena(self.pos)
        &&& match self.blinking {
            Some(b) => b.0.wf(),
            None => true,
        }
    }
}

/// The entity a spawn request creates under id `id`.
pub open spec fn spawned_enemy(ev: SpawnEnemyEvent, id: u64) -> EnemyEntity {
    EnemyEntity { id, core: ev.0.0.enemy_core, pos: ev.0.2, wave: ev.0.3, blinking: None }
}

/// Drain the queued spawn requests into the world: each becomes a live
/// enemy under a fresh id drawn from `next_id`.
pub fn spawn_enemy(enemies: &mut Vec<EnemyEntity>, next_id: &mut u64, events: Vec<SpawnEnemyEvent>)
    requires
        *old(next_id) + events@.len() <= u64::MAX,
    ensures
        final(enemies)@.len() == old(enemies)@.len() + events@.len(),
        forall|i: int|
            0 <= i < old(enemies)@.len() ==> #[trigger] final(enemies)@[i] == old(enemies)@[i],
        forall|j: int|
            old(enemies)@.len() <= j < final(enemies)@.len() ==> #[trigger] final(enemies)@[j]
                == spawned_enemy(
                events@[j - old(enemies)@.len()],
                (*old(next_id) + j - old(enemies)@.len()) as u64,
            ),
        *final(next_id) == *old(next_id) + events@.len(),
{
    let ghost evs = events@;
    let mut events = events;
    let mut k: usize = 0;
    let n = events.len();
    proof {
        assert(events@ =~= evs.subrange(0, n as int));
    }
    while k < n
        invariant
            n == evs.len(),
            events@ == evs.subrange(k as int, n as int),
            k <= n,
            *old(next_id) + n <= u64::MAX,
            *next_id == *old(next_id) + k,
            enemies@.len() == old(enemies)@.len() + k,
            forall|i: int|
                0 <= i < old(enemies)@.len() ==> #[trigger] enemies@[i] == old(enemies)@[i],
            forall|i: int|
                0 <= i < k ==> #[trigger] enemies@[old(enemies)@.len() + i] == spawned_enemy(
                    evs[i],
                    (*old(next_id) + i) as u64,
                ),
        decreases n - k,
    {
        let ev = events.remove(0);
        proof {
            assert(ev == evs.subrange(k as int, n as int)[0]);
            assert(ev == evs[k as int]);
        }
        let id = *next_id;
        *next_id = id + 1;
        enemies.push(
            EnemyEntity { id, core: ev.0.0.enemy_core, pos: ev.0.2, wave: ev.0.3, blinking: None },
        );
        k = k + 1;
        proof {
            assert(events@ =~= evs.subrange(k as int, n as int));
        }
    }
    proof {
        assert forall|j: int|
            old(enemies)@.len() <= j < enemies@.len() implies #[trigger] enemies@[j]
            == spawned_enemy(
            evs[j - old(enemies)@.len()],
            (*old(next_id) + j - old(enemies)@.len()) as u64,
        ) by {
            let i = j - old(enemies)@.len();
            assert(enemies@[old(enemies)@.len() + i] == spawned_enemy(
                evs[i],
                (*old(next_id) + i) as u64,
            ));
        }
    }
}

} // verus!

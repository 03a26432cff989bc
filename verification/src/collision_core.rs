//! Hit-reaction plumbing: collision events queued by the resolvers give the
//! struck entity a brief blink, whose timer is wound down each tick.  An
//! event whose target has already been removed is a silent no-op.

use vstd::prelude::*;
use crate::enemy_core::EnemyEntity;
use crate::player::PlayerEntity;
use crate::timer::{timer_after_tick, Timer, TimerMode};
use crate::geometry::MAX_TICK_MS;

verus! {

/// How long a struck entity stays highlighted, in milliseconds.
pub const BLINK_DURATION_MS: i64 = 350;

/// A hit-reaction event: the id of the entity that was struck this tick.
#[derive(Clone, Copy, PartialEq, Eq, Structural, Debug)]
pub struct CollisionEvent(pub u64);

/// The remaining duration of an entity's highlight.
#[derive(Clone, Copy, PartialEq, Eq, Structural, Debug)]
pub struct Blinking(pub Timer);

/// Whether some event in `events` names `id`.
pub open spec fn events_name_id(events: Seq<CollisionEvent>, id: u64) -> bool {
    exists|i: int| 0 <= i < events.len() && events[i].0 == id
}

/// A freshly wound blink.
pub open spec fn fresh_blink() -> Blinking {
    Blinking(
        Timer {
            duration_ms: BLINK_DURATION_MS,
            remaining_ms: BLINK_DURATION_MS,
            mode: TimerMode::Once,
        },
    )
}

/// Whether some event in `events` names `id`.
fn has_event_for(events: &Vec<CollisionEvent>, id: u64) -> (r: bool)
    ensures
        r == events_name_id(events@, id),
{
    let mut i: usize = 0;
    while i < events.len()
        invariant
            i <= events@.len(),
            forall|j: int| 0 <= j < i ==> events@[j].0 != id,
        decreases events@.len() - i,
    {
        if events[i].0 == id {
            return true;
        }
        i = i + 1;
    }
    false
}

/// React to this tick's collision events: every entity named by an event
/// starts (or restarts) a blink of the fixed duration.  Events whose target
/// no longer exists are ignored.
pub fn collision(
    events: &Vec<CollisionEvent>,
    enemies: &mut Vec<EnemyEntity>,
    player: &mut Option<PlayerEntity>,
)
    requires
        forall|i: int| 0 <= i < old(enemies)@.len() ==> (#[trigger] old(enemies)@[i]).wf(),
        match *old(player) {
            Some(p) => p.wf(),
            None => true,
        },
    ensures
        forall|i: int| 0 <= i < final(enemies)@.len() ==> (#[trigger] final(enemies)@[i]).wf(),
        match *final(player) {
            Some(p) => p.wf(),
            None => true,
        },
        final(enemies)@.len() == old(enemies)@.len(),
        forall|i: int|
            0 <= i < old(enemies)@.len() ==> #[trigger] final(enemies)@[i] == (EnemyEntity {
                blinking: if events_name_id(events@, old(enemies)@[i].id) {
                    Some(fresh_blink())
                } else {
                    old(enemies)@[i].blinking
                },
                ..old(enemies)@[i]
            }),
        match *old(player) {
            Some(p) => *final(player) == Some(
                PlayerEntity {
                    blinking: if events_name_id(events@, p.id) {
                        Some(fresh_blink())
                    } else {
                        p.blinking
                    },
                    ..p
                },
            ),
            None => *final(player) is None,
        },
{
    let n = enemies.len();
    let mut i: usize = 0;
    while i < n
        invariant
            n == enemies@.len(),
            n == old(enemies)@.len(),
            i <= n,
            forall|j: int| i <= j < n ==> #[trigger] enemies@[j] == old(enemies)@[j],
            forall|j: int|
                0 <= j < i ==> #[trigger] enemies@[j] == (EnemyEntity {
                    blinking: if events_name_id(events@, old(enemies)@[j].id) {
                        Some(fresh_blink())
                    } else {
                        old(enemies)@[j].blinking
                    },
                    ..old(enemies)@[j]
                }),
        decreases n - i,
    {
        if has_event_for(events, enemies[i].id) {
            let e = &mut enemies[i];
            e.blinking = Some(Blinking(Timer::new(BLINK_DURATION_MS, TimerMode::Once)));
        }
        i = i + 1;
    }
    match player {
        Some(p) => {
            if has_event_for(events, p.id) {
                p.blinking = Some(Blinking(Timer::new(BLINK_DURATION_MS, TimerMode::Once)));
            }
        }
        None => {}
    }
}

/// A blink after `dt_ms`: wound down, and gone once its countdown runs out.
pub open spec fn blink_after_tick(b: Option<Blinking>, dt_ms: int) -> Option<Blinking> {
    match b {
        Some(Blinking(t)) => {
            let ticked = timer_after_tick(t, dt_ms);
            if ticked.remaining_ms == 0 {
                None
            } else {
                Some(Blinking(ticked))
            }
        }
        None => None,
    }
}

/// Wind one entity's blink down by `dt_ms`, removing it when it finishes.
pub fn tick_blink(b: &mut Option<Blinking>, dt_ms: i64)
    requires
        match *old(b) {
            Some(bl) => bl.0.wf(),
            None => true,
        },
        0 <= dt_ms <= MAX_TICK_MS,
    ensures
        *final(b) == blink_after_tick(*old(b), dt_ms as int),
{
    match b {
        Some(bl) => {
            bl.0.tick(dt_ms);
            if bl.0.is_finished() {
                *b = None;
            }
        }
        None => {}
    }
}

/// Wind every entity's blink down by `dt_ms`; a blink whose countdown
/// finishes this tick is removed.
pub fn blink(enemies: &mut Vec<EnemyEntity>, player: &mut Option<PlayerEntity>, dt_ms: i64)
    requires
        forall|i: int| 0 <= i < old(enemies)@.len() ==> (#[trigger] old(enemies)@[i]).wf(),
        match *old(player) {
            Some(p) => p.wf(),
            None => true,
        },
        0 <= dt_ms <= MAX_TICK_MS,
    ensures
        final(enemies)@.len() == old(enemies)@.len(),
        forall|i: int|
            0 <= i < old(enemies)@.len() ==> #[trigger] final(enemies)@[i] == (EnemyEntity {
                blinking: blink_after_tick(old(enemies)@[i].blinking, dt_ms as int),
                ..old(enemies)@[i]
            }),
        match *old(player) {
            Some(p) => *final(player) == Some(
                PlayerEntity { blinking: blink_after_tick(p.blinking, dt_ms as int), ..p },
            ),
            None => *final(player) is None,
        },
        forall|i: int| 0 <= i < final(enemies)@.len() ==> (#[trigger] final(enemies)@[i]).wf(),
        match *final(player) {
            Some(p) => p.wf(),
            None => true,
        },
{
    let n = enemies.len();
    let mut i: usize = 0;
    while i < n
        invariant
            n == enemies@.len(),
            n == old(enemies)@.len(),
            i <= n,
            0 <= dt_ms <= MAX_TICK_MS,
            forall|j: int| i <= j < n ==> #[trigger] enemies@[j] == old(enemies)@[j],
            forall|j: int| i <= j < n ==> (#[trigger] old(enemies)@[j]).wf(),
            forall|j: int|
                0 <= j < i ==> #[trigger] enemies@[j] == (EnemyEntity {
                    blinking: blink_after_tick(old(enemies)@[j].blinking, dt_ms as int),
                    ..old(enemies)@[j]
                }),
        decreases n - i,
    {
        let e = &mut enemies[i];
        tick_blink(&mut e.blinking, dt_ms);
        i = i + 1;
    }
    match player {
        Some(p) => {
            tick_blink(&mut p.blinking, dt_ms);
        }
        None => {}
    }
}

} // verus!

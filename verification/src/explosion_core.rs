//! Explosions: spawned where a death event happened, stepped through their
//! five animation frames on a fixed cadence, and removed after the last
//! frame.

use vstd::prelude::*;
use crate::geometry::{in_arena, Vec2, MAX_TICK_MS};
use crate::timer::{timer_after_tick, timer_fires, Timer, TimerMode};

verus! {

/// A death/explosion event: the world position where the explosion plays.
#[derive(Clone, Copy, PartialEq, Eq, Structural, Debug)]
pub struct ExplosionEvent(pub Vec2);

/// Index of the last animation frame.
pub const EXPLOSION_LAST_FRAME: u8 = 4;

/// Milliseconds per animation frame.
pub const EXPLOSION_FRAME_MS: i64 = 120;

/// A playing explosion: its position, current frame, and frame cadence.
#[derive(Clone, Copy, PartialEq, Eq, Structural, Debug)]
pub struct Explosion {
    pub pos: Vec2,
    pub frame: u8,
    pub timer: Timer,
}

impl Explosion {
    pub open spec fn wf(self) -> bool {
        &&& self.timer.wf()
        &&& self.frame <= EXPLOSION_LAST_FRAME
    }

    /// A fresh explosion at `pos`, on its first frame.
    pub fn new(pos: Vec2) -> (e: Explosion)
        ensures
            e == spawned_explosion(pos),
    {
        Explosion { pos, frame: 0, timer: Timer::new(EXPLOSION_FRAME_MS, TimerMode::Repeating) }
    }
}

/// The explosion an event spawns.
pub open spec fn spawned_explosion(pos: Vec2) -> Explosion {
    Explosion {
        pos,
        frame: 0,
        timer: Timer {
            duration_ms: EXPLOSION_FRAME_MS,
            remaining_ms: EXPLOSION_FRAME_MS,
            mode: TimerMode::Repeating,
        },
    }
}

/// Spawn one explosion per queued death event, at the event's position.
pub fn spawn_explosion(events: &Vec<ExplosionEvent>, explosions: &mut Vec<Explosion>)
    ensures
        final(explosions)@.len() == old(explosions)@.len() + events@.len(),
        forall|i: int|
            0 <= i < old(explosions)@.len() ==> #[trigger] final(explosions)@[i] == old(
                explosions,
            )@[i],
        forall|j: int|
            old(explosions)@.len() <= j < final(explosions)@.len()
                ==> #[trigger] final(explosions)@[j] == spawned_explosion(
                events@[j - old(explosions)@.len()].0,
            ),
{
    let mut k: usize = 0;
    let n = events.len();
    while k < n
        invariant
            n == events@.len(),
            k <= n,
            explosions@.len() == old(explosions)@.len() + k,
            forall|i: int|
                0 <= i < old(explosions)@.len() ==> #[trigger] explosions@[i] == old(
                    explosions,
                )@[i],
            forall|i: int|
                0 <= i < k ==> #[trigger] explosions@[old(explosions)@.len() + i]
                    == spawned_explosion(events@[i].0),
        decreases n - k,
    {
        let pos = events[k].0;
        explosions.push(Explosion::new(pos));
        k = k + 1;
    }
    proof {
        assert forall|j: int|
            old(explosions)@.len() <= j < explosions@.len() implies #[trigger] explosions@[j]
            == spawned_explosion(events@[j - old(explosions)@.len()].0) by {
            let i = j - old(explosions)@.len();
            assert(explosions@[old(explosions)@.len() + i] == spawned_explosion(events@[i].0));
        }
    }
}

/// One explosion after one tick: when its cadence fires it either advances
/// a frame or, from the last frame, disappears.
pub open spec fn explosion_after_tick(e: Explosion, dt_ms: int) -> Explosion {
    if timer_fires(e.timer, dt_ms) && e.frame != EXPLOSION_LAST_FRAME {
        Explosion {
            frame: (e.frame + 1) as u8,
            timer: timer_after_tick(e.timer, dt_ms),
            ..e
        }
    } else {
        Explosion { timer: timer_after_tick(e.timer, dt_ms), ..e }
    }
}

/// Whether the explosion survives the tick (it vanishes when the cadence
/// fires on the last frame).
pub open spec fn explosion_survives(e: Explosion, dt_ms: int) -> bool {
    !(timer_fires(e.timer, dt_ms) && e.frame == EXPLOSION_LAST_FRAME)
}

/// All explosions after one tick.
pub open spec fn explosions_after_tick(s: Seq<Explosion>, dt_ms: int) -> Seq<Explosion>
    decreases s.len(),
{
    if s.len() == 0 {
        Seq::empty()
    } else {
        let rest = explosions_after_tick(s.drop_last(), dt_ms);
        if explosion_survives(s.last(), dt_ms) {
            rest.push(explosion_after_tick(s.last(), dt_ms))
        } else {
            rest
        }
    }
}

/// Advance every explosion's animation: each time its cadence fires it
/// shows the next frame, and after the last frame it is removed.
pub fn animate_explosion(explosions: &mut Vec<Explosion>, dt_ms: i64)
    requires
        forall|i: int| 0 <= i < old(explosions)@.len() ==> (#[trigger] old(explosions)@[i]).wf(),
        0 <= dt_ms <= MAX_TICK_MS,
    ensures
        final(explosions)@ == explosions_after_tick(old(explosions)@, dt_ms as int),
        forall|i: int| 0 <= i < final(explosions)@.len() ==> (#[trigger] final(explosions)@[i]).wf(),
{
    let ghost orig = explosions@;
    let mut out: Vec<Explosion> = Vec::new();
    let mut k: usize = 0;
    let n = explosions.len();
    while k < n
        invariant
            n == orig.len(),
            explosions@ == orig,
            k <= n,
            forall|i: int| 0 <= i < n ==> (#[trigger] orig[i]).wf(),
            out@ == explosions_after_tick(orig.subrange(0, k as int), dt_ms as int),
            forall|i: int| 0 <= i < out@.len() ==> (#[trigger] out@[i]).wf(),
            0 <= dt_ms <= MAX_TICK_MS,
        decreases n - k,
    {
        let mut e = explosions[k];
        proof {
            assert(orig.subrange(0, k + 1).drop_last() =~= orig.subrange(0, k as int));
            assert(orig.subrange(0, k + 1).last() == orig[k as int]);
        }
        let fired = e.timer.tick(dt_ms);
        if fired && e.frame == EXPLOSION_LAST_FRAME {
            // vanished: not pushed
        } else {
            if fired {
                e.frame = e.frame + 1;
            }
            out.push(e);
        }
        k = k + 1;
    }
    proof {
        assert(orig.subrange(0, n as int) =~= orig);
    }
    *explosions = out;
}

} // verus!

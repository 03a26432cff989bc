//! Countdown timers.  Cooldowns, lifetimes and animation cadences are all
//! simple countdown accumulators advanced by each tick's elapsed-time delta;
//! they are not wall-clock-anchored, so pausing the tick loop freezes them
//! exactly.

use vstd::prelude::*;
use crate::geometry::MAX_TICK_MS;

verus! {

/// Upper bound on a timer duration (about 12 days, in milliseconds).
pub const MAX_DURATION_MS: i64 = 1_000_000_000;

/// Whether a timer stops at zero or rearms itself.
#[derive(Clone, Copy, PartialEq, Eq, Structural, Debug)]
pub enum TimerMode {
    Once,
    Repeating,
}

/// A countdown timer: `remaining_ms` runs from `duration_ms` down to zero.
/// A `Once` timer stays at zero; a `Repeating` timer rearms to its full
/// duration the moment it runs out.
#[derive(Clone, Copy, PartialEq, Eq, Structural, Debug)]
pub struct Timer {
    pub duration_ms: i64,
    pub remaining_ms: i64,
    pub mode: TimerMode,
}

/// Whether advancing `t` by `dt_ms` makes it fire: the countdown runs out
/// this tick (for a `Once` timer, only if it had not run out already).
pub open spec fn timer_fires(t: Timer, dt_ms: int) -> bool {
    match t.mode {
        TimerMode::Once => 0 < t.remaining_ms <= dt_ms,
        TimerMode::Repeating => t.remaining_ms <= dt_ms,
    }
}

/// `t` after advancing by `dt_ms`: the countdown decreases, stopping at
/// zero for a `Once` timer and rearming to the full duration for a
/// `Repeating` one.
pub open spec fn timer_after_tick(t: Timer, dt_ms: int) -> Timer {
    match t.mode {
        TimerMode::Once => Timer {
            remaining_ms: if t.remaining_ms <= dt_ms {
                0
            } else {
                (t.remaining_ms - dt_ms) as i64
            },
            ..t
        },
        TimerMode::Repeating => Timer {
            remaining_ms: if t.remaining_ms <= dt_ms {
                t.duration_ms
            } else {
                (t.remaining_ms - dt_ms) as i64
            },
            ..t
        },
    }
}

/// Law: a tick of zero elapsed time leaves any well-formed timer exactly
/// as it was and fires nothing, so a paused loop freezes every countdown.
pub proof fn lemma_tick_zero_dt(t: Timer)
    requires
        t.wf(),
    ensures
        timer_after_tick(t, 0) == t,
        !timer_fires(t, 0),
{
}

impl Timer {
    /// A timer is well formed when its duration is positive and bounded and
    /// its remaining time lies between zero and the duration; a repeating
    /// timer always has time remaining.
    pub open spec fn wf(self) -> bool {
        &&& 0 < self.duration_ms <= MAX_DURATION_MS
        &&& 0 <= self.remaining_ms <= self.duration_ms
        &&& self.mode is Repeating ==> self.remaining_ms > 0
    }

    /// A fresh, fully wound timer.
    pub fn new(duration_ms: i64, mode: TimerMode) -> (t: Timer)
        requires
            0 < duration_ms <= MAX_DURATION_MS,
        ensures
            t.wf(),
            t.duration_ms == duration_ms,
            t.remaining_ms == duration_ms,
            t.mode == mode,
    {
        Timer { duration_ms, remaining_ms: duration_ms, mode }
    }

    /// Whether the countdown has run out (never true of a well-formed
    /// repeating timer, which rearms as it fires).
    pub fn is_finished(&self) -> (r: bool)
        ensures
            r == (self.remaining_ms == 0),
    {
        self.remaining_ms == 0
    }

    /// Milliseconds spent since the last (re)arming.
    pub fn elapsed_ms(&self) -> (r: i64)
        requires
            self.wf(),
        ensures
            r == self.duration_ms - self.remaining_ms,
    {
        self.duration_ms - self.remaining_ms
    }

    /// Rewind to the full duration.
    pub fn reset(&mut self)
        requires
            old(self).wf(),
        ensures
            final(self).wf(),
            final(self).duration_ms == old(self).duration_ms,
            final(self).mode == old(self).mode,
            final(self).remaining_ms == old(self).duration_ms,
    {
        self.remaining_ms = self.duration_ms;
    }

    /// Advance the countdown by `dt_ms`.  Returns whether the timer fired
    /// this tick: a `Once` timer fires as it first reaches zero, a
    /// `Repeating` timer fires each time the countdown runs out and then
    /// rearms to its full duration.  With `dt_ms == 0` nothing changes and
    /// nothing fires.
    pub fn tick(&mut self, dt_ms: i64) -> (fired: bool)
        requires
            old(self).wf(),
            0 <= dt_ms <= MAX_TICK_MS,
        ensures
            final(self).wf(),
            fired == timer_fires(*old(self), dt_ms as int),
            *final(self) == timer_after_tick(*old(self), dt_ms as int),
    {
        match self.mode {
            TimerMode::Once => {
                if self.remaining_ms == 0 {
                    false
                } else if self.remaining_ms <= dt_ms {
                    self.remaining_ms = 0;
                    true
                } else {
                    self.remaining_ms = self.remaining_ms - dt_ms;
                    false
                }
            }
            TimerMode::Repeating => {
                if self.remaining_ms <= dt_ms {
                    self.remaining_ms = self.duration_ms;
                    true
                } else {
                    self.remaining_ms = self.remaining_ms - dt_ms;
                    false
                }
            }
        }
    }
}

} // verus!

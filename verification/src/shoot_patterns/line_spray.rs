//! The "line spray": eleven fireballs fired straight down along one
//! direction at linearly decreasing speeds, so the speed differential
//! spaces them out into a trailing line.

use vstd::prelude::*;
use crate::beam::{Beam, BeamType, ShootPattern};
use crate::geometry::Vec2;
use crate::timer::{Timer, TimerMode};

verus! {

/// Speed of the fastest, leading fireball.
pub const LINE_SPRAY_TOP_SPEED: i64 = 250;

/// How much slower each following fireball flies.
pub const LINE_SPRAY_SPEED_STEP: i64 = 20;

/// Repeat period of the burst, in milliseconds.
pub const LINE_SPRAY_PERIOD_MS: i64 = 250;

pub struct LineSpray;

/// The line's templates: fireball `i` falls straight down at speed
/// `250 - 20 * i`.
pub open spec fn line_spray_beams() -> Seq<Beam> {
    Seq::new(
        11,
        |i: int|
            Beam {
                beam_type: BeamType::FireBall,
                lifetime_ms: 4000,
                speed: (LINE_SPRAY_TOP_SPEED - LINE_SPRAY_SPEED_STEP * i) as i64,
                direction: Vec2 { x: 0i64, y: -1000i64 },
                power: 10,
            },
    )
}

impl LineSpray {
    pub fn new() -> (p: ShootPattern)
        ensures
            p.wf(),
            p.beam@ == line_spray_beams(),
            p.timer == (Timer {
                duration_ms: LINE_SPRAY_PERIOD_MS,
                remaining_ms: LINE_SPRAY_PERIOD_MS,
                mode: TimerMode::Repeating,
            }),
    {
        let mut beams: Vec<Beam> = Vec::new();
        let mut i: usize = 0;
        while i < 11
            invariant
                i <= 11,
                beams@.len() == i,
                forall|j: int| 0 <= j < i ==> beams@[j] == line_spray_beams()[j],
            decreases 11 - i,
        {
            let speed: i64 = LINE_SPRAY_TOP_SPEED - LINE_SPRAY_SPEED_STEP * (i as i64);
            beams.push(Beam::new(&BeamType::FireBall, Vec2 { x: 0, y: -1000 }).speed(speed));
            i = i + 1;
        }
        proof {
            assert(beams@ =~= line_spray_beams());
        }
        ShootPattern { beam: beams, timer: Timer::new(LINE_SPRAY_PERIOD_MS, TimerMode::Repeating) }
    }
}

} // verus!

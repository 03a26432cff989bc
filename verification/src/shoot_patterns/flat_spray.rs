//! The "flat spray": a fan of eleven fireballs whose x-direction sweeps
//! from 1.0 down to 0.0 in steps of 0.1, all falling at the same slowed
//! speed.

use vstd::prelude::*;
use crate::beam::{Beam, BeamType, ShootPattern};
use crate::geometry::Vec2;
use crate::timer::{Timer, TimerMode};

verus! {

/// Speed every fireball of the fan is slowed to.
pub const FLAT_SPRAY_SPEED: i64 = 200;

/// Repeat period of the burst, in milliseconds.
pub const FLAT_SPRAY_PERIOD_MS: i64 = 250;

pub struct FlatSpray;

/// The fan's templates: fireball `i` flies in direction
/// `(1.0 - 0.1 * i, -1.0)` at the slowed speed.
pub open spec fn flat_spray_beams() -> Seq<Beam> {
    Seq::new(
        11,
        |i: int|
            Beam {
                beam_type: BeamType::FireBall,
                lifetime_ms: 4000,
                speed: FLAT_SPRAY_SPEED,
                direction: Vec2 { x: (1000 - 100 * i) as i64, y: -1000i64 },
                power: 10,
            },
    )
}

impl FlatSpray {
    pub fn new() -> (p: ShootPattern)
        ensures
            p.wf(),
            p.beam@ == flat_spray_beams(),
            p.timer == (Timer {
                duration_ms: FLAT_SPRAY_PERIOD_MS,
                remaining_ms: FLAT_SPRAY_PERIOD_MS,
                mode: TimerMode::Repeating,
            }),
    {
        let mut beams: Vec<Beam> = Vec::new();
        let mut i: usize = 0;
        while i < 11
            invariant
                i <= 11,
                beams@.len() == i,
                forall|j: int| 0 <= j < i ==> beams@[j] == flat_spray_beams()[j],
            decreases 11 - i,
        {
            let x: i64 = 1000 - 100 * (i as i64);
            beams.push(Beam::new(&BeamType::FireBall, Vec2 { x, y: -1000 }).speed(
                FLAT_SPRAY_SPEED,
            ));
            i = i + 1;
        }
        proof {
            assert(beams@ =~= flat_spray_beams());
        }
        ShootPattern { beam: beams, timer: Timer::new(FLAT_SPRAY_PERIOD_MS, TimerMode::Repeating) }
    }
}

} // verus!

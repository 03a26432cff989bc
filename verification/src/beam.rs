//! Projectile engine: beam lifecycle from spawn parameters by type, through
//! straight-line motion, to expiry.  One data-driven table keyed by the type
//! tag gives each beam its `{lifetime, speed, power}`.

use vstd::prelude::*;
use crate::geometry::{
    clamp_coord, in_arena, scaled_step, translate_coord, Vec2, MAX_DIR, MAX_SPEED, MAX_TICK_MS,
    POS_LIMIT,
};
use crate::timer::{Timer, TimerMode, MAX_DURATION_MS};

verus! {

/// Half-extent of a beam's collision box, in position steps (half a world
/// unit on each side).
pub const BEAM_HALF: i64 = 500_000;

/// The distinct visual/damage profiles a beam can be fired with.
#[derive(Clone, Copy, PartialEq, Eq, Structural, Debug)]
pub enum BeamType {
    PlasmaOrb,
    Proton,
    Laser,
    Wave,
    FireBall,
}

/// A beam in flight: its profile, remaining lifetime, velocity
/// (direction in thousandths times scalar speed) and damage power.
#[derive(Clone, Copy, PartialEq, Eq, Structural, Debug)]
pub struct Beam {
    pub beam_type: BeamType,
    pub lifetime_ms: i64,
    pub speed: i64,
    pub direction: Vec2,
    pub power: i64,
}

/// Speed, in world units per second, that `Beam::new` gives each type.
pub open spec fn type_speed(t: BeamType) -> int {
    match t {
        BeamType::Proton => 450,
        BeamType::Laser => 500,
        BeamType::Wave => 600,
        BeamType::PlasmaOrb => 500,
        BeamType::FireBall => 600,
    }
}

/// Damage power that `Beam::new` gives each type.
pub open spec fn type_power(t: BeamType) -> int {
    match t {
        BeamType::Proton => 20,
        BeamType::Laser => 30,
        BeamType::Wave => 50,
        BeamType::PlasmaOrb => 50,
        BeamType::FireBall => 10,
    }
}

/// Lifetime, in milliseconds, that `Beam::new` gives each type.
pub open spec fn type_lifetime_ms(t: BeamType) -> int {
    4000
}

impl Beam {
    /// A beam is well formed when its direction, speed and lifetime lie in
    /// the model's ranges and its power is non-negative.
    pub open spec fn wf(self) -> bool {
        &&& -MAX_DIR <= self.direction.x <= MAX_DIR
        &&& -MAX_DIR <= self.direction.y <= MAX_DIR
        &&& 0 <= self.speed <= MAX_SPEED
        &&& 0 < self.lifetime_ms <= MAX_DURATION_MS
        &&& 0 <= self.power
    }

    /// Build a beam of the given type flying in `direction`, with the
    /// type's fixed `{lifetime, speed, power}` drawn from the table.
    pub fn new(beam_type: &BeamType, direction: Vec2) -> (b: Beam)
        requires
            -MAX_DIR <= direction.x <= MAX_DIR,
            -MAX_DIR <= direction.y <= MAX_DIR,
        ensures
            b.wf(),
            b.beam_type == *beam_type,
            b.direction == direction,
            b.speed == type_speed(*beam_type),
            b.power == type_power(*beam_type),
            b.lifetime_ms == type_lifetime_ms(*beam_type),
    {
        match beam_type {
            BeamType::Proton => Beam {
                beam_type: *beam_type,
                lifetime_ms: 4000,
                speed: 450,
                direction,
                power: 20,
            },
            BeamType::Laser => Beam {
                beam_type: *beam_type,
                lifetime_ms: 4000,
                speed: 500,
                direction,
                power: 30,
            },
            BeamType::Wave => Beam {
                beam_type: *beam_type,
                lifetime_ms: 4000,
                speed: 600,
                direction,
                power: 50,
            },
            BeamType::PlasmaOrb => Beam {
                beam_type: *beam_type,
                lifetime_ms: 4000,
                speed: 500,
                direction,
                power: 50,
            },
            BeamType::FireBall => Beam {
                beam_type: *beam_type,
                lifetime_ms: 4000,
                speed: 600,
                direction,
                power: 10,
            },
        }
    }

    /// Override the table speed (used by the spray patterns to slow their
    /// volleys down).
    pub fn speed(self, speed: i64) -> (b: Beam)
        requires
            0 <= speed <= MAX_SPEED,
        ensures
            b == (Beam { speed, ..self }),
    {
        Beam { speed, ..self }
    }
}

/// How an enemy shoots: a single basic bolt on the shared cadence, or a
/// named multi-beam pattern on its own cadence.
#[derive(Clone, Debug)]
pub enum ShootType {
    Basic,
    TestHell(ShootPattern),
}

/// An ordered list of beam templates fired as one burst, with the burst's
/// own repeating cooldown timer.
#[derive(Clone, Debug)]
pub struct ShootPattern {
    pub beam: Vec<Beam>,
    pub timer: Timer,
}

impl ShootPattern {
    /// Every template well formed and the cooldown well formed.
    pub open spec fn wf(self) -> bool {
        &&& forall|i: int| 0 <= i < self.beam@.len() ==> (#[trigger] self.beam@[i]).wf()
        &&& self.timer.wf()
    }

    /// The fan of eleven fireballs sweeping x from 1.0 down to 0.0.
    pub fn flat_spray() -> (p: ShootPattern)
        ensures
            p.wf(),
            p.beam@ == crate::shoot_patterns::flat_spray::flat_spray_beams(),
            p.timer == (Timer {
                duration_ms: crate::shoot_patterns::flat_spray::FLAT_SPRAY_PERIOD_MS,
                remaining_ms: crate::shoot_patterns::flat_spray::FLAT_SPRAY_PERIOD_MS,
                mode: TimerMode::Repeating,
            }),
    {
        crate::shoot_patterns::flat_spray::FlatSpray::new()
    }

    /// The trailing line of eleven fireballs at decreasing speeds.
    pub fn line_spray() -> (p: ShootPattern)
        ensures
            p.wf(),
            p.beam@ == crate::shoot_patterns::line_spray::line_spray_beams(),
            p.timer == (Timer {
                duration_ms: crate::shoot_patterns::line_spray::LINE_SPRAY_PERIOD_MS,
                remaining_ms: crate::shoot_patterns::line_spray::LINE_SPRAY_PERIOD_MS,
                mode: TimerMode::Repeating,
            }),
    {
        crate::shoot_patterns::line_spray::LineSpray::new()
    }
}

/// A beam owned by the world: the beam itself, its position, and whether
/// it was fired by an enemy (enemy fire hurts the player; player fire
/// hurts enemies).
#[derive(Clone, Copy, PartialEq, Eq, Structural, Debug)]
pub struct BeamEntity {
    pub beam: Beam,
    pub pos: Vec2,
    pub enemy_fire: bool,
}

impl BeamEntity {
    pub open spec fn wf(self) -> bool {
        &&& self.beam.wf()
        &&& in_arena(self.pos)
    }
}

/// One tick of motion for one beam: lifetime counts down by `dt_ms` and the
/// position translates by `direction * speed * dt_ms`.
pub open spec fn beam_after_tick(b: BeamEntity, dt_ms: int) -> BeamEntity {
    BeamEntity {
        beam: Beam { lifetime_ms: (b.beam.lifetime_ms - dt_ms) as i64, ..b.beam },
        pos: Vec2 {
            x: clamp_coord(b.pos.x + b.beam.direction.x * b.beam.speed * dt_ms) as i64,
            y: clamp_coord(b.pos.y + b.beam.direction.y * b.beam.speed * dt_ms) as i64,
        },
        ..b
    }
}

/// A beam stays in the world while its lifetime is positive.
pub open spec fn beam_alive(b: BeamEntity) -> bool {
    b.beam.lifetime_ms > 0
}

/// All beams after one tick: each moved and counted down, those whose
/// lifetime has run out removed.
pub open spec fn beams_after_tick(s: Seq<BeamEntity>, dt_ms: int) -> Seq<BeamEntity>
    decreases s.len(),
{
    if s.len() == 0 {
        Seq::empty()
    } else {
        let rest = beams_after_tick(s.drop_last(), dt_ms);
        let moved = beam_after_tick(s.last(), dt_ms);
        if beam_alive(moved) {
            rest.push(moved)
        } else {
            rest
        }
    }
}

/// Advance every live beam: decrement its lifetime by `dt_ms`, translate
/// its position by `direction * speed * dt_ms`, and destroy any beam whose
/// lifetime has reached zero this tick.
pub fn update_beam(beams: &mut Vec<BeamEntity>, dt_ms: i64)
    requires
        forall|i: int| 0 <= i < old(beams)@.len() ==> (#[trigger] old(beams)@[i]).wf(),
        0 <= dt_ms <= MAX_TICK_MS,
    ensures
        final(beams)@ == beams_after_tick(old(beams)@, dt_ms as int),
        forall|i: int| 0 <= i < final(beams)@.len() ==> (#[trigger] final(beams)@[i]).wf(),
{
    let ghost orig = beams@;
    let mut out: Vec<BeamEntity> = Vec::new();
    let mut i: usize = 0;
    while i < beams.len()
        invariant
            beams@ == orig,
            i <= orig.len(),
            forall|j: int| 0 <= j < orig.len() ==> (#[trigger] orig[j]).wf(),
            out@ == beams_after_tick(orig.subrange(0, i as int), dt_ms as int),
            forall|j: int| 0 <= j < out@.len() ==> (#[trigger] out@[j]).wf(),
            0 <= dt_ms <= MAX_TICK_MS,
        decreases orig.len() - i,
    {
        let b = beams[i];
        let dx = scaled_step(b.beam.direction.x, b.beam.speed, dt_ms);
        let dy = scaled_step(b.beam.direction.y, b.beam.speed, dt_ms);
        let moved = BeamEntity {
            beam: Beam { lifetime_ms: b.beam.lifetime_ms - dt_ms, ..b.beam },
            pos: Vec2 { x: translate_coord(b.pos.x, dx), y: translate_coord(b.pos.y, dy) },
            ..b
        };
        proof {
            assert(orig.subrange(0, i + 1).drop_last() =~= orig.subrange(0, i as int));
            assert(orig.subrange(0, i + 1).last() == orig[i as int]);
        }
        if moved.beam.lifetime_ms > 0 {
            out.push(moved);
        }
        i = i + 1;
    }
    proof {
        assert(orig.subrange(0, orig.len() as int) =~= orig);
    }
    *beams = out;
}

/// Law: a beam's motion is exact and additive.  Ticking for `dt1` and then
/// `dt2` milliseconds is one tick of `dt1 + dt2`: the position after a
/// cumulative time `t` is `origin + direction * speed * t`, and the
/// remaining lifetime is the initial lifetime minus `t`, as long as the
/// flight stays inside the coordinate range (no clamping).
pub proof fn lemma_beam_motion_additive(b: BeamEntity, dt1: int, dt2: int)
    requires
        b.wf(),
        0 <= dt1,
        0 <= dt2,
        dt1 + dt2 <= MAX_DURATION_MS,
        -POS_LIMIT <= b.pos.x + b.beam.direction.x * b.beam.speed * dt1 <= POS_LIMIT,
        -POS_LIMIT <= b.pos.y + b.beam.direction.y * b.beam.speed * dt1 <= POS_LIMIT,
        -POS_LIMIT <= b.pos.x + b.beam.direction.x * b.beam.speed * (dt1 + dt2) <= POS_LIMIT,
        -POS_LIMIT <= b.pos.y + b.beam.direction.y * b.beam.speed * (dt1 + dt2) <= POS_LIMIT,
    ensures
        beam_after_tick(beam_after_tick(b, dt1), dt2) == beam_after_tick(b, dt1 + dt2),
        beam_after_tick(b, dt1 + dt2).pos.x == b.pos.x + b.beam.direction.x * b.beam.speed * (dt1
            + dt2),
        beam_after_tick(b, dt1 + dt2).pos.y == b.pos.y + b.beam.direction.y * b.beam.speed * (dt1
            + dt2),
        beam_after_tick(b, dt1 + dt2).beam.lifetime_ms == b.beam.lifetime_ms - (dt1 + dt2),
{
    assert(b.beam.direction.x * b.beam.speed * dt1 + b.beam.direction.x * b.beam.speed * dt2
        == b.beam.direction.x * b.beam.speed * (dt1 + dt2)) by (nonlinear_arith);
    assert(b.beam.direction.y * b.beam.speed * dt1 + b.beam.direction.y * b.beam.speed * dt2
        == b.beam.direction.y * b.beam.speed * (dt1 + dt2)) by (nonlinear_arith);
}

/// Law: a beam is removed exactly once its cumulative elapsed time reaches
/// its initial lifetime: after a tick of `dt` it survives if and only if
/// `dt` is still short of the lifetime that remained.
pub proof fn lemma_beam_expiry(b: BeamEntity, dt: int)
    requires
        b.wf(),
        0 <= dt <= MAX_DURATION_MS,
    ensures
        beam_alive(beam_after_tick(b, dt)) <==> dt < b.beam.lifetime_ms,
{
}

/// Law: a tick of zero elapsed time moves no beam, winds no lifetime down
/// and removes nothing.
pub proof fn lemma_beams_still_at_zero_dt(s: Seq<BeamEntity>)
    requires
        forall|i: int| 0 <= i < s.len() ==> (#[trigger] s[i]).wf(),
    ensures
        beams_after_tick(s, 0) == s,
    decreases s.len(),
{
    if s.len() > 0 {
        lemma_beams_still_at_zero_dt(s.drop_last());
        assert(beam_after_tick(s.last(), 0) == s.last());
        assert(beams_after_tick(s, 0) =~= s);
    } else {
        assert(beams_after_tick(s, 0) =~= s);
    }
}

} // verus!

//! Side canons: auxiliary turrets that track fixed offsets beside the
//! player, catching up at a fixed rate outside a small dead zone, and fire
//! plasma orbs on a held fire intent with their own, slower cadence.

use vstd::prelude::*;
use crate::beam::{Beam, BeamEntity, BeamType};
use crate::geometry::{
    circle_box_overlap, circle_meets_box, clamp_coord, in_arena, Vec2, MAX_TICK_MS, MICRO,
    POS_LIMIT,
};
use crate::timer::{timer_after_tick, Timer, TimerMode};

verus! {

/// Horizontal offset of a canon's station from the player, in world units.
pub const CANON_DISTANCE_UNITS: i64 = 20;

/// Radius of the canon's dead-zone circle, in world units.
pub const CANON_HEIGHT_UNITS: i64 = 27;

/// Half-extent of the tracking target's box, in position steps.
pub const CANON_TARGET_HALF: i64 = 500_000;

/// Lockout between canon shots, in milliseconds.
pub const CANON_LOCKOUT_MS: i64 = 350;

/// Which side of the player a canon keeps to.
#[derive(Clone, Copy, PartialEq, Eq, Structural, Debug)]
pub enum Position {
    Left,
    Right,
}

/// Cooldown between canon shots.
#[derive(Clone, Copy, PartialEq, Eq, Structural, Debug)]
pub struct ShootTimer(pub Timer);

/// A canon: its order (for future chains), lockout, cooldown latch and
/// side.
#[derive(Clone, Copy, PartialEq, Eq, Structural, Debug)]
pub struct Canon {
    pub level: u8,
    pub lockout_time_ms: i64,
    pub needs_cooldown: bool,
    pub position: Position,
}

impl Canon {
    pub fn new(level: u8, position: Position) -> (c: Canon)
        ensures
            c == (Canon {
                level,
                lockout_time_ms: CANON_LOCKOUT_MS,
                needs_cooldown: false,
                position,
            }),
    {
        Canon { level, lockout_time_ms: CANON_LOCKOUT_MS, needs_cooldown: false, position }
    }
}

/// A canon owned by the world: the canon, its position, and its cooldown.
#[derive(Clone, Copy, PartialEq, Eq, Structural, Debug)]
pub struct CanonEntity {
    pub canon: Canon,
    pub pos: Vec2,
    pub shoot_timer: ShootTimer,
}

impl CanonEntity {
    pub open spec fn wf(self) -> bool {
        &&& in_arena(self.pos)
        &&& self.shoot_timer.0.wf()
    }
}

/// The signed station offset of a side.
pub open spec fn side_offset(p: Position) -> int {
    match p {
        Position::Left => -CANON_DISTANCE_UNITS * MICRO,
        Position::Right => CANON_DISTANCE_UNITS * MICRO,
    }
}

/// A freshly stationed canon of one side, beside the player.
pub open spec fn spawned_canon(player_pos: Vec2, position: Position) -> CanonEntity {
    CanonEntity {
        canon: Canon {
            level: 0,
            lockout_time_ms: CANON_LOCKOUT_MS,
            needs_cooldown: false,
            position,
        },
        pos: Vec2 {
            x: clamp_coord(player_pos.x + side_offset(position)) as i64,
            y: player_pos.y,
        },
        shoot_timer: ShootTimer(
            Timer {
                duration_ms: CANON_LOCKOUT_MS,
                remaining_ms: CANON_LOCKOUT_MS,
                mode: TimerMode::Once,
            },
        ),
    }
}

/// Station one canon beside each side slot that carries a plasma canon:
/// left first, then right.
pub fn setup(player_pos: Vec2, left_canon: bool, right_canon: bool) -> (canons: Vec<CanonEntity>)
    requires
        in_arena(player_pos),
    ensures
        canons@ == (if left_canon {
            seq![spawned_canon(player_pos, Position::Left)]
        } else {
            Seq::empty()
        }) + (if right_canon {
            seq![spawned_canon(player_pos, Position::Right)]
        } else {
            Seq::empty()
        }),
        forall|i: int| 0 <= i < canons@.len() ==> (#[trigger] canons@[i]).wf(),
{
    let mut canons: Vec<CanonEntity> = Vec::new();
    if left_canon {
        let canon = Canon::new(0, Position::Left);
        let lockout = canon.lockout_time_ms;
        canons.push(
            CanonEntity {
                canon,
                pos: Vec2 {
                    x: crate::geometry::translate_coord(
                        player_pos.x,
                        -CANON_DISTANCE_UNITS * MICRO,
                    ),
                    y: player_pos.y,
                },
                shoot_timer: ShootTimer(Timer::new(lockout, TimerMode::Once)),
            },
        );
    }
    if right_canon {
        let canon = Canon::new(0, Position::Right);
        let lockout = canon.lockout_time_ms;
        canons.push(
            CanonEntity {
                canon,
                pos: Vec2 {
                    x: crate::geometry::translate_coord(
                        player_pos.x,
                        CANON_DISTANCE_UNITS * MICRO,
                    ),
                    y: player_pos.y,
                },
                shoot_timer: ShootTimer(Timer::new(lockout, TimerMode::Once)),
            },
        );
    }
    proof {
        assert(canons@ =~= (if left_canon {
            seq![spawned_canon(player_pos, Position::Left)]
        } else {
            Seq::<CanonEntity>::empty()
        }) + (if right_canon {
            seq![spawned_canon(player_pos, Position::Right)]
        } else {
            Seq::<CanonEntity>::empty()
        }));
    }
    canons
}

/// The catch-up displacement along one axis: three thousandths of the
/// remaining distance per elapsed millisecond, rounded toward zero.
pub open spec fn catchup_amount(delta: int, dt_ms: int) -> int {
    if delta >= 0 {
        (delta * 3 * dt_ms) / 1000
    } else {
        -(((-delta) * 3 * dt_ms) / 1000)
    }
}

/// One axis of the canon's catch-up motion toward `target`.
fn catchup_coord(pos: i64, target: i64, dt_ms: i64) -> (r: i64)
    requires
        -POS_LIMIT <= pos <= POS_LIMIT,
        -POS_LIMIT <= target <= POS_LIMIT,
        0 <= dt_ms <= MAX_TICK_MS,
    ensures
        r == clamp_coord(pos + catchup_amount(target - pos, dt_ms as int)),
{
    let delta: i64 = target - pos;
    let neg = delta < 0;
    let mag: u128 = if neg {
        (-(delta as i128)) as u128
    } else {
        delta as u128
    };
    proof {
        assert(mag * 3 * (dt_ms as int) < 0x1000_0000_0000_0000_0000_0000_0000_0000int)
            by (nonlinear_arith)
            requires
                0 <= mag <= 0x4000_0000_0000_0000int,
                0 <= dt_ms <= MAX_TICK_MS,
        {
        }
    }
    let amt: u128 = mag * 3 * (dt_ms as u128) / 1000;
    proof {
        vstd::arithmetic::div_mod::lemma_div_is_ordered(
            0,
            (mag * 3 * (dt_ms as int)) as int,
            1000,
        );
        vstd::arithmetic::div_mod::lemma_div_is_ordered(
            (mag * 3 * (dt_ms as int)) as int,
            0x1000_0000_0000_0000_0000_0000_0000_0000int,
            1000,
        );
    }
    let moved: i128 = if neg {
        (pos as i128) - (amt as i128)
    } else {
        (pos as i128) + (amt as i128)
    };
    if moved > (POS_LIMIT as i128) {
        POS_LIMIT
    } else if moved < -(POS_LIMIT as i128) {
        -POS_LIMIT
    } else {
        moved as i64
    }
}

/// The station a canon tracks: its side's fixed offset from the player.
pub open spec fn canon_target(c: CanonEntity, player_pos: Vec2) -> Vec2 {
    Vec2 { x: clamp_coord(player_pos.x + side_offset(c.canon.position)) as i64, y: player_pos.y }
}

/// One tick of tracking for one canon: outside the dead zone around its
/// station it closes the gap at the fixed catch-up rate; inside it holds
/// still, avoiding jitter.
pub open spec fn canon_after_move(c: CanonEntity, player_pos: Vec2, dt_ms: int) -> CanonEntity {
    let target = canon_target(c, player_pos);
    if circle_meets_box(
        c.pos,
        CANON_HEIGHT_UNITS * MICRO,
        target,
        Vec2 { x: CANON_TARGET_HALF, y: CANON_TARGET_HALF },
    ) {
        c
    } else {
        CanonEntity {
            pos: Vec2 {
                x: clamp_coord(c.pos.x + catchup_amount(target.x - c.pos.x, dt_ms)) as i64,
                y: clamp_coord(c.pos.y + catchup_amount(target.y - c.pos.y, dt_ms)) as i64,
            },
            ..c
        }
    }
}

/// Track every canon toward its station beside the player.
pub fn move_canon(canons: &mut Vec<CanonEntity>, player_pos: Vec2, dt_ms: i64)
    requires
        forall|i: int| 0 <= i < old(canons)@.len() ==> (#[trigger] old(canons)@[i]).wf(),
        in_arena(player_pos),
        0 <= dt_ms <= MAX_TICK_MS,
    ensures
        final(canons)@.len() == old(canons)@.len(),
        forall|i: int|
            0 <= i < old(canons)@.len() ==> #[trigger] final(canons)@[i] == canon_after_move(
                old(canons)@[i],
                player_pos,
                dt_ms as int,
            ),
        forall|i: int| 0 <= i < final(canons)@.len() ==> (#[trigger] final(canons)@[i]).wf(),
{
    let ghost orig = canons@;
    let n = canons.len();
    let mut k: usize = 0;
    while k < n
        invariant
            n == orig.len(),
            canons@.len() == n,
            k <= n,
            in_arena(player_pos),
            0 <= dt_ms <= MAX_TICK_MS,
            forall|i: int| 0 <= i < n ==> (#[trigger] orig[i]).wf(),
            forall|i: int| k <= i < n ==> #[trigger] canons@[i] == orig[i],
            forall|i: int|
                0 <= i < k ==> #[trigger] canons@[i] == canon_after_move(
                    orig[i],
                    player_pos,
                    dt_ms as int,
                ),
            forall|i: int| 0 <= i < k ==> (#[trigger] canons@[i]).wf(),
        decreases n - k,
    {
        let c = canons[k];
        let target_x = crate::geometry::translate_coord(
            player_pos.x,
            match c.canon.position {
                Position::Left => -CANON_DISTANCE_UNITS * MICRO,
                Position::Right => CANON_DISTANCE_UNITS * MICRO,
            },
        );
        let target = Vec2 { x: target_x, y: player_pos.y };
        let parked = circle_box_overlap(
            c.pos,
            CANON_HEIGHT_UNITS * MICRO,
            target,
            Vec2 { x: CANON_TARGET_HALF, y: CANON_TARGET_HALF },
        );
        if !parked {
            let nx = catchup_coord(c.pos.x, target.x, dt_ms);
            let ny = catchup_coord(c.pos.y, target.y, dt_ms);
            canons.set(k, CanonEntity { pos: Vec2 { x: nx, y: ny }, ..c });
        }
        k = k + 1;
    }
}

/// Law: at zero elapsed time a canon's tracking moves it nowhere and
/// touches no timer.
pub proof fn lemma_canon_still_at_zero_dt(c: CanonEntity, player_pos: Vec2)
    requires
        c.wf(),
    ensures
        canon_after_move(c, player_pos, 0) == c,
{
}

/// Whether a canon gets a shot off this tick of held fire.
pub open spec fn canon_fires(c: CanonEntity, dt_ms: int) -> bool {
    !(if timer_after_tick(c.shoot_timer.0, dt_ms).remaining_ms == 0 {
        false
    } else {
        c.canon.needs_cooldown
    })
}

/// A canon after one tick of held fire: its cooldown advanced and, when a
/// shot went off, rewound with the latch set again.
pub open spec fn canon_after_fire(c: CanonEntity, dt_ms: int) -> CanonEntity {
    let ticked = timer_after_tick(c.shoot_timer.0, dt_ms);
    if canon_fires(c, dt_ms) {
        CanonEntity {
            shoot_timer: ShootTimer(Timer { remaining_ms: ticked.duration_ms, ..ticked }),
            canon: Canon { needs_cooldown: true, ..c.canon },
            ..c
        }
    } else {
        CanonEntity {
            shoot_timer: ShootTimer(ticked),
            canon: Canon {
                needs_cooldown: if ticked.remaining_ms == 0 {
                    false
                } else {
                    c.canon.needs_cooldown
                },
                ..c.canon
            },
            ..c
        }
    }
}

/// The plasma orb a canon releases: straight up from the canon's muzzle.
pub open spec fn canon_orb(c: CanonEntity) -> BeamEntity {
    BeamEntity {
        beam: Beam {
            beam_type: BeamType::PlasmaOrb,
            lifetime_ms: 4000,
            speed: 500,
            direction: Vec2 { x: 0i64, y: 1000i64 },
            power: 50,
        },
        pos: c.pos,
        enemy_fire: false,
    }
}

/// The orbs released this tick of held fire, in canon order.
pub open spec fn canon_volleys(s: Seq<CanonEntity>, dt_ms: int) -> Seq<BeamEntity>
    decreases s.len(),
{
    if s.len() == 0 {
        Seq::empty()
    } else {
        canon_volleys(s.drop_last(), dt_ms) + if canon_fires(s.last(), dt_ms) {
            seq![canon_orb(s.last())]
        } else {
            Seq::empty()
        }
    }
}

/// Canon firing: while the fire intent is held, each canon's cooldown is
/// wound down, and each canon whose cooldown has run out releases one
/// plasma orb and rewinds.  Without the held intent the canons idle, their
/// cooldowns untouched.  The canons' cadence is visibly slower than the
/// front weapon's.
pub fn fire_canon(
    canons: &mut Vec<CanonEntity>,
    fire_held: bool,
    beams: &mut Vec<BeamEntity>,
    dt_ms: i64,
)
    requires
        forall|i: int| 0 <= i < old(canons)@.len() ==> (#[trigger] old(canons)@[i]).wf(),
        forall|i: int| 0 <= i < old(beams)@.len() ==> (#[trigger] old(beams)@[i]).wf(),
        0 <= dt_ms <= MAX_TICK_MS,
    ensures
        final(canons)@.len() == old(canons)@.len(),
        fire_held ==> forall|i: int|
            0 <= i < old(canons)@.len() ==> #[trigger] final(canons)@[i] == canon_after_fire(
                old(canons)@[i],
                dt_ms as int,
            ),
        fire_held ==> final(beams)@ == old(beams)@ + canon_volleys(old(canons)@, dt_ms as int),
        !fire_held ==> final(canons)@ == old(canons)@ && final(beams)@ == old(beams)@,
        forall|i: int| 0 <= i < final(canons)@.len() ==> (#[trigger] final(canons)@[i]).wf(),
        forall|i: int| 0 <= i < final(beams)@.len() ==> (#[trigger] final(beams)@[i]).wf(),
{
    if !fire_held {
        return;
    }
    let ghost orig = canons@;
    let ghost beams0 = beams@;
    let n = canons.len();
    let mut k: usize = 0;
    proof {
        assert(beams@ =~= beams0 + canon_volleys(orig.subrange(0, 0), dt_ms as int));
    }
    while k < n
        invariant
            n == orig.len(),
            canons@.len() == n,
            k <= n,
            0 <= dt_ms <= MAX_TICK_MS,
            forall|i: int| 0 <= i < n ==> (#[trigger] orig[i]).wf(),
            forall|i: int| k <= i < n ==> #[trigger] canons@[i] == orig[i],
            forall|i: int|
                0 <= i < k ==> #[trigger] canons@[i] == canon_after_fire(orig[i], dt_ms as int),
            forall|i: int| 0 <= i < k ==> (#[trigger] canons@[i]).wf(),
            beams@ == beams0 + canon_volleys(orig.subrange(0, k as int), dt_ms as int),
            forall|i: int| 0 <= i < beams@.len() ==> (#[trigger] beams@[i]).wf(),
        decreases n - k,
    {
        let mut c = canons[k];
        proof {
            assert(orig.subrange(0, k + 1).drop_last() =~= orig.subrange(0, k as int));
            assert(orig.subrange(0, k + 1).last() == orig[k as int]);
        }
        c.shoot_timer.0.tick(dt_ms);
        if c.shoot_timer.0.is_finished() {
            c.canon.needs_cooldown = false;
        }
        if !c.canon.needs_cooldown {
            let orb = Beam::new(&BeamType::PlasmaOrb, Vec2 { x: 0, y: 1000 });
            beams.push(BeamEntity { beam: orb, pos: c.pos, enemy_fire: false });
            c.canon.needs_cooldown = true;
            c.shoot_timer.0.reset();
        }
        canons.set(k, c);
        k = k + 1;
    }
    proof {
        assert(orig.subrange(0, n as int) =~= orig);
    }
}

} // verus!

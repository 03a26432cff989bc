//! Player combat controller: movement from input intent, instantaneous
//! aiming toward the cursor, front-weapon firing on a held intent, damage
//! intake with shield-first absorption, death transition, and the global
//! pause toggle.

use vstd::prelude::*;
use crate::actor::{
    apply_damage, health_after_damage, shield_after_damage,
};
use crate::beam::{
    type_lifetime_ms, type_power, type_speed, Beam, BeamEntity, BeamType, BEAM_HALF,
};
use crate::camera::CameraShakeEvent;
use crate::collision_core::{Blinking, CollisionEvent};
use crate::explosion_core::ExplosionEvent;
use crate::geometry::{
    circle_box_overlap, circle_meets_box, clamp_coord, in_arena, is_sqrt_floor, isqrt,
    lemma_sqrt_floor_agrees, scaled_step, sqrt_floor, translate_coord, Vec2, MAX_DIR, MAX_TICK_MS,
    MICRO,
};
use crate::timer::{timer_after_tick, Timer, TimerMode};
use crate::GameState;

verus! {

/// The player's lifecycle.
#[derive(Clone, Copy, PartialEq, Eq, Structural, Debug)]
pub enum PlayerState {
    Setup,
    Spawned,
    Dead,
}

/// Counts down the dead player's lingering presence before presentation
/// removes it.
#[derive(Clone, Copy, PartialEq, Eq, Structural, Debug)]
pub struct DespawnTimer(pub Timer);

/// Cooldown of the front weapon.
#[derive(Clone, Copy, PartialEq, Eq, Structural, Debug)]
pub struct FrontWeaponTimer(pub Timer);

/// Weapons the player can carry.
#[derive(Clone, Copy, PartialEq, Eq, Structural, Debug)]
pub enum WeaponType {
    Unarmed,
    WaveGun,
    PlasmaCanon,
}

/// The front-mounted wave gun: only its lockout between shots matters to
/// the simulation.
#[derive(Clone, Copy, PartialEq, Eq, Structural, Debug)]
pub struct WaveGun {
    pub lockout_time_ms: i64,
}

impl WaveGun {
    pub fn new() -> (g: WaveGun)
        ensures
            g == (WaveGun { lockout_time_ms: 10 }),
    {
        WaveGun { lockout_time_ms: 10 }
    }
}

/// The player component: health and shield pools, the front weapon and its
/// cooldown latch, and the two side-weapon slots.
#[derive(Clone, Copy, PartialEq, Eq, Structural, Debug)]
pub struct Player {
    pub health: i64,
    pub shield: i64,
    pub front_weapon: WeaponType,
    pub front_weapon_beam_type: BeamType,
    pub front_weapon_needs_cooldown: bool,
    pub left_weapon: WeaponType,
    pub right_weapon: WeaponType,
}

/// The stock player: full pools, a wave gun in front, plasma canons on
/// both sides.
pub open spec fn spec_default_player() -> Player {
    Player {
        health: 100,
        shield: 100,
        front_weapon: WeaponType::WaveGun,
        front_weapon_beam_type: BeamType::Wave,
        front_weapon_needs_cooldown: false,
        left_weapon: WeaponType::PlasmaCanon,
        right_weapon: WeaponType::PlasmaCanon,
    }
}

impl Default for Player {
    fn default() -> (p: Player)
        ensures
            p == spec_default_player(),
    {
        Player {
            health: 100,
            shield: 100,
            front_weapon: WeaponType::WaveGun,
            front_weapon_beam_type: BeamType::Wave,
            front_weapon_needs_cooldown: false,
            left_weapon: WeaponType::PlasmaCanon,
            right_weapon: WeaponType::PlasmaCanon,
        }
    }
}

/// Player movement speed, in world units per second.
pub const USER_SPEED: i64 = 300;

/// Radius of the player's hit circle, in world units.
pub const PLAYER_RADIUS_UNITS: i64 = 20;

/// Where the player ship enters the level, in position steps.
pub const PLAYER_START_X: i64 = 100_000_000;

/// The player owned by the world: its component plus position, facing
/// (a direction in thousandths), weapon cooldown, and transient state.
pub struct PlayerEntity {
    pub id: u64,
    pub pos: Vec2,
    pub facing: Vec2,
    pub player: Player,
    pub front_weapon_timer: FrontWeaponTimer,
    pub despawn_timer: Option<DespawnTimer>,
    pub blinking: Option<Blinking>,
}

impl PlayerEntity {
    pub open spec fn wf(self) -> bool {
        &&& in_arena(self.pos)
        &&& -MAX_DIR <= self.facing.x <= MAX_DIR
        &&& -MAX_DIR <= self.facing.y <= MAX_DIR
        &&& self.player.health >= 0
        &&& self.player.shield >= 0
        &&& self.front_weapon_timer.0.wf()
        &&& match self.despawn_timer {
            Some(t) => t.0.wf(),
            None => true,
        }
        &&& match self.blinking {
            Some(b) => b.0.wf(),
            None => true,
        }
    }
}

/// Spawn the player for a level: the stock ship at the start position,
/// facing up, its front-weapon cooldown wound from the weapon's lockout;
/// the player state machine advances to `Spawned`.
pub fn setup(next_id: &mut u64, player_state: &mut PlayerState) -> (p: PlayerEntity)
    requires
        *old(next_id) < u64::MAX,
    ensures
        p.wf(),
        p == (PlayerEntity {
            id: *old(next_id),
            pos: Vec2 { x: PLAYER_START_X, y: 0 },
            facing: Vec2 { x: 0, y: 1000 },
            player: spec_default_player(),
            front_weapon_timer: FrontWeaponTimer(
                Timer { duration_ms: 10, remaining_ms: 10, mode: TimerMode::Once },
            ),
            despawn_timer: None,
            blinking: None,
        }),
        *final(next_id) == *old(next_id) + 1,
        *final(player_state) is Spawned,
{
    let id = *next_id;
    *next_id = id + 1;
    let player = Player::default();
    let weapon = match player.front_weapon {
        WeaponType::WaveGun => WaveGun::new(),
        WeaponType::PlasmaCanon => WaveGun::new(),
        WeaponType::Unarmed => WaveGun::new(),
    };
    *player_state = PlayerState::Spawned;
    PlayerEntity {
        id,
        pos: Vec2 { x: PLAYER_START_X, y: 0 },
        facing: Vec2 { x: 0, y: 1000 },
        player,
        front_weapon_timer: FrontWeaponTimer(Timer::new(weapon.lockout_time_ms, TimerMode::Once)),
        despawn_timer: None,
        blinking: None,
    }
}

/// The player after one tick of movement by the given intent.
pub open spec fn player_after_move(p: PlayerEntity, x_intent: int, y_intent: int, dt_ms: int) -> PlayerEntity {
    PlayerEntity {
        pos: Vec2 {
            x: clamp_coord(p.pos.x + x_intent * 1000 * USER_SPEED * dt_ms) as i64,
            y: clamp_coord(p.pos.y + y_intent * 1000 * USER_SPEED * dt_ms) as i64,
        },
        ..p
    }
}

/// The player after aiming at the cursor.
pub open spec fn player_after_rotate(p: PlayerEntity, cursor: Option<Vec2>) -> PlayerEntity {
    PlayerEntity {
        facing: match cursor {
            Some(c) => aim_direction(p.pos, c, p.facing),
            None => p.facing,
        },
        ..p
    }
}

/// Move the player by the input intent: axis-aligned velocity of intent
/// (−1/0/+1 per axis) times the fixed speed, applied directly to the
/// position with no inertia.
pub fn move_user(p: &mut PlayerEntity, x_intent: i64, y_intent: i64, dt_ms: i64)
    requires
        old(p).wf(),
        -1 <= x_intent <= 1,
        -1 <= y_intent <= 1,
        0 <= dt_ms <= MAX_TICK_MS,
    ensures
        final(p).wf(),
        *final(p) == player_after_move(*old(p), x_intent as int, y_intent as int, dt_ms as int),
{
    let dx = scaled_step(x_intent * 1000, USER_SPEED, dt_ms);
    let dy = scaled_step(y_intent * 1000, USER_SPEED, dt_ms);
    proof {
        assert(x_intent * 1000 * USER_SPEED * dt_ms == (x_intent * 1000) * USER_SPEED * dt_ms)
            by (nonlinear_arith);
        assert(y_intent * 1000 * USER_SPEED * dt_ms == (y_intent * 1000) * USER_SPEED * dt_ms)
            by (nonlinear_arith);
    }
    p.pos.x = translate_coord(p.pos.x, dx);
    p.pos.y = translate_coord(p.pos.y, dy);
}

/// One facing component: `d` scaled to thousandths of the vector length,
/// rounded toward zero.
pub open spec fn aim_component(d: int, len: int) -> int {
    if d >= 0 {
        (d * 1000) / len
    } else {
        -(((-d) * 1000) / len)
    }
}

/// The facing that aiming from `from` toward `to` produces: the difference
/// vector normalized to thousandths.  A zero-length difference (the player
/// exactly under the cursor) keeps `fallback`, the previous facing.
pub open spec fn aim_direction(from: Vec2, to: Vec2, fallback: Vec2) -> Vec2 {
    let dx = to.x - from.x;
    let dy = to.y - from.y;
    if dx == 0 && dy == 0 {
        fallback
    } else {
        let len = sqrt_floor(dx * dx + dy * dy);
        Vec2 { x: aim_component(dx, len) as i64, y: aim_component(dy, len) as i64 }
    }
}

/// `d` scaled to thousandths of `len`, rounded toward zero.
fn aim_div(d: i64, len: u64) -> (r: i64)
    requires
        1 <= len,
        -(len as int) <= d <= len as int,
        -0x4000_0000_0000_0000 <= d <= 0x4000_0000_0000_0000,
    ensures
        r == aim_component(d as int, len as int),
        -1000 <= r <= 1000,
{
    if d >= 0 {
        let q: u128 = (d as u128) * 1000 / (len as u128);
        proof {
            vstd::arithmetic::div_mod::lemma_div_is_ordered(
                (d as int) * 1000,
                (len as int) * 1000,
                len as int,
            );
            vstd::arithmetic::div_mod::lemma_div_by_multiple(1000, len as int);
        }
        q as i64
    } else {
        let m: u128 = ((-d) as u128) * 1000 / (len as u128);
        proof {
            vstd::arithmetic::div_mod::lemma_div_is_ordered(
                (-d as int) * 1000,
                (len as int) * 1000,
                len as int,
            );
            vstd::arithmetic::div_mod::lemma_div_by_multiple(1000, len as int);
        }
        -(m as i64)
    }
}

/// Aim the player at the cursor: the facing snaps to point from the player
/// toward the cursor's world position, with no interpolation.  Without a
/// cursor position, or with the player exactly under the cursor, the
/// previous facing is kept.
pub fn rotate_user(p: &mut PlayerEntity, cursor: Option<Vec2>)
    requires
        old(p).wf(),
        match cursor {
            Some(c) => in_arena(c),
            None => true,
        },
    ensures
        final(p).wf(),
        *final(p) == player_after_rotate(*old(p), cursor),
{
    match cursor {
        None => {}
        Some(c) => {
            let dx: i64 = c.x - p.pos.x;
            let dy: i64 = c.y - p.pos.y;
            if dx != 0 || dy != 0 {
                proof {
                    assert(0 <= (dx as int) * (dx as int)
                        <= 0x1000_0000_0000_0000_0000_0000_0000_0000int && 0 <= (dy as int) * (
                    dy as int) <= 0x1000_0000_0000_0000_0000_0000_0000_0000int)
                        by (nonlinear_arith)
                        requires
                            -0x4000_0000_0000_0000int <= dx <= 0x4000_0000_0000_0000int,
                            -0x4000_0000_0000_0000int <= dy <= 0x4000_0000_0000_0000int,
                    {
                    }
                }
                let sx: i128 = (dx as i128) * (dx as i128);
                let sy: i128 = (dy as i128) * (dy as i128);
                let nsq: u128 = (sx + sy) as u128;
                let len: u64 = isqrt(nsq);
                proof {
                    assert(1 <= len && -(len as int) <= dx <= len as int && -(len as int) <= dy
                        <= len as int) by (nonlinear_arith)
                        requires
                            is_sqrt_floor(nsq as int, len as int),
                            nsq == (dx as int) * (dx as int) + (dy as int) * (dy as int),
                            !(dx == 0 && dy == 0),
                    {
                    }
                    lemma_sqrt_floor_agrees(nsq as int, len as int);
                }
                let fx = aim_div(dx, len);
                let fy = aim_div(dy, len);
                p.facing = Vec2 { x: fx, y: fy };
            }
        }
    }
}

/// The front-weapon latch after the cooldown has been wound down: once the
/// countdown runs out, the weapon no longer needs cooldown.
pub open spec fn cooldown_after_tick(p: PlayerEntity, dt_ms: int) -> bool {
    if timer_after_tick(p.front_weapon_timer.0, dt_ms).remaining_ms == 0 {
        false
    } else {
        p.player.front_weapon_needs_cooldown
    }
}

/// Whether the player gets a shot off this tick: the fire intent is held
/// and the front weapon is not cooling down.
pub open spec fn fires_front(p: PlayerEntity, fire_held: bool, dt_ms: int) -> bool {
    fire_held && !cooldown_after_tick(p, dt_ms)
}

/// The beam the front weapon releases: the configured profile flying along
/// the current facing, from the player's position.
pub open spec fn front_beam(p: PlayerEntity) -> BeamEntity {
    BeamEntity {
        beam: Beam {
            beam_type: p.player.front_weapon_beam_type,
            lifetime_ms: type_lifetime_ms(p.player.front_weapon_beam_type) as i64,
            speed: type_speed(p.player.front_weapon_beam_type) as i64,
            direction: p.facing,
            power: type_power(p.player.front_weapon_beam_type) as i64,
        },
        pos: p.pos,
        enemy_fire: false,
    }
}

/// The player after the firing phase: the cooldown advanced and, when a
/// shot went off, rewound with the latch set again.
pub open spec fn player_after_fire(p: PlayerEntity, fire_held: bool, dt_ms: int) -> PlayerEntity {
    let ticked = timer_after_tick(p.front_weapon_timer.0, dt_ms);
    if fires_front(p, fire_held, dt_ms) {
        PlayerEntity {
            front_weapon_timer: FrontWeaponTimer(
                Timer { remaining_ms: ticked.duration_ms, ..ticked },
            ),
            player: Player { front_weapon_needs_cooldown: true, ..p.player },
            ..p
        }
    } else {
        PlayerEntity {
            front_weapon_timer: FrontWeaponTimer(ticked),
            player: Player {
                front_weapon_needs_cooldown: cooldown_after_tick(p, dt_ms),
                ..p.player
            },
            ..p
        }
    }
}

/// Fire the front weapon: while the fire intent is held, a beam of the
/// configured type leaves along the current aim every time the cooldown
/// runs out (held fire repeats; it is not edge-triggered).
pub fn user_fire_beam(
    p: &mut PlayerEntity,
    fire_held: bool,
    beams: &mut Vec<BeamEntity>,
    dt_ms: i64,
)
    requires
        old(p).wf(),
        forall|i: int| 0 <= i < old(beams)@.len() ==> (#[trigger] old(beams)@[i]).wf(),
        0 <= dt_ms <= MAX_TICK_MS,
    ensures
        final(p).wf(),
        *final(p) == player_after_fire(*old(p), fire_held, dt_ms as int),
        final(beams)@ == if fires_front(*old(p), fire_held, dt_ms as int) {
            old(beams)@.push(front_beam(*old(p)))
        } else {
            old(beams)@
        },
        forall|i: int| 0 <= i < final(beams)@.len() ==> (#[trigger] final(beams)@[i]).wf(),
{
    p.front_weapon_timer.0.tick(dt_ms);
    if p.front_weapon_timer.0.is_finished() {
        p.player.front_weapon_needs_cooldown = false;
    }
    if fire_held && !p.player.front_weapon_needs_cooldown {
        let beam = Beam::new(&p.player.front_weapon_beam_type, p.facing);
        beams.push(BeamEntity { beam, pos: p.pos, enemy_fire: false });
        p.front_weapon_timer.0.reset();
        p.player.front_weapon_needs_cooldown = true;
    }
}

/// Whether an enemy-fire beam overlaps the player's hit circle.
pub open spec fn beam_hits_player(pos: Vec2, b: BeamEntity) -> bool {
    b.enemy_fire && circle_meets_box(
        pos,
        PLAYER_RADIUS_UNITS * MICRO,
        b.pos,
        Vec2 { x: BEAM_HALF, y: BEAM_HALF },
    )
}

/// The player's `(health, shield)` pools after absorbing, in order, every
/// overlapping enemy-fire beam: shield first, overflow into health.
pub open spec fn pools_after_hits(h: int, sh: int, pos: Vec2, beams: Seq<BeamEntity>) -> (int, int)
    decreases beams.len(),
{
    if beams.len() == 0 {
        (h, sh)
    } else {
        let b = beams.first();
        if beam_hits_player(pos, b) {
            pools_after_hits(
                health_after_damage(h, sh, b.beam.power as int),
                shield_after_damage(sh, b.beam.power as int),
                pos,
                beams.drop_first(),
            )
        } else {
            pools_after_hits(h, sh, pos, beams.drop_first())
        }
    }
}

/// How many hits land on the player this tick.
pub open spec fn player_hit_count(pos: Vec2, beams: Seq<BeamEntity>) -> int
    decreases beams.len(),
{
    if beams.len() == 0 {
        0
    } else {
        (if beam_hits_player(pos, beams.first()) {
            1int
        } else {
            0int
        }) + player_hit_count(pos, beams.drop_first())
    }
}

/// How many hits break through the shield this tick: hits whose power
/// exceeds the shield remaining when they land, overflowing into health.
pub open spec fn shield_break_count(h: int, sh: int, pos: Vec2, beams: Seq<BeamEntity>) -> int
    decreases beams.len(),
{
    if beams.len() == 0 {
        0
    } else {
        let b = beams.first();
        if beam_hits_player(pos, b) {
            (if b.beam.power > sh {
                1int
            } else {
                0int
            }) + shield_break_count(
                health_after_damage(h, sh, b.beam.power as int),
                shield_after_damage(sh, b.beam.power as int),
                pos,
                beams.drop_first(),
            )
        } else {
            shield_break_count(h, sh, pos, beams.drop_first())
        }
    }
}

/// The beams that remain after the player pass: a beam that hit the player
/// is consumed.
pub open spec fn beams_missing_player(beams: Seq<BeamEntity>, pos: Vec2) -> Seq<BeamEntity>
    decreases beams.len(),
{
    if beams.len() == 0 {
        Seq::empty()
    } else {
        let rest = beams_missing_player(beams.drop_last(), pos);
        if beam_hits_player(pos, beams.last()) {
            rest
        } else {
            rest.push(beams.last())
        }
    }
}

/// Player-versus-enemy-fire resolver.  Every enemy-fire beam overlapping
/// the player's hit circle is consumed and its power absorbed shield-first
/// (each hit queues a hit-reaction event, and a hit that overflows the
/// shield into health queues a camera shake).  If health is exhausted the
/// player state machine moves to `Dead`.  The caller skips this pass when
/// no player is alive: a missing player must be a silent no-op, never a
/// fault.
pub fn check_collision(
    p: &mut PlayerEntity,
    player_state: &mut PlayerState,
    beams: &mut Vec<BeamEntity>,
    collision_events: &mut Vec<CollisionEvent>,
    camera_shake_events: &mut Vec<CameraShakeEvent>,
)
    requires
        old(p).wf(),
        forall|i: int| 0 <= i < old(beams)@.len() ==> (#[trigger] old(beams)@[i]).wf(),
    ensures
        final(p).wf(),
        *final(p) == (PlayerEntity {
            player: Player {
                health: pools_after_hits(
                    old(p).player.health as int,
                    old(p).player.shield as int,
                    old(p).pos,
                    old(beams)@,
                ).0 as i64,
                shield: pools_after_hits(
                    old(p).player.health as int,
                    old(p).player.shield as int,
                    old(p).pos,
                    old(beams)@,
                ).1 as i64,
                ..old(p).player
            },
            ..*old(p)
        }),
        final(beams)@ == beams_missing_player(old(beams)@, old(p).pos),
        final(collision_events)@ == old(collision_events)@ + Seq::new(
            player_hit_count(old(p).pos, old(beams)@) as nat,
            |i: int| CollisionEvent(old(p).id),
        ),
        final(camera_shake_events)@ == old(camera_shake_events)@ + Seq::new(
            shield_break_count(
                old(p).player.health as int,
                old(p).player.shield as int,
                old(p).pos,
                old(beams)@,
            ) as nat,
            |i: int| CameraShakeEvent,
        ),
        *final(player_state) == if pools_after_hits(
            old(p).player.health as int,
            old(p).player.shield as int,
            old(p).pos,
            old(beams)@,
        ).0 <= 0 {
            PlayerState::Dead
        } else {
            *old(player_state)
        },
        forall|i: int| 0 <= i < final(beams)@.len() ==> (#[trigger] final(beams)@[i]).wf(),
{
    let ghost orig = beams@;
    let ghost h0 = p.player.health as int;
    let ghost s0 = p.player.shield as int;
    let ghost ppos = p.pos;
    let ghost pid = p.id;
    let mut kept: Vec<BeamEntity> = Vec::new();
    let mut k: usize = 0;
    let n = beams.len();
    proof {
        assert(orig.subrange(0, n as int) =~= orig);
    }
    while k < n
        invariant
            n == orig.len(),
            beams@ == orig,
            k <= n,
            forall|i: int| 0 <= i < n ==> (#[trigger] orig[i]).wf(),
            ppos == p.pos,
            pid == p.id,
            in_arena(p.pos),
            p.player.health >= 0,
            p.player.shield >= 0,
            pools_after_hits(h0, s0, ppos, orig) == pools_after_hits(
                p.player.health as int,
                p.player.shield as int,
                ppos,
                orig.subrange(k as int, n as int),
            ),
            player_hit_count(ppos, orig) == collision_events@.len() - old(
                collision_events,
            )@.len() + player_hit_count(ppos, orig.subrange(k as int, n as int)),
            collision_events@.len() >= old(collision_events)@.len(),
            forall|i: int|
                0 <= i < old(collision_events)@.len() ==> #[trigger] collision_events@[i] == old(
                    collision_events,
                )@[i],
            forall|i: int|
                old(collision_events)@.len() <= i < collision_events@.len()
                    ==> #[trigger] collision_events@[i] == CollisionEvent(pid),
            shield_break_count(h0, s0, ppos, orig) == camera_shake_events@.len() - old(
                camera_shake_events,
            )@.len() + shield_break_count(
                p.player.health as int,
                p.player.shield as int,
                ppos,
                orig.subrange(k as int, n as int),
            ),
            camera_shake_events@.len() >= old(camera_shake_events)@.len(),
            forall|i: int|
                0 <= i < old(camera_shake_events)@.len() ==> #[trigger] camera_shake_events@[i]
                    == old(camera_shake_events)@[i],
            forall|i: int|
                old(camera_shake_events)@.len() <= i < camera_shake_events@.len()
                    ==> #[trigger] camera_shake_events@[i] == CameraShakeEvent,
            kept@ == beams_missing_player(orig.subrange(0, k as int), ppos),
            forall|i: int| 0 <= i < kept@.len() ==> (#[trigger] kept@[i]).wf(),
            *p == (PlayerEntity {
                player: Player {
                    health: p.player.health,
                    shield: p.player.shield,
                    ..old(p).player
                },
                ..*old(p)
            }),
        decreases n - k,
    {
        let b = beams[k];
        proof {
            assert(orig.subrange(k as int, n as int).first() == orig[k as int]);
            assert(orig.subrange(k as int, n as int).drop_first() =~= orig.subrange(
                k + 1,
                n as int,
            ));
            assert(orig.subrange(0, k + 1).drop_last() =~= orig.subrange(0, k as int));
            assert(orig.subrange(0, k + 1).last() == orig[k as int]);
        }
        let hit = b.enemy_fire && circle_box_overlap(
            p.pos,
            PLAYER_RADIUS_UNITS * MICRO,
            b.pos,
            Vec2 { x: BEAM_HALF, y: BEAM_HALF },
        );
        if hit {
            let broke = b.beam.power > p.player.shield;
            apply_damage(&mut p.player.health, &mut p.player.shield, b.beam.power);
            collision_events.push(CollisionEvent(p.id));
            if broke {
                camera_shake_events.push(CameraShakeEvent);
            }
        } else {
            kept.push(b);
        }
        k = k + 1;
    }
    proof {
        assert(orig.subrange(0, n as int) =~= orig);
        assert(orig.subrange(n as int, n as int) =~= Seq::<BeamEntity>::empty());
        assert(collision_events@ =~= old(collision_events)@ + Seq::new(
            player_hit_count(ppos, orig) as nat,
            |i: int| CollisionEvent(pid),
        ));
        assert(camera_shake_events@ =~= old(camera_shake_events)@ + Seq::new(
            shield_break_count(h0, s0, ppos, orig) as nat,
            |i: int| CameraShakeEvent,
        ));
    }
    *beams = kept;
    if p.player.health <= 0 {
        *player_state = PlayerState::Dead;
    }
}

/// The death sequence: on entering `Dead`, a death event is emitted at the
/// player's position for the explosion collaborator, and the lingering
/// ship is put on a fixed despawn countdown (its fade and removal belong
/// to presentation).
pub fn destroy_player(p: &mut PlayerEntity, explosion_events: &mut Vec<ExplosionEvent>)
    requires
        old(p).wf(),
    ensures
        final(p).wf(),
        *final(p) == (PlayerEntity {
            despawn_timer: Some(
                DespawnTimer(
                    Timer { duration_ms: 2000, remaining_ms: 2000, mode: TimerMode::Once },
                ),
            ),
            ..*old(p)
        }),
        final(explosion_events)@ == old(explosion_events)@.push(ExplosionEvent(old(p).pos)),
{
    explosion_events.push(ExplosionEvent(p.pos));
    p.despawn_timer = Some(DespawnTimer(Timer::new(2000, TimerMode::Once)));
}

/// The global pause toggle: an edge-triggered pause press flips between
/// `Playing` and `Paused`; everything else leaves the state alone.
pub fn toggle_pause(state: &mut GameState, pause_pressed: bool)
    ensures
        *final(state) == if pause_pressed {
            match *old(state) {
                GameState::Playing => GameState::Paused,
                GameState::Paused => GameState::Playing,
            }
        } else {
            *old(state)
        },
{
    if pause_pressed {
        match state {
            GameState::Playing => {
                *state = GameState::Paused;
            }
            GameState::Paused => {
                *state = GameState::Playing;
            }
        }
    }
}

} // verus!

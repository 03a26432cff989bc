//! Enemy behaviour engine: per-pattern movement, the shoot-pattern state
//! machines, and the projectile-versus-enemy collision resolver with its
//! death transitions.

use vstd::prelude::*;
use crate::actor::{apply_damage, DEATH_THRESHOLD};
use crate::basic_enemy_move_patterns::{patrol_direction, EnemyMovePattern, PATROL_BOUND_UNITS};
use crate::beam::{Beam, BeamEntity, BeamType, BEAM_HALF};
use crate::collision_core::CollisionEvent;
use crate::enemy_core::{EnemyCore, EnemyEntity, EnemyState, ShootTimer};
use crate::explosion_core::ExplosionEvent;
use crate::geometry::{
    circle_box_overlap, circle_meets_box, clamp_coord, in_arena, scaled_step, translate_coord,
    Vec2, MAX_TICK_MS, MICRO,
};
use crate::timer::{timer_after_tick, timer_fires};

verus! {

/// Horizontal patrol and descent speed of an enemy, in units per second.
pub const ENEMY_SPEED: i64 = 400;

/// Horizontal tracking speed of a descending enemy: half the full speed.
pub const ENEMY_TRACK_SPEED: i64 = 200;

/// Speed of a plain enemy bolt, in units per second.
pub const BEAM_SPEED: i64 = 250;

/// Radius of an enemy's hit circle, in world units.
pub const ENEMY_RADIUS_UNITS: i64 = 10;

/// A descending enemy despawns once its y position falls below this bound
/// (in world units); this is an out-of-bounds despawn, distinct from the
/// death path, and emits no death event.
pub const DESPAWN_Y_UNITS: i64 = -100;

/// A lightweight enemy: direction of travel, health, movement pattern,
/// lifecycle state and whether it shoots at all.  The horde spawner
/// configures its spawns through this shape.
#[derive(Clone, Copy, PartialEq, Eq, Structural, Debug)]
pub struct BasicEnemy {
    pub x_direction: i64,
    pub y_direction: i64,
    pub health: i64,
    pub move_pattern: EnemyMovePattern,
    pub state: EnemyState,
    pub shoot: bool,
}

impl BasicEnemy {
    /// A stock enemy with the given movement pattern: active, full health,
    /// flying right, shooting.
    pub fn new(move_pattern: EnemyMovePattern) -> (e: BasicEnemy)
        ensures
            e == (BasicEnemy {
                state: EnemyState::Active,
                x_direction: 1000,
                y_direction: 0,
                health: 100,
                move_pattern,
                shoot: true,
            }),
    {
        BasicEnemy {
            state: EnemyState::Active,
            x_direction: 1000,
            y_direction: 0,
            health: 100,
            move_pattern,
            shoot: true,
        }
    }

    pub fn shoot(self, shoot: bool) -> (e: BasicEnemy)
        ensures
            e == (BasicEnemy { shoot, ..self }),
    {
        BasicEnemy { shoot, ..self }
    }

    pub fn health(self, health: i64) -> (e: BasicEnemy)
        requires
            health >= 0,
        ensures
            e == (BasicEnemy { health, ..self }),
    {
        BasicEnemy { health, ..self }
    }

    /// Fill this lightweight shape out to a full enemy component, with the
    /// stock basic shoot machinery.
    pub fn into_core(self) -> (c: EnemyCore)
        ensures
            c == basic_into_core(self),
    {
        EnemyCore {
            x_direction: self.x_direction,
            y_direction: self.y_direction,
            health: self.health,
            move_pattern: self.move_pattern,
            state: self.state,
            shoot: self.shoot,
            shoot_type: crate::beam::ShootType::Basic,
            shoot_timer: ShootTimer(crate::timer::Timer::new(300, crate::timer::TimerMode::Repeating)),
        }
    }
}

/// The enemy component a lightweight `BasicEnemy` stands for.
pub open spec fn basic_into_core(b: BasicEnemy) -> EnemyCore {
    EnemyCore {
        x_direction: b.x_direction,
        y_direction: b.y_direction,
        health: b.health,
        move_pattern: b.move_pattern,
        state: b.state,
        shoot: b.shoot,
        shoot_type: crate::beam::ShootType::Basic,
        shoot_timer: ShootTimer(
            crate::timer::Timer {
                duration_ms: 300,
                remaining_ms: 300,
                mode: crate::timer::TimerMode::Repeating,
            },
        ),
    }
}

/// Steering sign toward the player: the sign of `player_x - self_x` as a
/// unit direction, with no smoothing; zero when the x positions coincide,
/// so that no direction need be normalized from a zero-length vector.
pub open spec fn track_direction(player_x: int, self_x: int) -> int {
    if player_x > self_x {
        1000
    } else if player_x < self_x {
        -1000
    } else {
        0
    }
}

/// One tick of movement for one enemy, against the player's current x.
pub open spec fn enemy_after_move(e: EnemyEntity, player_x: int, dt_ms: int) -> EnemyEntity {
    match e.core.move_pattern {
        EnemyMovePattern::Basic => {
            let dir = patrol_direction(e.pos.x as int, e.core.x_direction as int);
            EnemyEntity {
                core: EnemyCore { x_direction: dir as i64, ..e.core },
                pos: Vec2 {
                    x: clamp_coord(e.pos.x + dir * ENEMY_SPEED * dt_ms) as i64,
                    ..e.pos
                },
                ..e
            }
        }
        EnemyMovePattern::Down => {
            let new_y = clamp_coord(e.pos.y + (-1000) * ENEMY_SPEED * dt_ms);
            let track = track_direction(player_x, e.pos.x as int);
            let new_x = clamp_coord(e.pos.x + track * ENEMY_TRACK_SPEED * dt_ms);
            EnemyEntity {
                core: EnemyCore { x_direction: track as i64, y_direction: -1000i64, ..e.core },
                pos: Vec2 { x: new_x as i64, y: new_y as i64 },
                ..e
            }
        }
        EnemyMovePattern::StartShootGo => e,
    }
}

/// Whether a just-moved enemy stays in the world: a descending enemy below
/// the despawn bound is removed.
pub open spec fn enemy_in_bounds(e: EnemyEntity) -> bool {
    !(e.core.move_pattern is Down && e.pos.y < DESPAWN_Y_UNITS * MICRO)
}

/// All enemies after one tick of movement: each moved by its pattern, and
/// descending enemies that left the playfield despawned.
pub open spec fn enemies_after_move(s: Seq<EnemyEntity>, player_x: int, dt_ms: int) -> Seq<
    EnemyEntity,
>
    decreases s.len(),
{
    if s.len() == 0 {
        Seq::empty()
    } else {
        let rest = enemies_after_move(s.drop_last(), player_x, dt_ms);
        let moved = enemy_after_move(s.last(), player_x, dt_ms);
        if enemy_in_bounds(moved) {
            rest.push(moved)
        } else {
            rest
        }
    }
}

/// Move every enemy by its pattern: a patroller reverses at the patrol
/// bounds and flies on horizontally; a descender falls at full speed while
/// steering toward the player's x at half speed, and despawns below the
/// lower bound; a scripted enemy holds still.  `player_x` is the player's
/// current x position, or zero when no player is alive.
pub fn move_enemy(enemies: &mut Vec<EnemyEntity>, player_x: i64, dt_ms: i64)
    requires
        forall|i: int| 0 <= i < old(enemies)@.len() ==> (#[trigger] old(enemies)@[i]).wf(),
        0 <= dt_ms <= MAX_TICK_MS,
    ensures
        final(enemies)@ == enemies_after_move(old(enemies)@, player_x as int, dt_ms as int),
        forall|i: int| 0 <= i < final(enemies)@.len() ==> (#[trigger] final(enemies)@[i]).wf(),
{
    let ghost orig = enemies@;
    let mut out: Vec<EnemyEntity> = Vec::new();
    let mut k: usize = 0;
    let n = enemies.len();
    proof {
        assert(enemies@ =~= orig.subrange(0, n as int));
    }
    while k < n
        invariant
            n == orig.len(),
            enemies@ == orig.subrange(k as int, n as int),
            k <= n,
            forall|i: int| 0 <= i < n ==> (#[trigger] orig[i]).wf(),
            out@ == enemies_after_move(orig.subrange(0, k as int), player_x as int, dt_ms as int),
            forall|i: int| 0 <= i < out@.len() ==> (#[trigger] out@[i]).wf(),
            0 <= dt_ms <= MAX_TICK_MS,
        decreases n - k,
    {
        let mut e = enemies.remove(0);
        proof {
            assert(e == orig.subrange(k as int, n as int)[0]);
            assert(e == orig[k as int]);
            assert(orig.subrange(0, k + 1).drop_last() =~= orig.subrange(0, k as int));
            assert(orig.subrange(0, k + 1).last() == orig[k as int]);
        }
        let mut keep = true;
        match e.core.move_pattern {
            EnemyMovePattern::Basic => {
                if e.pos.x >= PATROL_BOUND_UNITS * MICRO {
                    e.core.x_direction = -1000;
                } else if e.pos.x <= -PATROL_BOUND_UNITS * MICRO {
                    e.core.x_direction = 1000;
                }
                let step = scaled_step(e.core.x_direction, ENEMY_SPEED, dt_ms);
                e.pos.x = translate_coord(e.pos.x, step);
            }
            EnemyMovePattern::Down => {
                e.core.x_direction = 0;
                e.core.y_direction = -1000;
                let fall = scaled_step(e.core.y_direction, ENEMY_SPEED, dt_ms);
                e.pos.y = translate_coord(e.pos.y, fall);
                let track: i64 = if player_x > e.pos.x {
                    1000
                } else if player_x < e.pos.x {
                    -1000
                } else {
                    0
                };
                e.core.x_direction = track;
                let step = scaled_step(track, ENEMY_TRACK_SPEED, dt_ms);
                e.pos.x = translate_coord(e.pos.x, step);
                if e.pos.y < DESPAWN_Y_UNITS * MICRO {
                    keep = false;
                }
            }
            EnemyMovePattern::StartShootGo => {}
        }
        if keep {
            out.push(e);
        }
        k = k + 1;
        proof {
            assert(enemies@ =~= orig.subrange(k as int, n as int));
        }
    }
    proof {
        assert(orig.subrange(0, n as int) =~= orig);
    }
    *enemies = out;
}

/// Law: at zero elapsed time the movement pass changes no position,
/// health, timer or lifecycle state, and despawns no in-bounds enemy;
/// only the steering direction fields may flip (a patroller sitting on a
/// bound reverses before moving).
pub proof fn lemma_enemies_hold_position_at_zero_dt(s: Seq<EnemyEntity>, player_x: int)
    requires
        forall|i: int| 0 <= i < s.len() ==> (#[trigger] s[i]).wf(),
        forall|i: int| 0 <= i < s.len() ==> enemy_in_bounds(#[trigger] s[i]),
    ensures
        enemies_after_move(s, player_x, 0).len() == s.len(),
        forall|i: int|
            0 <= i < s.len() ==> {
                let m = #[trigger] enemies_after_move(s, player_x, 0)[i];
                &&& m.pos == s[i].pos
                &&& m.core.health == s[i].core.health
                &&& m.core.shoot_timer == s[i].core.shoot_timer
                &&& m.core.state == s[i].core.state
                &&& m.id == s[i].id
                &&& m.wave == s[i].wave
                &&& m.blinking == s[i].blinking
            },
    decreases s.len(),
{
    if s.len() > 0 {
        lemma_enemies_hold_position_at_zero_dt(s.drop_last(), player_x);
        let moved = enemy_after_move(s.last(), player_x, 0);
        assert(moved.pos == s.last().pos);
        assert(enemy_in_bounds(moved));
    }
}

/// The plain bolt a basic single-shot enemy drops: a proton profile slowed
/// to the basic beam speed, falling straight down.
pub open spec fn basic_bolt(pos: Vec2) -> BeamEntity {
    BeamEntity {
        beam: Beam {
            beam_type: BeamType::Proton,
            lifetime_ms: 4000,
            speed: BEAM_SPEED,
            direction: Vec2 { x: 0i64, y: -1000i64 },
            power: 20,
        },
        pos,
        enemy_fire: true,
    }
}

/// The burst one enemy contributes this tick: a shooter on the basic
/// cadence drops one bolt when the shared timer fired; a multi-beam
/// shooter releases every template of its pattern when its own cooldown
/// fires; an enemy with shooting disabled contributes nothing.
pub open spec fn enemy_volley(e: EnemyEntity, basic_fired: bool, dt_ms: int) -> Seq<BeamEntity> {
    if !e.core.shoot {
        Seq::empty()
    } else {
        match e.core.shoot_type {
            crate::beam::ShootType::Basic => if basic_fired {
                seq![basic_bolt(e.pos)]
            } else {
                Seq::empty()
            },
            crate::beam::ShootType::TestHell(p) => if timer_fires(
                e.core.shoot_timer.0,
                dt_ms,
            ) {
                p.beam@.map_values(|b: Beam| BeamEntity { beam: b, pos: e.pos, enemy_fire: true })
            } else {
                Seq::empty()
            },
        }
    }
}

/// All bursts of this tick, in enemy order.
pub open spec fn all_volleys(s: Seq<EnemyEntity>, basic_fired: bool, dt_ms: int) -> Seq<BeamEntity>
    decreases s.len(),
{
    if s.len() == 0 {
        Seq::empty()
    } else {
        all_volleys(s.drop_last(), basic_fired, dt_ms) + enemy_volley(s.last(), basic_fired, dt_ms)
    }
}

/// An enemy after the firing phase: a multi-beam shooter's own cooldown
/// has advanced; everything else is untouched.
pub open spec fn enemy_after_fire(e: EnemyEntity, dt_ms: int) -> EnemyEntity {
    if e.core.shoot && e.core.shoot_type is TestHell {
        EnemyEntity {
            core: EnemyCore {
                shoot_timer: ShootTimer(timer_after_tick(e.core.shoot_timer.0, dt_ms)),
                ..e.core
            },
            ..e
        }
    } else {
        e
    }
}

/// Enemy firing for one tick.  The shared basic-shot cadence `timer`
/// advances once for the whole pass; each multi-beam shooter advances its
/// own cooldown.  Every new beam is enemy fire, spawned at its shooter's
/// position.
pub fn enemy_fire(
    enemies: &mut Vec<EnemyEntity>,
    timer: &mut ShootTimer,
    beams: &mut Vec<BeamEntity>,
    dt_ms: i64,
)
    requires
        forall|i: int| 0 <= i < old(enemies)@.len() ==> (#[trigger] old(enemies)@[i]).wf(),
        forall|i: int| 0 <= i < old(beams)@.len() ==> (#[trigger] old(beams)@[i]).wf(),
        old(timer).0.wf(),
        0 <= dt_ms <= MAX_TICK_MS,
    ensures
        *final(timer) == ShootTimer(timer_after_tick(old(timer).0, dt_ms as int)),
        final(enemies)@.len() == old(enemies)@.len(),
        forall|i: int|
            0 <= i < old(enemies)@.len() ==> #[trigger] final(enemies)@[i] == enemy_after_fire(
                old(enemies)@[i],
                dt_ms as int,
            ),
        final(beams)@ == old(beams)@ + all_volleys(
            old(enemies)@,
            timer_fires(old(timer).0, dt_ms as int),
            dt_ms as int,
        ),
        forall|i: int| 0 <= i < final(enemies)@.len() ==> (#[trigger] final(enemies)@[i]).wf(),
        forall|i: int| 0 <= i < final(beams)@.len() ==> (#[trigger] final(beams)@[i]).wf(),
{
    let basic_fired = timer.0.tick(dt_ms);
    let ghost orig = enemies@;
    let ghost beams0 = beams@;
    let mut out: Vec<EnemyEntity> = Vec::new();
    let mut k: usize = 0;
    let n = enemies.len();
    proof {
        assert(enemies@ =~= orig.subrange(0, n as int));
        assert(beams@ =~= beams0 + all_volleys(
            orig.subrange(0, 0),
            basic_fired,
            dt_ms as int,
        ));
    }
    while k < n
        invariant
            n == orig.len(),
            enemies@ == orig.subrange(k as int, n as int),
            k <= n,
            forall|i: int| 0 <= i < n ==> (#[trigger] orig[i]).wf(),
            out@.len() == k,
            forall|i: int|
                0 <= i < k ==> #[trigger] out@[i] == enemy_after_fire(orig[i], dt_ms as int),
            forall|i: int| 0 <= i < out@.len() ==> (#[trigger] out@[i]).wf(),
            beams@ == beams0 + all_volleys(orig.subrange(0, k as int), basic_fired, dt_ms as int),
            forall|i: int| 0 <= i < beams@.len() ==> (#[trigger] beams@[i]).wf(),
            0 <= dt_ms <= MAX_TICK_MS,
        decreases n - k,
    {
        let mut e = enemies.remove(0);
        proof {
            assert(e == orig.subrange(k as int, n as int)[0]);
            assert(e == orig[k as int]);
            assert(orig.subrange(0, k + 1).drop_last() =~= orig.subrange(0, k as int));
            assert(orig.subrange(0, k + 1).last() == orig[k as int]);
        }
        if e.core.shoot {
            match &mut e.core.shoot_type {
                crate::beam::ShootType::Basic => {
                    if basic_fired {
                        beams.push(
                            BeamEntity {
                                beam: Beam::new(&BeamType::Proton, Vec2 { x: 0, y: -1000 }).speed(
                                    BEAM_SPEED,
                                ),
                                pos: e.pos,
                                enemy_fire: true,
                            },
                        );
                    }
                }
                crate::beam::ShootType::TestHell(p) => {
                    let fired = e.core.shoot_timer.0.tick(dt_ms);
                    if fired {
                        let ghost before = beams@;
                        let ghost templates = p.beam@;
                        let m = p.beam.len();
                        let mut j: usize = 0;
                        while j < m
                            invariant
                                m == templates.len(),
                                p.beam@ == templates,
                                j <= m,
                                e.pos == orig[k as int].pos,
                                beams@ == before + templates.subrange(0, j as int).map_values(
                                    |b: Beam|
                                        BeamEntity { beam: b, pos: e.pos, enemy_fire: true },
                                ),
                                forall|i: int| 0 <= i < templates.len() ==> (#[trigger] templates[i]).wf(),
                                in_arena(e.pos),
                                forall|i: int| 0 <= i < beams@.len() ==> (#[trigger] beams@[i]).wf(),
                            decreases m - j,
                        {
                            let t = p.beam[j];
                            beams.push(BeamEntity { beam: t, pos: e.pos, enemy_fire: true });
                            proof {
                                assert(templates.subrange(0, j + 1).map_values(
                                    |b: Beam| BeamEntity { beam: b, pos: e.pos, enemy_fire: true },
                                ) =~= templates.subrange(0, j as int).map_values(
                                    |b: Beam| BeamEntity { beam: b, pos: e.pos, enemy_fire: true },
                                ).push(
                                    BeamEntity {
                                        beam: templates[j as int],
                                        pos: e.pos,
                                        enemy_fire: true,
                                    },
                                ));
                            }
                            j = j + 1;
                        }
                        proof {
                            assert(templates.subrange(0, m as int) =~= templates);
                        }
                    }
                }
            }
        }
        out.push(e);
        k = k + 1;
        proof {
            assert(enemies@ =~= orig.subrange(k as int, n as int));
        }
    }
    proof {
        assert(orig.subrange(0, n as int) =~= orig);
    }
    *enemies = out;
}

/// Whether a player-fire beam overlaps an enemy's hit circle.
pub open spec fn beam_hits_enemy(e: EnemyEntity, b: BeamEntity) -> bool {
    !b.enemy_fire && circle_meets_box(
        e.pos,
        ENEMY_RADIUS_UNITS * MICRO,
        b.pos,
        Vec2 { x: BEAM_HALF, y: BEAM_HALF },
    )
}

/// The enemies still standing at the start of a resolver pass: an enemy
/// observed `Dead` (it died last tick) is removed now, one tick after its
/// death event went out.
pub open spec fn live_enemies(s: Seq<EnemyEntity>) -> Seq<EnemyEntity>
    decreases s.len(),
{
    if s.len() == 0 {
        Seq::empty()
    } else {
        let rest = live_enemies(s.drop_last());
        if s.last().core.state is Active {
            rest.push(s.last())
        } else {
            rest
        }
    }
}

/// Total power of the player-fire beams overlapping `e` this tick: all
/// hits in one tick are applied independently.
pub open spec fn damage_to_enemy(e: EnemyEntity, beams: Seq<BeamEntity>) -> int
    decreases beams.len(),
{
    if beams.len() == 0 {
        0
    } else {
        damage_to_enemy(e, beams.drop_last()) + if beam_hits_enemy(e, beams.last()) {
            beams.last().beam.power as int
        } else {
            0
        }
    }
}

/// How many beams hit `e` this tick.
pub open spec fn enemy_hit_count(e: EnemyEntity, beams: Seq<BeamEntity>) -> nat
    decreases beams.len(),
{
    if beams.len() == 0 {
        0
    } else {
        enemy_hit_count(e, beams.drop_last()) + if beam_hits_enemy(e, beams.last()) {
            1nat
        } else {
            0nat
        }
    }
}

/// `x` clamped below at zero.
pub open spec fn clamp0(x: int) -> int {
    if x >= 0 {
        x
    } else {
        0
    }
}

/// An enemy after absorbing this tick's hits: health drops by the total
/// overlapping power (clamping at zero), and a health that crossed below
/// the death threshold turns the state `Dead`.  The entity itself is
/// removed only on the next pass.
pub open spec fn enemy_after_hits(e: EnemyEntity, beams: Seq<BeamEntity>) -> EnemyEntity {
    let h = clamp0(e.core.health - damage_to_enemy(e, beams));
    EnemyEntity {
        core: EnemyCore {
            health: h as i64,
            state: if h < DEATH_THRESHOLD {
                EnemyState::Dead
            } else {
                e.core.state
            },
            ..e.core
        },
        ..e
    }
}

/// Whether this pass kills `e`.
pub open spec fn enemy_dies(e: EnemyEntity, beams: Seq<BeamEntity>) -> bool {
    clamp0(e.core.health - damage_to_enemy(e, beams)) < DEATH_THRESHOLD
}

/// All live enemies after absorbing this tick's hits, in order.
pub open spec fn resolved_enemies(s: Seq<EnemyEntity>, beams: Seq<BeamEntity>) -> Seq<
    EnemyEntity,
> {
    Seq::new(s.len(), |i: int| enemy_after_hits(s[i], beams))
}

/// The hit-reaction events of the pass: one per overlap, in enemy order.
pub open spec fn resolver_events(s: Seq<EnemyEntity>, beams: Seq<BeamEntity>) -> Seq<
    CollisionEvent,
>
    decreases s.len(),
{
    if s.len() == 0 {
        Seq::empty()
    } else {
        resolver_events(s.drop_last(), beams) + Seq::new(
            enemy_hit_count(s.last(), beams),
            |i: int| CollisionEvent(s.last().id),
        )
    }
}

/// The death events of the pass: one per enemy crossing the threshold,
/// carrying its transform, in enemy order.
pub open spec fn resolver_explosions(s: Seq<EnemyEntity>, beams: Seq<BeamEntity>) -> Seq<
    ExplosionEvent,
>
    decreases s.len(),
{
    if s.len() == 0 {
        Seq::empty()
    } else {
        resolver_explosions(s.drop_last(), beams) + if enemy_dies(s.last(), beams) {
            seq![ExplosionEvent(s.last().pos)]
        } else {
            Seq::empty()
        }
    }
}

/// Whether some enemy of `s` consumes `b` this tick.
pub open spec fn beam_consumed(b: BeamEntity, s: Seq<EnemyEntity>) -> bool {
    exists|i: int| 0 <= i < s.len() && beam_hits_enemy(#[trigger] s[i], b)
}

/// The beams that survive the pass: a beam overlapping any live enemy is
/// consumed.
pub open spec fn surviving_beams(beams: Seq<BeamEntity>, s: Seq<EnemyEntity>) -> Seq<BeamEntity>
    decreases beams.len(),
{
    if beams.len() == 0 {
        Seq::empty()
    } else {
        let rest = surviving_beams(beams.drop_last(), s);
        if beam_consumed(beams.last(), s) {
            rest
        } else {
            rest.push(beams.last())
        }
    }
}

/// Whether any enemy of `enemies` consumes `b`.
fn hits_any_enemy(b: BeamEntity, enemies: &Vec<EnemyEntity>) -> (r: bool)
    requires
        b.wf(),
        forall|i: int| 0 <= i < enemies@.len() ==> (#[trigger] enemies@[i]).wf(),
    ensures
        r == beam_consumed(b, enemies@),
{
    if b.enemy_fire {
        return false;
    }
    let mut i: usize = 0;
    while i < enemies.len()
        invariant
            i <= enemies@.len(),
            b.wf(),
            !b.enemy_fire,
            forall|j: int| 0 <= j < enemies@.len() ==> (#[trigger] enemies@[j]).wf(),
            forall|j: int| 0 <= j < i ==> !beam_hits_enemy(#[trigger] enemies@[j], b),
        decreases enemies@.len() - i,
    {
        let epos = enemies[i].pos;
        if circle_box_overlap(
            epos,
            ENEMY_RADIUS_UNITS * MICRO,
            b.pos,
            Vec2 { x: BEAM_HALF, y: BEAM_HALF },
        ) {
            proof {
                assert(beam_hits_enemy(enemies@[i as int], b));
            }
            return true;
        }
        i = i + 1;
    }
    false
}

/// Projectile-versus-enemy collision resolver.  Enemies observed `Dead`
/// from the previous tick are removed first.  Each remaining enemy then
/// absorbs the power of every player-fire beam overlapping its hit circle
/// (one hit-reaction event per overlap); a health that crosses below the
/// death threshold flips the enemy to `Dead` and emits a death event with
/// its transform.  Every beam that overlapped a live enemy is consumed.
pub fn check_collision(
    enemies: &mut Vec<EnemyEntity>,
    beams: &mut Vec<BeamEntity>,
    collision_events: &mut Vec<CollisionEvent>,
    explosion_events: &mut Vec<ExplosionEvent>,
)
    requires
        forall|i: int| 0 <= i < old(enemies)@.len() ==> (#[trigger] old(enemies)@[i]).wf(),
        forall|i: int| 0 <= i < old(beams)@.len() ==> (#[trigger] old(beams)@[i]).wf(),
    ensures
        final(enemies)@ == resolved_enemies(live_enemies(old(enemies)@), old(beams)@),
        final(beams)@ == surviving_beams(old(beams)@, live_enemies(old(enemies)@)),
        final(collision_events)@ == old(collision_events)@ + resolver_events(
            live_enemies(old(enemies)@),
            old(beams)@,
        ),
        final(explosion_events)@ == old(explosion_events)@ + resolver_explosions(
            live_enemies(old(enemies)@),
            old(beams)@,
        ),
        forall|i: int| 0 <= i < final(enemies)@.len() ==> (#[trigger] final(enemies)@[i]).wf(),
        forall|i: int| 0 <= i < final(beams)@.len() ==> (#[trigger] final(beams)@[i]).wf(),
{
    let ghost orig = enemies@;
    let ghost ob = beams@;

    // Cleanup: drop the enemies that died last tick.
    let mut live: Vec<EnemyEntity> = Vec::new();
    let mut k: usize = 0;
    let n = enemies.len();
    proof {
        assert(enemies@ =~= orig.subrange(0, n as int));
    }
    while k < n
        invariant
            n == orig.len(),
            enemies@ == orig.subrange(k as int, n as int),
            k <= n,
            forall|i: int| 0 <= i < n ==> (#[trigger] orig[i]).wf(),
            live@ == live_enemies(orig.subrange(0, k as int)),
            forall|i: int| 0 <= i < live@.len() ==> (#[trigger] live@[i]).wf(),
        decreases n - k,
    {
        let e = enemies.remove(0);
        proof {
            assert(e == orig.subrange(k as int, n as int)[0]);
            assert(e == orig[k as int]);
            assert(orig.subrange(0, k + 1).drop_last() =~= orig.subrange(0, k as int));
            assert(orig.subrange(0, k + 1).last() == orig[k as int]);
        }
        let keep = match e.core.state {
            EnemyState::Active => true,
            EnemyState::Dead => false,
        };
        if keep {
            live.push(e);
        }
        k = k + 1;
        proof {
            assert(enemies@ =~= orig.subrange(k as int, n as int));
        }
    }
    proof {
        assert(orig.subrange(0, n as int) =~= orig);
    }
    let ghost lv = live@;

    // Consumption: a beam overlapping any live enemy is spent this tick.
    let mut kept: Vec<BeamEntity> = Vec::new();
    let mut bi: usize = 0;
    let m = beams.len();
    while bi < m
        invariant
            m == ob.len(),
            beams@ == ob,
            bi <= m,
            live@ == lv,
            forall|i: int| 0 <= i < m ==> (#[trigger] ob[i]).wf(),
            forall|i: int| 0 <= i < lv.len() ==> (#[trigger] lv[i]).wf(),
            kept@ == surviving_beams(ob.subrange(0, bi as int), lv),
            forall|i: int| 0 <= i < kept@.len() ==> (#[trigger] kept@[i]).wf(),
        decreases m - bi,
    {
        let b = beams[bi];
        proof {
            assert(ob.subrange(0, bi + 1).drop_last() =~= ob.subrange(0, bi as int));
            assert(ob.subrange(0, bi + 1).last() == ob[bi as int]);
        }
        if !hits_any_enemy(b, &live) {
            kept.push(b);
        }
        bi = bi + 1;
    }
    proof {
        assert(ob.subrange(0, m as int) =~= ob);
    }

    // Damage: every live enemy absorbs all its overlaps independently.
    let mut out: Vec<EnemyEntity> = Vec::new();
    let mut k2: usize = 0;
    let ln = live.len();
    proof {
        assert(live@ =~= lv.subrange(0, ln as int));
    }
    while k2 < ln
        invariant
            ln == lv.len(),
            live@ == lv.subrange(k2 as int, ln as int),
            k2 <= ln,
            beams@ == ob,
            forall|i: int| 0 <= i < ln ==> (#[trigger] lv[i]).wf(),
            forall|i: int| 0 <= i < m ==> (#[trigger] ob[i]).wf(),
            m == ob.len(),
            out@.len() == k2,
            forall|i: int|
                0 <= i < k2 ==> #[trigger] out@[i] == enemy_after_hits(lv[i], ob),
            forall|i: int| 0 <= i < out@.len() ==> (#[trigger] out@[i]).wf(),
            collision_events@ == old(collision_events)@ + resolver_events(
                lv.subrange(0, k2 as int),
                ob,
            ),
            explosion_events@ == old(explosion_events)@ + resolver_explosions(
                lv.subrange(0, k2 as int),
                ob,
            ),
        decreases ln - k2,
    {
        let mut e = live.remove(0);
        proof {
            assert(e == lv.subrange(k2 as int, ln as int)[0]);
            assert(e == lv[k2 as int]);
            assert(lv.subrange(0, k2 + 1).drop_last() =~= lv.subrange(0, k2 as int));
            assert(lv.subrange(0, k2 + 1).last() == lv[k2 as int]);
        }
        let ghost e0 = e;
        let ghost ev0 = collision_events@;
        let mut noshield: i64 = 0;
        let mut j: usize = 0;
        while j < m
            invariant
                m == ob.len(),
                beams@ == ob,
                j <= m,
                forall|i: int| 0 <= i < m ==> (#[trigger] ob[i]).wf(),
                e0.wf(),
                noshield == 0,
                e == (EnemyEntity {
                    core: EnemyCore { health: e.core.health, ..e0.core },
                    ..e0
                }),
                e.core.health >= 0,
                e.core.health as int == clamp0(
                    e0.core.health - damage_to_enemy(e0, ob.subrange(0, j as int)),
                ),
                collision_events@ == ev0 + Seq::new(
                    enemy_hit_count(e0, ob.subrange(0, j as int)),
                    |i: int| CollisionEvent(e0.id),
                ),
            decreases m - j,
        {
            let b = beams[j];
            proof {
                assert(ob.subrange(0, j + 1).drop_last() =~= ob.subrange(0, j as int));
                assert(ob.subrange(0, j + 1).last() == ob[j as int]);
            }
            let hit = !b.enemy_fire && circle_box_overlap(
                e.pos,
                ENEMY_RADIUS_UNITS * MICRO,
                b.pos,
                Vec2 { x: BEAM_HALF, y: BEAM_HALF },
            );
            if hit {
                apply_damage(&mut e.core.health, &mut noshield, b.beam.power);
                collision_events.push(CollisionEvent(e.id));
                proof {
                    assert(collision_events@ =~= ev0 + Seq::new(
                        enemy_hit_count(e0, ob.subrange(0, j + 1)),
                        |i: int| CollisionEvent(e0.id),
                    ));
                }
            }
            j = j + 1;
        }
        proof {
            assert(ob.subrange(0, m as int) =~= ob);
        }
        if e.core.health < DEATH_THRESHOLD {
            e.core.state = EnemyState::Dead;
            explosion_events.push(ExplosionEvent(e.pos));
        }
        out.push(e);
        k2 = k2 + 1;
        proof {
            assert(live@ =~= lv.subrange(k2 as int, ln as int));
            assert(collision_events@ =~= old(collision_events)@ + resolver_events(
                lv.subrange(0, k2 as int),
                ob,
            ));
            assert(explosion_events@ =~= old(explosion_events)@ + resolver_explosions(
                lv.subrange(0, k2 as int),
                ob,
            ));
        }
    }
    proof {
        assert(lv.subrange(0, ln as int) =~= lv);
        assert(out@ =~= resolved_enemies(lv, ob));
    }
    *enemies = out;
    *beams = kept;
}

} // verus!

//! The simulation world and its fixed-order tick.  One tick processes, in
//! strict order: pause handling, enemy movement, enemy firing, player
//! movement/aim/firing and canon tracking/firing, projectile motion,
//! collision resolution and damage, death and despawn cleanup, cosmetic
//! reactions (blink, explosions, camera shake), and the wave-completion
//! check with its transition.  All per-tick work is synchronous; timers
//! are countdown accumulators, so a paused world is frozen exactly.

use vstd::prelude::*;
use crate::basic_enemy::{
    all_volleys, enemies_after_move, enemy_after_fire, enemy_after_move, live_enemies,
    resolved_enemies, resolver_events, resolver_explosions, surviving_beams,
};
use crate::beam::{beams_after_tick, update_beam, BeamEntity};
use crate::camera::{camera_after_shake, CameraShakeEvent, MainCamera};
use crate::canon::{canon_after_fire, canon_after_move, canon_volleys, CanonEntity};
use crate::collision_core::{
    blink, blink_after_tick, collision, events_name_id, fresh_blink, CollisionEvent,
};
use crate::enemy_core::{spawn_enemy, spawned_enemy, EnemyEntity, ShootTimer, SpawnEnemyEvent};
use crate::explosion_core::{
    animate_explosion, explosions_after_tick, spawn_explosion, spawned_explosion, Explosion,
    ExplosionEvent,
};
use crate::geometry::{in_arena, Vec2, MAX_TICK_MS, MICRO};
use crate::level::{
    check_wave_complete, horde_enemy, increment_state, spawn_horde, wave_cleared, wave_next,
    wave_one, wave_one_enemy, wave_three, wave_two, wave_two_core, wave_four, SpawnTimer, Wave,
    WaveHordeCount, WaveState, HORDE_MAX,
};
use crate::player::{
    beams_missing_player, destroy_player, fires_front, front_beam, move_user, player_after_fire,
    player_after_move, player_after_rotate, player_hit_count, pools_after_hits, rotate_user,
    setup, shield_break_count, toggle_pause, user_fire_beam, DespawnTimer, PlayerEntity,
    PlayerState, Player,
};
use crate::shoot_patterns::flat_spray::{flat_spray_beams, FLAT_SPRAY_PERIOD_MS};
use crate::shoot_patterns::line_spray::{line_spray_beams, LINE_SPRAY_PERIOD_MS};
use crate::timer::{timer_after_tick, timer_fires, Timer, TimerMode};
use crate::{GameLevel, GameState};

verus! {

/// The per-tick input intent sampled from the boundary: movement axes
/// (−1/0/+1), held fire, an edge-triggered pause press, and the cursor's
/// world position when one is known.
#[derive(Clone, Copy, PartialEq, Eq, Structural, Debug)]
pub struct InputIntent {
    pub x_intent: i64,
    pub y_intent: i64,
    pub fire_held: bool,
    pub pause_pressed: bool,
    pub cursor: Option<Vec2>,
}

impl InputIntent {
    pub open spec fn wf(self) -> bool {
        &&& -1 <= self.x_intent <= 1
        &&& -1 <= self.y_intent <= 1
        &&& match self.cursor {
            Some(c) => in_arena(c),
            None => true,
        }
    }

    /// An idle frame: no movement, no fire, no pause, no cursor.
    pub fn idle() -> (i: InputIntent)
        ensures
            i == (InputIntent {
                x_intent: 0,
                y_intent: 0,
                fire_held: false,
                pause_pressed: false,
                cursor: None,
            }),
    {
        InputIntent {
            x_intent: 0,
            y_intent: 0,
            fire_held: false,
            pause_pressed: false,
            cursor: None,
        }
    }
}

/// The whole simulation state: every entity, timer and queue the tick
/// touches.  The event queues hold what the current tick emitted, for the
/// presentation layer to drain.
#[verifier::ext_equal]
pub struct World {
    pub game_state: GameState,
    pub level: GameLevel,
    pub next_id: u64,
    pub player: Option<PlayerEntity>,
    pub player_state: PlayerState,
    pub canons: Vec<CanonEntity>,
    pub enemies: Vec<EnemyEntity>,
    pub beams: Vec<BeamEntity>,
    pub explosions: Vec<Explosion>,
    pub camera: MainCamera,
    pub wave: Wave,
    pub wave_state: WaveState,
    pub spawn_timer: SpawnTimer,
    pub horde: Option<WaveHordeCount>,
    pub basic_shot_timer: ShootTimer,
    pub collision_events: Vec<CollisionEvent>,
    pub explosion_events: Vec<ExplosionEvent>,
    pub camera_shake_events: Vec<CameraShakeEvent>,
}

impl World {
    pub open spec fn wf(self) -> bool {
        &&& match self.player {
            Some(p) => p.wf(),
            None => true,
        }
        &&& forall|i: int| 0 <= i < self.canons@.len() ==> (#[trigger] self.canons@[i]).wf()
        &&& forall|i: int| 0 <= i < self.enemies@.len() ==> (#[trigger] self.enemies@[i]).wf()
        &&& forall|i: int| 0 <= i < self.beams@.len() ==> (#[trigger] self.beams@[i]).wf()
        &&& forall|i: int|
            0 <= i < self.explosions@.len() ==> (#[trigger] self.explosions@[i]).wf()
        &&& self.camera.wf()
        &&& self.spawn_timer.0.wf()
        &&& match self.horde {
            Some(h) => h.wf(),
            None => true,
        }
        &&& self.basic_shot_timer.0.wf()
    }
}

/// The pause state after the input's edge-triggered pause press.
pub open spec fn toggled_state(gs: GameState, pressed: bool) -> GameState {
    if pressed {
        match gs {
            GameState::Playing => GameState::Paused,
            GameState::Paused => GameState::Playing,
        }
    } else {
        gs
    }
}

/// The player's x position as the enemies see it: zero when no player is
/// alive (the missing singleton is a default, never a fault).
pub open spec fn px_of(p: Option<PlayerEntity>) -> int {
    match p {
        Some(pe) => pe.pos.x as int,
        None => 0,
    }
}

/// The player after its whole input phase (move, aim, fire); a player that
/// is not `Spawned` has its input frozen.
pub open spec fn player_after_phase(
    p: PlayerEntity,
    input: InputIntent,
    spawned: bool,
    dt_ms: int,
) -> PlayerEntity {
    if spawned {
        player_after_fire(
            player_after_rotate(
                player_after_move(p, input.x_intent as int, input.y_intent as int, dt_ms),
                input.cursor,
            ),
            input.fire_held,
            dt_ms,
        )
    } else {
        p
    }
}

/// Whether the front weapon gets a shot off during the player phase.
pub open spec fn front_fires_in_phase(
    p: PlayerEntity,
    input: InputIntent,
    spawned: bool,
    dt_ms: int,
) -> bool {
    spawned && fires_front(
        player_after_rotate(
            player_after_move(p, input.x_intent as int, input.y_intent as int, dt_ms),
            input.cursor,
        ),
        input.fire_held,
        dt_ms,
    )
}

/// The beam the front weapon releases during the player phase.
pub open spec fn front_beam_in_phase(p: PlayerEntity, input: InputIntent, dt_ms: int) -> BeamEntity {
    front_beam(
        player_after_rotate(
            player_after_move(p, input.x_intent as int, input.y_intent as int, dt_ms),
            input.cursor,
        ),
    )
}

/// An entity's blink after the cosmetic phase: restarted if this tick's
/// events name it, then wound down.
pub open spec fn blink_phase(
    b: Option<crate::collision_core::Blinking>,
    named: bool,
    dt_ms: int,
) -> Option<crate::collision_core::Blinking> {
    blink_after_tick(
        if named {
            Some(fresh_blink())
        } else {
            b
        },
        dt_ms,
    )
}

/// Whether the wave-three horde emits a spawn this tick.
pub open spec fn horde_emits(w: World, dt_ms: int) -> bool {
    w.wave is Three && match w.horde {
        Some(h) => h.count < h.max && timer_fires(w.spawn_timer.0, dt_ms),
        None => false,
    }
}

/// What an enemy spawned on entering wave two looks like: the first is the
/// flat-spray fan on a scripted entry at the top of the field, the second
/// the line-spray patroller to the right.
pub open spec fn wave_two_entry_enemy(e: EnemyEntity, id: int, first: bool) -> bool {
    match e.core.shoot_type {
        crate::beam::ShootType::TestHell(p) => {
            &&& e.core == wave_two_core(
                p,
                if first {
                    crate::basic_enemy_move_patterns::EnemyMovePattern::StartShootGo
                } else {
                    crate::basic_enemy_move_patterns::EnemyMovePattern::Basic
                },
            )
            &&& p.beam@ == (if first {
                flat_spray_beams()
            } else {
                line_spray_beams()
            })
            &&& p.timer == (Timer {
                duration_ms: if first {
                    FLAT_SPRAY_PERIOD_MS
                } else {
                    LINE_SPRAY_PERIOD_MS
                },
                remaining_ms: if first {
                    FLAT_SPRAY_PERIOD_MS
                } else {
                    LINE_SPRAY_PERIOD_MS
                },
                mode: TimerMode::Repeating,
            })
            &&& e.id == id
            &&& e.wave is Two
            &&& e.blinking is None
            &&& e.pos == (if first {
                Vec2 { x: 0i64, y: (500 * MICRO) as i64 }
            } else {
                Vec2 { x: (300 * MICRO) as i64, y: (300 * MICRO) as i64 }
            })
        }
        _ => false,
    }
}

/// The whole tick, as a relation between the world before and after.  A
/// tick that leaves (or stays in) `Paused` changes nothing but the pause
/// state itself.  A playing tick runs the fixed phase order; every field
/// of the world after is pinned, up to the two freshly allocated burst
/// patterns of a wave-two entry, which are pinned by their contents.
/// The first half of a playing tick: enemy movement and firing, the
/// player's movement, aim and fire, canon tracking and fire, and
/// projectile motion.  Relates the world at the tick's start to the world
/// just before collision resolution.
pub open spec fn advanced_relation(w0: World, input: InputIntent, dt: int, wm: World) -> bool {
    {
        // enemy movement and firing
        let px = px_of(w0.player);
        let en1 = enemies_after_move(w0.enemies@, px, dt);
        let basic_fired = timer_fires(w0.basic_shot_timer.0, dt);
        let bst1 = ShootTimer(timer_after_tick(w0.basic_shot_timer.0, dt));
        let en2 = Seq::new(en1.len(), |i: int| enemy_after_fire(en1[i], dt));
        let b1 = w0.beams@ + all_volleys(en1, basic_fired, dt);
        // player movement, aim and fire; canon tracking and fire
        let spawned = w0.player_state is Spawned && w0.player is Some;
        let p1 = match w0.player {
            Some(p) => Some(player_after_phase(p, input, spawned, dt)),
            None => None,
        };
        let b2 = match w0.player {
            Some(p) => if front_fires_in_phase(p, input, spawned, dt) {
                b1.push(front_beam_in_phase(p, input, dt))
            } else {
                b1
            },
            None => b1,
        };
        let c1 = match p1 {
            Some(pp) => Seq::new(
                w0.canons@.len(),
                |i: int| canon_after_move(w0.canons@[i], pp.pos, dt),
            ),
            None => w0.canons@,
        };
        let canon_firing = spawned && input.fire_held;
        let c2 = if canon_firing {
            Seq::new(c1.len(), |i: int| canon_after_fire(c1[i], dt))
        } else {
            c1
        };
        let b3 = if canon_firing {
            b2 + canon_volleys(c1, dt)
        } else {
            b2
        };
        // projectile motion and expiry
        let b4 = beams_after_tick(b3, dt);
        &&& wm.game_state == w0.game_state
        &&& wm.level == w0.level
        &&& wm.next_id == w0.next_id
        &&& wm.player == p1
        &&& wm.player_state == w0.player_state
        &&& wm.canons@ == c2
        &&& wm.enemies@ == en2
        &&& wm.beams@ == b4
        &&& wm.explosions@ == w0.explosions@
        &&& wm.camera == w0.camera
        &&& wm.wave == w0.wave
        &&& wm.wave_state == w0.wave_state
        &&& wm.spawn_timer == w0.spawn_timer
        &&& wm.horde == w0.horde
        &&& wm.basic_shot_timer == bst1
        &&& wm.collision_events@ == w0.collision_events@
        &&& wm.explosion_events@ == w0.explosion_events@
        &&& wm.camera_shake_events@ == w0.camera_shake_events@
    }
}

/// The second half of a playing tick: collision resolution and damage,
/// the death sequence, the cosmetic reactions, and the wave direction.
/// Relates the world just before collision resolution to the world at the
/// tick's end.
pub open spec fn resolve_relation(wm: World, dt: int, w1: World) -> bool {
    {
        let spawned = wm.player_state is Spawned && wm.player is Some;
        let p1 = wm.player;
        let b4 = wm.beams@;
        // collision resolution (the event queues hold this tick's events)
        let lv = live_enemies(wm.enemies@);
        let en3 = resolved_enemies(lv, b4);
        let b5 = surviving_beams(b4, lv);
        let ce1 = resolver_events(lv, b4);
        let xe1 = resolver_explosions(lv, b4);
        let pools = pools_after_hits(
            p1->0.player.health as int,
            p1->0.player.shield as int,
            p1->0.pos,
            b5,
        );
        let p2 = if spawned {
            Some(
                PlayerEntity {
                    player: Player {
                        health: pools.0 as i64,
                        shield: pools.1 as i64,
                        ..p1->0.player
                    },
                    ..p1->0
                },
            )
        } else {
            p1
        };
        let b6 = if spawned {
            beams_missing_player(b5, p1->0.pos)
        } else {
            b5
        };
        let ce2 = if spawned {
            ce1 + Seq::new(player_hit_count(p1->0.pos, b5) as nat, |i: int| CollisionEvent(p1->0.id))
        } else {
            ce1
        };
        let cse = if spawned {
            Seq::new(
                shield_break_count(
                    p1->0.player.health as int,
                    p1->0.player.shield as int,
                    p1->0.pos,
                    b5,
                ) as nat,
                |i: int| CameraShakeEvent,
            )
        } else {
            Seq::empty()
        };
        let dead_now = spawned && pools.0 <= 0;
        let ps1 = if dead_now {
            PlayerState::Dead
        } else {
            wm.player_state
        };
        // death sequence: the dead ship lingers on a despawn countdown
        let p3 = if dead_now {
            Some(
                PlayerEntity {
                    despawn_timer: Some(
                        DespawnTimer(
                            Timer { duration_ms: 2000, remaining_ms: 2000, mode: TimerMode::Once },
                        ),
                    ),
                    ..p2->0
                },
            )
        } else {
            p2
        };
        let xe2 = if dead_now {
            xe1.push(ExplosionEvent(p2->0.pos))
        } else {
            xe1
        };
        // cosmetic reactions: blink, explosions, camera shake
        let en4 = Seq::new(
            en3.len(),
            |i: int| EnemyEntity {
                blinking: blink_phase(en3[i].blinking, events_name_id(ce2, en3[i].id), dt),
                ..en3[i]
            },
        );
        let p4 = match p3 {
            Some(pp) => Some(
                PlayerEntity {
                    blinking: blink_phase(pp.blinking, events_name_id(ce2, pp.id), dt),
                    ..pp
                },
            ),
            None => None,
        };
        let ex1 = wm.explosions@ + Seq::new(xe2.len(), |i: int| spawned_explosion(xe2[i].0));
        let ex2 = explosions_after_tick(ex1, dt);
        let cam1 = MainCamera {
            shake: if cse.len() > 0 {
                Some(
                    crate::camera::CameraShake(
                        Timer {
                            duration_ms: crate::camera::CAMERA_SHAKE_TIME_MS,
                            remaining_ms: crate::camera::CAMERA_SHAKE_TIME_MS,
                            mode: TimerMode::Once,
                        },
                    ),
                )
            } else {
                wm.camera.shake
            },
            ..wm.camera
        };
        let cam2 = camera_after_shake(cam1, dt);
        // wave direction: the horde trickle, the completion check, and the
        // transition with the next wave's entry
        let emits = horde_emits(wm, dt);
        let st1 = if wm.wave is Three && wm.horde is Some && wm.horde->0.count < wm.horde->0.max {
            SpawnTimer(timer_after_tick(wm.spawn_timer.0, dt))
        } else {
            wm.spawn_timer
        };
        let horde1 = if emits {
            Some(WaveHordeCount { count: (wm.horde->0.count + 1) as i32, ..wm.horde->0 })
        } else {
            wm.horde
        };
        let en5 = if emits {
            en4.push(spawned_enemy(horde_enemy(), wm.next_id))
        } else {
            en4
        };
        let nid1: int = if emits {
            wm.next_id + 1
        } else {
            wm.next_id as int
        };
        let complete = wm.wave_state is Active && wave_cleared(en5, wm.wave);
        let advance = complete && !(wm.wave is Finished);
        let ws1 = if complete {
            if advance {
                WaveState::Active
            } else {
                WaveState::Completed
            }
        } else {
            wm.wave_state
        };
        let wave1 = if advance {
            wave_next(wm.wave)
        } else {
            wm.wave
        };
        let enters_three = advance && wave1 is Three;
        let st2 = if enters_three {
            SpawnTimer(Timer { remaining_ms: st1.0.duration_ms, ..st1.0 })
        } else {
            st1
        };
        let horde2 = if enters_three {
            Some(WaveHordeCount { count: 0, max: HORDE_MAX })
        } else {
            horde1
        };
        let enters_two = advance && wave1 is Two;
        &&& w1.game_state == wm.game_state
        &&& w1.level == wm.level
        &&& w1.player == p4
        &&& w1.player_state == ps1
        &&& w1.canons@ == wm.canons@
        &&& w1.beams@ == b6
        &&& w1.explosions@ == ex2
        &&& w1.camera == cam2
        &&& w1.basic_shot_timer == wm.basic_shot_timer
        &&& w1.collision_events@ == ce2
        &&& w1.explosion_events@ == xe2
        &&& w1.camera_shake_events@ == cse
        &&& w1.wave == wave1
        &&& w1.wave_state == ws1
        &&& w1.spawn_timer == st2
        &&& w1.horde == horde2
        &&& if enters_two {
            &&& w1.enemies@.len() == en5.len() + 2
            &&& w1.enemies@.subrange(0, en5.len() as int) == en5
            &&& wave_two_entry_enemy(w1.enemies@[en5.len() as int], nid1, true)
            &&& wave_two_entry_enemy(w1.enemies@[en5.len() as int + 1], nid1 + 1, false)
            &&& w1.next_id == nid1 + 2
        } else {
            &&& w1.enemies@ == en5
            &&& w1.next_id == nid1
        }
    }
}

/// The whole tick, as a relation between the world before and after.  A
/// tick that leaves (or stays in) `Paused` changes nothing but the pause
/// state itself.  A playing tick runs the two halves of the fixed phase
/// order in sequence; every field of the world after is pinned, up to the
/// two freshly allocated burst patterns of a wave-two entry, which are
/// pinned by their contents.
pub open spec fn tick_relation(w0: World, input: InputIntent, dt: int, w1: World) -> bool {
    let gs = toggled_state(w0.game_state, input.pause_pressed);
    if !(gs is Playing) {
        w1 == (World { game_state: gs, ..w0 })
    } else {
        exists|wm: World|
            {
                &&& #[trigger] advanced_relation(World { game_state: gs, ..w0 }, input, dt, wm)
                &&& resolve_relation(wm, dt, w1)
            }
    }
}


/// Law: while paused, a tick suspends every update — movement, firing,
/// projectile motion, collision, timers — and preserves all entity state
/// exactly; only the pause state itself can change, so the simulation
/// resumes exactly where it left off.
pub proof fn lemma_paused_tick_freezes(w0: World, input: InputIntent, dt: int, w1: World)
    requires
        tick_relation(w0, input, dt, w1),
        !(toggled_state(w0.game_state, input.pause_pressed) is Playing),
    ensures
        w1 == (World { game_state: toggled_state(w0.game_state, input.pause_pressed), ..w0 }),
{
}

/// Movement never tags an enemy into a wave: a cleared wave stays cleared
/// through the movement pass.
pub proof fn lemma_move_preserves_cleared(s: Seq<EnemyEntity>, px: int, dt: int, w: Wave)
    requires
        wave_cleared(s, w),
    ensures
        wave_cleared(enemies_after_move(s, px, dt), w),
    decreases s.len(),
{
    if s.len() > 0 {
        lemma_move_preserves_cleared(s.drop_last(), px, dt, w);
        assert(s.last().wave != w);
        assert(enemy_after_move(s.last(), px, dt).wave == s.last().wave);
    }
}

/// The cleanup pass keeps only existing enemies: a cleared wave stays
/// cleared.
pub proof fn lemma_live_preserves_cleared(s: Seq<EnemyEntity>, w: Wave)
    requires
        wave_cleared(s, w),
    ensures
        wave_cleared(live_enemies(s), w),
    decreases s.len(),
{
    if s.len() > 0 {
        lemma_live_preserves_cleared(s.drop_last(), w);
    }
}

/// Law (wave completion): on a playing tick whose wave has no live enemy
/// left — every one of the N that were spawned has been removed by death
/// or bounds-despawn — and on which the horde adds none, the wave state
/// passes through `Completed` and the next wave ordinal comes out active.
pub proof fn lemma_wave_completion(w0: World, input: InputIntent, dt: int, w1: World)
    requires
        tick_relation(w0, input, dt, w1),
        toggled_state(w0.game_state, input.pause_pressed) is Playing,
        w0.wave_state is Active,
        wave_cleared(w0.enemies@, w0.wave),
        !horde_emits(w0, dt),
        !(w0.wave is Finished),
    ensures
        w1.wave == wave_next(w0.wave),
        w1.wave_state is Active,
{
    let gs = toggled_state(w0.game_state, input.pause_pressed);
    let wt = World { game_state: gs, ..w0 };
    let wm = choose|wm: World|
        {
            &&& #[trigger] advanced_relation(wt, input, dt, wm)
            &&& resolve_relation(wm, dt, w1)
        };
    assert(advanced_relation(wt, input, dt, wm) && resolve_relation(wm, dt, w1));
    let px = px_of(w0.player);
    let en1 = enemies_after_move(w0.enemies@, px, dt);
    lemma_move_preserves_cleared(w0.enemies@, px, dt, w0.wave);
    assert(wave_cleared(wm.enemies@, w0.wave)) by {
        assert forall|i: int| 0 <= i < wm.enemies@.len() implies (#[trigger] wm.enemies@[i]).wave
            != w0.wave by {
            assert(wm.enemies@[i] == enemy_after_fire(en1[i], dt));
            assert(en1[i].wave != w0.wave);
        }
    }
    let lv = live_enemies(wm.enemies@);
    lemma_live_preserves_cleared(wm.enemies@, w0.wave);
    let b4 = wm.beams@;
    let en3 = resolved_enemies(lv, b4);
    assert(wave_cleared(en3, w0.wave)) by {
        assert forall|i: int| 0 <= i < en3.len() implies (#[trigger] en3[i]).wave != w0.wave by {
            assert(en3[i] == crate::basic_enemy::enemy_after_hits(lv[i], b4));
            assert(lv[i].wave != w0.wave);
        }
    }
    assert(!horde_emits(wm, dt));
}

impl World {
    /// A fresh world at the first level: the stock player under id 0 with
    /// a canon on each side, the first wave's roster spawned and armed,
    /// and every timer fully wound.
    pub fn new() -> (w: World)
        ensures
            w.wf(),
            w.game_state is Playing,
            w.level is SpaceOne,
            w.player == Some(
                PlayerEntity {
                    id: 0,
                    pos: Vec2 { x: crate::player::PLAYER_START_X, y: 0 },
                    facing: Vec2 { x: 0, y: 1000 },
                    player: crate::player::spec_default_player(),
                    front_weapon_timer: crate::player::FrontWeaponTimer(
                        Timer { duration_ms: 10, remaining_ms: 10, mode: TimerMode::Once },
                    ),
                    despawn_timer: None,
                    blinking: None,
                },
            ),
            w.player_state is Spawned,
            w.canons@ == seq![
                crate::canon::spawned_canon(
                    Vec2 { x: crate::player::PLAYER_START_X, y: 0 },
                    crate::canon::Position::Left,
                ),
                crate::canon::spawned_canon(
                    Vec2 { x: crate::player::PLAYER_START_X, y: 0 },
                    crate::canon::Position::Right,
                ),
            ],
            w.enemies@.len() == 3,
            w.enemies@[0] == spawned_enemy(wave_one_enemy(60), 1),
            w.enemies@[1] == spawned_enemy(wave_one_enemy(0), 2),
            w.enemies@[2] == spawned_enemy(wave_one_enemy(-60), 3),
            w.next_id == 4,
            w.beams@.len() == 0,
            w.explosions@.len() == 0,
            w.collision_events@.len() == 0,
            w.explosion_events@.len() == 0,
            w.camera_shake_events@.len() == 0,
            w.camera == (MainCamera { pos: Vec2 { x: 0, y: 0 }, shake: None }),
            w.wave is One,
            w.wave_state is Active,
            w.spawn_timer == (SpawnTimer(
                Timer { duration_ms: 100, remaining_ms: 100, mode: TimerMode::Repeating },
            )),
            w.horde is None,
            w.basic_shot_timer == (ShootTimer(
                Timer { duration_ms: 2000, remaining_ms: 2000, mode: TimerMode::Repeating },
            )),
    {
        let mut next_id: u64 = 0;
        let mut player_state = PlayerState::Setup;
        let p = setup(&mut next_id, &mut player_state);
        let left = matches!(p.player.left_weapon, crate::player::WeaponType::PlasmaCanon);
        let right = matches!(p.player.right_weapon, crate::player::WeaponType::PlasmaCanon);
        let canons = crate::canon::setup(p.pos, left, right);
        let mut wave_state = WaveState::Initialized;
        let roster = wave_one(&mut wave_state);
        let mut enemies: Vec<EnemyEntity> = Vec::new();
        spawn_enemy(&mut enemies, &mut next_id, roster);
        World {
            game_state: GameState::Playing,
            level: GameLevel::SpaceOne,
            next_id,
            player: Some(p),
            player_state,
            canons,
            enemies,
            beams: Vec::new(),
            explosions: Vec::new(),
            camera: MainCamera::new(),
            wave: Wave::One,
            wave_state,
            spawn_timer: SpawnTimer(Timer::new(100, TimerMode::Repeating)),
            horde: None,
            basic_shot_timer: ShootTimer(Timer::new(2000, TimerMode::Repeating)),
            collision_events: Vec::new(),
            explosion_events: Vec::new(),
            camera_shake_events: Vec::new(),
        }
    }

    /// One simulation tick.  An edge-triggered pause press flips the pause
    /// state first; a tick that is then paused freezes everything else
    /// exactly.  A playing tick runs the fixed phase order of
    /// `tick_relation` and leaves this tick's events in the queues for the
    /// presentation layer.
    #[verifier::rlimit(100)]
    pub fn tick(&mut self, input: InputIntent, dt_ms: i64)
        requires
            old(self).wf(),
            input.wf(),
            0 <= dt_ms <= MAX_TICK_MS,
            old(self).next_id + 4 <= u64::MAX,
        ensures
            final(self).wf(),
            tick_relation(*old(self), input, dt_ms as int, *final(self)),
    {
        let ghost w0 = *old(self);
        let ghost dt = dt_ms as int;
        toggle_pause(&mut self.game_state, input.pause_pressed);
        let playing = matches!(self.game_state, GameState::Playing);
        if !playing {
            proof {
                assert(*self =~= (World {
                    game_state: toggled_state(w0.game_state, input.pause_pressed),
                    ..w0
                }));
            }
            return;
        }
        proof {
            assert(*self =~= (World {
                game_state: toggled_state(w0.game_state, input.pause_pressed),
                ..w0
            }));
        }
        let ghost wt = *self;
        self.advance_actors(input, dt_ms);
        let ghost wm = *self;
        self.resolve_and_direct(dt_ms);
        proof {
            assert(advanced_relation(wt, input, dt, wm));
            assert(resolve_relation(wm, dt, *self));
            assert(tick_relation(w0, input, dt, *self));
        }
    }

    /// The first half of a playing tick (see `advanced_relation`).
    #[verifier::rlimit(100)]
    fn advance_actors(&mut self, input: InputIntent, dt_ms: i64)
        requires
            old(self).wf(),
            input.wf(),
            0 <= dt_ms <= MAX_TICK_MS,
        ensures
            final(self).wf(),
            advanced_relation(*old(self), input, dt_ms as int, *final(self)),
            final(self).next_id == old(self).next_id,
    {
        let ghost w0 = *old(self);
        let ghost dt = dt_ms as int;
        // enemy movement
        let player_x: i64 = match &self.player {
            Some(p) => p.pos.x,
            None => 0,
        };
        proof {
            assert(player_x as int == px_of(w0.player));
        }
        crate::basic_enemy::move_enemy(&mut self.enemies, player_x, dt_ms);
        let ghost en1 = self.enemies@;
        proof {
            assert(en1 == enemies_after_move(w0.enemies@, px_of(w0.player), dt));
        }
        // enemy firing
        crate::basic_enemy::enemy_fire(
            &mut self.enemies,
            &mut self.basic_shot_timer,
            &mut self.beams,
            dt_ms,
        );
        proof {
            assert(self.enemies@ =~= Seq::new(en1.len(), |i: int| enemy_after_fire(en1[i], dt)));
            assert(self.basic_shot_timer == ShootTimer(timer_after_tick(w0.basic_shot_timer.0, dt)));
            assert(self.beams@ == w0.beams@ + all_volleys(
                en1,
                timer_fires(w0.basic_shot_timer.0, dt),
                dt,
            ));
        }
        let ghost en2 = self.enemies@;
        let ghost b1 = self.beams@;
        // player movement, aim and fire
        let spawned = matches!(self.player_state, PlayerState::Spawned) && self.player.is_some();
        proof {
            assert(spawned == (w0.player_state is Spawned && w0.player is Some));
        }
        if spawned {
            match &mut self.player {
                Some(p) => {
                    move_user(p, input.x_intent, input.y_intent, dt_ms);
                    rotate_user(p, input.cursor);
                    user_fire_beam(p, input.fire_held, &mut self.beams, dt_ms);
                }
                None => {}
            }
        }
        let ghost p1 = self.player;
        let ghost b2 = self.beams@;
        proof {
            assert(p1 == (match w0.player {
                Some(p) => Some(player_after_phase(p, input, spawned, dt)),
                None => None,
            }));
            assert(b2 == (match w0.player {
                Some(p) => if front_fires_in_phase(p, input, spawned, dt) {
                    b1.push(front_beam_in_phase(p, input, dt))
                } else {
                    b1
                },
                None => b1,
            }));
        }
        // canon tracking and firing
        let ppos_now: Option<Vec2> = match &self.player {
            Some(p) => Some(p.pos),
            None => None,
        };
        match ppos_now {
            Some(pp) => {
                crate::canon::move_canon(&mut self.canons, pp, dt_ms);
            }
            None => {}
        }
        proof {
            assert(self.canons@ =~= (match p1 {
                Some(pp) => Seq::new(
                    w0.canons@.len(),
                    |i: int| canon_after_move(w0.canons@[i], pp.pos, dt),
                ),
                None => w0.canons@,
            }));
        }
        let ghost c1 = self.canons@;
        if spawned {
            crate::canon::fire_canon(&mut self.canons, input.fire_held, &mut self.beams, dt_ms);
        }
        proof {
            if spawned && input.fire_held {
                assert(self.canons@ =~= Seq::new(
                    c1.len(),
                    |i: int| canon_after_fire(c1[i], dt),
                ));
                assert(self.beams@ == b2 + canon_volleys(c1, dt));
            } else {
                assert(self.canons@ == c1);
                assert(self.beams@ == b2);
            }
        }
        let ghost b3 = self.beams@;
        // projectile motion and expiry
        update_beam(&mut self.beams, dt_ms);
        proof {
            assert(self.beams@ == beams_after_tick(b3, dt));
        }
    }

    /// The second half of a playing tick (see `resolve_relation`).
    #[verifier::rlimit(100)]
    fn resolve_and_direct(&mut self, dt_ms: i64)
        requires
            old(self).wf(),
            0 <= dt_ms <= MAX_TICK_MS,
            old(self).next_id + 4 <= u64::MAX,
        ensures
            final(self).wf(),
            resolve_relation(*old(self), dt_ms as int, *final(self)),
    {
        let ghost w0 = *old(self);
        let ghost dt = dt_ms as int;
        let ghost en2 = self.enemies@;
        let ghost p1 = self.player;
        let spawned = matches!(self.player_state, PlayerState::Spawned) && self.player.is_some();
        // collision resolution; the queues hold this tick's events
        let ghost b4 = self.beams@;
        self.collision_events = Vec::new();
        self.explosion_events = Vec::new();
        self.camera_shake_events = Vec::new();
        crate::basic_enemy::check_collision(
            &mut self.enemies,
            &mut self.beams,
            &mut self.collision_events,
            &mut self.explosion_events,
        );
        let ghost en3 = self.enemies@;
        proof {
            let lv = live_enemies(en2);
            assert(en3 == resolved_enemies(lv, b4));
            assert(self.beams@ == surviving_beams(b4, lv));
            assert(self.collision_events@ =~= resolver_events(lv, b4));
            assert(self.explosion_events@ =~= resolver_explosions(lv, b4));
        }
        let ghost b5 = self.beams@;
        let ghost ce1 = self.collision_events@;
        let ghost xe1 = self.explosion_events@;
        if spawned {
            match &mut self.player {
                Some(p) => {
                    crate::player::check_collision(
                        p,
                        &mut self.player_state,
                        &mut self.beams,
                        &mut self.collision_events,
                        &mut self.camera_shake_events,
                    );
                }
                None => {}
            }
        }
        proof {
            if spawned {
                let pp = p1->0;
                let pools = pools_after_hits(
                    pp.player.health as int,
                    pp.player.shield as int,
                    pp.pos,
                    b5,
                );
                assert(self.player == Some(
                    PlayerEntity {
                        player: Player {
                            health: pools.0 as i64,
                            shield: pools.1 as i64,
                            ..pp.player
                        },
                        ..pp
                    },
                ));
                assert(self.beams@ == beams_missing_player(b5, pp.pos));
                assert(self.collision_events@ == ce1 + Seq::new(
                    player_hit_count(pp.pos, b5) as nat,
                    |i: int| CollisionEvent(pp.id),
                ));
                assert(self.camera_shake_events@ =~= Seq::new(
                    shield_break_count(
                        pp.player.health as int,
                        pp.player.shield as int,
                        pp.pos,
                        b5,
                    ) as nat,
                    |i: int| CameraShakeEvent,
                ));
                assert(self.player_state == (if pools.0 <= 0 {
                    PlayerState::Dead
                } else {
                    w0.player_state
                }));
            } else {
                assert(self.camera_shake_events@ =~= Seq::<CameraShakeEvent>::empty());
            }
        }
        let ghost p2 = self.player;
        let ghost ce2 = self.collision_events@;
        // death sequence
        let dead_now = spawned && matches!(self.player_state, PlayerState::Dead);
        if dead_now {
            match &mut self.player {
                Some(p) => {
                    destroy_player(p, &mut self.explosion_events);
                }
                None => {}
            }
        }
        proof {
            if dead_now {
                assert(self.player == Some(
                    PlayerEntity {
                        despawn_timer: Some(
                            DespawnTimer(
                                Timer {
                                    duration_ms: 2000,
                                    remaining_ms: 2000,
                                    mode: TimerMode::Once,
                                },
                            ),
                        ),
                        ..p2->0
                    },
                ));
                assert(self.explosion_events@ == xe1.push(ExplosionEvent(p2->0.pos)));
            }
        }
        let ghost p3 = self.player;
        let ghost xe2 = self.explosion_events@;
        // cosmetic reactions
        collision(&self.collision_events, &mut self.enemies, &mut self.player);
        blink(&mut self.enemies, &mut self.player, dt_ms);
        proof {
            assert(self.enemies@ =~= Seq::new(
                en3.len(),
                |i: int| EnemyEntity {
                    blinking: blink_phase(en3[i].blinking, events_name_id(ce2, en3[i].id), dt),
                    ..en3[i]
                },
            ));
            assert(self.player == (match p3 {
                Some(pp) => Some(
                    PlayerEntity {
                        blinking: blink_phase(pp.blinking, events_name_id(ce2, pp.id), dt),
                        ..pp
                    },
                ),
                None => None,
            }));
        }
        spawn_explosion(&self.explosion_events, &mut self.explosions);
        proof {
            assert(self.explosions@ =~= w0.explosions@ + Seq::new(
                xe2.len(),
                |i: int| spawned_explosion(xe2[i].0),
            ));
        }
        let ghost ex1 = self.explosions@;
        animate_explosion(&mut self.explosions, dt_ms);
        crate::camera::shake_camera_event(&self.camera_shake_events, &mut self.camera);
        let ghost cam1 = self.camera;
        crate::camera::shake_camera(&mut self.camera, dt_ms);
        proof {
            assert(self.explosions@ == explosions_after_tick(ex1, dt));
            assert(self.camera == camera_after_shake(cam1, dt));
        }
        // wave direction: horde trickle, completion, transition and entry
        let ghost en4 = self.enemies@;
        if matches!(self.wave, Wave::Three) {
            match &mut self.horde {
                Some(h) => {
                    let trickled = spawn_horde(h, &mut self.spawn_timer, dt_ms);
                    match trickled {
                        Some(ev) => {
                            let mut evs: Vec<SpawnEnemyEvent> = Vec::new();
                            evs.push(ev);
                            spawn_enemy(&mut self.enemies, &mut self.next_id, evs);
                            proof {
                                let he = spawned_enemy(horde_enemy(), w0.next_id);
                                assert(self.enemies@[en4.len() as int] == spawned_enemy(
                                    evs@[0],
                                    w0.next_id,
                                ));
                                assert(spawned_enemy(evs@[0], w0.next_id) == he);
                                assert(self.enemies@ =~= en4.push(he));
                                assert(he.wf());
                            }
                        }
                        None => {}
                    }
                }
                None => {}
            }
        }
        proof {
            if horde_emits(w0, dt) {
                assert(self.enemies@ == en4.push(spawned_enemy(horde_enemy(), w0.next_id)));
                assert(self.next_id == w0.next_id + 1);
                assert(self.horde == Some(
                    WaveHordeCount { count: (w0.horde->0.count + 1) as i32, ..w0.horde->0 },
                ));
            } else {
                assert(self.enemies@ == en4);
                assert(self.next_id == w0.next_id);
                assert(self.horde == w0.horde);
            }
            if w0.wave is Three && w0.horde is Some && w0.horde->0.count < w0.horde->0.max {
                assert(self.spawn_timer == SpawnTimer(timer_after_tick(w0.spawn_timer.0, dt)));
            } else {
                assert(self.spawn_timer == w0.spawn_timer);
            }
        }
        let ghost nid1 = self.next_id;
        let ghost st1 = self.spawn_timer;
        let complete = check_wave_complete(&self.enemies, self.wave);
        let ghost en5 = self.enemies@;
        if matches!(self.wave_state, WaveState::Active) && complete {
            self.wave_state = WaveState::Completed;
            increment_state(&mut self.wave, &mut self.wave_state);
            match self.wave {
                Wave::Two => {
                    let roster = wave_two();
                    let ghost rw = roster@;
                    spawn_enemy(&mut self.enemies, &mut self.next_id, roster);
                    proof {
                        assert(self.enemies@.subrange(0, en5.len() as int) =~= en5);
                        assert(self.enemies@[en5.len() as int] == spawned_enemy(
                            rw[0],
                            nid1,
                        ));
                        assert(self.enemies@[en5.len() as int + 1] == spawned_enemy(
                            rw[1],
                            (nid1 + 1) as u64,
                        ));
                        assert(wave_two_entry_enemy(
                            self.enemies@[en5.len() as int],
                            nid1 as int,
                            true,
                        ));
                        assert(wave_two_entry_enemy(
                            self.enemies@[en5.len() as int + 1],
                            nid1 as int + 1,
                            false,
                        ));
                        assert(self.enemies@[en5.len() as int].wf());
                        assert(self.enemies@[en5.len() as int + 1].wf());
                    }
                }
                Wave::Three => {
                    let h = wave_three(&mut self.wave_state, &mut self.spawn_timer);
                    self.horde = Some(h);
                }
                Wave::Four => {
                    let roster = wave_four();
                    spawn_enemy(&mut self.enemies, &mut self.next_id, roster);
                    proof {
                        assert(self.enemies@ =~= en5);
                    }
                }
                _ => {}
            }
        }
        proof {
            assert(resolve_relation(w0, dt, *self));
        }
    }
}

} // verus!

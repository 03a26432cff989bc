//! Camera shake: a cosmetic reaction to shield break-through.  A shake
//! event puts the camera on a short timer during which its x position is
//! nudged back and forth; when the timer runs out the shake ends.

use vstd::prelude::*;
use crate::geometry::{clamp_coord, in_arena, translate_coord, Vec2, MAX_TICK_MS};
use crate::timer::{timer_after_tick, Timer, TimerMode};

verus! {

/// How long one shake lasts, in milliseconds.
pub const CAMERA_SHAKE_TIME_MS: i64 = 100;

/// Shake amplitude factor, in world units per elapsed second.
pub const CAMERA_SHAKE_WIDTH_UNITS: i64 = 100;

/// A request to shake the camera (queued on shield break-through).
#[derive(Clone, Copy, PartialEq, Eq, Structural, Debug)]
pub struct CameraShakeEvent;

/// A running shake: the time left until the camera settles.
#[derive(Clone, Copy, PartialEq, Eq, Structural, Debug)]
pub struct CameraShake(pub Timer);

/// The main camera: its position and, while shaking, the shake countdown.
#[derive(Clone, Copy, PartialEq, Eq, Structural, Debug)]
pub struct MainCamera {
    pub pos: Vec2,
    pub shake: Option<CameraShake>,
}

impl MainCamera {
    pub open spec fn wf(self) -> bool {
        &&& in_arena(self.pos)
        &&& match self.shake {
            Some(s) => s.0.wf() && s.0.duration_ms == CAMERA_SHAKE_TIME_MS,
            None => true,
        }
    }

    /// The camera at the origin, at rest.
    pub fn new() -> (c: MainCamera)
        ensures
            c == (MainCamera { pos: Vec2 { x: 0, y: 0 }, shake: None }),
    {
        MainCamera { pos: Vec2 { x: 0, y: 0 }, shake: None }
    }
}

/// Start a shake if any shake event was queued this tick: the camera gets
/// a fresh shake countdown (restarting any shake already running).
pub fn shake_camera_event(events: &Vec<CameraShakeEvent>, camera: &mut MainCamera)
    ensures
        *final(camera) == (MainCamera {
            shake: if events@.len() > 0 {
                Some(
                    CameraShake(
                        Timer {
                            duration_ms: CAMERA_SHAKE_TIME_MS,
                            remaining_ms: CAMERA_SHAKE_TIME_MS,
                            mode: TimerMode::Once,
                        },
                    ),
                )
            } else {
                old(camera).shake
            },
            ..*old(camera)
        }),
{
    if events.len() > 0 {
        camera.shake = Some(CameraShake(Timer::new(CAMERA_SHAKE_TIME_MS, TimerMode::Once)));
    }
}

/// The camera after one tick of shaking: while the countdown runs, its x
/// position is nudged by the amplitude factor times the elapsed time,
/// toward whichever side it currently leans away from; when the countdown
/// has run out, the shake is removed and the position left as it is.
pub open spec fn camera_after_shake(c: MainCamera, dt_ms: int) -> MainCamera {
    match c.shake {
        None => c,
        Some(s) => {
            let ticked = timer_after_tick(s.0, dt_ms);
            if ticked.remaining_ms == 0 {
                MainCamera { shake: None, ..c }
            } else {
                let elapsed = ticked.duration_ms - ticked.remaining_ms;
                let nudge = if c.pos.x <= 0 {
                    CAMERA_SHAKE_WIDTH_UNITS * 1000 * elapsed
                } else {
                    -(CAMERA_SHAKE_WIDTH_UNITS * 1000) * elapsed
                };
                MainCamera {
                    pos: Vec2 { x: clamp_coord(c.pos.x + nudge) as i64, ..c.pos },
                    shake: Some(CameraShake(ticked)),
                }
            }
        }
    }
}

/// Advance a running shake: nudge the camera while the countdown runs,
/// settle it when the countdown finishes.
pub fn shake_camera(camera: &mut MainCamera, dt_ms: i64)
    requires
        old(camera).wf(),
        0 <= dt_ms <= MAX_TICK_MS,
    ensures
        final(camera).wf(),
        *final(camera) == camera_after_shake(*old(camera), dt_ms as int),
{
    match camera.shake {
        None => {}
        Some(mut s) => {
            s.0.tick(dt_ms);
            if s.0.is_finished() {
                camera.shake = None;
            } else {
                let elapsed = s.0.elapsed_ms();
                proof {
                    assert(0 <= elapsed <= CAMERA_SHAKE_TIME_MS);
                }
                let swing: i64 = CAMERA_SHAKE_WIDTH_UNITS * 1000 * elapsed;
                let nudge: i64 = if camera.pos.x <= 0 {
                    swing
                } else {
                    -swing
                };
                camera.pos.x = translate_coord(camera.pos.x, nudge);
                camera.shake = Some(s);
            }
        }
    }
}

} // verus!

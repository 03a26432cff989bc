//! Simulation core of a 2D arcade space shooter: entity spawning, kinematic
//! movement, weapon firing, collision resolution, shield-first damage, and
//! wave progression.
//!
//! All quantities are fixed-point integers so that every rule is exact:
//! a position coordinate counts micro-units (one world unit is 1_000_000
//! steps), a direction component counts thousandths of a unit vector, and
//! time counts milliseconds.  Rendering, input polling, asset handling and
//! animation playback are boundary services: the core consumes input intents
//! and elapsed milliseconds, and produces state updates and event queues that
//! a presentation layer drains.

use vstd::prelude::*;

pub mod actor;
pub mod basic_enemy;
pub mod basic_enemy_move_patterns;
pub mod beam;
pub mod camera;
pub mod canon;
pub mod collision_core;
pub mod enemy_core;
pub mod explosion_core;
pub mod geometry;
pub mod level;
pub mod player;
pub mod shoot_patterns;
pub mod timer;
pub mod world;

verus! {

/// Whether the simulation is running or suspended.  While `Paused`, a tick
/// leaves every entity, timer and health value untouched.
#[derive(Clone, Copy, PartialEq, Eq, Structural, Debug)]
pub enum GameState {
    Playing,
    Paused,
}

/// The level being played; each level enters with its own player setup.
#[derive(Clone, Copy, PartialEq, Eq, Structural, Debug)]
pub enum GameLevel {
    SpaceOne,
    SpaceTwo,
}

} // verus!

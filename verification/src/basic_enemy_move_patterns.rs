//! Movement patterns an enemy is spawned with, and the patrol
//! direction-flip rule.

use vstd::prelude::*;
use crate::basic_enemy::BasicEnemy;
use crate::geometry::{MICRO};

verus! {

/// How far a patrolling enemy swings before reversing, in world units.
pub const PATROL_BOUND_UNITS: i64 = 600;

/// Movement pattern, selected at spawn and immutable thereafter.
#[derive(Clone, Copy, PartialEq, Eq, Structural, Debug)]
pub enum EnemyMovePattern {
    /// Horizontal patrol at fixed speed, reversing at the patrol bounds.
    Basic,
    /// Descend at fixed speed while steering toward the player's x.
    Down,
    /// Scripted entry hook: no motion defined beyond entry.
    StartShootGo,
}

/// The horizontal direction a patroller flies after seeing its own x
/// coordinate: reversed at either patrol bound, otherwise kept.
pub open spec fn patrol_direction(pos_x: int, x_direction: int) -> int {
    if pos_x >= PATROL_BOUND_UNITS * MICRO {
        -1000
    } else if pos_x <= -PATROL_BOUND_UNITS * MICRO {
        1000
    } else {
        x_direction
    }
}

/// Flip a patrolling enemy's horizontal direction when its x position has
/// crossed a patrol bound.
pub fn basic_move(pos_x: i64, enemy: &mut BasicEnemy)
    ensures
        *final(enemy) == (BasicEnemy {
            x_direction: patrol_direction(pos_x as int, old(enemy).x_direction as int) as i64,
            ..*old(enemy)
        }),
{
    if pos_x >= PATROL_BOUND_UNITS * MICRO {
        enemy.x_direction = -1000;
    } else if pos_x <= -PATROL_BOUND_UNITS * MICRO {
        enemy.x_direction = 1000;
    }
}

} // verus!

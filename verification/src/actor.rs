//! Actor health model: shield-first damage absorption shared by the player
//! and the enemies.  A secondary shield buffer depletes before the health
//! pool; health clamps at zero and an actor counts as dying when health
//! first drops below the death threshold.

use vstd::prelude::*;

verus! {

/// An actor dies when its health drops below this threshold.
pub const DEATH_THRESHOLD: i64 = 1;

/// Health after absorbing `amount` through a shield of `shield`: whatever
/// the shield cannot take is carried over, and health clamps at zero.
pub open spec fn health_after_damage(health: int, shield: int, amount: int) -> int {
    if amount <= shield {
        health
    } else if health - (amount - shield) >= 0 {
        health - (amount - shield)
    } else {
        0
    }
}

/// Shield after absorbing `amount`: reduced by the amount, clamping at zero.
pub open spec fn shield_after_damage(shield: int, amount: int) -> int {
    if amount <= shield {
        shield - amount
    } else {
        0
    }
}

/// Apply `amount` damage to an actor with the given health and shield
/// pools.  While shield remains, damage is drawn from it first; any excess
/// (`amount - shield`) carries over into health, which clamps at zero.
/// Returns whether this application made health cross below the death
/// threshold, so that the caller can trigger the death transition exactly
/// once.
pub fn apply_damage(health: &mut i64, shield: &mut i64, amount: i64) -> (died: bool)
    requires
        *old(health) >= 0,
        *old(shield) >= 0,
        amount >= 0,
    ensures
        *final(health) == health_after_damage(*old(health) as int, *old(shield) as int, amount as int),
        *final(shield) == shield_after_damage(*old(shield) as int, amount as int),
        amount <= *old(shield) ==> *final(shield) == *old(shield) - amount && *final(health)
            == *old(health),
        amount > *old(shield) ==> *final(shield) == 0,
        died == (*old(health) >= DEATH_THRESHOLD && *final(health) < DEATH_THRESHOLD),
{
    let before: i64 = *health;
    if amount <= *shield {
        *shield = *shield - amount;
    } else {
        let spill: i64 = amount - *shield;
        *shield = 0;
        if spill >= *health {
            *health = 0;
        } else {
            *health = *health - spill;
        }
    }
    before >= DEATH_THRESHOLD && *health < DEATH_THRESHOLD
}

/// Law: when the shield can take the whole hit, the shield decreases by
/// exactly the amount and health is untouched.
pub proof fn lemma_shield_absorbs_damage(health: int, shield: int, amount: int)
    requires
        0 <= health,
        0 <= amount <= shield,
    ensures
        shield_after_damage(shield, amount) == shield - amount,
        health_after_damage(health, shield, amount) == health,
{
}

/// Law: when the hit exceeds the shield, the shield empties exactly to
/// zero and health decreases by exactly the excess (`amount - shield`),
/// as long as that excess does not take health past its zero clamp.
pub proof fn lemma_damage_overflows_shield(health: int, shield: int, amount: int)
    requires
        0 <= shield < amount,
        amount - shield <= health,
    ensures
        shield_after_damage(shield, amount) == 0,
        health_after_damage(health, shield, amount) == health - (amount - shield),
{
}

} // verus!

//! The decisions of one simulation tick.
use vstd::prelude::*;

use crate::controls::{intents_of, resolve_intents, ControlIntents, HeldKeys, RotationIntent};
use crate::firing::{may_fire, FireTimer};
use crate::motion::{
    below_rest, rotation_sign, rotation_sign_of, velocity_rule, velocity_rule_of, SpeedClass,
    VelocityRule,
};

verus! {

/// What a tick does to the craft, before wrapping: how the angle turns, which
/// velocity rule applies, and whether a projectile is spawned.
#[derive(Clone, Copy, Debug, PartialEq, Eq, Structural)]
pub struct TickPlan {
    pub intents: ControlIntents,
    pub rotation_sign: i8,
    pub velocity_rule: VelocityRule,
    pub fire: bool,
}

pub open spec fn plan_of(
    keys: HeldKeys,
    speed: SpeedClass,
    last_fired_ms: int,
    now_ms: int,
    cooldown_ms: int,
) -> TickPlan {
    let intents = intents_of(keys);
    TickPlan {
        intents,
        rotation_sign: rotation_sign_of(intents.rotation) as i8,
        velocity_rule: velocity_rule_of(intents.thrust, below_rest(speed)),
        fire: may_fire(intents.fire_requested, last_fired_ms, now_ms, cooldown_ms),
    }
}

/// Resolves the held keys and decides the tick. `speed` classifies the
/// craft's speed at the start of the tick; `now_ms` is a monotonic clock
/// reading. A shot restarts the cooldown window at `now_ms`.
pub fn plan_tick(
    timer: &mut FireTimer,
    keys: &HeldKeys,
    speed: SpeedClass,
    now_ms: u64,
    cooldown_ms: u64,
) -> (p: TickPlan)
    ensures
        p == plan_of(*keys, speed, old(timer).last_fired_ms as int, now_ms as int, cooldown_ms as int),
        final(timer).last_fired_ms == if p.fire {
            now_ms
        } else {
            old(timer).last_fired_ms
        },
        p.intents.rotation == RotationIntent::Steady ==> p.rotation_sign == 0,
{
    let intents = resolve_intents(keys);
    let sign = rotation_sign(intents.rotation);
    let rule = velocity_rule(intents.thrust, speed);
    let fire = timer.try_fire(intents.fire_requested, now_ms, cooldown_ms);
    TickPlan { intents, rotation_sign: sign, velocity_rule: rule, fire }
}

} // verus!

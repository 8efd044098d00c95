//! What happens to the craft's angle and velocity during a tick.
use vstd::prelude::*;

use crate::controls::{RotationIntent, ThrustIntent};

verus! {

/// Direction in which the facing angle moves: +1 for counter-clockwise,
/// -1 for clockwise, 0 when the craft does not turn.
pub open spec fn rotation_sign_of(r: RotationIntent) -> int {
    match r {
        RotationIntent::TurnCcw => 1,
        RotationIntent::TurnCw => -1,
        RotationIntent::Steady => 0,
    }
}

/// The angle grows by `sign * rotate_speed * elapsed`; a sign of 0 leaves the
/// angle untouched.
pub fn rotation_sign(r: RotationIntent) -> (s: i8)
    ensures
        s as int == rotation_sign_of(r),
        r == RotationIntent::Steady <==> s == 0,
{
    match r {
        RotationIntent::TurnCcw => 1,
        RotationIntent::TurnCw => -1,
        RotationIntent::Steady => 0,
    }
}

/// Speed of a craft, reduced to what a tick reads: whether it is exactly
/// zero (the craft does not move), under the rest threshold but not zero, or
/// at least the threshold.
#[derive(Clone, Copy, Debug, PartialEq, Eq, Structural)]
pub enum SpeedClass {
    Zero,
    Creeping,
    Moving,
}

pub open spec fn below_rest(c: SpeedClass) -> bool {
    c != SpeedClass::Moving
}

/// The one change applied to the craft's velocity during a tick.
#[derive(Clone, Copy, Debug, PartialEq, Eq, Structural)]
pub enum VelocityRule {
    /// Add `thrust * elapsed` along the facing direction.
    Accelerate,
    /// Add `thrust * elapsed` against the facing direction.
    Decelerate,
    /// Set the velocity to exactly zero.
    Halt,
    /// Scale each component by `1 - drag * elapsed`.
    Drag,
}

/// Thrust first, then the rest snap, then drag.
pub open spec fn velocity_rule_of(thrust: ThrustIntent, below_rest_speed: bool) -> VelocityRule {
    match thrust {
        ThrustIntent::Forward => VelocityRule::Accelerate,
        ThrustIntent::Backward => VelocityRule::Decelerate,
        ThrustIntent::Idle => if below_rest_speed {
            VelocityRule::Halt
        } else {
            VelocityRule::Drag
        },
    }
}

/// Picks the velocity rule from the thrust intent and the speed before the
/// tick.
pub fn velocity_rule(thrust: ThrustIntent, speed: SpeedClass) -> (r: VelocityRule)
    ensures
        r == velocity_rule_of(thrust, below_rest(speed)),
        thrust == ThrustIntent::Idle && below_rest(speed) ==> r == VelocityRule::Halt,
        r == VelocityRule::Drag ==> thrust == ThrustIntent::Idle && speed == SpeedClass::Moving,
{
    match thrust {
        ThrustIntent::Forward => VelocityRule::Accelerate,
        ThrustIntent::Backward => VelocityRule::Decelerate,
        ThrustIntent::Idle => if speed != SpeedClass::Moving {
            VelocityRule::Halt
        } else {
            VelocityRule::Drag
        },
    }
}

/// Speed class after a tick whose rule is `Halt`: the velocity is zero.
pub open spec fn class_after_halt() -> SpeedClass {
    SpeedClass::Zero
}

/// A craft at rest that is not thrusting stays at rest: whatever the number of
/// idle ticks, starting under the rest threshold, every tick halts the craft
/// and leaves its speed at exactly zero.
pub proof fn lemma_rest_is_idempotent(start: SpeedClass, ticks: nat)
    requires
        below_rest(start),
    ensures
        forall|k: nat| k < ticks ==> #[trigger] velocity_rule_of(ThrustIntent::Idle, below_rest(
            class_after_idle_ticks(start, k),
        )) == VelocityRule::Halt,
        ticks > 0 ==> class_after_idle_ticks(start, ticks) == SpeedClass::Zero,
    decreases ticks,
{
    if ticks > 0 {
        lemma_rest_is_idempotent(start, (ticks - 1) as nat);
        assert forall|k: nat| k < ticks implies #[trigger] velocity_rule_of(
            ThrustIntent::Idle,
            below_rest(class_after_idle_ticks(start, k)),
        ) == VelocityRule::Halt by {
            if k > 0 {
                lemma_rest_is_idempotent(start, k);
            }
        }
    }
}

/// Speed class after `k` idle ticks, each applying the rule that
/// `velocity_rule_of` picks. Only a halt is followed here: drag scales the
/// speed by a real factor, and a class under the rest threshold never
/// reaches it.
pub open spec fn class_after_idle_ticks(start: SpeedClass, k: nat) -> SpeedClass
    decreases k,
{
    if k == 0 {
        start
    } else {
        let prev = class_after_idle_ticks(start, (k - 1) as nat);
        match velocity_rule_of(ThrustIntent::Idle, below_rest(prev)) {
            VelocityRule::Halt => class_after_halt(),
            _ => prev,
        }
    }
}

} // verus!

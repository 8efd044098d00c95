//! Mapping a snapshot of held keys to control intents.
use vstd::prelude::*;

verus! {

/// The control keys held down during one tick.
#[derive(Clone, Copy, Debug, PartialEq, Eq, Structural)]
pub struct HeldKeys {
    pub turn_left: bool,
    pub turn_right: bool,
    pub thrust_forward: bool,
    pub thrust_backward: bool,
    pub fire: bool,
}

/// Which way the craft turns during a tick.
#[derive(Clone, Copy, Debug, PartialEq, Eq, Structural)]
pub enum RotationIntent {
    /// Counter-clockwise: the facing angle grows.
    TurnCcw,
    /// Clockwise: the facing angle shrinks.
    TurnCw,
    /// No turn.
    Steady,
}

/// Whether the engine pushes the craft during a tick.
#[derive(Clone, Copy, Debug, PartialEq, Eq, Structural)]
pub enum ThrustIntent {
    /// Push along the facing direction.
    Forward,
    /// Push against the facing direction.
    Backward,
    /// Engine idle.
    Idle,
}

/// The resolved controls for one tick.
#[derive(Clone, Copy, Debug, PartialEq, Eq, Structural)]
pub struct ControlIntents {
    pub rotation: RotationIntent,
    pub thrust: ThrustIntent,
    pub fire_requested: bool,
}

/// Turning left wins over turning right.
pub open spec fn rotation_of(keys: HeldKeys) -> RotationIntent {
    if keys.turn_left {
        RotationIntent::TurnCcw
    } else if keys.turn_right {
        RotationIntent::TurnCw
    } else {
        RotationIntent::Steady
    }
}

/// Forward thrust wins over backward thrust.
pub open spec fn thrust_of(keys: HeldKeys) -> ThrustIntent {
    if keys.thrust_forward {
        ThrustIntent::Forward
    } else if keys.thrust_backward {
        ThrustIntent::Backward
    } else {
        ThrustIntent::Idle
    }
}

pub open spec fn intents_of(keys: HeldKeys) -> ControlIntents {
    ControlIntents {
        rotation: rotation_of(keys),
        thrust: thrust_of(keys),
        fire_requested: keys.fire,
    }
}

/// Resolves the held keys into intents. Fire is requested whenever its key is
/// held; whether a shot actually leaves is decided by the cooldown.
pub fn resolve_intents(keys: &HeldKeys) -> (r: ControlIntents)
    ensures
        r == intents_of(*keys),
        keys.turn_left ==> r.rotation == RotationIntent::TurnCcw,
        keys.thrust_forward ==> r.thrust == ThrustIntent::Forward,
{
    let rotation = if keys.turn_left {
        RotationIntent::TurnCcw
    } else if keys.turn_right {
        RotationIntent::TurnCw
    } else {
        RotationIntent::Steady
    };
    let thrust = if keys.thrust_forward {
        ThrustIntent::Forward
    } else if keys.thrust_backward {
        ThrustIntent::Backward
    } else {
        ThrustIntent::Idle
    };
    ControlIntents { rotation, thrust, fire_requested: keys.fire }
}

} // verus!

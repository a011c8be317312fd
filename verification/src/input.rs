//! Input mapping and paddle control.
//!
//! The input mapper turns the sampled boolean key state of one team into a
//! discrete intent per axis. The paddle controller turns those intents into
//! the paddle's commanded motion for the tick, in one of two control modes.

use vstd::prelude::*;
use crate::rational::Rat;
use crate::vec3::Vec3r;

verus! {

/// Discrete intent along one axis.
#[derive(Clone, Copy, PartialEq, Eq, Structural, Debug)]
pub enum AxisIntent {
    Negative,
    Neutral,
    Positive,
}

/// Sampled boolean key state for one team's four control keys.
#[derive(Clone, Copy, PartialEq, Eq, Structural, Debug)]
pub struct TeamKeys {
    pub up: bool,
    pub down: bool,
    pub left: bool,
    pub right: bool,
}

/// The two axis intents of one paddle for one tick.
#[derive(Clone, Copy, PartialEq, Eq, Structural, Debug)]
pub struct PaddleIntent {
    pub x: AxisIntent,
    pub y: AxisIntent,
}

/// How the controller's output is applied by the integrator.
#[derive(Clone, Copy, PartialEq, Eq, Structural, Debug)]
pub enum ControlMode {
    /// The commanded motion is a world velocity, integrated over the tick
    /// duration.
    Velocity,
    /// The commanded motion is a per-tick displacement of magnitude one per
    /// axis, applied directly, not scaled by the speed constant or the tick
    /// duration.
    PositionDelta,
}

/// Vertical intent: the "up" key is checked first, so holding both keys
/// yields `Positive` (up wins).
pub open spec fn spec_y_intent(up: bool, down: bool) -> AxisIntent {
    if up {
        AxisIntent::Positive
    } else if down {
        AxisIntent::Negative
    } else {
        AxisIntent::Neutral
    }
}

/// Horizontal intent: the "left" key is checked first, so holding both keys
/// yields `Negative` (left wins).
pub open spec fn spec_x_intent(left: bool, right: bool) -> AxisIntent {
    if left {
        AxisIntent::Negative
    } else if right {
        AxisIntent::Positive
    } else {
        AxisIntent::Neutral
    }
}

/// Both axis intents of one team's key state.
pub open spec fn spec_map_input(k: TeamKeys) -> PaddleIntent {
    PaddleIntent { x: spec_x_intent(k.left, k.right), y: spec_y_intent(k.up, k.down) }
}

/// Maps one team's key state to its axis intents. Pure: no physics, no side
/// effects. Tie-breaks follow the first-branch-checked rule: up wins over
/// down, left wins over right.
pub fn map_input(k: TeamKeys) -> (r: PaddleIntent)
    ensures
        r == spec_map_input(k),
{
    let y = if k.up {
        AxisIntent::Positive
    } else if k.down {
        AxisIntent::Negative
    } else {
        AxisIntent::Neutral
    };
    let x = if k.left {
        AxisIntent::Negative
    } else if k.right {
        AxisIntent::Positive
    } else {
        AxisIntent::Neutral
    };
    PaddleIntent { x, y }
}

/// One commanded component: the signed speed for the intent, with the given
/// magnitude.
pub open spec fn spec_command_comp(i: AxisIntent, magnitude: Rat) -> Rat {
    match i {
        AxisIntent::Negative => magnitude.spec_neg(),
        AxisIntent::Neutral => Rat { num: 0, den: 1 },
        AxisIntent::Positive => magnitude,
    }
}

/// The commanded motion of a paddle for one tick: the X and Y components
/// carry the intent at the mode's magnitude (the speed constant in
/// `Velocity` mode, exactly one in `PositionDelta` mode), and the Z
/// component is exactly zero — a paddle never moves off its plane.
pub open spec fn spec_control_velocity(mode: ControlMode, intent: PaddleIntent, speed: Rat) -> Vec3r {
    let magnitude = match mode {
        ControlMode::Velocity => speed,
        ControlMode::PositionDelta => Rat { num: 1, den: 1 },
    };
    Vec3r {
        x: spec_command_comp(intent.x, magnitude),
        y: spec_command_comp(intent.y, magnitude),
        z: Rat { num: 0, den: 1 },
    }
}

/// Computes a paddle's commanded motion from its intents. Total: intents
/// only flip the sign of the magnitude, which never overflows.
pub fn control_velocity(mode: ControlMode, intent: PaddleIntent, speed: Rat) -> (r: Vec3r)
    requires
        speed.wf(),
    ensures
        r == spec_control_velocity(mode, intent, speed),
        r.wf(),
{
    let magnitude = match mode {
        ControlMode::Velocity => speed,
        ControlMode::PositionDelta => Rat::one(),
    };
    let x = match intent.x {
        AxisIntent::Negative => magnitude.neg(),
        AxisIntent::Neutral => Rat::zero(),
        AxisIntent::Positive => magnitude,
    };
    let y = match intent.y {
        AxisIntent::Negative => magnitude.neg(),
        AxisIntent::Neutral => Rat::zero(),
        AxisIntent::Positive => magnitude,
    };
    Vec3r { x, y, z: Rat::zero() }
}

} // verus!

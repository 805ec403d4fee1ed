//! The pluggable grip strategy of a joystick device: a closed tagged union
//! over the available techniques.

use vstd::prelude::*;

use crate::angle::{AngleRangeError, FULL_TURN};
use crate::avatar::Pose;
use crate::device::{BonePose, LimbTarget};
use crate::joystick::glue;
use crate::joystick::Joystick;

verus! {

/// The strategy posing a joystick device, selected once at construction.
#[derive(Debug)]
pub enum Technique {
    Glue(glue::Technique),
}

/// Raw configuration of a joystick technique, tagged by kind.
#[derive(Clone, Copy, Debug, PartialEq, Eq)]
pub enum TechniqueConfig {
    Glue(glue::TechniqueConfig),
}

impl Default for TechniqueConfig {
    /// The default technique selection: glue, with its own defaults.
    fn default() -> (r: TechniqueConfig)
        ensures
            r == TechniqueConfig::Glue(glue::TechniqueConfig { right_hand: None }),
    {
        TechniqueConfig::Glue(glue::TechniqueConfig { right_hand: None })
    }
}

impl TechniqueConfig {
    /// Whether the configured rest angle is accepted by the angle codec.
    pub open spec fn valid(self) -> bool {
        match self {
            TechniqueConfig::Glue(c) => c.valid(),
        }
    }

    /// The rest angle the technique will hold, in millidegrees.
    pub open spec fn encoded_angle(self) -> i64 {
        match self {
            TechniqueConfig::Glue(c) => c.encoded_angle(),
        }
    }

    /// The range error an invalid configuration is rejected with.
    pub open spec fn range_error(self) -> AngleRangeError {
        match self {
            TechniqueConfig::Glue(c) => c.range_error(),
        }
    }
}

impl Technique {
    /// The rest angle held by the active technique, in millidegrees.
    pub open spec fn angle(self) -> i64 {
        match self {
            Technique::Glue(t) => t.angle(),
        }
    }

    /// Validity: the held rest angle lies in [0, 360000).
    pub open spec fn wf(self) -> bool {
        0 <= self.angle() < FULL_TURN
    }

    /// Builds the selected technique, failing exactly when the angle codec
    /// rejects the configured rest angle.
    pub fn try_from(config: TechniqueConfig) -> (r: Result<Technique, AngleRangeError>)
        ensures
            r is Ok <==> config.valid(),
            r matches Ok(t) ==> t.angle() == config.encoded_angle() && t.wf(),
            r matches Err(e) ==> e == config.range_error(),
    {
        match config {
            TechniqueConfig::Glue(c) => {
                match glue::Technique::try_from(c) {
                    Ok(t) => Ok(Technique::Glue(t)),
                    Err(e) => Err(e),
                }
            },
        }
    }

    /// Dispatches the forward-pose query to the active technique.
    pub fn pose_forward(&self, joystick: &Joystick) -> (r: Vec<BonePose>)
        ensures
            r@ == glue::joystick_grip_table(),
    {
        match self {
            Technique::Glue(t) => t.pose_forward(joystick),
        }
    }

    /// Dispatches the inverse-pose query to the active technique.
    pub fn pose_inverse(&self, pose: &Pose, joystick: &Joystick) -> (r: Vec<LimbTarget>)
        requires
            self.wf(),
        ensures
            r@.len() == 1,
            r@[0]@ == glue::joystick_target_view_with(joystick@, self.angle()),
    {
        match self {
            Technique::Glue(t) => t.pose_inverse(pose, joystick),
        }
    }

    /// Dispatches the per-tick update to the active technique.
    pub fn update(&mut self, dt_micros: u64, pose: &Pose)
        ensures
            *final(self) == *old(self),
    {
        match self {
            Technique::Glue(t) => t.update(dt_micros, pose),
        }
    }
}

} // verus!

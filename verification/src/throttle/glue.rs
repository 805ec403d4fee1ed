//! The "glue" grip technique for wheel and throttle devices: the left hand
//! is glued to the rim, fingers curled into a fixed grip.

use vstd::prelude::*;

use crate::angle::{encode_degrees, encode_spec, AngleRangeError, FULL_TURN};
use crate::avatar::Pose;
use crate::bone::{Bone, Limb};
use crate::device::{BonePose, ForwardPose, LimbTarget, LimbTargetView, WorldPoint, WorldPointView};
use crate::math::{copy_rots, Rot, Vec3};
use crate::throttle::{Throttle, ThrottleView};

verus! {

/// Curl of a proximal or distal finger joint: 0.05 of a turn.
pub const CURL_LIGHT: i64 = 18_000;

/// Curl of an intermediate finger joint: 0.25 of a turn.
pub const CURL_FULL: i64 = 90_000;

/// Yaw of the left hand on the rim: a quarter turn.
pub const LEFT_HAND_YAW: i64 = 90_000;

/// The glue grip strategy.
///
/// Holds the left hand's configured rest angle (millidegrees, already
/// re-anchored by the angle codec) and is otherwise stateless. The current
/// grip derives the hand orientation from the fixed yaw alone; the rest
/// angle is kept for techniques layered on this one.
#[derive(Debug)]
pub struct Technique {
    left_hand_angle: i64,
}

/// Raw configuration of the glue technique: the left hand's rest angle in
/// millidegrees of the user's convention, absent to take the default.
#[derive(Clone, Copy, Debug, PartialEq, Eq, Structural)]
pub struct TechniqueConfig {
    pub left_hand: Option<i64>,
}

impl Default for TechniqueConfig {
    /// By default the rest angle is absent: construction uses the
    /// 180-degree-equivalent rest angle.
    fn default() -> (r: TechniqueConfig)
        ensures
            r == (TechniqueConfig { left_hand: None }),
    {
        TechniqueConfig { left_hand: None }
    }
}

/// The rest angle construction uses when none is configured:
/// the 180-degree-equivalent internal angle, in millidegrees.
fn left_hand_default() -> (r: i64)
    ensures
        r == 180_000,
{
    180_000
}

impl TechniqueConfig {
    /// Whether the configured angle is accepted by the angle codec. An
    /// absent angle is always accepted.
    pub open spec fn valid(self) -> bool {
        match self.left_hand {
            Some(raw) => 0 <= raw <= 360_000,
            None => true,
        }
    }

    /// The internal rest angle construction produces: the default when
    /// absent, the codec's output otherwise.
    pub open spec fn encoded_angle(self) -> i64 {
        match self.left_hand {
            Some(raw) => encode_spec(raw as int) as i64,
            None => 180_000,
        }
    }

    /// The range error an invalid angle is rejected with.
    pub open spec fn range_error(self) -> AngleRangeError {
        match self.left_hand {
            Some(raw) => AngleRangeError { value: raw, min: 0, max: 360_000 },
            None => AngleRangeError { value: 0, min: 0, max: 360_000 },
        }
    }
}

impl Technique {
    /// The held rest angle, in millidegrees.
    pub closed spec fn angle(self) -> i64 {
        self.left_hand_angle
    }

    /// Validity: the rest angle lies in [0, 360000).
    pub open spec fn wf(self) -> bool {
        0 <= self.angle() < FULL_TURN
    }

    /// Builds the technique from its configuration, failing exactly when
    /// the angle codec rejects the configured rest angle.
    pub fn try_from(config: TechniqueConfig) -> (r: Result<Technique, AngleRangeError>)
        ensures
            r is Ok <==> config.valid(),
            r matches Ok(t) ==> t.angle() == config.encoded_angle() && t.wf(),
            r matches Err(e) ==> e == config.range_error(),
    {
        match config.left_hand {
            None => Ok(Technique { left_hand_angle: left_hand_default() }),
            Some(raw) => match encode_degrees(raw) {
                Ok(v) => Ok(Technique { left_hand_angle: v }),
                Err(e) => Err(e),
            },
        }
    }

    /// The fixed grip: curls the four fingers of the left hand, each as a
    /// local rotation at full weight. Independent of the live input value.
    pub fn pose_forward(&self, _throttle: &Throttle) -> (r: Vec<BonePose>)
        ensures
            r@ == wheel_grip_table(),
    {
        let mut bones: Vec<BonePose> = Vec::new();
        bones.push(local_curl(Bone::LeftIndexProximal, CURL_LIGHT));
        bones.push(local_curl(Bone::LeftIndexIntermediate, CURL_FULL));
        bones.push(local_curl(Bone::LeftIndexDistal, CURL_LIGHT));
        bones.push(local_curl(Bone::LeftMiddleProximal, CURL_LIGHT));
        bones.push(local_curl(Bone::LeftMiddleIntermediate, CURL_FULL));
        bones.push(local_curl(Bone::LeftMiddleDistal, CURL_LIGHT));
        bones.push(local_curl(Bone::LeftRingProximal, CURL_LIGHT));
        bones.push(local_curl(Bone::LeftRingIntermediate, CURL_FULL));
        bones.push(local_curl(Bone::LeftRingDistal, CURL_LIGHT));
        bones.push(local_curl(Bone::LeftLittleProximal, CURL_LIGHT));
        bones.push(local_curl(Bone::LeftLittleIntermediate, CURL_FULL));
        bones.push(local_curl(Bone::LeftLittleDistal, CURL_LIGHT));
        proof {
            assert(bones@ =~= wheel_grip_table());
        }
        bones
    }

    /// The left-hand IK target: the hand placed on the rim at the device's
    /// current position and orientation, offset by the radius, at full
    /// weight.
    pub fn pose_inverse(&self, _pose: &Pose, throttle: &Throttle) -> (r: Vec<LimbTarget>)
        ensures
            r@.len() == 1,
            r@[0]@ == throttle_target_view(throttle@),
    {
        let local_pos = Vec3 { x: 10_000_000, y: throttle.radius, z: -48_661_770 };
        let local_rot = Rot::EulerYXZ { y: LEFT_HAND_YAW, x: 0, z: 0 };
        let mut target_rot = copy_rots(&throttle.rot);
        target_rot.push(local_rot);
        let target = LimbTarget {
            limb: Limb::LeftHand,
            weight_permille: 1000,
            pos: WorldPoint {
                base: throttle.pos,
                rot: copy_rots(&throttle.rot),
                offset: local_pos,
            },
            rot: target_rot,
        };
        let mut out: Vec<LimbTarget> = Vec::new();
        out.push(target);
        proof {
            assert(out@[0]@ =~= throttle_target_view(throttle@));
        }
        out
    }

    /// Reserved hook for time-dependent technique state; the glue grip has
    /// none, so nothing changes.
    pub fn update(&mut self, _dt_micros: u64, _pose: &Pose)
        ensures
            *final(self) == *old(self),
    {
    }
}

/// One fixed finger-curl entry: a local rotation about the Z axis at full
/// weight.
fn local_curl(bone: Bone, millideg: i64) -> (r: BonePose)
    ensures
        r == curl_z(bone, millideg),
{
    BonePose { bone, weight_permille: 1000, pose: ForwardPose::Local(Rot::RotZ(millideg)) }
}

/// A local Z-axis curl of one bone at full weight.
pub open spec fn curl_z(bone: Bone, millideg: i64) -> BonePose {
    BonePose { bone, weight_permille: 1000, pose: ForwardPose::Local(Rot::RotZ(millideg)) }
}

/// The fixed left-hand grip: proximal and distal joints of the four
/// fingers curled by 0.05 of a turn, intermediate joints by 0.25.
pub open spec fn wheel_grip_table() -> Seq<BonePose> {
    seq![
        curl_z(Bone::LeftIndexProximal, CURL_LIGHT),
        curl_z(Bone::LeftIndexIntermediate, CURL_FULL),
        curl_z(Bone::LeftIndexDistal, CURL_LIGHT),
        curl_z(Bone::LeftMiddleProximal, CURL_LIGHT),
        curl_z(Bone::LeftMiddleIntermediate, CURL_FULL),
        curl_z(Bone::LeftMiddleDistal, CURL_LIGHT),
        curl_z(Bone::LeftRingProximal, CURL_LIGHT),
        curl_z(Bone::LeftRingIntermediate, CURL_FULL),
        curl_z(Bone::LeftRingDistal, CURL_LIGHT),
        curl_z(Bone::LeftLittleProximal, CURL_LIGHT),
        curl_z(Bone::LeftLittleIntermediate, CURL_FULL),
        curl_z(Bone::LeftLittleDistal, CURL_LIGHT),
    ]
}

/// The wheel grip's hand offset from the device anchor, in device space:
/// a fixed offset with the configured radius (nanometers) on the Y axis.
pub open spec fn wheel_local_offset(radius: i64) -> Vec3 {
    Vec3 { x: 10_000_000, y: radius, z: -48_661_770i64 }
}

/// The wheel grip's hand orientation in device space: the fixed yaw alone.
pub open spec fn wheel_local_rot() -> Rot {
    Rot::EulerYXZ { y: LEFT_HAND_YAW, x: 0, z: 0 }
}

/// The left-hand IK target as a function of the device's current geometry:
/// position `pos + rot * offset`, orientation `rot * local`, full weight.
pub open spec fn throttle_target_view(v: ThrottleView) -> LimbTargetView {
    LimbTargetView {
        limb: Limb::LeftHand,
        weight_permille: 1000,
        pos: WorldPointView { base: v.pos, rot: v.rot, offset: wheel_local_offset(v.radius) },
        rot: v.rot.push(wheel_local_rot()),
    }
}

} // verus!

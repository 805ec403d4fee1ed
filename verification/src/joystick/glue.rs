//! The "glue" grip technique for joystick devices: the right hand is glued
//! to the stick, fingers and thumb curled into a fixed grip.

use vstd::prelude::*;

use crate::angle::{encode_degrees, encode_spec, AngleRangeError, FULL_TURN};
use crate::avatar::Pose;
use crate::bone::{Bone, Limb};
use crate::device::{BonePose, ForwardPose, LimbTarget, LimbTargetView, WorldPoint, WorldPointView};
use crate::joystick::{Joystick, JoystickView};
use crate::math::{copy_rots, Rot, Vec3};

verus! {

/// Curl of a proximal or distal finger joint: 0.1 of a turn, toward the
/// palm of the right hand.
pub const CURL_LIGHT: i64 = -36_000;

/// Curl of an intermediate finger joint: 0.25 of a turn, toward the palm
/// of the right hand.
pub const CURL_FULL: i64 = -90_000;

/// Yaw of the right hand on the stick: a quarter turn, mirroring the left
/// hand's.
pub const RIGHT_HAND_YAW: i64 = -90_000;

/// Yaw of the thumb's proximal joint: 0.02 of a turn.
pub const THUMB_PROXIMAL_YAW: i64 = 7_200;

/// Pitch of the thumb's proximal and intermediate joints: 0.08 of a turn.
pub const THUMB_PITCH: i64 = 28_800;

/// Pitch of the thumb's distal joint: 0.03 of a turn.
pub const THUMB_DISTAL_PITCH: i64 = 10_800;

/// The glue grip strategy.
///
/// Holds the right hand's configured rest angle (millidegrees, already
/// re-anchored by the angle codec) and is otherwise stateless.
#[derive(Debug)]
pub struct Technique {
    right_hand_angle: i64,
}

/// Raw configuration of the glue technique: the right hand's rest angle in
/// millidegrees of the user's convention, absent to take the default.
#[derive(Clone, Copy, Debug, PartialEq, Eq, Structural)]
pub struct TechniqueConfig {
    pub right_hand: Option<i64>,
}

impl Default for TechniqueConfig {
    /// By default the rest angle is absent: construction uses the
    /// 0-degree-equivalent rest angle.
    fn default() -> (r: TechniqueConfig)
        ensures
            r == (TechniqueConfig { right_hand: None }),
    {
        TechniqueConfig { right_hand: None }
    }
}

/// The rest angle construction uses when none is configured:
/// the 0-degree-equivalent internal angle, in millidegrees.
fn right_hand_default() -> (r: i64)
    ensures
        r == 0,
{
    0
}

impl TechniqueConfig {
    /// Whether the configured angle is accepted by the angle codec. An
    /// absent angle is always accepted.
    pub open spec fn valid(self) -> bool {
        match self.right_hand {
            Some(raw) => 0 <= raw <= 360_000,
            None => true,
        }
    }

    /// The internal rest angle construction produces: the default when
    /// absent, the codec's output otherwise.
    pub open spec fn encoded_angle(self) -> i64 {
        match self.right_hand {
            Some(raw) => encode_spec(raw as int) as i64,
            None => 0,
        }
    }

    /// The range error an invalid angle is rejected with.
    pub open spec fn range_error(self) -> AngleRangeError {
        match self.right_hand {
            Some(raw) => AngleRangeError { value: raw, min: 0, max: 360_000 },
            None => AngleRangeError { value: 0, min: 0, max: 360_000 },
        }
    }
}

impl Technique {
    /// The held rest angle, in millidegrees.
    pub closed spec fn angle(self) -> i64 {
        self.right_hand_angle
    }

    /// Validity: the rest angle lies in [0, 360000).
    pub open spec fn wf(self) -> bool {
        0 <= self.angle() < FULL_TURN
    }

    /// Builds the technique from its configuration, failing exactly when
    /// the angle codec rejects the configured rest angle.
    pub fn try_from(config: TechniqueConfig) -> (r: Result<Technique, AngleRangeError>)
        ensures
            r is Ok <==> config.valid(),
            r matches Ok(t) ==> t.angle() == config.encoded_angle() && t.wf(),
            r matches Err(e) ==> e == config.range_error(),
    {
        match config.right_hand {
            None => Ok(Technique { right_hand_angle: right_hand_default() }),
            Some(raw) => match encode_degrees(raw) {
                Ok(v) => Ok(Technique { right_hand_angle: v }),
                Err(e) => Err(e),
            },
        }
    }

    /// The fixed grip: curls the four fingers of the right hand and poses
    /// the thumb with a compound rotation, each as a local rotation at full
    /// weight. Independent of the live input value.
    pub fn pose_forward(&self, _joystick: &Joystick) -> (r: Vec<BonePose>)
        ensures
            r@ == joystick_grip_table(),
    {
        let mut bones: Vec<BonePose> = Vec::new();
        bones.push(local_pose(Bone::RightIndexProximal, Rot::RotZ(CURL_LIGHT)));
        bones.push(local_pose(Bone::RightIndexIntermediate, Rot::RotZ(CURL_FULL)));
        bones.push(local_pose(Bone::RightIndexDistal, Rot::RotZ(CURL_LIGHT)));
        bones.push(local_pose(Bone::RightMiddleProximal, Rot::RotZ(CURL_LIGHT)));
        bones.push(local_pose(Bone::RightMiddleIntermediate, Rot::RotZ(CURL_FULL)));
        bones.push(local_pose(Bone::RightMiddleDistal, Rot::RotZ(CURL_LIGHT)));
        bones.push(local_pose(Bone::RightRingProximal, Rot::RotZ(CURL_LIGHT)));
        bones.push(local_pose(Bone::RightRingIntermediate, Rot::RotZ(CURL_FULL)));
        bones.push(local_pose(Bone::RightRingDistal, Rot::RotZ(CURL_LIGHT)));
        bones.push(local_pose(Bone::RightLittleProximal, Rot::RotZ(CURL_LIGHT)));
        bones.push(local_pose(Bone::RightLittleIntermediate, Rot::RotZ(CURL_FULL)));
        bones.push(local_pose(Bone::RightLittleDistal, Rot::RotZ(CURL_LIGHT)));
        bones.push(local_pose(
            Bone::RightThumbProximal,
            Rot::EulerYZX { y: THUMB_PROXIMAL_YAW, z: 0, x: THUMB_PITCH },
        ));
        bones.push(local_pose(Bone::RightThumbIntermediate, Rot::RotY(THUMB_PITCH)));
        bones.push(local_pose(Bone::RightThumbDistal, Rot::RotY(THUMB_DISTAL_PITCH)));
        proof {
            assert(bones@ =~= joystick_grip_table());
        }
        bones
    }

    /// The right-hand IK target: the hand placed on the stick at the
    /// device's current position and orientation, offset by the radius, at
    /// full weight. The hand's pitch combines the fixed yaw with the rest
    /// angle, sign-adjusted by the yaw's own sign.
    pub fn pose_inverse(&self, _pose: &Pose, joystick: &Joystick) -> (r: Vec<LimbTarget>)
        requires
            self.wf(),
        ensures
            r@.len() == 1,
            r@[0]@ == joystick_target_view_with(joystick@, self.angle()),
    {
        let yaw: i64 = RIGHT_HAND_YAW;
        let sign: i64 = if yaw < 0 {
            -1
        } else if yaw > 0 {
            1
        } else {
            0
        };
        let pitch: i64 = yaw - sign * self.right_hand_angle;
        let local_pos = Vec3 { x: 20_000_000, y: joystick.radius, z: -55_000_000 };
        let local_rot = Rot::EulerYXZ { y: yaw, x: pitch, z: 0 };
        let mut target_rot = copy_rots(&joystick.rot);
        target_rot.push(local_rot);
        let target = LimbTarget {
            limb: Limb::RightHand,
            weight_permille: 1000,
            pos: WorldPoint {
                base: joystick.pos,
                rot: copy_rots(&joystick.rot),
                offset: local_pos,
            },
            rot: target_rot,
        };
        let mut out: Vec<LimbTarget> = Vec::new();
        out.push(target);
        proof {
            assert(out@[0]@ =~= joystick_target_view_with(joystick@, self.angle()));
        }
        out
    }

    /// Reserved hook for time-dependent technique state; the glue grip has
    /// none, so nothing changes.
    pub fn update(&mut self, _dt_micros: u64, _pose: &Pose)
        ensures
            *final(self) == *old(self),
    {
    }
}

/// One fixed grip entry: a local rotation at full weight.
fn local_pose(bone: Bone, rot: Rot) -> (r: BonePose)
    ensures
        r == pose_local(bone, rot),
{
    BonePose { bone, weight_permille: 1000, pose: ForwardPose::Local(rot) }
}

/// A local rotation of one bone at full weight.
pub open spec fn pose_local(bone: Bone, rot: Rot) -> BonePose {
    BonePose { bone, weight_permille: 1000, pose: ForwardPose::Local(rot) }
}

/// The fixed right-hand grip: proximal and distal joints of the four
/// fingers curled by 0.1 of a turn, intermediate joints by 0.25, and the
/// thumb posed by a compound rotation.
pub open spec fn joystick_grip_table() -> Seq<BonePose> {
    seq![
        pose_local(Bone::RightIndexProximal, Rot::RotZ(CURL_LIGHT)),
        pose_local(Bone::RightIndexIntermediate, Rot::RotZ(CURL_FULL)),
        pose_local(Bone::RightIndexDistal, Rot::RotZ(CURL_LIGHT)),
        pose_local(Bone::RightMiddleProximal, Rot::RotZ(CURL_LIGHT)),
        pose_local(Bone::RightMiddleIntermediate, Rot::RotZ(CURL_FULL)),
        pose_local(Bone::RightMiddleDistal, Rot::RotZ(CURL_LIGHT)),
        pose_local(Bone::RightRingProximal, Rot::RotZ(CURL_LIGHT)),
        pose_local(Bone::RightRingIntermediate, Rot::RotZ(CURL_FULL)),
        pose_local(Bone::RightRingDistal, Rot::RotZ(CURL_LIGHT)),
        pose_local(Bone::RightLittleProximal, Rot::RotZ(CURL_LIGHT)),
        pose_local(Bone::RightLittleIntermediate, Rot::RotZ(CURL_FULL)),
        pose_local(Bone::RightLittleDistal, Rot::RotZ(CURL_LIGHT)),
        pose_local(
            Bone::RightThumbProximal,
            Rot::EulerYZX { y: THUMB_PROXIMAL_YAW, z: 0, x: THUMB_PITCH },
        ),
        pose_local(Bone::RightThumbIntermediate, Rot::RotY(THUMB_PITCH)),
        pose_local(Bone::RightThumbDistal, Rot::RotY(THUMB_DISTAL_PITCH)),
    ]
}

/// The sign of a millidegree angle.
pub open spec fn sign_of(a: i64) -> i64 {
    if a < 0 {
        -1i64
    } else if a > 0 {
        1i64
    } else {
        0i64
    }
}

/// The joystick grip's hand offset from the device anchor, in device
/// space: a fixed offset with the configured radius (nanometers) on the Y
/// axis.
pub open spec fn joystick_local_offset(radius: i64) -> Vec3 {
    Vec3 { x: 20_000_000, y: radius, z: -55_000_000i64 }
}

/// The joystick grip's hand orientation in device space: the fixed yaw,
/// and a pitch of the yaw minus the rest angle adjusted by the yaw's sign.
pub open spec fn joystick_local_rot(angle: i64) -> Rot {
    Rot::EulerYXZ {
        y: RIGHT_HAND_YAW,
        x: (RIGHT_HAND_YAW - sign_of(RIGHT_HAND_YAW) * angle) as i64,
        z: 0,
    }
}

/// The right-hand IK target as a function of the device's current geometry
/// and a rest angle: position `pos + rot * offset`, orientation
/// `rot * local`, full weight.
pub open spec fn joystick_target_view_with(v: JoystickView, angle: i64) -> LimbTargetView {
    LimbTargetView {
        limb: Limb::RightHand,
        weight_permille: 1000,
        pos: WorldPointView { base: v.pos, rot: v.rot, offset: joystick_local_offset(v.radius) },
        rot: v.rot.push(joystick_local_rot(angle)),
    }
}

/// The right-hand IK target with the rest angle the device's own technique
/// holds.
pub open spec fn joystick_target_view(v: JoystickView) -> LimbTargetView {
    joystick_target_view_with(v, v.technique_angle)
}

} // verus!

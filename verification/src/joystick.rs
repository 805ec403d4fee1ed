//! State of a joystick control surface: the device family gripped with the
//! right hand. Mirrors the wheel/throttle pattern.

pub mod glue;
pub mod technique;

use vstd::prelude::*;

use crate::angle::FULL_TURN;
use crate::device::{BonePose, DeviceError, LimbTarget, TrackerPose, TrackerPoseView};
use crate::avatar::Pose;
use crate::math::{copy_rots, live_rot, Rot, Vec3};

verus! {

/// A joystick control surface.
///
/// Owns its spatial placement, the last-set input angle per axis, and the
/// grip technique that turns its geometry into poses. Built only by
/// [`Joystick::try_from`], which establishes [`Joystick::wf`]; every method
/// preserves it.
#[derive(Debug)]
pub struct Joystick {
    pub(crate) pos: Vec3,
    pub(crate) rot: Vec<Rot>,
    pub(crate) radius: i64,
    pub(crate) angle_x: i64,
    pub(crate) angle_y: i64,
    pub(crate) angle_z: i64,
    pub(crate) base_rot: Rot,
    pub(crate) tracker: Option<String>,
    pub(crate) technique: technique::Technique,
}

/// Mathematical value of a [`Joystick`]: positions in nanometers, angles in
/// millidegrees, the orientation as a rotation product.
#[verifier::ext_equal]
pub struct JoystickView {
    pub pos: Vec3,
    pub rot: Seq<Rot>,
    pub radius: i64,
    pub angle_x: i64,
    pub angle_y: i64,
    pub angle_z: i64,
    pub base_rot: Rot,
    pub tracker: Option<Seq<char>>,
    pub technique_angle: i64,
}

impl View for Joystick {
    type V = JoystickView;

    closed spec fn view(&self) -> JoystickView {
        JoystickView {
            pos: self.pos,
            rot: self.rot@,
            radius: self.radius,
            angle_x: self.angle_x,
            angle_y: self.angle_y,
            angle_z: self.angle_z,
            base_rot: self.base_rot,
            tracker: match self.tracker {
                Some(ref s) => Some(s@),
                None => None,
            },
            technique_angle: self.technique.angle(),
        }
    }
}

/// The whole effect of `set_value` on a joystick: each supplied axis is
/// stored, each absent axis keeps its prior value, and the orientation is
/// recomputed from scratch as the rest orientation composed with the negated
/// live angles. Nothing else changes.
pub open spec fn set_value_spec(
    v: JoystickView,
    x: Option<i64>,
    y: Option<i64>,
    z: Option<i64>,
) -> JoystickView {
    let ax = crate::throttle::updated_angle(v.angle_x, x);
    let ay = crate::throttle::updated_angle(v.angle_y, y);
    let az = crate::throttle::updated_angle(v.angle_z, z);
    JoystickView {
        angle_x: ax,
        angle_y: ay,
        angle_z: az,
        rot: live_rot(v.base_rot, ax, ay, az),
        ..v
    }
}

/// Partial-update law: an axis given as `None` keeps exactly the value it
/// held immediately before the call, and an axis given as `Some` holds
/// exactly the supplied value afterwards.
pub proof fn lemma_partial_update(v: JoystickView, x: Option<i64>, y: Option<i64>, z: Option<i64>)
    ensures
        x is None ==> set_value_spec(v, x, y, z).angle_x == v.angle_x,
        y is None ==> set_value_spec(v, x, y, z).angle_y == v.angle_y,
        z is None ==> set_value_spec(v, x, y, z).angle_z == v.angle_z,
        x matches Some(nv) ==> set_value_spec(v, x, y, z).angle_x == nv,
        y matches Some(nv) ==> set_value_spec(v, x, y, z).angle_y == nv,
        z matches Some(nv) ==> set_value_spec(v, x, y, z).angle_z == nv,
{
}

/// Recompute is deterministic and pure: a second `set_value` with identical
/// arguments leaves the device, its orientation included, exactly as the
/// first left it.
pub proof fn lemma_set_value_idempotent(
    v: JoystickView,
    x: Option<i64>,
    y: Option<i64>,
    z: Option<i64>,
)
    ensures
        set_value_spec(set_value_spec(v, x, y, z), x, y, z) == set_value_spec(v, x, y, z),
{
    assert(set_value_spec(set_value_spec(v, x, y, z), x, y, z) =~= set_value_spec(v, x, y, z));
}

/// Raw configuration record for a joystick device.
///
/// `position` is x, y, z in nanometers; `rotation` is x, y, z Euler angles
/// in millidegrees, applied in yaw, pitch, roll (Y, X, Z) order; `radius`
/// is in nanometers and must be strictly positive.
#[derive(Debug, PartialEq, Eq)]
pub struct JoystickConfig {
    pub position: [i64; 3],
    pub rotation: [i64; 3],
    pub radius: i64,
    pub tracker: Option<String>,
    pub technique: technique::TechniqueConfig,
}

impl JoystickConfig {
    /// The configured anchor position as a vector.
    pub open spec fn position_spec(self) -> Vec3 {
        Vec3 { x: self.position[0], y: self.position[1], z: self.position[2] }
    }

    /// The configured rest orientation: one Euler rotation in yaw, pitch,
    /// roll order.
    pub open spec fn base_rot_spec(self) -> Rot {
        Rot::EulerYXZ { y: self.rotation[1], x: self.rotation[0], z: self.rotation[2] }
    }

    /// The tracker name as a character sequence.
    pub open spec fn tracker_spec(self) -> Option<Seq<char>> {
        match self.tracker {
            Some(s) => Some(s@),
            None => None,
        }
    }

    /// Whether construction from this record succeeds: a strictly positive
    /// radius and an accepted technique angle.
    pub open spec fn valid(self) -> bool {
        self.radius > 0 && self.technique.valid()
    }

    /// The device a valid record builds: the configured placement, all
    /// input angles zero, the orientation at its recompute rule.
    pub open spec fn built_view(self) -> JoystickView {
        JoystickView {
            pos: self.position_spec(),
            rot: live_rot(self.base_rot_spec(), 0, 0, 0),
            radius: self.radius,
            angle_x: 0,
            angle_y: 0,
            angle_z: 0,
            base_rot: self.base_rot_spec(),
            tracker: self.tracker_spec(),
            technique_angle: self.technique.encoded_angle(),
        }
    }

    /// The error an invalid record is rejected with: a non-positive radius
    /// is reported first, then the technique's range error.
    pub open spec fn error_spec(self) -> DeviceError {
        if self.radius <= 0 {
            DeviceError::NonPositiveRadius { radius: self.radius }
        } else {
            DeviceError::JoystickTechnique(self.technique.range_error())
        }
    }
}

impl Default for JoystickConfig {
    /// The defaults of the configuration schema: the origin, no rest
    /// rotation, a 0.17 meter radius, no tracker, the default technique.
    fn default() -> (r: JoystickConfig)
        ensures
            r == (JoystickConfig {
                position: [0, 0, 0],
                rotation: [0, 0, 0],
                radius: 170_000_000,
                tracker: None,
                technique: technique::TechniqueConfig::Glue(glue::TechniqueConfig {
                    right_hand: None,
                }),
            }),
    {
        JoystickConfig {
            position: [0, 0, 0],
            rotation: [0, 0, 0],
            radius: 170_000_000,
            tracker: None,
            technique: technique::TechniqueConfig::Glue(glue::TechniqueConfig { right_hand: None }),
        }
    }
}

impl Joystick {
    /// Validity: positive radius, a technique angle in [0, 360000), stored
    /// angles safe to negate, and the orientation equal to the recompute
    /// rule applied to the stored angles.
    pub open spec fn wf(self) -> bool {
        &&& self@.radius > 0
        &&& self@.angle_x > i64::MIN
        &&& self@.angle_y > i64::MIN
        &&& self@.angle_z > i64::MIN
        &&& 0 <= self@.technique_angle < FULL_TURN
        &&& self@.rot == live_rot(self@.base_rot, self@.angle_x, self@.angle_y, self@.angle_z)
    }

    /// Builds a joystick from its validated configuration.
    ///
    /// Fails exactly when the radius is not strictly positive (reported
    /// first) or when the technique rejects its rest angle; on success the
    /// device starts at the configured placement with all input angles zero.
    pub fn try_from(config: JoystickConfig) -> (r: Result<Joystick, DeviceError>)
        ensures
            r is Ok <==> config.valid(),
            !config.valid() ==> r == Err::<Joystick, DeviceError>(config.error_spec()),
            r matches Ok(j) ==> j.wf() && j@ == config.built_view(),
    {
        if config.radius <= 0 {
            return Err(DeviceError::NonPositiveRadius { radius: config.radius });
        }
        let technique = match technique::Technique::try_from(config.technique) {
            Ok(t) => t,
            Err(e) => {
                return Err(DeviceError::JoystickTechnique(e));
            },
        };
        let base_rot = Rot::EulerYXZ {
            y: config.rotation[1],
            x: config.rotation[0],
            z: config.rotation[2],
        };
        let mut rot: Vec<Rot> = Vec::new();
        rot.push(base_rot);
        rot.push(Rot::RotX(0));
        rot.push(Rot::RotY(0));
        rot.push(Rot::RotZ(0));
        let joystick = Joystick {
            pos: Vec3 { x: config.position[0], y: config.position[1], z: config.position[2] },
            rot,
            radius: config.radius,
            angle_x: 0,
            angle_y: 0,
            angle_z: 0,
            base_rot,
            tracker: config.tracker,
            technique,
        };
        proof {
            assert(joystick@.rot =~= live_rot(config.base_rot_spec(), 0, 0, 0));
        }
        Ok(joystick)
    }

    /// Partial update of the input angles (millidegrees), then a full
    /// recompute of the orientation. An absent axis keeps its prior value.
    pub fn set_value(&mut self, value_x: Option<i64>, value_y: Option<i64>, value_z: Option<i64>)
        requires
            old(self).wf(),
            value_x matches Some(v) ==> v > i64::MIN,
            value_y matches Some(v) ==> v > i64::MIN,
            value_z matches Some(v) ==> v > i64::MIN,
        ensures
            final(self)@ == set_value_spec(old(self)@, value_x, value_y, value_z),
            final(self).wf(),
    {
        match value_x {
            Some(new_value) => self.angle_x = new_value,
            None => (),
        };
        match value_y {
            Some(new_value) => self.angle_y = new_value,
            None => (),
        };
        match value_z {
            Some(new_value) => self.angle_z = new_value,
            None => (),
        };
        let mut rot: Vec<Rot> = Vec::new();
        rot.push(self.base_rot);
        rot.push(Rot::RotX(-self.angle_x));
        rot.push(Rot::RotY(-self.angle_y));
        rot.push(Rot::RotZ(-self.angle_z));
        self.rot = rot;
        proof {
            assert(self@.rot =~= live_rot(self@.base_rot, self@.angle_x, self@.angle_y, self@.angle_z));
            assert(self@ =~= set_value_spec(old(self)@, value_x, value_y, value_z));
        }
    }

    /// The fixed right-hand grip of the active technique.
    pub fn pose_forward(&self) -> (r: Vec<BonePose>)
        ensures
            r@ == glue::joystick_grip_table(),
    {
        self.technique.pose_forward(self)
    }

    /// The right-hand IK target of the active technique, a function of the
    /// current geometry.
    pub fn pose_inverse(&self, pose: &Pose) -> (r: Vec<LimbTarget>)
        requires
            self.wf(),
        ensures
            r@.len() == 1,
            r@[0]@ == glue::joystick_target_view(self@),
    {
        self.technique.pose_inverse(pose, self)
    }

    /// The tracker stream: one entry when a tracker name was configured,
    /// none otherwise.
    pub fn trackers(&self) -> (r: Option<TrackerPose>)
        ensures
            self@.tracker is None <==> r is None,
            (self@.tracker matches Some(name) ==> r matches Some(t) && t@ == (TrackerPoseView {
                name,
                pos: self@.pos,
                rot: self@.rot,
            })),
    {
        match &self.tracker {
            Some(tracker) => Some(
                TrackerPose { name: tracker.clone(), pos: self.pos, rot: copy_rots(&self.rot) },
            ),
            None => None,
        }
    }

    /// Advances the technique's time-dependent state. The glue technique is
    /// stateless, so nothing changes.
    pub fn update(&mut self, dt_micros: u64, pose: &Pose)
        ensures
            *final(self) == *old(self),
    {
        self.technique.update(dt_micros, pose)
    }
}

} // verus!

//! The device layer: pose records, construction errors, and the tagged
//! `Device` union that dispatches every operation to its active variant.

use vstd::prelude::*;

use crate::angle::AngleRangeError;
use crate::avatar::Pose;
use crate::bone::{Bone, Limb};
use crate::joystick::{Joystick, JoystickConfig, JoystickView};
use crate::math::{Rot, Vec3};
use crate::throttle::{Throttle, ThrottleConfig, ThrottleView};

verus! {

/// How a forward-posed bone rotation is to be applied.
///
/// `Local` is relative to the bone's parent in the rest skeleton; `Global`
/// overrides the bone's world orientation directly.
#[derive(Clone, Copy, Debug, PartialEq, Eq, Structural)]
pub enum ForwardPose {
    Global(Rot),
    Local(Rot),
}

/// One entry of the forward-pose stream: a bone, a blend weight in
/// permille of full influence, and the rotation to apply.
#[derive(Clone, Copy, Debug, PartialEq, Eq, Structural)]
pub struct BonePose {
    pub bone: Bone,
    pub weight_permille: u32,
    pub pose: ForwardPose,
}

/// A world-space point given as `base + rot * offset`: an anchor position,
/// an orientation, and an offset rotated by that orientation.
#[derive(Debug, PartialEq, Eq)]
pub struct WorldPoint {
    pub base: Vec3,
    pub rot: Vec<Rot>,
    pub offset: Vec3,
}

/// Mathematical value of a [`WorldPoint`].
#[verifier::ext_equal]
pub struct WorldPointView {
    pub base: Vec3,
    pub rot: Seq<Rot>,
    pub offset: Vec3,
}

impl View for WorldPoint {
    type V = WorldPointView;

    open spec fn view(&self) -> WorldPointView {
        WorldPointView { base: self.base, rot: self.rot@, offset: self.offset }
    }
}

/// One entry of the limb-target stream for the external IK solver: a limb,
/// an influence weight in permille, and the world-space placement to reach.
#[derive(Debug, PartialEq, Eq)]
pub struct LimbTarget {
    pub limb: Limb,
    pub weight_permille: u32,
    pub pos: WorldPoint,
    pub rot: Vec<Rot>,
}

/// Mathematical value of a [`LimbTarget`].
#[verifier::ext_equal]
pub struct LimbTargetView {
    pub limb: Limb,
    pub weight_permille: u32,
    pub pos: WorldPointView,
    pub rot: Seq<Rot>,
}

impl View for LimbTarget {
    type V = LimbTargetView;

    open spec fn view(&self) -> LimbTargetView {
        LimbTargetView {
            limb: self.limb,
            weight_permille: self.weight_permille,
            pos: self.pos@,
            rot: self.rot@,
        }
    }
}

/// One entry of the tracker stream: the configured tracker name and the
/// device's current world-space placement.
#[derive(Debug, PartialEq, Eq)]
pub struct TrackerPose {
    pub name: String,
    pub pos: Vec3,
    pub rot: Vec<Rot>,
}

/// Mathematical value of a [`TrackerPose`].
#[verifier::ext_equal]
pub struct TrackerPoseView {
    pub name: Seq<char>,
    pub pos: Vec3,
    pub rot: Seq<Rot>,
}

impl View for TrackerPose {
    type V = TrackerPoseView;

    open spec fn view(&self) -> TrackerPoseView {
        TrackerPoseView { name: self.name@, pos: self.pos, rot: self.rot@ }
    }
}

/// Why building a device from its configuration failed.
///
/// Every failure is detected at load time, before a device exists; each
/// variant carries what the user needs to fix the configuration.
#[derive(Clone, Copy, Debug, PartialEq, Eq, Structural)]
pub enum DeviceError {
    /// The configured radius, in nanometers, was not strictly positive.
    NonPositiveRadius { radius: i64 },
    /// The wheel or throttle grip technique rejected its rest angle.
    WheelTechnique(AngleRangeError),
    /// The joystick grip technique rejected its rest angle.
    JoystickTechnique(AngleRangeError),
}

impl DeviceError {
    /// The failure, phrased for a configuration failure report.
    pub fn message(&self) -> (r: &'static str)
        ensures
            self is NonPositiveRadius ==> r@ == "Wheel radius must be positive."@,
            self is WheelTechnique ==> r@
                == "Failed to initialize driving throttle handling technique"@,
            self is JoystickTechnique ==> r@
                == "Failed to initialize joystick handling technique"@,
    {
        match self {
            DeviceError::NonPositiveRadius { .. } => "Wheel radius must be positive.",
            DeviceError::WheelTechnique(..) => {
                "Failed to initialize driving throttle handling technique"
            },
            DeviceError::JoystickTechnique(..) => "Failed to initialize joystick handling technique",
        }
    }

    /// The underlying angle-range failure, where one caused this error.
    pub fn angle_error(&self) -> (r: Option<AngleRangeError>)
        ensures
            match *self {
                DeviceError::NonPositiveRadius { .. } => r is None,
                DeviceError::WheelTechnique(e) => r == Some(e),
                DeviceError::JoystickTechnique(e) => r == Some(e),
            },
    {
        match self {
            DeviceError::NonPositiveRadius { .. } => None,
            DeviceError::WheelTechnique(e) => Some(*e),
            DeviceError::JoystickTechnique(e) => Some(*e),
        }
    }
}

/// A physical control surface: a closed tagged union over the variant
/// states. Every operation is pure dispatch to the active variant; the
/// variant tag never changes after construction.
#[derive(Debug)]
pub enum Device {
    Wheel(Throttle),
    Joystick(Joystick),
}

/// Mathematical value of a [`Device`]: the active variant's value under its
/// tag.
#[verifier::ext_equal]
pub enum DeviceView {
    Wheel(ThrottleView),
    Joystick(JoystickView),
}

impl View for Device {
    type V = DeviceView;

    open spec fn view(&self) -> DeviceView {
        match self {
            Device::Wheel(w) => DeviceView::Wheel(w@),
            Device::Joystick(j) => DeviceView::Joystick(j@),
        }
    }
}

/// Tag-discriminated raw configuration of one device.
#[derive(Debug, PartialEq, Eq)]
pub enum DeviceConfig {
    Wheel(ThrottleConfig),
    Joystick(JoystickConfig),
}

impl DeviceConfig {
    /// Whether construction from this record succeeds.
    pub open spec fn valid(self) -> bool {
        match self {
            DeviceConfig::Wheel(c) => c.valid(),
            DeviceConfig::Joystick(c) => c.valid(),
        }
    }

    /// The device a valid record builds, under the tag the record selects.
    pub open spec fn built_view(self) -> DeviceView {
        match self {
            DeviceConfig::Wheel(c) => DeviceView::Wheel(c.built_view()),
            DeviceConfig::Joystick(c) => DeviceView::Joystick(c.built_view()),
        }
    }

    /// The error an invalid record is rejected with.
    pub open spec fn error_spec(self) -> DeviceError {
        match self {
            DeviceConfig::Wheel(c) => c.error_spec(),
            DeviceConfig::Joystick(c) => c.error_spec(),
        }
    }
}

/// The partial-update rule lifted to a device: the active variant's angles
/// and orientation change as its own rule says; the tag is kept.
pub open spec fn device_set_value_spec(
    v: DeviceView,
    x: Option<i64>,
    y: Option<i64>,
    z: Option<i64>,
) -> DeviceView {
    match v {
        DeviceView::Wheel(w) => DeviceView::Wheel(crate::throttle::set_value_spec(w, x, y, z)),
        DeviceView::Joystick(j) => DeviceView::Joystick(
            crate::joystick::set_value_spec(j, x, y, z),
        ),
    }
}

/// The forward-pose stream of a device: the active variant's fixed grip
/// table, whatever its live input values.
pub open spec fn device_forward_spec(v: DeviceView) -> Seq<BonePose> {
    match v {
        DeviceView::Wheel(_) => crate::throttle::glue::wheel_grip_table(),
        DeviceView::Joystick(_) => crate::joystick::glue::joystick_grip_table(),
    }
}

/// The single limb target of a device: the active variant's hand placed by
/// its current geometry.
pub open spec fn device_target_spec(v: DeviceView) -> LimbTargetView {
    match v {
        DeviceView::Wheel(w) => crate::throttle::glue::throttle_target_view(w),
        DeviceView::Joystick(j) => crate::joystick::glue::joystick_target_view(j),
    }
}

/// The configured tracker name of a device, if any.
pub open spec fn device_tracker_spec(v: DeviceView) -> Option<Seq<char>> {
    match v {
        DeviceView::Wheel(w) => w.tracker,
        DeviceView::Joystick(j) => j.tracker,
    }
}

/// The anchor position of a device, in nanometers.
pub open spec fn device_pos_spec(v: DeviceView) -> Vec3 {
    match v {
        DeviceView::Wheel(w) => w.pos,
        DeviceView::Joystick(j) => j.pos,
    }
}

/// The current orientation of a device, as a rotation product.
pub open spec fn device_rot_spec(v: DeviceView) -> Seq<Rot> {
    match v {
        DeviceView::Wheel(w) => w.rot,
        DeviceView::Joystick(j) => j.rot,
    }
}

/// Recompute is deterministic and pure, for every device kind: a second
/// `set_value` with identical arguments leaves the device exactly as the
/// first left it.
pub proof fn lemma_device_set_value_idempotent(
    v: DeviceView,
    x: Option<i64>,
    y: Option<i64>,
    z: Option<i64>,
)
    ensures
        device_set_value_spec(device_set_value_spec(v, x, y, z), x, y, z) == device_set_value_spec(
            v,
            x,
            y,
            z,
        ),
{
    match v {
        DeviceView::Wheel(w) => crate::throttle::lemma_set_value_idempotent(w, x, y, z),
        DeviceView::Joystick(j) => crate::joystick::lemma_set_value_idempotent(j, x, y, z),
    }
}

/// The grip of each device kind poses a fixed number of bones: 12 for the
/// wheel or throttle grip, 15 for the joystick grip with its thumb,
/// whatever the device's live input values.
pub proof fn lemma_grip_table_sizes(v: DeviceView)
    ensures
        v is Wheel ==> device_forward_spec(v).len() == 12,
        v is Joystick ==> device_forward_spec(v).len() == 15,
{
}

impl Device {
    /// Validity: the active variant is valid.
    pub open spec fn wf(self) -> bool {
        match self {
            Device::Wheel(w) => w.wf(),
            Device::Joystick(j) => j.wf(),
        }
    }

    /// Builds a device from its tag-discriminated configuration. Failure of
    /// the selected variant's validation propagates unchanged.
    pub fn try_from(config: DeviceConfig) -> (r: Result<Device, DeviceError>)
        ensures
            r is Ok <==> config.valid(),
            !config.valid() ==> r == Err::<Device, DeviceError>(config.error_spec()),
            r matches Ok(d) ==> d.wf() && d@ == config.built_view(),
    {
        match config {
            DeviceConfig::Wheel(c) => match Throttle::try_from(c) {
                Ok(w) => Ok(Device::Wheel(w)),
                Err(e) => Err(e),
            },
            DeviceConfig::Joystick(c) => match Joystick::try_from(c) {
                Ok(j) => Ok(Device::Joystick(j)),
                Err(e) => Err(e),
            },
        }
    }

    /// The forward-pose stream: exactly the bones of the active variant's
    /// grip table, in table order.
    pub fn pose_forward(&self) -> (r: Vec<BonePose>)
        ensures
            r@ == device_forward_spec(self@),
    {
        match self {
            Device::Wheel(w) => w.pose_forward(),
            Device::Joystick(j) => j.pose_forward(),
        }
    }

    /// The limb-target stream: exactly one target, the active variant's
    /// hand placed by its current position, orientation and radius.
    pub fn pose_inverse(&self, pose: &Pose) -> (r: Vec<LimbTarget>)
        requires
            self.wf(),
        ensures
            r@.len() == 1,
            r@[0]@ == device_target_spec(self@),
    {
        match self {
            Device::Wheel(w) => w.pose_inverse(pose),
            Device::Joystick(j) => j.pose_inverse(pose),
        }
    }

    /// Partial update of the input angles (millidegrees): an absent axis
    /// keeps its prior value; the orientation is recomputed before this
    /// returns, so later pose queries reflect the update.
    pub fn set_value(&mut self, value_x: Option<i64>, value_y: Option<i64>, value_z: Option<i64>)
        requires
            old(self).wf(),
            value_x matches Some(v) ==> v > i64::MIN,
            value_y matches Some(v) ==> v > i64::MIN,
            value_z matches Some(v) ==> v > i64::MIN,
        ensures
            final(self)@ == device_set_value_spec(old(self)@, value_x, value_y, value_z),
            final(self).wf(),
    {
        match self {
            Device::Wheel(w) => w.set_value(value_x, value_y, value_z),
            Device::Joystick(j) => j.set_value(value_x, value_y, value_z),
        }
    }

    /// The tracker stream: one entry iff a tracker name was configured,
    /// carrying the device's current placement.
    pub fn trackers(&self) -> (r: Option<TrackerPose>)
        ensures
            device_tracker_spec(self@) is None <==> r is None,
            (device_tracker_spec(self@) matches Some(name) ==> r matches Some(t) && t@
                == (TrackerPoseView {
                name,
                pos: device_pos_spec(self@),
                rot: device_rot_spec(self@),
            })),
    {
        match self {
            Device::Wheel(w) => w.trackers(),
            Device::Joystick(j) => j.trackers(),
        }
    }

    /// Advances the active technique's time-dependent state. The glue
    /// technique is stateless, so nothing changes.
    pub fn update(&mut self, dt_micros: u64, pose: &Pose)
        ensures
            *final(self) == *old(self),
    {
        match self {
            Device::Wheel(w) => w.update(dt_micros, pose),
            Device::Joystick(j) => j.update(dt_micros, pose),
        }
    }
}

} // verus!

use vmc_device::avatar::Pose;
use vmc_device::bone::{Bone, Limb};
use vmc_device::device::{Device, DeviceConfig, DeviceError, ForwardPose};
use vmc_device::joystick::{self, JoystickConfig};
use vmc_device::math::{Rot, Vec3};
use vmc_device::throttle::{self, glue, ThrottleConfig};

fn wheel_config() -> ThrottleConfig {
    ThrottleConfig::default()
}

fn tracked_wheel() -> Device {
    let mut c = wheel_config();
    c.tracker = Some(String::from("base"));
    Device::try_from(DeviceConfig::Wheel(c)).unwrap()
}

fn identity_product() -> Vec<Rot> {
    vec![
        Rot::EulerYXZ { y: 0, x: 0, z: 0 },
        Rot::RotX(0),
        Rot::RotY(0),
        Rot::RotZ(0),
    ]
}

#[test]
fn partial_update_keeps_unset_axes() {
    let mut device = tracked_wheel();
    device.set_value(Some(10_000), None, None);
    device.set_value(None, Some(5_000), None);
    let t = device.trackers().unwrap();
    assert_eq!(
        t.rot,
        vec![
            Rot::EulerYXZ { y: 0, x: 0, z: 0 },
            Rot::RotX(-10_000),
            Rot::RotY(-5_000),
            Rot::RotZ(0),
        ]
    );
}

#[test]
fn set_value_is_idempotent() {
    let mut device = tracked_wheel();
    device.set_value(Some(33_000), Some(-7_000), None);
    let first = device.trackers().unwrap();
    device.set_value(Some(33_000), Some(-7_000), None);
    let second = device.trackers().unwrap();
    assert_eq!(first, second);
}

#[test]
fn zero_radius_fails_construction() {
    let mut c = wheel_config();
    c.radius = 0;
    let e = Device::try_from(DeviceConfig::Wheel(c)).unwrap_err();
    assert_eq!(e, DeviceError::NonPositiveRadius { radius: 0 });
}

#[test]
fn positive_radius_succeeds() {
    let mut c = wheel_config();
    c.radius = 1;
    assert!(Device::try_from(DeviceConfig::Wheel(c)).is_ok());
}

#[test]
fn negative_radius_error_mentions_radius_and_positive() {
    let mut c = wheel_config();
    c.radius = -1_000_000_000;
    let e = Device::try_from(DeviceConfig::Wheel(c)).unwrap_err();
    let msg = e.message();
    assert!(msg.contains("radius"));
    assert!(msg.contains("positive"));
    assert!(e.angle_error().is_none());
}

#[test]
fn out_of_range_left_hand_fails_with_range_error() {
    let mut c = wheel_config();
    c.technique = throttle::technique::TechniqueConfig::Glue(glue::TechniqueConfig {
        left_hand: Some(400_000),
    });
    let e = Device::try_from(DeviceConfig::Wheel(c)).unwrap_err();
    assert!(matches!(e, DeviceError::WheelTechnique(_)));
    let inner = e.angle_error().unwrap();
    assert_eq!(inner.value, 400_000);
    assert!(inner.expected().contains("[0, 360]"));
}

#[test]
fn out_of_range_right_hand_fails_with_range_error() {
    let mut c = JoystickConfig::default();
    c.technique = joystick::technique::TechniqueConfig::Glue(joystick::glue::TechniqueConfig {
        right_hand: Some(-500),
    });
    let e = Device::try_from(DeviceConfig::Joystick(c)).unwrap_err();
    assert!(matches!(e, DeviceError::JoystickTechnique(_)));
    assert_eq!(e.angle_error().unwrap().value, -500);
}

#[test]
fn wheel_grip_is_fixed_regardless_of_input() {
    let mut device = tracked_wheel();
    let before = device.pose_forward();
    device.set_value(Some(123_000), Some(-45_000), Some(9_000));
    let after = device.pose_forward();
    assert_eq!(before, after);
    assert_eq!(before.len(), 12);
    assert_eq!(
        before[0],
        vmc_device::device::BonePose {
            bone: Bone::LeftIndexProximal,
            weight_permille: 1000,
            pose: ForwardPose::Local(Rot::RotZ(18_000)),
        }
    );
    assert_eq!(
        before[1].pose,
        ForwardPose::Local(Rot::RotZ(90_000))
    );
    for p in &before {
        assert_eq!(p.weight_permille, 1000);
        assert!(matches!(p.pose, ForwardPose::Local(_)));
    }
}

#[test]
fn joystick_grip_has_fifteen_bones_with_thumb() {
    let device = Device::try_from(DeviceConfig::Joystick(JoystickConfig::default())).unwrap();
    let bones = device.pose_forward();
    assert_eq!(bones.len(), 15);
    assert_eq!(bones[0].bone, Bone::RightIndexProximal);
    assert_eq!(bones[0].pose, ForwardPose::Local(Rot::RotZ(-36_000)));
    assert_eq!(bones[1].pose, ForwardPose::Local(Rot::RotZ(-90_000)));
    assert_eq!(bones[12].bone, Bone::RightThumbProximal);
    assert_eq!(
        bones[12].pose,
        ForwardPose::Local(Rot::EulerYZX { y: 7_200, z: 0, x: 28_800 })
    );
    assert_eq!(bones[13].pose, ForwardPose::Local(Rot::RotY(28_800)));
    assert_eq!(bones[14].pose, ForwardPose::Local(Rot::RotY(10_800)));
}

#[test]
fn wheel_inverse_target_at_identity_fixture() {
    // Wheel at the origin, identity rest rotation, radius 0.17 m, default
    // technique: the left-hand target is the local offset itself, rotated
    // by an identity product.
    let device = Device::try_from(DeviceConfig::Wheel(wheel_config())).unwrap();
    let targets = device.pose_inverse(&Pose {});
    assert_eq!(targets.len(), 1);
    let t = &targets[0];
    assert_eq!(t.limb, Limb::LeftHand);
    assert_eq!(t.weight_permille, 1000);
    assert_eq!(t.pos.base, Vec3 { x: 0, y: 0, z: 0 });
    assert_eq!(t.pos.offset, Vec3 { x: 10_000_000, y: 170_000_000, z: -48_661_770 });
    assert_eq!(t.pos.rot, identity_product());
    let mut expected_rot = identity_product();
    expected_rot.push(Rot::EulerYXZ { y: 90_000, x: 0, z: 0 });
    assert_eq!(t.rot, expected_rot);
}

#[test]
fn wheel_inverse_target_follows_geometry() {
    let mut c = wheel_config();
    c.position = [1_000_000_000, 2_000_000_000, -500_000_000];
    c.rotation = [10_000, 20_000, 30_000];
    c.radius = 200_000_000;
    let mut device = Device::try_from(DeviceConfig::Wheel(c)).unwrap();
    device.set_value(Some(90_000), None, None);
    let t = &device.pose_inverse(&Pose {})[0];
    assert_eq!(t.pos.base, Vec3 { x: 1_000_000_000, y: 2_000_000_000, z: -500_000_000 });
    assert_eq!(t.pos.offset, Vec3 { x: 10_000_000, y: 200_000_000, z: -48_661_770 });
    let live = vec![
        Rot::EulerYXZ { y: 20_000, x: 10_000, z: 30_000 },
        Rot::RotX(-90_000),
        Rot::RotY(0),
        Rot::RotZ(0),
    ];
    assert_eq!(t.pos.rot, live);
    let mut expected_rot = live.clone();
    expected_rot.push(Rot::EulerYXZ { y: 90_000, x: 0, z: 0 });
    assert_eq!(t.rot, expected_rot);
}

#[test]
fn joystick_inverse_uses_rest_angle_sign_adjusted() {
    // Default right hand: absent angle encodes to 0, so the pitch is the
    // yaw itself.
    let device = Device::try_from(DeviceConfig::Joystick(JoystickConfig::default())).unwrap();
    let t = &device.pose_inverse(&Pose {})[0];
    assert_eq!(t.limb, Limb::RightHand);
    assert_eq!(t.pos.offset, Vec3 { x: 20_000_000, y: 170_000_000, z: -55_000_000 });
    assert_eq!(
        t.rot[t.rot.len() - 1],
        Rot::EulerYXZ { y: -90_000, x: -90_000, z: 0 }
    );

    // A configured 0-degree angle encodes to 90 degrees, which cancels the
    // negative yaw.
    let mut c = JoystickConfig::default();
    c.technique = joystick::technique::TechniqueConfig::Glue(joystick::glue::TechniqueConfig {
        right_hand: Some(0),
    });
    let device = Device::try_from(DeviceConfig::Joystick(c)).unwrap();
    let t = &device.pose_inverse(&Pose {})[0];
    assert_eq!(
        t.rot[t.rot.len() - 1],
        Rot::EulerYXZ { y: -90_000, x: 0, z: 0 }
    );
}

#[test]
fn end_to_end_wheel_and_joystick_load() {
    let mut wheel_cfg = wheel_config();
    wheel_cfg.radius = 200_000_000;
    let wheel = Device::try_from(DeviceConfig::Wheel(wheel_cfg)).unwrap();
    let joystick = Device::try_from(DeviceConfig::Joystick(JoystickConfig::default())).unwrap();

    assert!(wheel.trackers().is_none());
    assert!(joystick.trackers().is_none());

    let wheel_bones = wheel.pose_forward();
    assert_eq!(wheel_bones.len(), 12);
    let expected_wheel: Vec<(Bone, i64)> = vec![
        (Bone::LeftIndexProximal, 18_000),
        (Bone::LeftIndexIntermediate, 90_000),
        (Bone::LeftIndexDistal, 18_000),
        (Bone::LeftMiddleProximal, 18_000),
        (Bone::LeftMiddleIntermediate, 90_000),
        (Bone::LeftMiddleDistal, 18_000),
        (Bone::LeftRingProximal, 18_000),
        (Bone::LeftRingIntermediate, 90_000),
        (Bone::LeftRingDistal, 18_000),
        (Bone::LeftLittleProximal, 18_000),
        (Bone::LeftLittleIntermediate, 90_000),
        (Bone::LeftLittleDistal, 18_000),
    ];
    for (pose, (bone, curl)) in wheel_bones.iter().zip(expected_wheel) {
        assert_eq!(pose.bone, bone);
        assert_eq!(pose.pose, ForwardPose::Local(Rot::RotZ(curl)));
    }

    let joystick_bones = joystick.pose_forward();
    assert_eq!(joystick_bones.len(), 15);
    assert!(joystick_bones.iter().all(|p| matches!(p.pose, ForwardPose::Local(_))));
}

#[test]
fn trackers_report_configured_name_and_placement() {
    let mut c = wheel_config();
    c.position = [7, 8, 9];
    c.tracker = Some(String::from("wheel-base"));
    let device = Device::try_from(DeviceConfig::Wheel(c)).unwrap();
    let t = device.trackers().unwrap();
    assert_eq!(t.name, "wheel-base");
    assert_eq!(t.pos, Vec3 { x: 7, y: 8, z: 9 });
    assert_eq!(t.rot, identity_product());
}

#[test]
fn technique_errors_carry_their_context() {
    let mut c = wheel_config();
    c.technique = throttle::technique::TechniqueConfig::Glue(glue::TechniqueConfig {
        left_hand: Some(-1),
    });
    let e = Device::try_from(DeviceConfig::Wheel(c)).unwrap_err();
    assert_eq!(e.message(), "Failed to initialize driving throttle handling technique");

    let mut c = JoystickConfig::default();
    c.technique = joystick::technique::TechniqueConfig::Glue(joystick::glue::TechniqueConfig {
        right_hand: Some(360_001),
    });
    let e = Device::try_from(DeviceConfig::Joystick(c)).unwrap_err();
    assert_eq!(e.message(), "Failed to initialize joystick handling technique");
}

#[test]
fn joystick_partial_update_keeps_unset_axes() {
    let mut c = JoystickConfig::default();
    c.tracker = Some(String::from("stick"));
    let mut device = Device::try_from(DeviceConfig::Joystick(c)).unwrap();
    device.set_value(None, None, Some(-2_500));
    device.set_value(Some(1_000), None, None);
    let t = device.trackers().unwrap();
    assert_eq!(
        t.rot,
        vec![
            Rot::EulerYXZ { y: 0, x: 0, z: 0 },
            Rot::RotX(-1_000),
            Rot::RotY(0),
            Rot::RotZ(2_500),
        ]
    );
}

#[test]
fn joystick_radius_boundary() {
    let mut c = JoystickConfig::default();
    c.radius = 0;
    let e = Device::try_from(DeviceConfig::Joystick(c)).unwrap_err();
    assert_eq!(e, DeviceError::NonPositiveRadius { radius: 0 });

    let mut c = JoystickConfig::default();
    c.radius = 1;
    assert!(Device::try_from(DeviceConfig::Joystick(c)).is_ok());
}

#[test]
fn update_changes_nothing() {
    let mut device = tracked_wheel();
    device.set_value(Some(42_000), None, None);
    let before = device.trackers().unwrap();
    device.update(16_000, &Pose {});
    let after = device.trackers().unwrap();
    assert_eq!(before, after);
    assert_eq!(device.pose_forward().len(), 12);
}

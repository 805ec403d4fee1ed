//! Pose-mapping engine for physical driving controls.
//!
//! Maps the live state of a steering wheel, throttle or joystick onto a
//! virtual avatar's skeleton: fixed local finger-bone rotations that shape a
//! grip, and a world-space hand target for an external inverse-kinematics
//! solver.
//!
//! All quantities are exact integers: angles are millidegrees, lengths are
//! nanometers, and orientations are symbolic products of primitive rotations
//! (see [`math::Rot`]). Turning those into floating-point vectors and
//! quaternions is the caller's concern, outside this crate.

pub mod angle;
pub mod avatar;
pub mod bone;
pub mod device;
pub mod joystick;
pub mod math;
pub mod throttle;

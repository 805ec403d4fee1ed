//! Identifiers for the skeleton parts the engine poses.

use vstd::prelude::*;

verus! {

/// A finger bone the grip techniques pose directly.
#[derive(Clone, Copy, Debug, PartialEq, Eq, Structural)]
pub enum Bone {
    LeftIndexProximal,
    LeftIndexIntermediate,
    LeftIndexDistal,
    LeftMiddleProximal,
    LeftMiddleIntermediate,
    LeftMiddleDistal,
    LeftRingProximal,
    LeftRingIntermediate,
    LeftRingDistal,
    LeftLittleProximal,
    LeftLittleIntermediate,
    LeftLittleDistal,
    LeftThumbProximal,
    LeftThumbIntermediate,
    LeftThumbDistal,
    RightIndexProximal,
    RightIndexIntermediate,
    RightIndexDistal,
    RightMiddleProximal,
    RightMiddleIntermediate,
    RightMiddleDistal,
    RightRingProximal,
    RightRingIntermediate,
    RightRingDistal,
    RightLittleProximal,
    RightLittleIntermediate,
    RightLittleDistal,
    RightThumbProximal,
    RightThumbIntermediate,
    RightThumbDistal,
}

/// A limb whose placement is handed to the external IK solver.
#[derive(Clone, Copy, Debug, PartialEq, Eq, Structural)]
pub enum Limb {
    LeftHand,
    RightHand,
}

} // verus!

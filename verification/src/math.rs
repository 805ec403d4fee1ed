//! Exact spatial quantities.
//!
//! Positions and offsets are integer vectors in nanometers. Orientations are
//! symbolic: a primitive rotation is an Euler-angle or single-axis
//! constructor with millidegree arguments, and a full orientation is the
//! left-to-right product of a sequence of primitives. The engine only ever
//! builds and composes orientations, so this representation is exact; a
//! consumer evaluates the product numerically when it needs a quaternion.

use vstd::prelude::*;

verus! {

/// A world- or device-space vector, components in nanometers.
#[derive(Clone, Copy, Debug, PartialEq, Eq, Structural)]
pub struct Vec3 {
    pub x: i64,
    pub y: i64,
    pub z: i64,
}

/// A primitive rotation; every angle is in millidegrees.
///
/// `EulerYXZ` applies yaw, then pitch, then roll; `EulerYZX` applies yaw,
/// then roll, then pitch. The single-axis variants rotate about one axis.
#[derive(Clone, Copy, Debug, PartialEq, Eq, Structural)]
pub enum Rot {
    EulerYXZ { y: i64, x: i64, z: i64 },
    EulerYZX { y: i64, z: i64, x: i64 },
    RotX(i64),
    RotY(i64),
    RotZ(i64),
}

/// Exact negation of a millidegree angle.
///
/// Every angle the engine negates is strictly above `i64::MIN`, where this
/// agrees with mathematical negation.
pub open spec fn neg_millideg(a: i64) -> i64 {
    (0 - a as int) as i64
}

/// The live orientation of a control surface: its configured rest
/// orientation composed with one negated rotation per input axis, in
/// X, Y, Z order.
pub open spec fn live_rot(base: Rot, ax: i64, ay: i64, az: i64) -> Seq<Rot> {
    seq![
        base,
        Rot::RotX(neg_millideg(ax)),
        Rot::RotY(neg_millideg(ay)),
        Rot::RotZ(neg_millideg(az)),
    ]
}

/// Copies a rotation product.
pub fn copy_rots(v: &Vec<Rot>) -> (r: Vec<Rot>)
    ensures
        r@ == v@,
{
    let mut out: Vec<Rot> = Vec::new();
    let mut i: usize = 0;
    while i < v.len()
        invariant
            i <= v.len(),
            out@.len() == i as int,
            forall|j: int| 0 <= j < i as int ==> out@[j] == v@[j],
        decreases v.len() - i,
    {
        out.push(v[i]);
        i = i + 1;
    }
    proof {
        assert(out@ =~= v@);
    }
    out
}

} // verus!

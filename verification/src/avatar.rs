//! The avatar context handed through to techniques.

use vstd::prelude::*;

verus! {

/// The avatar's rest-pose context.
///
/// Owned and populated elsewhere; it is passed through to techniques so a
/// future stateful technique can read the skeleton. The current grip
/// techniques do not read it.
pub struct Pose {}

} // verus!

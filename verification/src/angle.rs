//! The angle codec: validation and re-anchoring of user-facing angles.
//!
//! Configuration files give angles in degrees, in the closed interval
//! [0, 360]. The engine measures angles from the avatar-forward direction,
//! so an accepted degree value `d` is re-anchored to `90 - d` and wrapped
//! into the half-open interval [0, 360). All values here are millidegrees:
//! one unit is a thousandth of a degree.

use vstd::prelude::*;

verus! {

/// Lower bound of the accepted input range, in millidegrees.
pub const ANGLE_RAW_MIN: i64 = 0;

/// Upper bound of the accepted input range, in millidegrees.
pub const ANGLE_RAW_MAX: i64 = 360_000;

/// One full turn, in millidegrees.
pub const FULL_TURN: i64 = 360_000;

/// A configuration angle that fell outside the accepted range.
///
/// Carries the offending value and the accepted bounds, all in
/// millidegrees, so a configuration failure can point at the fix.
#[derive(Clone, Copy, Debug, PartialEq, Eq, Structural)]
pub struct AngleRangeError {
    /// The rejected input, in millidegrees.
    pub value: i64,
    /// Smallest accepted input, in millidegrees.
    pub min: i64,
    /// Largest accepted input, in millidegrees.
    pub max: i64,
}

impl AngleRangeError {
    /// The expected range, phrased for a configuration failure report.
    pub fn expected(&self) -> (r: &'static str)
        ensures
            r@ == "an angle in the range [0, 360]"@,
    {
        "an angle in the range [0, 360]"
    }
}

/// What the codec produces for an accepted raw value: `90 - raw` degrees,
/// wrapped into [0, 360000) millidegrees.
///
/// For `raw` in [0, 360000] the conditional addition below is exactly the
/// Euclidean remainder of `90000 - raw` modulo one full turn.
pub open spec fn encode_spec(raw: int) -> int {
    let shifted = 90_000 - raw;
    if shifted < 0 {
        shifted + 360_000
    } else {
        shifted
    }
}

/// Validates a raw angle and re-anchors it to the engine's convention.
///
/// Accepts exactly the millidegree values in [0, 360000]; an accepted value
/// `raw` becomes `90000 - raw` wrapped into [0, 360000). Anything outside
/// the range is reported as an [`AngleRangeError`] carrying the value and
/// the bounds.
pub fn encode_degrees(raw: i64) -> (r: Result<i64, AngleRangeError>)
    ensures
        r is Ok <==> ANGLE_RAW_MIN <= raw <= ANGLE_RAW_MAX,
        r matches Ok(v) ==> v == encode_spec(raw as int),
        r matches Ok(v) ==> 0 <= v < FULL_TURN,
        r matches Err(e) ==> e == (AngleRangeError {
            value: raw,
            min: ANGLE_RAW_MIN,
            max: ANGLE_RAW_MAX,
        }),
{
    if raw < ANGLE_RAW_MIN || raw > ANGLE_RAW_MAX {
        return Err(AngleRangeError { value: raw, min: ANGLE_RAW_MIN, max: ANGLE_RAW_MAX });
    }
    let shifted: i64 = 90_000 - raw;
    if shifted < 0 {
        Ok(shifted + 360_000)
    } else {
        Ok(shifted)
    }
}

/// Every accepted input lands in [0, 360000) millidegrees, and the two ends
/// of the accepted range encode to the same angle: the wraparound is
/// continuous at the 0/360 degree boundary.
pub proof fn lemma_codec_range_and_boundary()
    ensures
        forall|d: int| 0 <= d <= 360_000 ==> 0 <= #[trigger] encode_spec(d) < 360_000,
        encode_spec(0) == encode_spec(360_000),
{
}

} // verus!

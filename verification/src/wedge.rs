//! Angular-wedge geometry: angles in thousandths of a degree (millidegrees),
//! normalization into `[0°, 360°)`, and the containment test that decides
//! whether a click angle lies inside the current target wedge.
//!
//! A wedge is a pair `(min, max)` of millidegree bounds. When `min < max` it
//! is the plain interval `[min, max]`; when `min >= max` it denotes an
//! interval wrapping past the 0°/360° seam, and the containment test splits
//! on 180°: angles above 180° are compared against `[min, 360°]`, the rest
//! against `[0°, max]`. The split is exact for the narrow wedges this game
//! produces; it is kept as stated rather than generalized.

use vstd::prelude::*;

verus! {

/// Millidegrees in a half turn.
pub const MDEG_180: i64 = 180_000;

/// Millidegrees in a full turn.
pub const MDEG_360: i64 = 360_000;

/// Normalization of a millidegree angle into `[0, 360_000)`, for inputs no
/// further than one full turn outside that range.
pub open spec fn norm_mdeg(a: int) -> int {
    if a < 0 {
        a + MDEG_360
    } else if a >= MDEG_360 {
        a - MDEG_360
    } else {
        a
    }
}

/// The wedge containment test: `min < max` is the plain interval
/// `[min, max]`; otherwise the wedge wraps and the test splits at 180°.
pub open spec fn wedge_hit(angle: int, min: int, max: int) -> bool {
    if min < max {
        min <= angle && angle <= max
    } else if angle > MDEG_180 {
        min <= angle && angle <= MDEG_360
    } else {
        0 <= angle && angle <= max
    }
}

/// Normalizes a millidegree angle into `[0, 360_000)` by adding or removing
/// one full turn, the "remainder, always non-negative" reduction for angles
/// produced by a degree-valued arctangent.
pub fn normalize_angle_mdeg(a: i64) -> (r: i64)
    requires
        -MDEG_360 <= a < 2 * MDEG_360,
    ensures
        r == norm_mdeg(a as int),
        0 <= r < MDEG_360,
{
    if a < 0 {
        a + MDEG_360
    } else if a >= MDEG_360 {
        a - MDEG_360
    } else {
        a
    }
}

/// Decides whether `angle` lies inside the wedge `[min, max]`, with the
/// wrap-around interpretation when `min >= max`.
pub fn wedge_contains(angle: i64, min: i64, max: i64) -> (hit: bool)
    ensures
        hit == wedge_hit(angle as int, min as int, max as int),
{
    if min < max {
        min <= angle && angle <= max
    } else if angle > MDEG_180 {
        min <= angle && angle <= MDEG_360
    } else {
        0 <= angle && angle <= max
    }
}

/// Law: containment is reflexive at the wedge's own bounds. An angle exactly
/// equal to `min` or to `max` is a hit, for every plain wedge (`min < max`)
/// and for every wrapping wedge whose lower bound lies in the upper half
/// turn and whose upper bound lies in the lower half turn.
pub proof fn lemma_boundary_hit(min: int, max: int)
    requires
        min < max || (MDEG_180 < min <= MDEG_360 && 0 <= max <= MDEG_180),
    ensures
        wedge_hit(min, min, max),
        wedge_hit(max, min, max),
{
}

} // verus!

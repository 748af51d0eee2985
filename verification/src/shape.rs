//! Stick shaping: the function mapping an aggregate fixed-point (x, y)
//! analog vector to bounded signed 16-bit controller axis output, plus the
//! oversteer-alert test.
//!
//! In real arithmetic both modes decompose the vector into an angle and a
//! radius and rebuild it: `cos(atan2(y, x)) * sqrt(x^2 + y^2)` equals `x`
//! itself (and the sine form equals `y`), so the polar round trip is the
//! identity, and each mode reduces to exact rational scaling:
//! linear mode divides by the overshoot `max(|x|, |y|)` when that exceeds
//! one, and circularized mode scales the raw vector with no clamping of the
//! radius. A zero vector has no defined angle, but the identity makes its
//! output exactly (0, 0) with no special case. The final conversion to an
//! axis value truncates toward zero and saturates to the signed 16-bit
//! range, so an out-of-range radius in circularized mode cannot wrap
//! around.

use vstd::prelude::*;
use crate::binds::FP_ONE;
use crate::math::abs_i;
use crate::math::div_trunc;
use crate::math::div_trunc_exec;
use crate::math::max_i;

verus! {

/// Magnitude bound accepted for a stick total; a machine limit that keeps
/// the shaping products inside 128-bit arithmetic, far above any total the
/// aggregator can produce.
pub const TOTAL_BOUND: i128 = 0x4000000000000000000000000000;

/// Saturation to the signed 16-bit range.
pub open spec fn sat_i16(v: int) -> int {
    if v > 32767 {
        32767
    } else if v < -32768 {
        -32768
    } else {
        v
    }
}

/// Linear-mode output for a fixed-point stick total: inside the unit box
/// the total already is the axis value; outside it, both axes are rescaled
/// by the overshoot `max(|x|, |y|)` so the dominant axis lands at unit
/// magnitude and the direction is preserved.
pub open spec fn spec_shape_linear(x: int, y: int) -> (int, int) {
    if abs_i(x) <= FP_ONE && abs_i(y) <= FP_ONE {
        (sat_i16(x), sat_i16(y))
    } else {
        let m = max_i(abs_i(x), abs_i(y));
        (sat_i16(div_trunc(x * FP_ONE, m)), sat_i16(div_trunc(y * FP_ONE, m)))
    }
}

/// Circularized-mode output for a fixed-point stick total: the raw vector,
/// with no clamping of the radius before the saturating conversion.
pub open spec fn spec_shape_circular(x: int, y: int) -> (int, int) {
    (sat_i16(x), sat_i16(y))
}

/// The oversteer alert fires when the larger axis magnitude of a stick
/// total reaches the configured fixed-point threshold.
pub open spec fn spec_alert(x: int, y: int, threshold_fp: int) -> bool {
    max_i(abs_i(x), abs_i(y)) >= threshold_fp
}

/// Inside the unit box, linear shaping is the identity scale: the only
/// adjustment is the saturating conversion, which moves nothing but the
/// single value `FP_ONE` (down to the largest axis value, 32767).
pub proof fn lemma_linear_identity_in_unit_box(x: int, y: int)
    requires
        abs_i(x) <= FP_ONE,
        abs_i(y) <= FP_ONE,
    ensures
        spec_shape_linear(x, y) == (sat_i16(x), sat_i16(y)),
        x < FP_ONE ==> spec_shape_linear(x, y).0 == x,
        y < FP_ONE ==> spec_shape_linear(x, y).1 == y,
{
}

/// Absolute value; the bound keeps the negation in range.
fn abs128(a: i128) -> (r: i128)
    requires
        a > i128::MIN,
    ensures
        r == abs_i(a as int),
{
    if a >= 0 {
        a
    } else {
        -a
    }
}

/// Saturating conversion to an axis value.
pub fn saturate_i16(v: i128) -> (r: i16)
    ensures
        r == sat_i16(v as int),
{
    if v > 32767 {
        32767
    } else if v < -32768 {
        -32768
    } else {
        v as i16
    }
}

/// Shape one stick total in linear mode. Inputs are fixed-point axis
/// totals; outputs are the report's axis values.
pub fn shape_linear(x: i128, y: i128) -> (r: (i16, i16))
    requires
        -TOTAL_BOUND <= x <= TOTAL_BOUND,
        -TOTAL_BOUND <= y <= TOTAL_BOUND,
    ensures
        (r.0 as int, r.1 as int) == spec_shape_linear(x as int, y as int),
{
    let ax = abs128(x);
    let ay = abs128(y);
    if ax <= (FP_ONE as i128) && ay <= (FP_ONE as i128) {
        (saturate_i16(x), saturate_i16(y))
    } else {
        let m = if ax >= ay {
            ax
        } else {
            ay
        };
        let ox = div_trunc_exec(x * 32768, m);
        let oy = div_trunc_exec(y * 32768, m);
        (saturate_i16(ox), saturate_i16(oy))
    }
}

/// Shape one stick total in circularized mode.
pub fn shape_circular(x: i128, y: i128) -> (r: (i16, i16))
    requires
        -TOTAL_BOUND <= x <= TOTAL_BOUND,
        -TOTAL_BOUND <= y <= TOTAL_BOUND,
    ensures
        (r.0 as int, r.1 as int) == spec_shape_circular(x as int, y as int),
{
    (saturate_i16(x), saturate_i16(y))
}

/// Whether a stick total triggers the oversteer alert at the given
/// fixed-point threshold.
pub fn alert_for(x: i128, y: i128, threshold_fp: i64) -> (r: bool)
    requires
        -TOTAL_BOUND <= x <= TOTAL_BOUND,
        -TOTAL_BOUND <= y <= TOTAL_BOUND,
    ensures
        r == spec_alert(x as int, y as int, threshold_fp as int),
{
    let ax = abs128(x);
    let ay = abs128(y);
    let m = if ax >= ay {
        ax
    } else {
        ay
    };
    m >= (threshold_fp as i128)
}

} // verus!

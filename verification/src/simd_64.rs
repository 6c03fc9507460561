//! Binary64 arithmetic on bit patterns, carried out by the scalar engine of
//! `simdeez`, as [`crate::simd_32`] does it for binary32. What the engine
//! computes is not proved: the contracts below are assumptions.
use simdeez::scalar::{F64x1, I32x1, I64x1};
use simdeez::{SimdBaseOps, SimdFloat, SimdFloat64, SimdInt32, SimdInt64};
use vstd::prelude::*;

verus! {

/// The pattern with the sign bit cleared.
pub open spec fn magnitude64(bits: u64) -> u64 {
    if bits >= 0x8000_0000_0000_0000 {
        (bits - 0x8000_0000_0000_0000) as u64
    } else {
        bits
    }
}

/// Whether the pattern encodes a NaN.
pub open spec fn is_nan64(bits: u64) -> bool {
    magnitude64(bits) > 0x7ff0_0000_0000_0000
}

/// The pattern itself, or the quiet NaN `0x7ff8_0000_0000_0000` for every NaN.
///
/// IEEE 754 leaves the sign and payload of a NaN result to the platform, so
/// the arithmetic contracts speak of results only up to this folding.
pub open spec fn canonical64(bits: u64) -> u64 {
    if is_nan64(bits) {
        0x7ff8_0000_0000_0000
    } else {
        bits
    }
}

/// The order of the real number line on patterns: both zeros map to 0, and a
/// larger value has a larger key. Meaningful for patterns that are not NaN.
pub open spec fn key64(bits: u64) -> int {
    if bits >= 0x8000_0000_0000_0000 {
        -(magnitude64(bits) as int)
    } else {
        bits as int
    }
}

/// Rounded sum of two binary64 values, NaN folded by [`canonical64`].
pub uninterp spec fn f64_add(a: u64, b: u64) -> u64;

/// Rounded difference `a - b` of two binary64 values, NaN folded.
pub uninterp spec fn f64_sub(a: u64, b: u64) -> u64;

/// Rounded product of two binary64 values, NaN folded.
pub uninterp spec fn f64_mul(a: u64, b: u64) -> u64;

/// Largest integral binary64 value not above `a`, NaN folded.
pub uninterp spec fn f64_floor(a: u64) -> u64;

/// The binary64 value `a` rounded to the nearest integer, halves away from
/// zero, and brought into `i64`, saturating at the ends of the range, with
/// NaN going to 0.
pub uninterp spec fn f64_to_i64(a: u64) -> i64;

/// The binary64 value nearest to the integer `a`, ties going to even.
pub uninterp spec fn i64_to_f64(a: i64) -> u64;

/// The binary64 value equal to the binary32 value `a`, NaN folded.
pub uninterp spec fn f32_to_f64(a: u32) -> u64;

/// `F64x1 + F64x1` of `simdeez`, which is `+` on the two lanes. The result is
/// taken to be the IEEE 754 sum, a function of the operands once NaN is
/// folded.
#[verifier::external_body]
pub(crate) fn lane_add(a: u64, b: u64) -> (r: u64)
    ensures
        canonical64(r) == f64_add(a, b),
{
    let x = I64x1(a as i64).bitcast_f64();
    let y = I64x1(b as i64).bitcast_f64();
    (x + y).bitcast_i64().0 as u64
}

/// `F64x1 - F64x1` of `simdeez`, which is `-` on the two lanes. The result is
/// taken to be the IEEE 754 difference, a function of the operands once NaN
/// is folded.
#[verifier::external_body]
pub(crate) fn lane_sub(a: u64, b: u64) -> (r: u64)
    ensures
        canonical64(r) == f64_sub(a, b),
{
    let x = I64x1(a as i64).bitcast_f64();
    let y = I64x1(b as i64).bitcast_f64();
    (x - y).bitcast_i64().0 as u64
}

/// `F64x1 * F64x1` of `simdeez`, which is `*` on the two lanes. The result is
/// taken to be the IEEE 754 product, a function of the operands once NaN is
/// folded.
#[verifier::external_body]
pub(crate) fn lane_mul(a: u64, b: u64) -> (r: u64)
    ensures
        canonical64(r) == f64_mul(a, b),
{
    let x = I64x1(a as i64).bitcast_f64();
    let y = I64x1(b as i64).bitcast_f64();
    (x * y).bitcast_i64().0 as u64
}

/// `SimdFloat::floor` of `simdeez` on `F64x1`, which is the standard floor of
/// the lane: a function of the operand once NaN is folded.
#[verifier::external_body]
pub(crate) fn lane_floor(a: u64) -> (r: u64)
    ensures
        canonical64(r) == f64_floor(a),
{
    I64x1(a as i64).bitcast_f64().floor().bitcast_i64().0 as u64
}

/// `SimdFloat64::cast_i64` of `simdeez` on `F64x1`: the lane rounded to the
/// nearest integer by the standard `round`, which takes halves away from
/// zero, then cast with `as`, which saturates and sends NaN to 0.
#[verifier::external_body]
pub(crate) fn lane_to_i64(a: u64) -> (r: i64)
    ensures
        r == f64_to_i64(a),
{
    I64x1(a as i64).bitcast_f64().cast_i64().0
}

/// `SimdInt64::cast_f64` of `simdeez` on `I64x1`: the lane cast with `as`,
/// which rounds to the nearest binary64 value, ties to even.
#[verifier::external_body]
pub(crate) fn lane_from_i64(a: i64) -> (r: u64)
    ensures
        r == i64_to_f64(a),
{
    I64x1(a).cast_f64().bitcast_i64().0 as u64
}

/// `SimdBaseOps::min` of `simdeez` on `F64x1`, which is the standard `min` of
/// the two lanes. It returns one of its operands: the other one when one is
/// NaN, else one that is not above either. Which of two equal values comes
/// back (zeros of both signs) is left open.
#[verifier::external_body]
pub(crate) fn lane_min(a: u64, b: u64) -> (r: u64)
    ensures
        is_nan64(a) && !is_nan64(b) ==> r == b,
        !is_nan64(a) && is_nan64(b) ==> r == a,
        is_nan64(a) && is_nan64(b) ==> is_nan64(r),
        !is_nan64(a) && !is_nan64(b) ==> (r == a || r == b) && key64(r) <= key64(a) && key64(r)
            <= key64(b),
{
    let x = I64x1(a as i64).bitcast_f64();
    let y = I64x1(b as i64).bitcast_f64();
    x.min(y).bitcast_i64().0 as u64
}

/// `SimdBaseOps::max` of `simdeez` on `F64x1`, which is the standard `max` of
/// the two lanes. It returns one of its operands: the other one when one is
/// NaN, else one that is not below either. Which of two equal values comes
/// back (zeros of both signs) is left open.
#[verifier::external_body]
pub(crate) fn lane_max(a: u64, b: u64) -> (r: u64)
    ensures
        is_nan64(a) && !is_nan64(b) ==> r == b,
        !is_nan64(a) && is_nan64(b) ==> r == a,
        is_nan64(a) && is_nan64(b) ==> is_nan64(r),
        !is_nan64(a) && !is_nan64(b) ==> (r == a || r == b) && key64(r) >= key64(a) && key64(r)
            >= key64(b),
{
    let x = I64x1(a as i64).bitcast_f64();
    let y = I64x1(b as i64).bitcast_f64();
    x.max(y).bitcast_i64().0 as u64
}

/// `f64::from` of the standard library on a binary32 value, which gives the
/// same number at the wider precision: a function of the operand once NaN is
/// folded. The patterns pass through the lane types of `simdeez`.
#[verifier::external_body]
pub(crate) fn lane_widen(a: u32) -> (r: u64)
    ensures
        canonical64(r) == f32_to_f64(a),
{
    let x = I32x1(a as i32).bitcast_f32();
    F64x1(x.0.into()).bitcast_i64().0 as u64
}

} // verus!

//! Binary32 arithmetic on bit patterns, carried out by the scalar engine of
//! `simdeez`.
//!
//! A value travels through the library as its IEEE 754 bit pattern. Each
//! operation here hands the patterns to the engine's one-lane vector type and
//! brings the pattern of the answer back. What the engine computes is not
//! proved: the contracts below are the assumptions the rest of the library
//! stands on.
use simdeez::scalar::I32x1;
use simdeez::{SimdBaseOps, SimdFloat, SimdFloat32, SimdInt32};
use vstd::prelude::*;

verus! {

/// The pattern with the sign bit cleared.
pub open spec fn magnitude32(bits: u32) -> u32 {
    if bits >= 0x8000_0000 {
        (bits - 0x8000_0000) as u32
    } else {
        bits
    }
}

/// Whether the pattern encodes a NaN.
pub open spec fn is_nan32(bits: u32) -> bool {
    magnitude32(bits) > 0x7f80_0000
}

/// The pattern itself, or the quiet NaN `0x7fc0_0000` for every NaN.
///
/// IEEE 754 leaves the sign and payload of a NaN result to the platform, so
/// the arithmetic contracts speak of results only up to this folding.
pub open spec fn canonical32(bits: u32) -> u32 {
    if is_nan32(bits) {
        0x7fc0_0000
    } else {
        bits
    }
}

/// The order of the real number line on patterns: both zeros map to 0, and a
/// larger value has a larger key. Meaningful for patterns that are not NaN.
pub open spec fn key32(bits: u32) -> int {
    if bits >= 0x8000_0000 {
        -(magnitude32(bits) as int)
    } else {
        bits as int
    }
}

/// Rounded sum of two binary32 values, NaN folded by [`canonical32`].
pub uninterp spec fn f32_add(a: u32, b: u32) -> u32;

/// Rounded difference `a - b` of two binary32 values, NaN folded.
pub uninterp spec fn f32_sub(a: u32, b: u32) -> u32;

/// Rounded product of two binary32 values, NaN folded.
pub uninterp spec fn f32_mul(a: u32, b: u32) -> u32;

/// Rounded quotient `a / b` of two binary32 values, NaN folded.
pub uninterp spec fn f32_div(a: u32, b: u32) -> u32;

/// Largest integral binary32 value not above `a`, NaN folded.
pub uninterp spec fn f32_floor(a: u32) -> u32;

/// The binary32 value `a` rounded to the nearest integer, halves away from
/// zero, and brought into `i32`, saturating at the ends of the range, with
/// NaN going to 0.
pub uninterp spec fn f32_to_i32(a: u32) -> i32;

/// The binary32 value nearest to the integer `a`, ties going to even.
pub uninterp spec fn i32_to_f32(a: i32) -> u32;

/// `F32x1 + F32x1` of `simdeez`, which is `+` on the two lanes. The result is
/// taken to be the IEEE 754 sum, a function of the operands once NaN is
/// folded.
#[verifier::external_body]
pub(crate) fn lane_add(a: u32, b: u32) -> (r: u32)
    ensures
        canonical32(r) == f32_add(a, b),
{
    let x = I32x1(a as i32).bitcast_f32();
    let y = I32x1(b as i32).bitcast_f32();
    (x + y).bitcast_i32().0 as u32
}

/// `F32x1 - F32x1` of `simdeez`, which is `-` on the two lanes. The result is
/// taken to be the IEEE 754 difference, a function of the operands once NaN
/// is folded.
#[verifier::external_body]
pub(crate) fn lane_sub(a: u32, b: u32) -> (r: u32)
    ensures
        canonical32(r) == f32_sub(a, b),
{
    let x = I32x1(a as i32).bitcast_f32();
    let y = I32x1(b as i32).bitcast_f32();
    (x - y).bitcast_i32().0 as u32
}

/// `F32x1 * F32x1` of `simdeez`, which is `*` on the two lanes. The result is
/// taken to be the IEEE 754 product, a function of the operands once NaN is
/// folded.
#[verifier::external_body]
pub(crate) fn lane_mul(a: u32, b: u32) -> (r: u32)
    ensures
        canonical32(r) == f32_mul(a, b),
{
    let x = I32x1(a as i32).bitcast_f32();
    let y = I32x1(b as i32).bitcast_f32();
    (x * y).bitcast_i32().0 as u32
}

/// `F32x1 / F32x1` of `simdeez`, which is `/` on the two lanes. The result is
/// taken to be the IEEE 754 quotient, a function of the operands once NaN is
/// folded. Division by zero gives an infinity or NaN and does not trap.
#[verifier::external_body]
pub(crate) fn lane_div(a: u32, b: u32) -> (r: u32)
    ensures
        canonical32(r) == f32_div(a, b),
{
    let x = I32x1(a as i32).bitcast_f32();
    let y = I32x1(b as i32).bitcast_f32();
    (x / y).bitcast_i32().0 as u32
}

/// `SimdFloat::floor` of `simdeez` on `F32x1`, which is the standard floor of
/// the lane: a function of the operand once NaN is folded.
#[verifier::external_body]
pub(crate) fn lane_floor(a: u32) -> (r: u32)
    ensures
        canonical32(r) == f32_floor(a),
{
    I32x1(a as i32).bitcast_f32().floor().bitcast_i32().0 as u32
}

/// `SimdFloat32::cast_i32` of `simdeez` on `F32x1`: the lane rounded to the
/// nearest integer by the standard `round`, which takes halves away from
/// zero, then cast with `as`, which saturates and sends NaN to 0.
#[verifier::external_body]
pub(crate) fn lane_to_i32(a: u32) -> (r: i32)
    ensures
        r == f32_to_i32(a),
{
    I32x1(a as i32).bitcast_f32().cast_i32().0
}

/// `SimdInt32::cast_f32` of `simdeez` on `I32x1`: the lane cast with `as`,
/// which rounds to the nearest binary32 value, ties to even.
#[verifier::external_body]
pub(crate) fn lane_from_i32(a: i32) -> (r: u32)
    ensures
        r == i32_to_f32(a),
{
    I32x1(a).cast_f32().bitcast_i32().0 as u32
}

/// `SimdBaseOps::min` of `simdeez` on `F32x1`, which is the standard `min` of
/// the two lanes. It returns one of its operands: the other one when one is
/// NaN, else one that is not above either. Which of two equal values comes
/// back (zeros of both signs) is left open.
#[verifier::external_body]
pub(crate) fn lane_min(a: u32, b: u32) -> (r: u32)
    ensures
        is_nan32(a) && !is_nan32(b) ==> r == b,
        !is_nan32(a) && is_nan32(b) ==> r == a,
        is_nan32(a) && is_nan32(b) ==> is_nan32(r),
        !is_nan32(a) && !is_nan32(b) ==> (r == a || r == b) && key32(r) <= key32(a) && key32(r)
            <= key32(b),
{
    let x = I32x1(a as i32).bitcast_f32();
    let y = I32x1(b as i32).bitcast_f32();
    x.min(y).bitcast_i32().0 as u32
}

/// `SimdBaseOps::max` of `simdeez` on `F32x1`, which is the standard `max` of
/// the two lanes. It returns one of its operands: the other one when one is
/// NaN, else one that is not below either. Which of two equal values comes
/// back (zeros of both signs) is left open.
#[verifier::external_body]
pub(crate) fn lane_max(a: u32, b: u32) -> (r: u32)
    ensures
        is_nan32(a) && !is_nan32(b) ==> r == b,
        !is_nan32(a) && is_nan32(b) ==> r == a,
        is_nan32(a) && is_nan32(b) ==> is_nan32(r),
        !is_nan32(a) && !is_nan32(b) ==> (r == a || r == b) && key32(r) >= key32(a) && key32(r)
            >= key32(b),
{
    let x = I32x1(a as i32).bitcast_f32();
    let y = I32x1(b as i32).bitcast_f32();
    x.max(y).bitcast_i32().0 as u32
}

} // verus!

//! Binary32 values as bit patterns, with the operations the noise kernels
//! are written in.
use crate::simd_32::{
    canonical32, f32_add, f32_div, f32_floor, f32_mul, f32_sub, f32_to_i32, i32_to_f32, is_nan32,
    key32, lane_add, lane_div, lane_floor, lane_from_i32, lane_max, lane_min, lane_mul, lane_sub,
    lane_to_i32, magnitude32,
};
use vstd::prelude::*;

verus! {

/// Pattern of `0.0`.
pub const ZERO: u32 = 0;

/// Pattern of `1.0`.
pub const ONE: u32 = 0x3f80_0000;

/// Pattern of `2.0`.
pub const TWO: u32 = 0x4000_0000;

/// Pattern of the largest finite value.
pub const MAX: u32 = 0x7f7f_ffff;

/// Pattern of the smallest finite value, the negative of [`MAX`].
pub const MIN: u32 = 0xff7f_ffff;

/// Pattern of positive infinity.
pub const INFINITY: u32 = 0x7f80_0000;

/// Pattern of negative infinity.
pub const NEG_INFINITY: u32 = 0xff80_0000;

/// Pattern with only the sign bit set, which is `-0.0`.
pub const SIGN: u32 = 0x8000_0000;

/// Pattern with every bit set: a lane mask that selects.
pub const ALL_ONES: u32 = 0xffff_ffff;

/// The quiet NaN that every NaN result is folded to.
pub const NAN: u32 = 0x7fc0_0000;

/// An IEEE 754 binary32 value, held as its bit pattern.
///
/// `==` on this type compares patterns: it tells `0.0` from `-0.0` and finds
/// a NaN equal to itself. [`F32::same_value`] compares as numbers do.
#[derive(Clone, Copy, PartialEq, Eq, Structural, Debug)]
pub struct F32 {
    pub bits: u32,
}

impl F32 {
    /// What [`F32::from_bits`] returns.
    pub open spec fn spec_from_bits(bits: u32) -> F32 {
        F32 { bits }
    }

    /// The value with the given pattern.
    #[verifier::when_used_as_spec(spec_from_bits)]
    pub fn from_bits(bits: u32) -> (r: F32)
        ensures
            r == F32::spec_from_bits(bits),
    {
        F32 { bits }
    }

    /// The pattern of the value.
    pub fn to_bits(self) -> (r: u32)
        ensures
            r == self.bits,
    {
        self.bits
    }

    /// Whether the value is a NaN.
    pub open spec fn spec_is_nan(self) -> bool {
        is_nan32(self.bits)
    }

    /// What [`F32::canonical`] returns.
    pub open spec fn spec_canonical(self) -> F32 {
        F32 { bits: canonical32(self.bits) }
    }

    /// Whether the value is neither a NaN nor an infinity.
    pub open spec fn is_finite(self) -> bool {
        magnitude32(self.bits) < 0x7f80_0000
    }

    /// Place of the value on the number line; see [`key32`].
    pub open spec fn key(self) -> int {
        key32(self.bits)
    }

    /// Place of the value among the patterns of numbers: a larger number
    /// has a larger rank, and `-0.0` comes just before `0.0`. No two
    /// patterns of numbers share a rank. Meaningful for values that are not
    /// NaN.
    pub open spec fn rank(self) -> int {
        if self.bits >= SIGN {
            -(magnitude32(self.bits) as int) - 1
        } else {
            self.bits as int
        }
    }

    /// `self` comes before `rhs` among the patterns of numbers: it is the
    /// smaller number, or `-0.0` beside `0.0`. False when either is NaN.
    pub open spec fn spec_precedes(self, rhs: F32) -> bool {
        !self.spec_is_nan() && !rhs.spec_is_nan() && self.rank() < rhs.rank()
    }

    /// `self` is `rhs` or comes before it; see [`F32::spec_precedes`].
    pub open spec fn not_after(self, rhs: F32) -> bool {
        !self.spec_is_nan() && !rhs.spec_is_nan() && self.rank() <= rhs.rank()
    }

    /// What [`F32::lowest`] returns.
    pub open spec fn spec_lowest(self, rhs: F32) -> F32 {
        if self.spec_is_nan() {
            rhs
        } else if rhs.spec_is_nan() {
            self
        } else if rhs.spec_precedes(self) {
            rhs
        } else {
            self
        }
    }

    /// What [`F32::highest`] returns.
    pub open spec fn spec_highest(self, rhs: F32) -> F32 {
        if self.spec_is_nan() {
            rhs
        } else if rhs.spec_is_nan() {
            self
        } else if self.spec_precedes(rhs) {
            rhs
        } else {
            self
        }
    }

    /// `self < rhs` as numbers compare: false when either is NaN.
    pub open spec fn spec_lt(self, rhs: F32) -> bool {
        !self.spec_is_nan() && !rhs.spec_is_nan() && self.key() < rhs.key()
    }

    /// `self > rhs` as numbers compare: false when either is NaN.
    pub open spec fn spec_gt(self, rhs: F32) -> bool {
        rhs.spec_lt(self)
    }

    /// `self <= rhs` as numbers compare: false when either is NaN.
    pub open spec fn spec_le(self, rhs: F32) -> bool {
        !self.spec_is_nan() && !rhs.spec_is_nan() && self.key() <= rhs.key()
    }

    /// `self == rhs` as numbers compare: the two zeros are equal, and a NaN
    /// equals nothing.
    pub open spec fn spec_same_value(self, rhs: F32) -> bool {
        !self.spec_is_nan() && !rhs.spec_is_nan() && self.key() == rhs.key()
    }

    /// What [`F32::plus`] returns.
    pub open spec fn spec_plus(self, rhs: F32) -> F32 {
        F32 { bits: f32_add(self.bits, rhs.bits) }
    }

    /// What [`F32::minus`] returns.
    pub open spec fn spec_minus(self, rhs: F32) -> F32 {
        F32 { bits: f32_sub(self.bits, rhs.bits) }
    }

    /// What [`F32::times`] returns.
    pub open spec fn spec_times(self, rhs: F32) -> F32 {
        F32 { bits: f32_mul(self.bits, rhs.bits) }
    }

    /// What [`F32::over`] returns.
    pub open spec fn spec_over(self, rhs: F32) -> F32 {
        F32 { bits: f32_div(self.bits, rhs.bits) }
    }

    /// What [`F32::floor`] returns.
    pub open spec fn spec_floor(self) -> F32 {
        F32 { bits: f32_floor(self.bits) }
    }

    /// What [`F32::to_int`] returns.
    pub open spec fn spec_to_int(self) -> i32 {
        f32_to_i32(self.bits)
    }

    /// What [`F32::from_int`] returns.
    pub open spec fn spec_from_int(n: i32) -> F32 {
        F32 { bits: i32_to_f32(n) }
    }

    /// What [`F32::abs`] returns.
    pub open spec fn spec_abs(self) -> F32 {
        F32 { bits: magnitude32(self.bits) }
    }

    /// What [`F32::xor`] returns.
    pub open spec fn spec_xor(self, rhs: F32) -> F32 {
        F32 { bits: self.bits ^ rhs.bits }
    }

    /// What [`F32::and`] returns.
    pub open spec fn spec_and(self, rhs: F32) -> F32 {
        F32 { bits: self.bits & rhs.bits }
    }

    /// What [`F32::or`] returns.
    pub open spec fn spec_or(self, rhs: F32) -> F32 {
        F32 { bits: self.bits | rhs.bits }
    }

    /// What [`F32::and_not`] returns.
    pub open spec fn spec_and_not(self, rhs: F32) -> F32 {
        F32 { bits: self.bits & !rhs.bits }
    }

    /// What [`F32::blendv`] returns.
    pub open spec fn spec_blendv(self, a: F32, b: F32) -> F32 {
        if self.bits == 0 {
            a
        } else {
            b
        }
    }

    /// What [`F32::mask`] returns.
    pub open spec fn spec_mask(on: bool) -> F32 {
        F32 { bits: if on { ALL_ONES } else { ZERO } }
    }

    /// Whether the value is a NaN.
    #[verifier::when_used_as_spec(spec_is_nan)]
    pub fn is_nan(self) -> (r: bool)
        ensures
            r == self.spec_is_nan(),
    {
        let m: u32 = if self.bits >= SIGN {
            self.bits - SIGN
        } else {
            self.bits
        };
        m > 0x7f80_0000
    }

    /// The value itself, or the quiet NaN for every NaN: what an arithmetic
    /// result of the engine is brought to before it goes on.
    #[verifier::when_used_as_spec(spec_canonical)]
    pub fn canonical(self) -> (r: F32)
        ensures
            r == self.spec_canonical(),
    {
        if self.is_nan() {
            F32 { bits: NAN }
        } else {
            self
        }
    }

    /// `self < rhs` as numbers compare.
    #[verifier::when_used_as_spec(spec_lt)]
    pub fn lt(self, rhs: F32) -> (r: bool)
        ensures
            r == self.spec_lt(rhs),
    {
        if self.is_nan() || rhs.is_nan() {
            false
        } else if self.bits >= SIGN {
            if rhs.bits >= SIGN {
                self.bits > rhs.bits
            } else {
                self.bits > SIGN || rhs.bits > 0
            }
        } else {
            rhs.bits < SIGN && self.bits < rhs.bits
        }
    }

    /// `self > rhs` as numbers compare.
    #[verifier::when_used_as_spec(spec_gt)]
    pub fn gt(self, rhs: F32) -> (r: bool)
        ensures
            r == self.spec_gt(rhs),
    {
        rhs.lt(self)
    }

    /// `self == rhs` as numbers compare.
    #[verifier::when_used_as_spec(spec_same_value)]
    pub fn same_value(self, rhs: F32) -> (r: bool)
        ensures
            r == self.spec_same_value(rhs),
    {
        if self.is_nan() || rhs.is_nan() {
            false
        } else {
            self.bits == rhs.bits || (self.abs().bits == 0 && rhs.abs().bits == 0)
        }
    }

    /// Sum, rounded as IEEE 754 asks; a NaN result is the quiet NaN.
    #[verifier::when_used_as_spec(spec_plus)]
    pub fn plus(self, rhs: F32) -> (r: F32)
        ensures
            r == self.spec_plus(rhs),
    {
        F32::from_bits(lane_add(self.bits, rhs.bits)).canonical()
    }

    /// Difference, rounded as IEEE 754 asks; a NaN result is the quiet NaN.
    #[verifier::when_used_as_spec(spec_minus)]
    pub fn minus(self, rhs: F32) -> (r: F32)
        ensures
            r == self.spec_minus(rhs),
    {
        F32::from_bits(lane_sub(self.bits, rhs.bits)).canonical()
    }

    /// Product, rounded as IEEE 754 asks; a NaN result is the quiet NaN.
    #[verifier::when_used_as_spec(spec_times)]
    pub fn times(self, rhs: F32) -> (r: F32)
        ensures
            r == self.spec_times(rhs),
    {
        F32::from_bits(lane_mul(self.bits, rhs.bits)).canonical()
    }

    /// Quotient, rounded as IEEE 754 asks; a NaN result is the quiet NaN.
    #[verifier::when_used_as_spec(spec_over)]
    pub fn over(self, rhs: F32) -> (r: F32)
        ensures
            r == self.spec_over(rhs),
    {
        F32::from_bits(lane_div(self.bits, rhs.bits)).canonical()
    }

    /// Largest integral value not above `self`.
    #[verifier::when_used_as_spec(spec_floor)]
    pub fn floor(self) -> (r: F32)
        ensures
            r == self.spec_floor(),
    {
        F32::from_bits(lane_floor(self.bits)).canonical()
    }

    /// The value rounded to the nearest integer, saturating.
    #[verifier::when_used_as_spec(spec_to_int)]
    pub fn to_int(self) -> (r: i32)
        ensures
            r == self.spec_to_int(),
    {
        lane_to_i32(self.bits)
    }

    /// The value nearest to the integer `n`.
    #[verifier::when_used_as_spec(spec_from_int)]
    pub fn from_int(n: i32) -> (r: F32)
        ensures
            r == F32::spec_from_int(n),
    {
        F32 { bits: lane_from_i32(n) }
    }

    /// The smaller of the two values, a NaN giving way to the other one.
    pub fn min(self, rhs: F32) -> (r: F32)
        ensures
            self.is_nan() && !rhs.is_nan() ==> r == rhs,
            !self.is_nan() && rhs.is_nan() ==> r == self,
            self.is_nan() && rhs.is_nan() ==> r.is_nan(),
            !self.is_nan() && !rhs.is_nan() ==> (r == self || r == rhs) && r.spec_le(self)
                && r.spec_le(rhs),
    {
        F32 { bits: lane_min(self.bits, rhs.bits) }
    }

    /// The larger of the two values, a NaN giving way to the other one.
    pub fn max(self, rhs: F32) -> (r: F32)
        ensures
            self.is_nan() && !rhs.is_nan() ==> r == rhs,
            !self.is_nan() && rhs.is_nan() ==> r == self,
            self.is_nan() && rhs.is_nan() ==> r.is_nan(),
            !self.is_nan() && !rhs.is_nan() ==> (r == self || r == rhs) && self.spec_le(r)
                && rhs.spec_le(r),
    {
        F32 { bits: lane_max(self.bits, rhs.bits) }
    }

    /// `self` comes before `rhs` among the patterns of numbers.
    #[verifier::when_used_as_spec(spec_precedes)]
    pub fn precedes(self, rhs: F32) -> (r: bool)
        ensures
            r == self.spec_precedes(rhs),
    {
        if self.is_nan() || rhs.is_nan() {
            false
        } else if self.bits >= SIGN {
            rhs.bits < self.bits
        } else {
            rhs.bits < SIGN && self.bits < rhs.bits
        }
    }

    /// The smaller of the two values as the engine takes it, settled where
    /// the engine leaves a choice: a NaN gives way to the other value, and of
    /// the two zeros `-0.0` is the smaller. The result is a function of the
    /// operands, bit for bit.
    #[verifier::when_used_as_spec(spec_lowest)]
    pub fn lowest(self, rhs: F32) -> (r: F32)
        ensures
            r == self.spec_lowest(rhs),
    {
        if self.is_nan() {
            rhs
        } else if rhs.is_nan() {
            self
        } else if self.same_value(rhs) {
            if rhs.precedes(self) {
                rhs
            } else {
                self
            }
        } else {
            self.min(rhs)
        }
    }

    /// The larger of the two values as the engine takes it, settled where
    /// the engine leaves a choice: a NaN gives way to the other value, and of
    /// the two zeros `0.0` is the larger. The result is a function of the
    /// operands, bit for bit.
    #[verifier::when_used_as_spec(spec_highest)]
    pub fn highest(self, rhs: F32) -> (r: F32)
        ensures
            r == self.spec_highest(rhs),
    {
        if self.is_nan() {
            rhs
        } else if rhs.is_nan() {
            self
        } else if self.same_value(rhs) {
            if self.precedes(rhs) {
                rhs
            } else {
                self
            }
        } else {
            self.max(rhs)
        }
    }

    /// The value with its sign bit cleared.
    #[verifier::when_used_as_spec(spec_abs)]
    pub fn abs(self) -> (r: F32)
        ensures
            r == self.spec_abs(),
    {
        if self.bits >= SIGN {
            F32 { bits: self.bits - SIGN }
        } else {
            self
        }
    }

    /// Bitwise exclusive or of the two patterns.
    #[verifier::when_used_as_spec(spec_xor)]
    pub fn xor(self, rhs: F32) -> (r: F32)
        ensures
            r == self.spec_xor(rhs),
    {
        F32 { bits: self.bits ^ rhs.bits }
    }

    /// Bitwise and of the two patterns.
    #[verifier::when_used_as_spec(spec_and)]
    pub fn and(self, rhs: F32) -> (r: F32)
        ensures
            r == self.spec_and(rhs),
    {
        F32 { bits: self.bits & rhs.bits }
    }

    /// Bitwise or of the two patterns.
    #[verifier::when_used_as_spec(spec_or)]
    pub fn or(self, rhs: F32) -> (r: F32)
        ensures
            r == self.spec_or(rhs),
    {
        F32 { bits: self.bits | rhs.bits }
    }

    /// The bits of `self` that are not set in `rhs`.
    #[verifier::when_used_as_spec(spec_and_not)]
    pub fn and_not(self, rhs: F32) -> (r: F32)
        ensures
            r == self.spec_and_not(rhs),
    {
        F32 { bits: self.bits & !rhs.bits }
    }

    /// Lane select with `self` as the mask: `a` where the mask is all zero,
    /// else `b`.
    #[verifier::when_used_as_spec(spec_blendv)]
    pub fn blendv(self, a: F32, b: F32) -> (r: F32)
        ensures
            r == self.spec_blendv(a, b),
    {
        if self.bits == 0 {
            a
        } else {
            b
        }
    }

    /// The mask that selects when `on` holds: all ones, else all zero.
    #[verifier::when_used_as_spec(spec_mask)]
    pub fn mask(on: bool) -> (r: F32)
        ensures
            r == F32::spec_mask(on),
    {
        F32 { bits: if on { ALL_ONES } else { ZERO } }
    }
}

} // verus!

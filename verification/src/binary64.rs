//! Binary64 values as bit patterns, with the operations the noise kernels
//! are written in.
use crate::binary32::F32;
use crate::simd_64::{
    canonical64, f64_add, f64_floor, f64_mul, f64_sub, f64_to_i64, i64_to_f64, is_nan64,
    key64, lane_add, lane_floor, lane_from_i64, lane_max, lane_min, lane_mul, lane_sub,
    lane_to_i64, lane_widen, magnitude64, f32_to_f64,
};
use vstd::prelude::*;

verus! {

/// Pattern of `0.0`.
pub const ZERO: u64 = 0;

/// Pattern of `1.0`.
pub const ONE: u64 = 0x3ff0_0000_0000_0000;

/// Pattern of `2.0`.
pub const TWO: u64 = 0x4000_0000_0000_0000;

/// Pattern of the largest finite value.
pub const MAX: u64 = 0x7fef_ffff_ffff_ffff;

/// Pattern of the smallest finite value, the negative of [`MAX`].
pub const MIN: u64 = 0xffef_ffff_ffff_ffff;

/// Pattern of positive infinity.
pub const INFINITY: u64 = 0x7ff0_0000_0000_0000;

/// Pattern of negative infinity.
pub const NEG_INFINITY: u64 = 0xfff0_0000_0000_0000;

/// Pattern with only the sign bit set, which is `-0.0`.
pub const SIGN: u64 = 0x8000_0000_0000_0000;

/// Pattern with every bit set: a lane mask that selects.
pub const ALL_ONES: u64 = 0xffff_ffff_ffff_ffff;

/// The quiet NaN that every NaN result is folded to.
pub const NAN: u64 = 0x7ff8_0000_0000_0000;

/// An IEEE 754 binary64 value, held as its bit pattern.
///
/// `==` on this type compares patterns: it tells `0.0` from `-0.0` and finds
/// a NaN equal to itself. [`F64::same_value`] compares as numbers do.
#[derive(Clone, Copy, PartialEq, Eq, Structural, Debug)]
pub struct F64 {
    pub bits: u64,
}

impl F64 {
    /// What [`F64::from_bits`] returns.
    pub open spec fn spec_from_bits(bits: u64) -> F64 {
        F64 { bits }
    }

    /// The value with the given pattern.
    #[verifier::when_used_as_spec(spec_from_bits)]
    pub fn from_bits(bits: u64) -> (r: F64)
        ensures
            r == F64::spec_from_bits(bits),
    {
        F64 { bits }
    }

    /// The pattern of the value.
    pub fn to_bits(self) -> (r: u64)
        ensures
            r == self.bits,
    {
        self.bits
    }

    /// Whether the value is a NaN.
    pub open spec fn spec_is_nan(self) -> bool {
        is_nan64(self.bits)
    }

    /// What [`F64::canonical`] returns.
    pub open spec fn spec_canonical(self) -> F64 {
        F64 { bits: canonical64(self.bits) }
    }

    /// Whether the value is neither a NaN nor an infinity.
    pub open spec fn is_finite(self) -> bool {
        magnitude64(self.bits) < 0x7ff0_0000_0000_0000
    }

    /// Place of the value on the number line; see [`key64`].
    pub open spec fn key(self) -> int {
        key64(self.bits)
    }

    /// Place of the value among the patterns of numbers: a larger number
    /// has a larger rank, and `-0.0` comes just before `0.0`. No two
    /// patterns of numbers share a rank. Meaningful for values that are not
    /// NaN.
    pub open spec fn rank(self) -> int {
        if self.bits >= SIGN {
            -(magnitude64(self.bits) as int) - 1
        } else {
            self.bits as int
        }
    }

    /// `self` comes before `rhs` among the patterns of numbers: it is the
    /// smaller number, or `-0.0` beside `0.0`. False when either is NaN.
    pub open spec fn spec_precedes(self, rhs: F64) -> bool {
        !self.spec_is_nan() && !rhs.spec_is_nan() && self.rank() < rhs.rank()
    }

    /// `self` is `rhs` or comes before it; see [`F64::spec_precedes`].
    pub open spec fn not_after(self, rhs: F64) -> bool {
        !self.spec_is_nan() && !rhs.spec_is_nan() && self.rank() <= rhs.rank()
    }

    /// What [`F64::lowest`] returns.
    pub open spec fn spec_lowest(self, rhs: F64) -> F64 {
        if self.spec_is_nan() {
            rhs
        } else if rhs.spec_is_nan() {
            self
        } else if rhs.spec_precedes(self) {
            rhs
        } else {
            self
        }
    }

    /// What [`F64::highest`] returns.
    pub open spec fn spec_highest(self, rhs: F64) -> F64 {
        if self.spec_is_nan() {
            rhs
        } else if rhs.spec_is_nan() {
            self
        } else if self.spec_precedes(rhs) {
            rhs
        } else {
            self
        }
    }

    /// `self < rhs` as numbers compare: false when either is NaN.
    pub open spec fn spec_lt(self, rhs: F64) -> bool {
        !self.spec_is_nan() && !rhs.spec_is_nan() && self.key() < rhs.key()
    }

    /// `self > rhs` as numbers compare: false when either is NaN.
    pub open spec fn spec_gt(self, rhs: F64) -> bool {
        rhs.spec_lt(self)
    }

    /// `self <= rhs` as numbers compare: false when either is NaN.
    pub open spec fn spec_le(self, rhs: F64) -> bool {
        !self.spec_is_nan() && !rhs.spec_is_nan() && self.key() <= rhs.key()
    }

    /// `self == rhs` as numbers compare: the two zeros are equal, and a NaN
    /// equals nothing.
    pub open spec fn spec_same_value(self, rhs: F64) -> bool {
        !self.spec_is_nan() && !rhs.spec_is_nan() && self.key() == rhs.key()
    }

    /// What [`F64::plus`] returns.
    pub open spec fn spec_plus(self, rhs: F64) -> F64 {
        F64 { bits: f64_add(self.bits, rhs.bits) }
    }

    /// What [`F64::minus`] returns.
    pub open spec fn spec_minus(self, rhs: F64) -> F64 {
        F64 { bits: f64_sub(self.bits, rhs.bits) }
    }

    /// What [`F64::times`] returns.
    pub open spec fn spec_times(self, rhs: F64) -> F64 {
        F64 { bits: f64_mul(self.bits, rhs.bits) }
    }

    /// What [`F64::floor`] returns.
    pub open spec fn spec_floor(self) -> F64 {
        F64 { bits: f64_floor(self.bits) }
    }

    /// What [`F64::to_int`] returns.
    pub open spec fn spec_to_int(self) -> i64 {
        f64_to_i64(self.bits)
    }

    /// What [`F64::from_int`] returns.
    pub open spec fn spec_from_int(n: i64) -> F64 {
        F64 { bits: i64_to_f64(n) }
    }

    /// What [`F64::from_f32`] returns.
    pub open spec fn spec_from_f32(x: F32) -> F64 {
        F64 { bits: f32_to_f64(x.bits) }
    }

    /// What [`F64::abs`] returns.
    pub open spec fn spec_abs(self) -> F64 {
        F64 { bits: magnitude64(self.bits) }
    }

    /// What [`F64::xor`] returns.
    pub open spec fn spec_xor(self, rhs: F64) -> F64 {
        F64 { bits: self.bits ^ rhs.bits }
    }

    /// What [`F64::and`] returns.
    pub open spec fn spec_and(self, rhs: F64) -> F64 {
        F64 { bits: self.bits & rhs.bits }
    }

    /// What [`F64::or`] returns.
    pub open spec fn spec_or(self, rhs: F64) -> F64 {
        F64 { bits: self.bits | rhs.bits }
    }

    /// What [`F64::and_not`] returns.
    pub open spec fn spec_and_not(self, rhs: F64) -> F64 {
        F64 { bits: self.bits & !rhs.bits }
    }

    /// What [`F64::blendv`] returns.
    pub open spec fn spec_blendv(self, a: F64, b: F64) -> F64 {
        if self.bits == 0 {
            a
        } else {
            b
        }
    }

    /// What [`F64::mask`] returns.
    pub open spec fn spec_mask(on: bool) -> F64 {
        F64 { bits: if on { ALL_ONES } else { ZERO } }
    }

    /// Whether the value is a NaN.
    #[verifier::when_used_as_spec(spec_is_nan)]
    pub fn is_nan(self) -> (r: bool)
        ensures
            r == self.spec_is_nan(),
    {
        let m: u64 = if self.bits >= SIGN {
            self.bits - SIGN
        } else {
            self.bits
        };
        m > 0x7ff0_0000_0000_0000
    }

    /// The value itself, or the quiet NaN for every NaN: what an arithmetic
    /// result of the engine is brought to before it goes on.
    #[verifier::when_used_as_spec(spec_canonical)]
    pub fn canonical(self) -> (r: F64)
        ensures
            r == self.spec_canonical(),
    {
        if self.is_nan() {
            F64 { bits: NAN }
        } else {
            self
        }
    }

    /// `self < rhs` as numbers compare.
    #[verifier::when_used_as_spec(spec_lt)]
    pub fn lt(self, rhs: F64) -> (r: bool)
        ensures
            r == self.spec_lt(rhs),
    {
        if self.is_nan() || rhs.is_nan() {
            false
        } else if self.bits >= SIGN {
            if rhs.bits >= SIGN {
                self.bits > rhs.bits
            } else {
                self.bits > SIGN || rhs.bits > 0
            }
        } else {
            rhs.bits < SIGN && self.bits < rhs.bits
        }
    }

    /// `self > rhs` as numbers compare.
    #[verifier::when_used_as_spec(spec_gt)]
    pub fn gt(self, rhs: F64) -> (r: bool)
        ensures
            r == self.spec_gt(rhs),
    {
        rhs.lt(self)
    }

    /// `self == rhs` as numbers compare.
    #[verifier::when_used_as_spec(spec_same_value)]
    pub fn same_value(self, rhs: F64) -> (r: bool)
        ensures
            r == self.spec_same_value(rhs),
    {
        if self.is_nan() || rhs.is_nan() {
            false
        } else {
            self.bits == rhs.bits || (self.abs().bits == 0 && rhs.abs().bits == 0)
        }
    }

    /// Sum, rounded as IEEE 754 asks; a NaN result is the quiet NaN.
    #[verifier::when_used_as_spec(spec_plus)]
    pub fn plus(self, rhs: F64) -> (r: F64)
        ensures
            r == self.spec_plus(rhs),
    {
        F64::from_bits(lane_add(self.bits, rhs.bits)).canonical()
    }

    /// Difference, rounded as IEEE 754 asks; a NaN result is the quiet NaN.
    #[verifier::when_used_as_spec(spec_minus)]
    pub fn minus(self, rhs: F64) -> (r: F64)
        ensures
            r == self.spec_minus(rhs),
    {
        F64::from_bits(lane_sub(self.bits, rhs.bits)).canonical()
    }

    /// Product, rounded as IEEE 754 asks; a NaN result is the quiet NaN.
    #[verifier::when_used_as_spec(spec_times)]
    pub fn times(self, rhs: F64) -> (r: F64)
        ensures
            r == self.spec_times(rhs),
    {
        F64::from_bits(lane_mul(self.bits, rhs.bits)).canonical()
    }

    /// Largest integral value not above `self`.
    #[verifier::when_used_as_spec(spec_floor)]
    pub fn floor(self) -> (r: F64)
        ensures
            r == self.spec_floor(),
    {
        F64::from_bits(lane_floor(self.bits)).canonical()
    }

    /// The value rounded to the nearest integer, saturating.
    #[verifier::when_used_as_spec(spec_to_int)]
    pub fn to_int(self) -> (r: i64)
        ensures
            r == self.spec_to_int(),
    {
        lane_to_i64(self.bits)
    }

    /// The value nearest to the integer `n`.
    #[verifier::when_used_as_spec(spec_from_int)]
    pub fn from_int(n: i64) -> (r: F64)
        ensures
            r == F64::spec_from_int(n),
    {
        F64 { bits: lane_from_i64(n) }
    }

    /// The binary32 value `x` at binary64 precision.
    #[verifier::when_used_as_spec(spec_from_f32)]
    pub fn from_f32(x: F32) -> (r: F64)
        ensures
            r == F64::spec_from_f32(x),
    {
        F64::from_bits(lane_widen(x.bits)).canonical()
    }

    /// The smaller of the two values, a NaN giving way to the other one.
    pub fn min(self, rhs: F64) -> (r: F64)
        ensures
            self.is_nan() && !rhs.is_nan() ==> r == rhs,
            !self.is_nan() && rhs.is_nan() ==> r == self,
            self.is_nan() && rhs.is_nan() ==> r.is_nan(),
            !self.is_nan() && !rhs.is_nan() ==> (r == self || r == rhs) && r.spec_le(self)
                && r.spec_le(rhs),
    {
        F64 { bits: lane_min(self.bits, rhs.bits) }
    }

    /// The larger of the two values, a NaN giving way to the other one.
    pub fn max(self, rhs: F64) -> (r: F64)
        ensures
            self.is_nan() && !rhs.is_nan() ==> r == rhs,
            !self.is_nan() && rhs.is_nan() ==> r == self,
            self.is_nan() && rhs.is_nan() ==> r.is_nan(),
            !self.is_nan() && !rhs.is_nan() ==> (r == self || r == rhs) && self.spec_le(r)
                && rhs.spec_le(r),
    {
        F64 { bits: lane_max(self.bits, rhs.bits) }
    }

    /// `self` comes before `rhs` among the patterns of numbers.
    #[verifier::when_used_as_spec(spec_precedes)]
    pub fn precedes(self, rhs: F64) -> (r: bool)
        ensures
            r == self.spec_precedes(rhs),
    {
        if self.is_nan() || rhs.is_nan() {
            false
        } else if self.bits >= SIGN {
            rhs.bits < self.bits
        } else {
            rhs.bits < SIGN && self.bits < rhs.bits
        }
    }

    /// The smaller of the two values as the engine takes it, settled where
    /// the engine leaves a choice: a NaN gives way to the other value, and of
    /// the two zeros `-0.0` is the smaller. The result is a function of the
    /// operands, bit for bit.
    #[verifier::when_used_as_spec(spec_lowest)]
    pub fn lowest(self, rhs: F64) -> (r: F64)
        ensures
            r == self.spec_lowest(rhs),
    {
        if self.is_nan() {
            rhs
        } else if rhs.is_nan() {
            self
        } else if self.same_value(rhs) {
            if rhs.precedes(self) {
                rhs
            } else {
                self
            }
        } else {
            self.min(rhs)
        }
    }

    /// The larger of the two values as the engine takes it, settled where
    /// the engine leaves a choice: a NaN gives way to the other value, and of
    /// the two zeros `0.0` is the larger. The result is a function of the
    /// operands, bit for bit.
    #[verifier::when_used_as_spec(spec_highest)]
    pub fn highest(self, rhs: F64) -> (r: F64)
        ensures
            r == self.spec_highest(rhs),
    {
        if self.is_nan() {
            rhs
        } else if rhs.is_nan() {
            self
        } else if self.same_value(rhs) {
            if self.precedes(rhs) {
                rhs
            } else {
                self
            }
        } else {
            self.max(rhs)
        }
    }

    /// The value with its sign bit cleared.
    #[verifier::when_used_as_spec(spec_abs)]
    pub fn abs(self) -> (r: F64)
        ensures
            r == self.spec_abs(),
    {
        if self.bits >= SIGN {
            F64 { bits: self.bits - SIGN }
        } else {
            self
        }
    }

    /// Bitwise exclusive or of the two patterns.
    #[verifier::when_used_as_spec(spec_xor)]
    pub fn xor(self, rhs: F64) -> (r: F64)
        ensures
            r == self.spec_xor(rhs),
    {
        F64 { bits: self.bits ^ rhs.bits }
    }

    /// Bitwise and of the two patterns.
    #[verifier::when_used_as_spec(spec_and)]
    pub fn and(self, rhs: F64) -> (r: F64)
        ensures
            r == self.spec_and(rhs),
    {
        F64 { bits: self.bits & rhs.bits }
    }

    /// Bitwise or of the two patterns.
    #[verifier::when_used_as_spec(spec_or)]
    pub fn or(self, rhs: F64) -> (r: F64)
        ensures
            r == self.spec_or(rhs),
    {
        F64 { bits: self.bits | rhs.bits }
    }

    /// The bits of `self` that are not set in `rhs`.
    #[verifier::when_used_as_spec(spec_and_not)]
    pub fn and_not(self, rhs: F64) -> (r: F64)
        ensures
            r == self.spec_and_not(rhs),
    {
        F64 { bits: self.bits & !rhs.bits }
    }

    /// Lane select with `self` as the mask: `a` where the mask is all zero,
    /// else `b`.
    #[verifier::when_used_as_spec(spec_blendv)]
    pub fn blendv(self, a: F64, b: F64) -> (r: F64)
        ensures
            r == self.spec_blendv(a, b),
    {
        if self.bits == 0 {
            a
        } else {
            b
        }
    }

    /// The mask that selects when `on` holds: all ones, else all zero.
    #[verifier::when_used_as_spec(spec_mask)]
    pub fn mask(on: bool) -> (r: F64)
        ensures
            r == F64::spec_mask(on),
    {
        F64 { bits: if on { ALL_ONES } else { ZERO } }
    }
}

} // verus!

//! Gradients at the lattice points, chosen by hash, at binary32 precision.
use crate::binary32::{F32, ALL_ONES, ONE, SIGN, TWO, ZERO};
use crate::noise::hash_32::{hash3d, scramble};
use vstd::prelude::*;

verus! {

/// What [`grad1`] returns.
pub open spec fn spec_grad1(seed: i32, hash: i32) -> F32 {
    let h = (seed ^ hash) & 15;
    let v = F32::from_int(h & 7);
    let h_and_8 = F32::mask((h & 8) == 0);
    h_and_8.blendv(F32::from_bits(ZERO).minus(v), v)
}

/// A gradient on the line: an integer from -7 to 7, chosen by the low four
/// bits of the hash and the seed.
#[verifier::when_used_as_spec(spec_grad1)]
pub fn grad1(seed: i32, hash: i32) -> (r: F32)
    ensures
        r == spec_grad1(seed, hash),
{
    let h = (seed ^ hash) & 15;
    let v = F32::from_int(h & 7);
    let h_and_8 = F32::mask((h & 8) == 0);
    h_and_8.blendv(F32::from_bits(ZERO).minus(v), v)
}

/// The two components of what [`grad2`] returns.
pub open spec fn spec_grad2(seed: i32, hash: i32) -> (F32, F32) {
    let h = (hash ^ seed) & 7;
    let mask = F32::mask(4 > h);
    let x_magnitude = mask.blendv(F32::from_bits(TWO), F32::from_bits(ONE));
    let y_magnitude = mask.blendv(F32::from_bits(ONE), F32::from_bits(TWO));
    let h_and_1 = F32::mask((h & 1) == 0);
    let h_and_2 = F32::mask((h & 2) == 0);
    let gx = mask.blendv(h_and_2, h_and_1).blendv(
        F32::from_bits(ZERO).minus(x_magnitude),
        x_magnitude,
    );
    let gy = mask.blendv(h_and_1, h_and_2).blendv(
        F32::from_bits(ZERO).minus(y_magnitude),
        y_magnitude,
    );
    (gx, gy)
}

/// A gradient in the plane: one component is 1 or -1, the other 2 or -2,
/// chosen by the low three bits of the hash and the seed.
pub fn grad2(seed: i32, hash: i32) -> (r: [F32; 2])
    ensures
        r@[0] == spec_grad2(seed, hash).0,
        r@[1] == spec_grad2(seed, hash).1,
{
    let h = (hash ^ seed) & 7;
    let mask = F32::mask(4 > h);
    let x_magnitude = mask.blendv(F32::from_bits(TWO), F32::from_bits(ONE));
    let y_magnitude = mask.blendv(F32::from_bits(ONE), F32::from_bits(TWO));
    let h_and_1 = F32::mask((h & 1) == 0);
    let h_and_2 = F32::mask((h & 2) == 0);
    let gx = mask.blendv(h_and_2, h_and_1).blendv(
        F32::from_bits(ZERO).minus(x_magnitude),
        x_magnitude,
    );
    let gy = mask.blendv(h_and_1, h_and_2).blendv(
        F32::from_bits(ZERO).minus(y_magnitude),
        y_magnitude,
    );
    [gx, gy]
}

/// What [`grad3d_dot`] returns.
pub open spec fn spec_grad3d_dot(
    seed: i32,
    i: i32,
    j: i32,
    k: i32,
    x: F32,
    y: F32,
    z: F32,
) -> F32 {
    let h = hash3d(seed, i, j, k);
    let u = h.l8.blendv(y, x);
    let v = h.l4.blendv(h.h12_or_14.blendv(z, x), y);
    u.xor(h.h1).plus(v.xor(h.h2))
}

/// The dot product of `(x, y, z)` with the gradient at the lattice point
/// `(i, j, k)`, which points from the middle of a cube to the middle of one
/// of its edges: two coordinates are picked, given their signs and added.
#[verifier::when_used_as_spec(spec_grad3d_dot)]
pub fn grad3d_dot(seed: i32, i: i32, j: i32, k: i32, x: F32, y: F32, z: F32) -> (r: F32)
    ensures
        r == spec_grad3d_dot(seed, i, j, k, x, y, z),
{
    let h = hash3d(seed, i, j, k);
    let u = h.l8.blendv(y, x);
    let v = h.l4.blendv(h.h12_or_14.blendv(z, x), y);
    u.xor(h.h1).plus(v.xor(h.h2))
}

/// The three components of what [`grad3d`] returns.
pub open spec fn spec_grad3d(seed: i32, i: i32, j: i32, k: i32) -> (F32, F32, F32) {
    let h = hash3d(seed, i, j, k);
    let first = F32::from_bits(ONE).or(h.h1);
    let gx0 = h.l8.and(first);
    let gy0 = first.and_not(h.l8);
    let second = F32::from_bits(ONE).or(h.h2);
    let gy = h.l4.blendv(gy0, second);
    let gx = h.h12_or_14.and_not(h.l4).blendv(gx0, second);
    let gz = second.and_not(h.h12_or_14.or(h.l4));
    (gx, gy, gz)
}

/// The gradient that [`grad3d_dot`] multiplies with: two components are 1 or
/// -1, the third is 0.
pub fn grad3d(seed: i32, i: i32, j: i32, k: i32) -> (r: [F32; 3])
    ensures
        r@[0] == spec_grad3d(seed, i, j, k).0,
        r@[1] == spec_grad3d(seed, i, j, k).1,
        r@[2] == spec_grad3d(seed, i, j, k).2,
{
    let h = hash3d(seed, i, j, k);
    let first = F32::from_bits(ONE).or(h.h1);
    let mut gx = h.l8.and(first);
    let mut gy = first.and_not(h.l8);
    let second = F32::from_bits(ONE).or(h.h2);
    gy = h.l4.blendv(gy, second);
    gx = h.h12_or_14.and_not(h.l4).blendv(gx, second);
    let gz = second.and_not(h.h12_or_14.or(h.l4));
    [gx, gy, gz]
}

/// Pattern of `-1.0`.
pub const MINUS_ONE: u32 = 0xbf80_0000;

/// Whether `g` is `1.0` or `-1.0`.
pub open spec fn is_unit(g: F32) -> bool {
    g.bits == ONE || g.bits == MINUS_ONE
}

/// The coordinate `c` times the unit `g`: `c` itself, or `c` with its sign
/// bit flipped where `g` is negative.
pub open spec fn times_unit(g: F32, c: F32) -> F32 {
    F32 { bits: c.bits ^ (g.bits & SIGN) }
}

/// `d` is the dot product of `(x, y, z)` with the gradient `g`, taken as
/// [`grad3d_dot`] takes it: `g` has one component that is zero and two that
/// are units, and `d` is the sum of the two coordinates that meet a unit,
/// each times its unit.
pub open spec fn dot_selects(g: (F32, F32, F32), x: F32, y: F32, z: F32, d: F32) -> bool {
    let sx = times_unit(g.0, x);
    let sy = times_unit(g.1, y);
    let sz = times_unit(g.2, z);
    ||| is_unit(g.0) && is_unit(g.1) && g.2.bits == ZERO && (d == sx.plus(sy) || d == sy.plus(sx))
    ||| is_unit(g.0) && g.1.bits == ZERO && is_unit(g.2) && d == sx.plus(sz)
    ||| g.0.bits == ZERO && is_unit(g.1) && is_unit(g.2) && d == sy.plus(sz)
}

proof fn lemma_sign_bits(hash: u32)
    by (bit_vector)
    ensures
        (hash << 31) == 0 || (hash << 31) == 0x8000_0000u32,
        ((hash & 2) << 30) == 0 || ((hash & 2) << 30) == 0x8000_0000u32,
{
}

proof fn lemma_mask_algebra(f: u32)
    by (bit_vector)
    ensures
        0xffff_ffffu32 & f == f,
        0u32 & f == 0,
        f & !0xffff_ffffu32 == 0,
        f & !0u32 == f,
        f ^ 0u32 == f,
        0u32 | 0u32 == 0,
        0xffff_ffffu32 | 0u32 == 0xffff_ffffu32,
        0u32 | 0xffff_ffffu32 == 0xffff_ffffu32,
        0xffff_ffffu32 | 0xffff_ffffu32 == 0xffff_ffffu32,
        0xffff_ffffu32 & !0u32 == 0xffff_ffffu32,
        0u32 & !0u32 == 0,
        0u32 & !0xffff_ffffu32 == 0,
        0xffff_ffffu32 & !0xffff_ffffu32 == 0,
        0x3f80_0000u32 | 0u32 == 0x3f80_0000u32,
        0x3f80_0000u32 | 0x8000_0000u32 == 0xbf80_0000u32,
        0x3f80_0000u32 & 0x8000_0000u32 == 0,
        0xbf80_0000u32 & 0x8000_0000u32 == 0x8000_0000u32,
{
}

/// The explicit gradient and the fused dot product agree: whatever the
/// lattice point and the seed, the gradient of [`grad3d`] has exactly two
/// components that are 1 or -1 and one that is 0, and what [`grad3d_dot`]
/// returns is the sum of the two coordinates those components meet, each
/// with the sign of its component.
pub proof fn lemma_grad3d_dot_agrees(seed: i32, i: i32, j: i32, k: i32, x: F32, y: F32, z: F32)
    ensures
        dot_selects(spec_grad3d(seed, i, j, k), x, y, z, spec_grad3d_dot(seed, i, j, k, x, y, z)),
{
    let hash = scramble(#[verifier::truncate] ((k ^ (j ^ (i ^ seed))) as u32));
    let h = hash3d(seed, i, j, k);
    lemma_sign_bits(hash);
    let first = F32::from_bits(ONE).or(h.h1);
    let second = F32::from_bits(ONE).or(h.h2);
    lemma_mask_algebra(first.bits);
    lemma_mask_algebra(second.bits);
    lemma_mask_algebra(x.bits);
    lemma_mask_algebra(y.bits);
    lemma_mask_algebra(z.bits);
    assert(h.l8.bits == ZERO || h.l8.bits == ALL_ONES);
    assert(h.l4.bits == ZERO || h.l4.bits == ALL_ONES);
    assert(h.h12_or_14.bits == ZERO || h.h12_or_14.bits == ALL_ONES);
    assert(h.l4.bits == ALL_ONES ==> h.l8.bits == ALL_ONES);
    assert(h.h12_or_14.bits == ALL_ONES ==> h.l8.bits == ZERO && h.l4.bits == ZERO);
    assert(is_unit(first) && first.bits & SIGN == h.h1.bits);
    assert(is_unit(second) && second.bits & SIGN == h.h2.bits);
}

/// Exactly two axes are chosen: two components of the gradient of [`grad3d`]
/// are 1 or -1, and the third is 0.
pub proof fn lemma_grad3d_two_axes(seed: i32, i: i32, j: i32, k: i32)
    ensures
        ({
            let g = spec_grad3d(seed, i, j, k);
            ||| is_unit(g.0) && is_unit(g.1) && g.2.bits == ZERO
            ||| is_unit(g.0) && g.1.bits == ZERO && is_unit(g.2)
            ||| g.0.bits == ZERO && is_unit(g.1) && is_unit(g.2)
        }),
{
    let zero = F32::from_bits(ZERO);
    lemma_grad3d_dot_agrees(seed, i, j, k, zero, zero, zero);
}

/// The gradient on the line in words: the low three bits of the hash mixed
/// with the seed, a whole number from 0 to 7, as a binary32 value; taken from
/// zero where the fourth bit is set.
pub proof fn lemma_grad1_value(seed: i32, hash: i32)
    ensures
        ({
            let h = (seed ^ hash) & 15;
            let v = F32::from_int(h & 7);
            &&& 0 <= h & 7 <= 7
            &&& spec_grad1(seed, hash) == if (h & 8) == 0 {
                v
            } else {
                F32::from_bits(ZERO).minus(v)
            }
        }),
{
    let h = (seed ^ hash) & 15;
    assert(0 <= h & 7 <= 7) by (bit_vector);
}

/// The gradient in the plane in words, `h` being the low three bits of the
/// hash mixed with the seed. Below 4 the x component is one and the y
/// component two, else the other way round. A component is taken from zero
/// where its bit of `h` is set: below 4 the lowest bit for x and the second
/// for y, else the second for x and the lowest for y.
pub proof fn lemma_grad2_components(seed: i32, hash: i32)
    ensures
        ({
            let h = (hash ^ seed) & 7;
            let g = spec_grad2(seed, hash);
            let zero = F32::from_bits(ZERO);
            let x = F32::from_bits(if h < 4 { ONE } else { TWO });
            let y = F32::from_bits(if h < 4 { TWO } else { ONE });
            let x_bit = if h < 4 { h & 1 } else { h & 2 };
            let y_bit = if h < 4 { h & 2 } else { h & 1 };
            &&& g.0 == if x_bit == 0 { x } else { zero.minus(x) }
            &&& g.1 == if y_bit == 0 { y } else { zero.minus(y) }
        }),
{
}

} // verus!

//! Gradients at the lattice points, chosen by hash, at binary64 precision.
use crate::binary64::{F64, ONE, TWO, ZERO};
use crate::error::NoiseError;
use crate::noise::hash_64::hash3d;
use vstd::prelude::*;

verus! {

/// What [`grad1`] returns.
pub open spec fn spec_grad1(seed: i64, hash: i64) -> F64 {
    let h = (seed ^ hash) & 15;
    let v = F64::from_int(h & 7);
    let h_and_8 = F64::mask((h & 8) == 0);
    h_and_8.blendv(F64::from_bits(ZERO).minus(v), v)
}

/// A gradient on the line: an integer from -7 to 7, chosen by the low four
/// bits of the hash and the seed.
#[verifier::when_used_as_spec(spec_grad1)]
pub fn grad1(seed: i64, hash: i64) -> (r: F64)
    ensures
        r == spec_grad1(seed, hash),
{
    let h = (seed ^ hash) & 15;
    let v = F64::from_int(h & 7);
    let h_and_8 = F64::mask((h & 8) == 0);
    h_and_8.blendv(F64::from_bits(ZERO).minus(v), v)
}

/// The two components of what [`grad2`] returns.
pub open spec fn spec_grad2(seed: i64, hash: i64) -> (F64, F64) {
    let h = (hash ^ seed) & 7;
    let mask = F64::mask(4 > h);
    let x_magnitude = mask.blendv(F64::from_bits(TWO), F64::from_bits(ONE));
    let y_magnitude = mask.blendv(F64::from_bits(ONE), F64::from_bits(TWO));
    let h_and_1 = F64::mask((h & 1) == 0);
    let h_and_2 = F64::mask((h & 2) == 0);
    let gx = mask.blendv(h_and_2, h_and_1).blendv(
        F64::from_bits(ZERO).minus(x_magnitude),
        x_magnitude,
    );
    let gy = mask.blendv(h_and_1, h_and_2).blendv(
        F64::from_bits(ZERO).minus(y_magnitude),
        y_magnitude,
    );
    (gx, gy)
}

/// A gradient in the plane: one component is 1 or -1, the other 2 or -2,
/// chosen by the low three bits of the hash and the seed.
pub fn grad2(seed: i64, hash: i64) -> (r: [F64; 2])
    ensures
        r@[0] == spec_grad2(seed, hash).0,
        r@[1] == spec_grad2(seed, hash).1,
{
    let h = (hash ^ seed) & 7;
    let mask = F64::mask(4 > h);
    let x_magnitude = mask.blendv(F64::from_bits(TWO), F64::from_bits(ONE));
    let y_magnitude = mask.blendv(F64::from_bits(ONE), F64::from_bits(TWO));
    let h_and_1 = F64::mask((h & 1) == 0);
    let h_and_2 = F64::mask((h & 2) == 0);
    let gx = mask.blendv(h_and_2, h_and_1).blendv(
        F64::from_bits(ZERO).minus(x_magnitude),
        x_magnitude,
    );
    let gy = mask.blendv(h_and_1, h_and_2).blendv(
        F64::from_bits(ZERO).minus(y_magnitude),
        y_magnitude,
    );
    [gx, gy]
}

/// The dot product of `(x, y, z)` with the gradient at the lattice point
/// `(i, j, k)`: two coordinates are picked by the hash, given their signs
/// and added. There is no hash of space at this precision, so this fails for
/// every lattice point.
pub fn grad3d_dot(seed: i64, i: i64, j: i64, k: i64, x: F64, y: F64, z: F64) -> (r: Result<
    F64,
    NoiseError,
>)
    ensures
        r == Err::<F64, NoiseError>(NoiseError::NotImplemented),
{
    let h = hash3d(seed, i, j, k)?;
    let u = h.l8.blendv(y, x);
    let v = h.l4.blendv(h.h12_or_14.blendv(z, x), y);
    Ok(u.xor(h.h1).plus(v.xor(h.h2)))
}

/// The gradient that [`grad3d_dot`] multiplies with: two components are 1 or
/// -1, the third is 0. There is no hash of space at this precision, so this
/// fails for every lattice point.
pub fn grad3d(seed: i64, i: i64, j: i64, k: i64) -> (r: Result<[F64; 3], NoiseError>)
    ensures
        r == Err::<[F64; 3], NoiseError>(NoiseError::NotImplemented),
{
    let h = hash3d(seed, i, j, k)?;
    let first = F64::from_bits(ONE).or(h.h1);
    let mut gx = h.l8.and(first);
    let mut gy = first.and_not(h.l8);
    let second = F64::from_bits(ONE).or(h.h2);
    gy = h.l4.blendv(gy, second);
    gx = h.h12_or_14.and_not(h.l4).blendv(gx, second);
    let gz = second.and_not(h.h12_or_14.or(h.l4));
    Ok([gx, gy, gz])
}

/// What [`grad4`] returns.
pub open spec fn spec_grad4(seed: i64, hash: i64, x: F64, y: F64, z: F64, t: F64) -> F64 {
    let h = (seed ^ hash) & 31;
    let zero = F64::from_bits(ZERO);
    let u = F64::mask(24 > h).blendv(y, x);
    let v = F64::mask(16 > h).blendv(z, y);
    let w = F64::mask(8 > h).blendv(t, z);
    let h_and_1 = F64::mask((h & 1) == 0);
    let h_and_2 = F64::mask((h & 2) == 0);
    let h_and_4 = F64::mask((h & 4) == 0);
    h_and_1.blendv(zero.minus(u), u).plus(
        h_and_2.blendv(zero.minus(v), v).plus(h_and_4.blendv(zero.minus(w), w)),
    )
}

/// The dot product of `(x, y, z, t)` with a gradient of four dimensions:
/// three of the coordinates are picked by the low five bits of the hash and
/// the seed, given their signs and added.
#[verifier::when_used_as_spec(spec_grad4)]
pub fn grad4(seed: i64, hash: i64, x: F64, y: F64, z: F64, t: F64) -> (r: F64)
    ensures
        r == spec_grad4(seed, hash, x, y, z, t),
{
    let h = (seed ^ hash) & 31;
    let zero = F64::from_bits(ZERO);
    let u = F64::mask(24 > h).blendv(y, x);
    let v = F64::mask(16 > h).blendv(z, y);
    let w = F64::mask(8 > h).blendv(t, z);
    let h_and_1 = F64::mask((h & 1) == 0);
    let h_and_2 = F64::mask((h & 2) == 0);
    let h_and_4 = F64::mask((h & 4) == 0);
    h_and_1.blendv(zero.minus(u), u).plus(
        h_and_2.blendv(zero.minus(v), v).plus(h_and_4.blendv(zero.minus(w), w)),
    )
}

/// The gradient on the line in words: the low three bits of the hash mixed
/// with the seed, a whole number from 0 to 7, as a binary64 value; taken from
/// zero where the fourth bit is set.
pub proof fn lemma_grad1_value(seed: i64, hash: i64)
    ensures
        ({
            let h = (seed ^ hash) & 15;
            let v = F64::from_int(h & 7);
            &&& 0 <= h & 7 <= 7
            &&& spec_grad1(seed, hash) == if (h & 8) == 0 {
                v
            } else {
                F64::from_bits(ZERO).minus(v)
            }
        }),
{
    let h = (seed ^ hash) & 15;
    assert(0 <= h & 7 <= 7) by (bit_vector);
}

/// The gradient in the plane in words, `h` being the low three bits of the
/// hash mixed with the seed. Below 4 the x component is one and the y
/// component two, else the other way round. A component is taken from zero
/// where its bit of `h` is set: below 4 the lowest bit for x and the second
/// for y, else the second for x and the lowest for y.
pub proof fn lemma_grad2_components(seed: i64, hash: i64)
    ensures
        ({
            let h = (hash ^ seed) & 7;
            let g = spec_grad2(seed, hash);
            let zero = F64::from_bits(ZERO);
            let x = F64::from_bits(if h < 4 { ONE } else { TWO });
            let y = F64::from_bits(if h < 4 { TWO } else { ONE });
            let x_bit = if h < 4 { h & 1 } else { h & 2 };
            let y_bit = if h < 4 { h & 2 } else { h & 1 };
            &&& g.0 == if x_bit == 0 { x } else { zero.minus(x) }
            &&& g.1 == if y_bit == 0 { y } else { zero.minus(y) }
        }),
{
}

} // verus!

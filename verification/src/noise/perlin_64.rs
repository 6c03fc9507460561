//! Gradient noise at binary64 precision, in one, two and three dimensions.
//!
//! The point falls into a cell of the integer lattice. Each corner of the
//! cell gives the dot product of its gradient with the offset to the point,
//! and the corners are blended along each axis by a smooth curve of the
//! point's place in the cell.
use crate::binary64::{F64, ONE};
use crate::error::NoiseError;
use crate::noise::gradient_64::{grad1, grad3d_dot};
use crate::noise::hash_64::{hash1d, X_PRIME, Y_PRIME, Z_PRIME};
use crate::noise::simplex_64::dot_2d;
use crate::vector_64::Vf64;
use vstd::prelude::*;

verus! {

/// Pattern of 6.0.
pub const SIX: u64 = 0x4018_0000_0000_0000;

/// Pattern of 10.0.
pub const TEN: u64 = 0x4024_0000_0000_0000;

/// Pattern of 15.0.
pub const FIFTEEN: u64 = 0x402e_0000_0000_0000;

/// What [`fade`] returns.
pub open spec fn spec_fade(t: F64) -> F64 {
    let inner = t.times(F64::from_bits(SIX)).minus(F64::from_bits(FIFTEEN));
    t.times(t).times(t).times(t.times(inner).plus(F64::from_bits(TEN)))
}

/// The blending curve `6 t^5 - 15 t^4 + 10 t^3`, flat at both ends of the
/// cell.
#[verifier::when_used_as_spec(spec_fade)]
pub fn fade(t: F64) -> (r: F64)
    ensures
        r == spec_fade(t),
{
    let inner = t.times(F64::from_bits(SIX)).minus(F64::from_bits(FIFTEEN));
    t.times(t).times(t).times(t.times(inner).plus(F64::from_bits(TEN)))
}

/// What [`lerp`] returns.
pub open spec fn spec_lerp(a: F64, b: F64, t: F64) -> F64 {
    a.plus(t.times(b.minus(a)))
}

/// The value at the share `t` of the way from `a` to `b`.
#[verifier::when_used_as_spec(spec_lerp)]
pub fn lerp(a: F64, b: F64, t: F64) -> (r: F64)
    ensures
        r == spec_lerp(a, b, t),
{
    a.plus(t.times(b.minus(a)))
}

/// What [`dot_1d`] returns.
pub open spec fn spec_dot_1d(seed: i64, i: i64, x: F64) -> F64 {
    grad1(seed, hash1d(seed, i.wrapping_mul(X_PRIME))).times(x)
}

/// The gradient at the lattice point `i` times the offset `x` from it.
#[verifier::when_used_as_spec(spec_dot_1d)]
pub fn dot_1d(seed: i64, i: i64, x: F64) -> (r: F64)
    ensures
        r == spec_dot_1d(seed, i, x),
{
    grad1(seed, hash1d(seed, i.wrapping_mul(X_PRIME))).times(x)
}

/// The dot product of `(x, y, z)` with the gradient at the lattice point
/// `(i, j, k)`. Fails, as [`grad3d_dot`] does at this precision.
pub fn dot_3d(seed: i64, i: i64, j: i64, k: i64, x: F64, y: F64, z: F64) -> (r: Result<
    F64,
    NoiseError,
>)
    ensures
        r == Err::<F64, NoiseError>(NoiseError::NotImplemented),
{
    grad3d_dot(
        seed,
        i.wrapping_mul(X_PRIME),
        j.wrapping_mul(Y_PRIME),
        k.wrapping_mul(Z_PRIME),
        x,
        y,
        z,
    )
}

/// What [`perlin_1d_lane`] returns.
pub open spec fn spec_perlin_1d(x: F64, seed: i64) -> F64 {
    let ips = x.floor();
    let i = ips.to_int();
    let fx = x.minus(ips);
    let n0 = dot_1d(seed, i, fx);
    let n1 = dot_1d(seed, i.wrapping_add(1), fx.minus(F64::from_bits(ONE)));
    lerp(n0, n1, fade(fx))
}

/// Gradient noise at the point `x` of the line.
#[verifier::when_used_as_spec(spec_perlin_1d)]
pub fn perlin_1d_lane(x: F64, seed: i64) -> (r: F64)
    ensures
        r == spec_perlin_1d(x, seed),
{
    let ips = x.floor();
    let i = ips.to_int();
    let fx = x.minus(ips);
    let n0 = dot_1d(seed, i, fx);
    let n1 = dot_1d(seed, i.wrapping_add(1), fx.minus(F64::from_bits(ONE)));
    lerp(n0, n1, fade(fx))
}

/// What [`perlin_2d_lane`] returns.
pub open spec fn spec_perlin_2d(x: F64, y: F64, seed: i64) -> F64 {
    let ips = x.floor();
    let jps = y.floor();
    let i = ips.to_int();
    let j = jps.to_int();
    let i1 = i.wrapping_add(1);
    let j1 = j.wrapping_add(1);
    let fx = x.minus(ips);
    let fy = y.minus(jps);
    let gx = fx.minus(F64::from_bits(ONE));
    let gy = fy.minus(F64::from_bits(ONE));
    let u = fade(fx);
    let near = lerp(dot_2d(seed, i, j, fx, fy), dot_2d(seed, i1, j, gx, fy), u);
    let far = lerp(dot_2d(seed, i, j1, fx, gy), dot_2d(seed, i1, j1, gx, gy), u);
    lerp(near, far, fade(fy))
}

/// Gradient noise at the point `(x, y)` of the plane.
#[verifier::when_used_as_spec(spec_perlin_2d)]
pub fn perlin_2d_lane(x: F64, y: F64, seed: i64) -> (r: F64)
    ensures
        r == spec_perlin_2d(x, y, seed),
{
    let ips = x.floor();
    let jps = y.floor();
    let i = ips.to_int();
    let j = jps.to_int();
    let i1 = i.wrapping_add(1);
    let j1 = j.wrapping_add(1);
    let fx = x.minus(ips);
    let fy = y.minus(jps);
    let gx = fx.minus(F64::from_bits(ONE));
    let gy = fy.minus(F64::from_bits(ONE));
    let u = fade(fx);
    let near = lerp(dot_2d(seed, i, j, fx, fy), dot_2d(seed, i1, j, gx, fy), u);
    let far = lerp(dot_2d(seed, i, j1, fx, gy), dot_2d(seed, i1, j1, gx, gy), u);
    lerp(near, far, fade(fy))
}

/// The four corners of a cell that lie in the lattice plane `k`, blended
/// along x and y; `fz` is the offset of the point from that plane. Fails at
/// this precision.
pub fn perlin_plane(seed: i64, i: i64, j: i64, k: i64, fx: F64, fy: F64, fz: F64) -> (r: Result<
    F64,
    NoiseError,
>)
    ensures
        r == Err::<F64, NoiseError>(NoiseError::NotImplemented),
{
    let i1 = i.wrapping_add(1);
    let j1 = j.wrapping_add(1);
    let gx = fx.minus(F64::from_bits(ONE));
    let gy = fy.minus(F64::from_bits(ONE));
    let u = fade(fx);
    let near = lerp(dot_3d(seed, i, j, k, fx, fy, fz)?, dot_3d(seed, i1, j, k, gx, fy, fz)?, u);
    let far = lerp(dot_3d(seed, i, j1, k, fx, gy, fz)?, dot_3d(seed, i1, j1, k, gx, gy, fz)?, u);
    Ok(lerp(near, far, fade(fy)))
}

/// Gradient noise at the point `(x, y, z)` of space. Fails at this
/// precision, for want of a hash of its lattice points.
pub fn perlin_3d_lane(x: F64, y: F64, z: F64, seed: i64) -> (r: Result<F64, NoiseError>)
    ensures
        r == Err::<F64, NoiseError>(NoiseError::NotImplemented),
{
    let ips = x.floor();
    let jps = y.floor();
    let kps = z.floor();
    let i = ips.to_int();
    let j = jps.to_int();
    let k = kps.to_int();
    let fx = x.minus(ips);
    let fy = y.minus(jps);
    let fz = z.minus(kps);
    let below = perlin_plane(seed, i, j, k, fx, fy, fz)?;
    let above = perlin_plane(
        seed,
        i,
        j,
        k.wrapping_add(1),
        fx,
        fy,
        fz.minus(F64::from_bits(ONE)),
    )?;
    Ok(lerp(below, above, fade(fz)))
}

/// Gradient noise on the line, for `W` points at once.
pub fn perlin_1d<const W: usize>(x: Vf64<W>, seed: i64) -> (r: Vf64<W>)
    ensures
        forall|l: int| 0 <= l < W ==> r@[l] == spec_perlin_1d(x@[l], seed),
{
    let mut out = x;
    let mut l: usize = 0;
    while l < W
        invariant
            l <= W,
            forall|k: int| 0 <= k < l ==> out@[k] == spec_perlin_1d(x@[k], seed),
        decreases W - l,
    {
        out = out.with_lane(l, perlin_1d_lane(x.lane(l), seed));
        l += 1;
    }
    out
}

/// Gradient noise in the plane, for `W` points at once.
pub fn perlin_2d<const W: usize>(x: Vf64<W>, y: Vf64<W>, seed: i64) -> (r: Vf64<W>)
    ensures
        forall|l: int| 0 <= l < W ==> r@[l] == spec_perlin_2d(x@[l], y@[l], seed),
{
    let mut out = x;
    let mut l: usize = 0;
    while l < W
        invariant
            l <= W,
            forall|k: int| 0 <= k < l ==> out@[k] == spec_perlin_2d(x@[k], y@[k], seed),
        decreases W - l,
    {
        out = out.with_lane(l, perlin_2d_lane(x.lane(l), y.lane(l), seed));
        l += 1;
    }
    out
}

/// Gradient noise in space, for `W` points at once. Fails at this precision
/// as soon as there is a lane to compute.
pub fn perlin_3d<const W: usize>(x: Vf64<W>, y: Vf64<W>, z: Vf64<W>, seed: i64) -> (r: Result<
    Vf64<W>,
    NoiseError,
>)
    ensures
        W >= 1 ==> r == Err::<Vf64<W>, NoiseError>(NoiseError::NotImplemented),
        W == 0 ==> r is Ok,
{
    let mut out = x;
    let mut l: usize = 0;
    while l < W
        invariant
            l == 0,
        decreases W - l,
    {
        out = out.with_lane(l, perlin_3d_lane(x.lane(l), y.lane(l), z.lane(l), seed)?);
        l += 1;
    }
    Ok(out)
}

} // verus!

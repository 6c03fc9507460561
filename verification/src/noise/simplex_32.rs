//! Simplex noise at binary32 precision, in one, two and three dimensions.
//!
//! A point is skewed onto the simplex grid, the corners of the simplex around
//! it are found, and each corner adds its gradient's dot product with the
//! offset to the point, weighed by a falloff that vanishes at the squared
//! distance [`RADIUS`]. Every function comes twice: for one lane, and for a
//! vector of `W` lanes, where each lane is computed as the one-lane function
//! computes it.
use crate::binary32::{F32, ONE, ZERO};
use crate::noise::gradient_32::{grad1, grad2, grad3d_dot, spec_grad2};
use crate::noise::hash_32::{hash1d, hash2d, X_PRIME, Y_PRIME, Z_PRIME};
use crate::vector_32::Vf32;
use vstd::prelude::*;

verus! {

/// Pattern of 0.52, the squared distance at which a corner stops counting.
pub const RADIUS: u32 = 0x3f05_1eb8;

/// Pattern of the skew factor of the plane, `(sqrt(3) - 1) / 2`.
pub const F2: u32 = 0x3ebb_67af;

/// Pattern of the unskew factor of the plane, `(3 - sqrt(3)) / 6`.
pub const G2: u32 = 0x3e58_658c;

/// Pattern of `2 * G2 - 1`: the offset of the far corner of a triangle.
pub const G22_LESS_ONE: u32 = 0xbf13_cd3a;

/// Pattern of the skew factor of space, `1 / 3`.
pub const F3: u32 = 0x3eaa_aaab;

/// Pattern of the unskew factor of space, `1 / 6`.
pub const G3: u32 = 0x3e2a_aaab;

/// Pattern of `2 * G3`: the offset that goes with the third corner.
pub const G32: u32 = 0x3eaa_aaab;

/// Pattern of `3 * G3 - 1`: the offset of the far corner of a tetrahedron.
pub const G33_LESS_ONE: u32 = 0xbf00_0000;

/// Pattern of 13.0, which brings noise on the line to about `[-1, 1]`.
pub const SCALE_1D: u32 = 0x4150_0000;

/// Pattern of 35.0, which brings noise in the plane to about `[-1, 1]`.
pub const SCALE_2D: u32 = 0x420c_0000;

/// Pattern of 64.0, which brings noise in space to about `[-1, 1]`.
pub const SCALE_3D: u32 = 0x4280_0000;

/// What [`falloff`] returns.
pub open spec fn spec_falloff(d2: F32, dot: F32) -> F32 {
    let t = F32::from_bits(RADIUS).minus(d2);
    let t2 = t.times(t);
    F32::mask(t.lt(F32::from_bits(ZERO))).blendv(t2.times(t2).times(dot), F32::from_bits(ZERO))
}

/// What a corner at the squared distance `d2` adds, `dot` being its
/// gradient's dot product with the offset: `max(0, RADIUS - d2)^4 * dot`.
#[verifier::when_used_as_spec(spec_falloff)]
pub fn falloff(d2: F32, dot: F32) -> (r: F32)
    ensures
        r == spec_falloff(d2, dot),
{
    let t = F32::from_bits(RADIUS).minus(d2);
    let t2 = t.times(t);
    F32::mask(t.lt(F32::from_bits(ZERO))).blendv(t2.times(t2).times(dot), F32::from_bits(ZERO))
}

/// What [`unit_if`] returns.
pub open spec fn spec_unit_if(on: bool) -> F32 {
    F32::mask(on).and(F32::from_bits(ONE))
}

/// `1.0` where `on` holds, else `0.0`.
#[verifier::when_used_as_spec(spec_unit_if)]
pub fn unit_if(on: bool) -> (r: F32)
    ensures
        r == spec_unit_if(on),
{
    F32::mask(on).and(F32::from_bits(ONE))
}

/// What [`step_if`] returns.
pub open spec fn spec_step_if(i: i32, on: bool) -> i32 {
    i.wrapping_add(if on { 1i32 } else { 0i32 })
}

/// The lattice coordinate one further where `on` holds, else `i`.
#[verifier::when_used_as_spec(spec_step_if)]
pub fn step_if(i: i32, on: bool) -> (r: i32)
    ensures
        r == spec_step_if(i, on),
{
    i.wrapping_add(if on { 1i32 } else { 0i32 })
}

/// What [`corner_1d`] returns.
pub open spec fn spec_corner_1d(seed: i32, i: i32, x: F32) -> F32 {
    falloff(x.times(x), grad1(seed, hash1d(seed, i.wrapping_mul(X_PRIME))).times(x))
}

/// What the lattice point `i` adds to the noise at the offset `x` from it.
#[verifier::when_used_as_spec(spec_corner_1d)]
pub fn corner_1d(seed: i32, i: i32, x: F32) -> (r: F32)
    ensures
        r == spec_corner_1d(seed, i, x),
{
    falloff(x.times(x), grad1(seed, hash1d(seed, i.wrapping_mul(X_PRIME))).times(x))
}

/// What [`simplex_1d_lane`] returns.
pub open spec fn spec_simplex_1d(x: F32, seed: i32) -> F32 {
    let ips = x.floor();
    let i0 = ips.to_int();
    let x0 = x.minus(ips);
    let x1 = x0.minus(F32::from_bits(ONE));
    let n0 = corner_1d(seed, i0, x0);
    let n1 = corner_1d(seed, i0.wrapping_add(1), x1);
    n0.plus(n1).times(F32::from_bits(SCALE_1D))
}

/// Simplex noise at the point `x` of the line.
#[verifier::when_used_as_spec(spec_simplex_1d)]
pub fn simplex_1d_lane(x: F32, seed: i32) -> (r: F32)
    ensures
        r == spec_simplex_1d(x, seed),
{
    let ips = x.floor();
    let i0 = ips.to_int();
    let x0 = x.minus(ips);
    let x1 = x0.minus(F32::from_bits(ONE));
    let n0 = corner_1d(seed, i0, x0);
    let n1 = corner_1d(seed, i0.wrapping_add(1), x1);
    n0.plus(n1).times(F32::from_bits(SCALE_1D))
}

/// What [`dot_2d`] returns.
pub open spec fn spec_dot_2d(seed: i32, i: i32, j: i32, x: F32, y: F32) -> F32 {
    let g = spec_grad2(seed, hash2d(seed, i.wrapping_mul(X_PRIME), j.wrapping_mul(Y_PRIME)));
    g.0.times(x).plus(g.1.times(y))
}

/// The dot product of `(x, y)` with the gradient at the lattice point
/// `(i, j)`.
#[verifier::when_used_as_spec(spec_dot_2d)]
pub fn dot_2d(seed: i32, i: i32, j: i32, x: F32, y: F32) -> (r: F32)
    ensures
        r == spec_dot_2d(seed, i, j, x, y),
{
    let g = grad2(seed, hash2d(seed, i.wrapping_mul(X_PRIME), j.wrapping_mul(Y_PRIME)));
    g[0].times(x).plus(g[1].times(y))
}

/// What [`corner_2d`] returns.
pub open spec fn spec_corner_2d(seed: i32, i: i32, j: i32, x: F32, y: F32) -> F32 {
    falloff(x.times(x).plus(y.times(y)), dot_2d(seed, i, j, x, y))
}

/// What the lattice point `(i, j)` adds to the noise at the offset `(x, y)`
/// from it.
#[verifier::when_used_as_spec(spec_corner_2d)]
pub fn corner_2d(seed: i32, i: i32, j: i32, x: F32, y: F32) -> (r: F32)
    ensures
        r == spec_corner_2d(seed, i, j, x, y),
{
    falloff(x.times(x).plus(y.times(y)), dot_2d(seed, i, j, x, y))
}

/// What [`simplex_2d_lane`] returns.
pub open spec fn spec_simplex_2d(x: F32, y: F32, seed: i32) -> F32 {
    let s = F32::from_bits(F2).times(x.plus(y));
    let ips = x.plus(s).floor();
    let jps = y.plus(s).floor();
    let i = ips.to_int();
    let j = jps.to_int();
    let t = F32::from_int(i.wrapping_add(j)).times(F32::from_bits(G2));
    let x0 = x.minus(ips.minus(t));
    let y0 = y.minus(jps.minus(t));
    let lower = x0.gt(y0);
    let x1 = x0.minus(unit_if(lower)).plus(F32::from_bits(G2));
    let y1 = y0.minus(unit_if(!lower)).plus(F32::from_bits(G2));
    let x2 = x0.plus(F32::from_bits(G22_LESS_ONE));
    let y2 = y0.plus(F32::from_bits(G22_LESS_ONE));
    let n0 = corner_2d(seed, i, j, x0, y0);
    let n1 = corner_2d(seed, step_if(i, lower), step_if(j, !lower), x1, y1);
    let n2 = corner_2d(seed, i.wrapping_add(1), j.wrapping_add(1), x2, y2);
    n0.plus(n1).plus(n2).times(F32::from_bits(SCALE_2D))
}

/// Simplex noise at the point `(x, y)` of the plane.
#[verifier::when_used_as_spec(spec_simplex_2d)]
pub fn simplex_2d_lane(x: F32, y: F32, seed: i32) -> (r: F32)
    ensures
        r == spec_simplex_2d(x, y, seed),
{
    let s = F32::from_bits(F2).times(x.plus(y));
    let ips = x.plus(s).floor();
    let jps = y.plus(s).floor();
    let i = ips.to_int();
    let j = jps.to_int();
    let t = F32::from_int(i.wrapping_add(j)).times(F32::from_bits(G2));
    let x0 = x.minus(ips.minus(t));
    let y0 = y.minus(jps.minus(t));
    let lower = x0.gt(y0);
    let x1 = x0.minus(unit_if(lower)).plus(F32::from_bits(G2));
    let y1 = y0.minus(unit_if(!lower)).plus(F32::from_bits(G2));
    let x2 = x0.plus(F32::from_bits(G22_LESS_ONE));
    let y2 = y0.plus(F32::from_bits(G22_LESS_ONE));
    let n0 = corner_2d(seed, i, j, x0, y0);
    let n1 = corner_2d(seed, step_if(i, lower), step_if(j, !lower), x1, y1);
    let n2 = corner_2d(seed, i.wrapping_add(1), j.wrapping_add(1), x2, y2);
    n0.plus(n1).plus(n2).times(F32::from_bits(SCALE_2D))
}

/// What [`corner_3d`] returns.
pub open spec fn spec_corner_3d(seed: i32, i: i32, j: i32, k: i32, x: F32, y: F32, z: F32) -> F32 {
    falloff(
        x.times(x).plus(y.times(y)).plus(z.times(z)),
        grad3d_dot(
            seed,
            i.wrapping_mul(X_PRIME),
            j.wrapping_mul(Y_PRIME),
            k.wrapping_mul(Z_PRIME),
            x,
            y,
            z,
        ),
    )
}

/// What the lattice point `(i, j, k)` adds to the noise at the offset
/// `(x, y, z)` from it.
#[verifier::when_used_as_spec(spec_corner_3d)]
pub fn corner_3d(seed: i32, i: i32, j: i32, k: i32, x: F32, y: F32, z: F32) -> (r: F32)
    ensures
        r == spec_corner_3d(seed, i, j, k, x, y, z),
{
    falloff(
        x.times(x).plus(y.times(y)).plus(z.times(z)),
        grad3d_dot(
            seed,
            i.wrapping_mul(X_PRIME),
            j.wrapping_mul(Y_PRIME),
            k.wrapping_mul(Z_PRIME),
            x,
            y,
            z,
        ),
    )
}

/// What [`simplex_3d_lane`] returns.
pub open spec fn spec_simplex_3d(x: F32, y: F32, z: F32, seed: i32) -> F32 {
    let s = F32::from_bits(F3).times(x.plus(y).plus(z));
    let ips = x.plus(s).floor();
    let jps = y.plus(s).floor();
    let kps = z.plus(s).floor();
    let i = ips.to_int();
    let j = jps.to_int();
    let k = kps.to_int();
    let t = F32::from_int(i.wrapping_add(j).wrapping_add(k)).times(F32::from_bits(G3));
    let x0 = x.minus(ips.minus(t));
    let y0 = y.minus(jps.minus(t));
    let z0 = z.minus(kps.minus(t));
    let x_ge_y = !x0.lt(y0);
    let y_ge_z = !y0.lt(z0);
    let x_ge_z = !x0.lt(z0);
    let i1 = x_ge_y && x_ge_z;
    let j1 = !x_ge_y && y_ge_z;
    let k1 = !x_ge_z && !y_ge_z;
    let i2 = x_ge_y || x_ge_z;
    let j2 = !x_ge_y || y_ge_z;
    let k2 = !(x_ge_z && y_ge_z);
    let g3 = F32::from_bits(G3);
    let g32 = F32::from_bits(G32);
    let g33 = F32::from_bits(G33_LESS_ONE);
    let n0 = corner_3d(seed, i, j, k, x0, y0, z0);
    let n1 = corner_3d(
        seed,
        step_if(i, i1),
        step_if(j, j1),
        step_if(k, k1),
        x0.minus(unit_if(i1)).plus(g3),
        y0.minus(unit_if(j1)).plus(g3),
        z0.minus(unit_if(k1)).plus(g3),
    );
    let n2 = corner_3d(
        seed,
        step_if(i, i2),
        step_if(j, j2),
        step_if(k, k2),
        x0.minus(unit_if(i2)).plus(g32),
        y0.minus(unit_if(j2)).plus(g32),
        z0.minus(unit_if(k2)).plus(g32),
    );
    let n3 = corner_3d(
        seed,
        i.wrapping_add(1),
        j.wrapping_add(1),
        k.wrapping_add(1),
        x0.plus(g33),
        y0.plus(g33),
        z0.plus(g33),
    );
    n0.plus(n1).plus(n2).plus(n3).times(F32::from_bits(SCALE_3D))
}

/// Simplex noise at the point `(x, y, z)` of space.
#[verifier::when_used_as_spec(spec_simplex_3d)]
pub fn simplex_3d_lane(x: F32, y: F32, z: F32, seed: i32) -> (r: F32)
    ensures
        r == spec_simplex_3d(x, y, z, seed),
{
    let s = F32::from_bits(F3).times(x.plus(y).plus(z));
    let ips = x.plus(s).floor();
    let jps = y.plus(s).floor();
    let kps = z.plus(s).floor();
    let i = ips.to_int();
    let j = jps.to_int();
    let k = kps.to_int();
    let t = F32::from_int(i.wrapping_add(j).wrapping_add(k)).times(F32::from_bits(G3));
    let x0 = x.minus(ips.minus(t));
    let y0 = y.minus(jps.minus(t));
    let z0 = z.minus(kps.minus(t));
    let x_ge_y = !x0.lt(y0);
    let y_ge_z = !y0.lt(z0);
    let x_ge_z = !x0.lt(z0);
    let i1 = x_ge_y && x_ge_z;
    let j1 = !x_ge_y && y_ge_z;
    let k1 = !x_ge_z && !y_ge_z;
    let i2 = x_ge_y || x_ge_z;
    let j2 = !x_ge_y || y_ge_z;
    let k2 = !(x_ge_z && y_ge_z);
    let g3 = F32::from_bits(G3);
    let g32 = F32::from_bits(G32);
    let g33 = F32::from_bits(G33_LESS_ONE);
    let n0 = corner_3d(seed, i, j, k, x0, y0, z0);
    let n1 = corner_3d(
        seed,
        step_if(i, i1),
        step_if(j, j1),
        step_if(k, k1),
        x0.minus(unit_if(i1)).plus(g3),
        y0.minus(unit_if(j1)).plus(g3),
        z0.minus(unit_if(k1)).plus(g3),
    );
    let n2 = corner_3d(
        seed,
        step_if(i, i2),
        step_if(j, j2),
        step_if(k, k2),
        x0.minus(unit_if(i2)).plus(g32),
        y0.minus(unit_if(j2)).plus(g32),
        z0.minus(unit_if(k2)).plus(g32),
    );
    let n3 = corner_3d(
        seed,
        i.wrapping_add(1),
        j.wrapping_add(1),
        k.wrapping_add(1),
        x0.plus(g33),
        y0.plus(g33),
        z0.plus(g33),
    );
    n0.plus(n1).plus(n2).plus(n3).times(F32::from_bits(SCALE_3D))
}

/// Simplex noise on the line, for `W` points at once.
pub fn simplex_1d<const W: usize>(x: Vf32<W>, seed: i32) -> (r: Vf32<W>)
    ensures
        forall|l: int| 0 <= l < W ==> r@[l] == spec_simplex_1d(x@[l], seed),
{
    let mut out = x;
    let mut l: usize = 0;
    while l < W
        invariant
            l <= W,
            forall|k: int| 0 <= k < l ==> out@[k] == spec_simplex_1d(x@[k], seed),
        decreases W - l,
    {
        out = out.with_lane(l, simplex_1d_lane(x.lane(l), seed));
        l += 1;
    }
    out
}

/// Simplex noise in the plane, for `W` points at once.
pub fn simplex_2d<const W: usize>(x: Vf32<W>, y: Vf32<W>, seed: i32) -> (r: Vf32<W>)
    ensures
        forall|l: int| 0 <= l < W ==> r@[l] == spec_simplex_2d(x@[l], y@[l], seed),
{
    let mut out = x;
    let mut l: usize = 0;
    while l < W
        invariant
            l <= W,
            forall|k: int| 0 <= k < l ==> out@[k] == spec_simplex_2d(x@[k], y@[k], seed),
        decreases W - l,
    {
        out = out.with_lane(l, simplex_2d_lane(x.lane(l), y.lane(l), seed));
        l += 1;
    }
    out
}

/// Simplex noise in space, for `W` points at once.
pub fn simplex_3d<const W: usize>(x: Vf32<W>, y: Vf32<W>, z: Vf32<W>, seed: i32) -> (r: Vf32<W>)
    ensures
        forall|l: int| 0 <= l < W ==> r@[l] == spec_simplex_3d(x@[l], y@[l], z@[l], seed),
{
    let mut out = x;
    let mut l: usize = 0;
    while l < W
        invariant
            l <= W,
            forall|k: int| 0 <= k < l ==> out@[k] == spec_simplex_3d(x@[k], y@[k], z@[k], seed),
        decreases W - l,
    {
        out = out.with_lane(l, simplex_3d_lane(x.lane(l), y.lane(l), z.lane(l), seed));
        l += 1;
    }
    out
}

} // verus!

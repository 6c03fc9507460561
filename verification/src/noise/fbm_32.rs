//! Fractal noise at binary32 precision: octaves of simplex noise, each at
//! the frequency of the one before times the lacunarity, added in order.
use crate::binary32::F32;
use crate::noise::simplex_32::{
    simplex_1d_lane, simplex_2d_lane, simplex_3d_lane, spec_simplex_1d, spec_simplex_2d,
    spec_simplex_3d,
};
use crate::vector_32::Vf32;
use vstd::prelude::*;

verus! {

/// The coordinate `x` at octave `n`, the first octave being 0: `x` times the
/// lacunarity, `n` times over.
pub open spec fn octave_coord(x: F32, lacunarity: F32, n: nat) -> F32
    decreases n,
{
    if n == 0 {
        x
    } else {
        octave_coord(x, lacunarity, (n - 1) as nat).times(lacunarity)
    }
}

/// Octaves 0 to `n` of simplex noise on the line, added in order.
pub open spec fn octaves_1d(x: F32, lacunarity: F32, seed: i32, n: nat) -> F32
    decreases n,
{
    if n == 0 {
        spec_simplex_1d(x, seed)
    } else {
        octaves_1d(x, lacunarity, seed, (n - 1) as nat).plus(
            spec_simplex_1d(octave_coord(x, lacunarity, n), seed),
        )
    }
}

/// Octaves 0 to `n` of simplex noise in the plane, added in order.
pub open spec fn octaves_2d(x: F32, y: F32, lacunarity: F32, seed: i32, n: nat) -> F32
    decreases n,
{
    if n == 0 {
        spec_simplex_2d(x, y, seed)
    } else {
        octaves_2d(x, y, lacunarity, seed, (n - 1) as nat).plus(
            spec_simplex_2d(octave_coord(x, lacunarity, n), octave_coord(y, lacunarity, n), seed),
        )
    }
}

/// Octaves 0 to `n` of simplex noise in space, added in order.
pub open spec fn octaves_3d(x: F32, y: F32, z: F32, lacunarity: F32, seed: i32, n: nat) -> F32
    decreases n,
{
    if n == 0 {
        spec_simplex_3d(x, y, z, seed)
    } else {
        octaves_3d(x, y, z, lacunarity, seed, (n - 1) as nat).plus(
            spec_simplex_3d(
                octave_coord(x, lacunarity, n),
                octave_coord(y, lacunarity, n),
                octave_coord(z, lacunarity, n),
                seed,
            ),
        )
    }
}

/// Index of the last octave when `octaves` are asked for: no octaves count
/// as one.
pub open spec fn last_octave(octaves: u8) -> nat {
    if octaves == 0 {
        0
    } else {
        (octaves - 1) as nat
    }
}

/// What [`fbm_1d_lane`] returns.
pub open spec fn spec_fbm_1d(x: F32, lacunarity: F32, gain: F32, octaves: u8, seed: i32) -> F32 {
    octaves_1d(x, lacunarity, seed, last_octave(octaves))
}

/// What [`fbm_2d_lane`] returns.
pub open spec fn spec_fbm_2d(
    x: F32,
    y: F32,
    lacunarity: F32,
    gain: F32,
    octaves: u8,
    seed: i32,
) -> F32 {
    octaves_2d(x, y, lacunarity, seed, last_octave(octaves))
}

/// What [`fbm_3d_lane`] returns.
pub open spec fn spec_fbm_3d(
    x: F32,
    y: F32,
    z: F32,
    lacunarity: F32,
    gain: F32,
    octaves: u8,
    seed: i32,
) -> F32 {
    octaves_3d(x, y, z, lacunarity, seed, last_octave(octaves))
}

/// Fractal noise at the point `x` of the line.
///
/// Each octave is added as it is: the gain, by which the variants that weigh
/// their octaves let the amplitude fall, does not enter.
#[allow(unused_variables)]
#[verifier::when_used_as_spec(spec_fbm_1d)]
pub fn fbm_1d_lane(x: F32, lacunarity: F32, gain: F32, octaves: u8, seed: i32) -> (r: F32)
    ensures
        r == spec_fbm_1d(x, lacunarity, gain, octaves, seed),
{
    let mut xo = x;
    let mut result = simplex_1d_lane(x, seed);
    let mut o: u8 = 1;
    while o < octaves
        invariant
            1 <= o,
            o <= octaves || o == 1,
            xo == octave_coord(x, lacunarity, (o - 1) as nat),
            result == octaves_1d(x, lacunarity, seed, (o - 1) as nat),
        decreases octaves - o,
    {
        xo = xo.times(lacunarity);
        result = result.plus(simplex_1d_lane(xo, seed));
        o += 1;
    }
    result
}

/// Fractal noise at the point `(x, y)` of the plane; see [`fbm_1d_lane`].
#[allow(unused_variables)]
#[verifier::when_used_as_spec(spec_fbm_2d)]
pub fn fbm_2d_lane(x: F32, y: F32, lacunarity: F32, gain: F32, octaves: u8, seed: i32) -> (r:
    F32)
    ensures
        r == spec_fbm_2d(x, y, lacunarity, gain, octaves, seed),
{
    let mut xo = x;
    let mut yo = y;
    let mut result = simplex_2d_lane(x, y, seed);
    let mut o: u8 = 1;
    while o < octaves
        invariant
            1 <= o,
            o <= octaves || o == 1,
            xo == octave_coord(x, lacunarity, (o - 1) as nat),
            yo == octave_coord(y, lacunarity, (o - 1) as nat),
            result == octaves_2d(x, y, lacunarity, seed, (o - 1) as nat),
        decreases octaves - o,
    {
        xo = xo.times(lacunarity);
        yo = yo.times(lacunarity);
        result = result.plus(simplex_2d_lane(xo, yo, seed));
        o += 1;
    }
    result
}

/// Fractal noise at the point `(x, y, z)` of space; see [`fbm_1d_lane`].
#[allow(unused_variables)]
#[verifier::when_used_as_spec(spec_fbm_3d)]
pub fn fbm_3d_lane(
    x: F32,
    y: F32,
    z: F32,
    lacunarity: F32,
    gain: F32,
    octaves: u8,
    seed: i32,
) -> (r: F32)
    ensures
        r == spec_fbm_3d(x, y, z, lacunarity, gain, octaves, seed),
{
    let mut xo = x;
    let mut yo = y;
    let mut zo = z;
    let mut result = simplex_3d_lane(x, y, z, seed);
    let mut o: u8 = 1;
    while o < octaves
        invariant
            1 <= o,
            o <= octaves || o == 1,
            xo == octave_coord(x, lacunarity, (o - 1) as nat),
            yo == octave_coord(y, lacunarity, (o - 1) as nat),
            zo == octave_coord(z, lacunarity, (o - 1) as nat),
            result == octaves_3d(x, y, z, lacunarity, seed, (o - 1) as nat),
        decreases octaves - o,
    {
        xo = xo.times(lacunarity);
        yo = yo.times(lacunarity);
        zo = zo.times(lacunarity);
        result = result.plus(simplex_3d_lane(xo, yo, zo, seed));
        o += 1;
    }
    result
}

/// Fractal noise on the line, for `W` points at once.
pub fn fbm_1d<const W: usize>(
    x: Vf32<W>,
    lacunarity: Vf32<W>,
    gain: Vf32<W>,
    octaves: u8,
    seed: i32,
) -> (r: Vf32<W>)
    ensures
        forall|l: int|
            0 <= l < W ==> r@[l] == spec_fbm_1d(x@[l], lacunarity@[l], gain@[l], octaves, seed),
{
    let mut out = x;
    let mut l: usize = 0;
    while l < W
        invariant
            l <= W,
            forall|k: int|
                0 <= k < l ==> out@[k] == spec_fbm_1d(
                    x@[k],
                    lacunarity@[k],
                    gain@[k],
                    octaves,
                    seed,
                ),
        decreases W - l,
    {
        out = out.with_lane(
            l,
            fbm_1d_lane(x.lane(l), lacunarity.lane(l), gain.lane(l), octaves, seed),
        );
        l += 1;
    }
    out
}

/// Fractal noise in the plane, for `W` points at once.
pub fn fbm_2d<const W: usize>(
    x: Vf32<W>,
    y: Vf32<W>,
    lacunarity: Vf32<W>,
    gain: Vf32<W>,
    octaves: u8,
    seed: i32,
) -> (r: Vf32<W>)
    ensures
        forall|l: int|
            0 <= l < W ==> r@[l] == spec_fbm_2d(
                x@[l],
                y@[l],
                lacunarity@[l],
                gain@[l],
                octaves,
                seed,
            ),
{
    let mut out = x;
    let mut l: usize = 0;
    while l < W
        invariant
            l <= W,
            forall|k: int|
                0 <= k < l ==> out@[k] == spec_fbm_2d(
                    x@[k],
                    y@[k],
                    lacunarity@[k],
                    gain@[k],
                    octaves,
                    seed,
                ),
        decreases W - l,
    {
        out = out.with_lane(
            l,
            fbm_2d_lane(x.lane(l), y.lane(l), lacunarity.lane(l), gain.lane(l), octaves, seed),
        );
        l += 1;
    }
    out
}

/// Fractal noise in space, for `W` points at once.
pub fn fbm_3d<const W: usize>(
    x: Vf32<W>,
    y: Vf32<W>,
    z: Vf32<W>,
    lacunarity: Vf32<W>,
    gain: Vf32<W>,
    octaves: u8,
    seed: i32,
) -> (r: Vf32<W>)
    ensures
        forall|l: int|
            0 <= l < W ==> r@[l] == spec_fbm_3d(
                x@[l],
                y@[l],
                z@[l],
                lacunarity@[l],
                gain@[l],
                octaves,
                seed,
            ),
{
    let mut out = x;
    let mut l: usize = 0;
    while l < W
        invariant
            l <= W,
            forall|k: int|
                0 <= k < l ==> out@[k] == spec_fbm_3d(
                    x@[k],
                    y@[k],
                    z@[k],
                    lacunarity@[k],
                    gain@[k],
                    octaves,
                    seed,
                ),
        decreases W - l,
    {
        out = out.with_lane(
            l,
            fbm_3d_lane(
                x.lane(l),
                y.lane(l),
                z.lane(l),
                lacunarity.lane(l),
                gain.lane(l),
                octaves,
                seed,
            ),
        );
        l += 1;
    }
    out
}

/// A single octave is the plain noise: fractal noise asked for one octave,
/// or for none, is simplex noise at the same point with the same seed.
pub proof fn lemma_single_octave(
    x: F32,
    y: F32,
    z: F32,
    lacunarity: F32,
    gain: F32,
    octaves: u8,
    seed: i32,
)
    requires
        octaves <= 1,
    ensures
        spec_fbm_1d(x, lacunarity, gain, octaves, seed) == spec_simplex_1d(x, seed),
        spec_fbm_2d(x, y, lacunarity, gain, octaves, seed) == spec_simplex_2d(x, y, seed),
        spec_fbm_3d(x, y, z, lacunarity, gain, octaves, seed) == spec_simplex_3d(x, y, z, seed),
{
}

} // verus!

//! Fractal noise at binary64 precision: octaves of simplex noise, each at
//! the frequency of the one before times the lacunarity, added in order.
use crate::binary64::F64;
use crate::error::NoiseError;
use crate::noise::simplex_64::{
    simplex_1d_lane, simplex_2d_lane, simplex_3d_lane, spec_simplex_1d, spec_simplex_2d,
};
use crate::vector_64::Vf64;
use vstd::prelude::*;

verus! {

/// The coordinate `x` at octave `n`, the first octave being 0: `x` times the
/// lacunarity, `n` times over.
pub open spec fn octave_coord(x: F64, lacunarity: F64, n: nat) -> F64
    decreases n,
{
    if n == 0 {
        x
    } else {
        octave_coord(x, lacunarity, (n - 1) as nat).times(lacunarity)
    }
}

/// Octaves 0 to `n` of simplex noise on the line, added in order.
pub open spec fn octaves_1d(x: F64, lacunarity: F64, seed: i64, n: nat) -> F64
    decreases n,
{
    if n == 0 {
        spec_simplex_1d(x, seed)
    } else {
        octaves_1d(x, lacunarity, seed, (n - 1) as nat).plus(
            spec_simplex_1d(octave_coord(x, lacunarity, n), seed),
        )
    }
}

/// Octaves 0 to `n` of simplex noise in the plane, added in order.
pub open spec fn octaves_2d(x: F64, y: F64, lacunarity: F64, seed: i64, n: nat) -> F64
    decreases n,
{
    if n == 0 {
        spec_simplex_2d(x, y, seed)
    } else {
        octaves_2d(x, y, lacunarity, seed, (n - 1) as nat).plus(
            spec_simplex_2d(octave_coord(x, lacunarity, n), octave_coord(y, lacunarity, n), seed),
        )
    }
}

/// Index of the last octave when `octaves` are asked for: no octaves count
/// as one.
pub open spec fn last_octave(octaves: u8) -> nat {
    if octaves == 0 {
        0
    } else {
        (octaves - 1) as nat
    }
}

/// What [`fbm_1d_lane`] returns.
pub open spec fn spec_fbm_1d(x: F64, lacunarity: F64, gain: F64, octaves: u8, seed: i64) -> F64 {
    octaves_1d(x, lacunarity, seed, last_octave(octaves))
}

/// What [`fbm_2d_lane`] returns.
pub open spec fn spec_fbm_2d(
    x: F64,
    y: F64,
    lacunarity: F64,
    gain: F64,
    octaves: u8,
    seed: i64,
) -> F64 {
    octaves_2d(x, y, lacunarity, seed, last_octave(octaves))
}

/// Fractal noise at the point `x` of the line.
///
/// Each octave is added as it is: the gain, by which the variants that weigh
/// their octaves let the amplitude fall, does not enter.
#[allow(unused_variables)]
#[verifier::when_used_as_spec(spec_fbm_1d)]
pub fn fbm_1d_lane(x: F64, lacunarity: F64, gain: F64, octaves: u8, seed: i64) -> (r: F64)
    ensures
        r == spec_fbm_1d(x, lacunarity, gain, octaves, seed),
{
    let mut xo = x;
    let mut result = simplex_1d_lane(x, seed);
    let mut o: u8 = 1;
    while o < octaves
        invariant
            1 <= o,
            o <= octaves || o == 1,
            xo == octave_coord(x, lacunarity, (o - 1) as nat),
            result == octaves_1d(x, lacunarity, seed, (o - 1) as nat),
        decreases octaves - o,
    {
        xo = xo.times(lacunarity);
        result = result.plus(simplex_1d_lane(xo, seed));
        o += 1;
    }
    result
}

/// Fractal noise at the point `(x, y)` of the plane; see [`fbm_1d_lane`].
#[allow(unused_variables)]
#[verifier::when_used_as_spec(spec_fbm_2d)]
pub fn fbm_2d_lane(x: F64, y: F64, lacunarity: F64, gain: F64, octaves: u8, seed: i64) -> (r:
    F64)
    ensures
        r == spec_fbm_2d(x, y, lacunarity, gain, octaves, seed),
{
    let mut xo = x;
    let mut yo = y;
    let mut result = simplex_2d_lane(x, y, seed);
    let mut o: u8 = 1;
    while o < octaves
        invariant
            1 <= o,
            o <= octaves || o == 1,
            xo == octave_coord(x, lacunarity, (o - 1) as nat),
            yo == octave_coord(y, lacunarity, (o - 1) as nat),
            result == octaves_2d(x, y, lacunarity, seed, (o - 1) as nat),
        decreases octaves - o,
    {
        xo = xo.times(lacunarity);
        yo = yo.times(lacunarity);
        result = result.plus(simplex_2d_lane(xo, yo, seed));
        o += 1;
    }
    result
}

/// Fractal noise at the point `(x, y, z)` of space; see [`fbm_1d_lane`].
/// Fails at this precision, as simplex noise in space does.
#[allow(unused_variables)]
pub fn fbm_3d_lane(
    x: F64,
    y: F64,
    z: F64,
    lacunarity: F64,
    gain: F64,
    octaves: u8,
    seed: i64,
) -> (r: Result<F64, NoiseError>)
    ensures
        r == Err::<F64, NoiseError>(NoiseError::NotImplemented),
{
    let mut xo = x;
    let mut yo = y;
    let mut zo = z;
    let mut result = simplex_3d_lane(x, y, z, seed)?;
    let mut o: u8 = 1;
    while o < octaves
        invariant
            1 <= o,
        decreases octaves - o,
    {
        xo = xo.times(lacunarity);
        yo = yo.times(lacunarity);
        zo = zo.times(lacunarity);
        result = result.plus(simplex_3d_lane(xo, yo, zo, seed)?);
        o += 1;
    }
    Ok(result)
}

/// Fractal noise on the line, for `W` points at once.
pub fn fbm_1d<const W: usize>(
    x: Vf64<W>,
    lacunarity: Vf64<W>,
    gain: Vf64<W>,
    octaves: u8,
    seed: i64,
) -> (r: Vf64<W>)
    ensures
        forall|l: int|
            0 <= l < W ==> r@[l] == spec_fbm_1d(x@[l], lacunarity@[l], gain@[l], octaves, seed),
{
    let mut out = x;
    let mut l: usize = 0;
    while l < W
        invariant
            l <= W,
            forall|k: int|
                0 <= k < l ==> out@[k] == spec_fbm_1d(
                    x@[k],
                    lacunarity@[k],
                    gain@[k],
                    octaves,
                    seed,
                ),
        decreases W - l,
    {
        out = out.with_lane(
            l,
            fbm_1d_lane(x.lane(l), lacunarity.lane(l), gain.lane(l), octaves, seed),
        );
        l += 1;
    }
    out
}

/// Fractal noise in the plane, for `W` points at once.
pub fn fbm_2d<const W: usize>(
    x: Vf64<W>,
    y: Vf64<W>,
    lacunarity: Vf64<W>,
    gain: Vf64<W>,
    octaves: u8,
    seed: i64,
) -> (r: Vf64<W>)
    ensures
        forall|l: int|
            0 <= l < W ==> r@[l] == spec_fbm_2d(
                x@[l],
                y@[l],
                lacunarity@[l],
                gain@[l],
                octaves,
                seed,
            ),
{
    let mut out = x;
    let mut l: usize = 0;
    while l < W
        invariant
            l <= W,
            forall|k: int|
                0 <= k < l ==> out@[k] == spec_fbm_2d(
                    x@[k],
                    y@[k],
                    lacunarity@[k],
                    gain@[k],
                    octaves,
                    seed,
                ),
        decreases W - l,
    {
        out = out.with_lane(
            l,
            fbm_2d_lane(x.lane(l), y.lane(l), lacunarity.lane(l), gain.lane(l), octaves, seed),
        );
        l += 1;
    }
    out
}

/// Fractal noise in space, for `W` points at once. Fails at this precision
/// as soon as there is a lane to compute.
pub fn fbm_3d<const W: usize>(
    x: Vf64<W>,
    y: Vf64<W>,
    z: Vf64<W>,
    lacunarity: Vf64<W>,
    gain: Vf64<W>,
    octaves: u8,
    seed: i64,
) -> (r: Result<Vf64<W>, NoiseError>)
    ensures
        W >= 1 ==> r == Err::<Vf64<W>, NoiseError>(NoiseError::NotImplemented),
        W == 0 ==> r is Ok,
{
    let mut out = x;
    let mut l: usize = 0;
    while l < W
        invariant
            l == 0,
        decreases W - l,
    {
        out = out.with_lane(
            l,
            fbm_3d_lane(
                x.lane(l),
                y.lane(l),
                z.lane(l),
                lacunarity.lane(l),
                gain.lane(l),
                octaves,
                seed,
            )?,
        );
        l += 1;
    }
    Ok(out)
}

/// A single octave is the plain noise: fractal noise asked for one octave,
/// or for none, is simplex noise at the same point with the same seed.
pub proof fn lemma_single_octave(x: F64, y: F64, lacunarity: F64, gain: F64, octaves: u8, seed: i64)
    requires
        octaves <= 1,
    ensures
        spec_fbm_1d(x, lacunarity, gain, octaves, seed) == spec_simplex_1d(x, seed),
        spec_fbm_2d(x, y, lacunarity, gain, octaves, seed) == spec_simplex_2d(x, y, seed),
{
}

} // verus!

//! Ridged fractal noise at binary64 precision: octaves of simplex noise
//! folded at zero and turned over, so that the zero crossings of the noise
//! become ridges.
use crate::binary64::{F64, ONE};
use crate::error::NoiseError;
use crate::noise::fbm_64::{last_octave, octave_coord};
use crate::noise::simplex_64::{
    simplex_1d_lane, simplex_2d_lane, simplex_3d_lane, spec_simplex_1d, spec_simplex_2d,
};
use crate::vector_64::Vf64;
use vstd::prelude::*;

verus! {

/// The amplitude at octave `n`, the first octave being 0: the gain, `n`
/// times over.
pub open spec fn octave_amp(gain: F64, n: nat) -> F64
    decreases n,
{
    if n == 0 {
        F64::from_bits(ONE)
    } else {
        octave_amp(gain, (n - 1) as nat).times(gain)
    }
}

/// Octaves 0 to `n` of ridged noise on the line, added in order: each is one
/// less the magnitude of the simplex noise.
pub open spec fn ridges_1d(x: F64, lacunarity: F64, seed: i64, n: nat) -> F64
    decreases n,
{
    if n == 0 {
        F64::from_bits(ONE).minus(spec_simplex_1d(x, seed).abs())
    } else {
        ridges_1d(x, lacunarity, seed, (n - 1) as nat).plus(
            F64::from_bits(ONE).minus(
                spec_simplex_1d(octave_coord(x, lacunarity, n), seed).abs(),
            ),
        )
    }
}

/// Octaves 0 to `n` of ridged noise in the plane, added in order: each is
/// one less the magnitude of the simplex noise times the octave's amplitude.
pub open spec fn ridges_2d(x: F64, y: F64, lacunarity: F64, gain: F64, seed: i64, n: nat) -> F64
    decreases n,
{
    if n == 0 {
        F64::from_bits(ONE).minus(spec_simplex_2d(x, y, seed).abs())
    } else {
        ridges_2d(x, y, lacunarity, gain, seed, (n - 1) as nat).plus(
            F64::from_bits(ONE).minus(
                spec_simplex_2d(
                    octave_coord(x, lacunarity, n),
                    octave_coord(y, lacunarity, n),
                    seed,
                ).abs().times(octave_amp(gain, n)),
            ),
        )
    }
}

/// What [`ridge_1d_lane`] returns.
pub open spec fn spec_ridge_1d(x: F64, lacunarity: F64, gain: F64, octaves: u8, seed: i64) -> F64 {
    ridges_1d(x, lacunarity, seed, last_octave(octaves))
}

/// What [`ridge_2d_lane`] returns.
pub open spec fn spec_ridge_2d(
    x: F64,
    y: F64,
    lacunarity: F64,
    gain: F64,
    octaves: u8,
    seed: i64,
) -> F64 {
    ridges_2d(x, y, lacunarity, gain, seed, last_octave(octaves))
}

/// Ridged noise at the point `x` of the line. On the line every octave
/// counts alike: the gain does not enter.
#[allow(unused_variables)]
#[verifier::when_used_as_spec(spec_ridge_1d)]
pub fn ridge_1d_lane(x: F64, lacunarity: F64, gain: F64, octaves: u8, seed: i64) -> (r: F64)
    ensures
        r == spec_ridge_1d(x, lacunarity, gain, octaves, seed),
{
    let one = F64::from_bits(ONE);
    let mut xo = x;
    let mut result = one.minus(simplex_1d_lane(x, seed).abs());
    let mut o: u8 = 1;
    while o < octaves
        invariant
            1 <= o,
            o <= octaves || o == 1,
            one == F64::from_bits(ONE),
            xo == octave_coord(x, lacunarity, (o - 1) as nat),
            result == ridges_1d(x, lacunarity, seed, (o - 1) as nat),
        decreases octaves - o,
    {
        xo = xo.times(lacunarity);
        result = result.plus(one.minus(simplex_1d_lane(xo, seed).abs()));
        o += 1;
    }
    result
}

/// Ridged noise at the point `(x, y)` of the plane.
#[verifier::when_used_as_spec(spec_ridge_2d)]
pub fn ridge_2d_lane(x: F64, y: F64, lacunarity: F64, gain: F64, octaves: u8, seed: i64) -> (r:
    F64)
    ensures
        r == spec_ridge_2d(x, y, lacunarity, gain, octaves, seed),
{
    let one = F64::from_bits(ONE);
    let mut xo = x;
    let mut yo = y;
    let mut amp = one;
    let mut result = one.minus(simplex_2d_lane(x, y, seed).abs());
    let mut o: u8 = 1;
    while o < octaves
        invariant
            1 <= o,
            o <= octaves || o == 1,
            one == F64::from_bits(ONE),
            xo == octave_coord(x, lacunarity, (o - 1) as nat),
            yo == octave_coord(y, lacunarity, (o - 1) as nat),
            amp == octave_amp(gain, (o - 1) as nat),
            result == ridges_2d(x, y, lacunarity, gain, seed, (o - 1) as nat),
        decreases octaves - o,
    {
        xo = xo.times(lacunarity);
        yo = yo.times(lacunarity);
        amp = amp.times(gain);
        result = result.plus(one.minus(simplex_2d_lane(xo, yo, seed).abs().times(amp)));
        o += 1;
    }
    result
}

/// Ridged noise at the point `(x, y, z)` of space. Fails at this precision,
/// as simplex noise in space does.
pub fn ridge_3d_lane(
    x: F64,
    y: F64,
    z: F64,
    lacunarity: F64,
    gain: F64,
    octaves: u8,
    seed: i64,
) -> (r: Result<F64, NoiseError>)
    ensures
        r == Err::<F64, NoiseError>(NoiseError::NotImplemented),
{
    let one = F64::from_bits(ONE);
    let mut xo = x;
    let mut yo = y;
    let mut zo = z;
    let mut amp = one;
    let mut result = one.minus(simplex_3d_lane(x, y, z, seed)?.abs());
    let mut o: u8 = 1;
    while o < octaves
        invariant
            1 <= o,
        decreases octaves - o,
    {
        xo = xo.times(lacunarity);
        yo = yo.times(lacunarity);
        zo = zo.times(lacunarity);
        amp = amp.times(gain);
        result = result.plus(one.minus(simplex_3d_lane(xo, yo, zo, seed)?.abs().times(amp)));
        o += 1;
    }
    Ok(result)
}

/// Ridged noise on the line, for `W` points at once.
pub fn ridge_1d<const W: usize>(
    x: Vf64<W>,
    lacunarity: Vf64<W>,
    gain: Vf64<W>,
    octaves: u8,
    seed: i64,
) -> (r: Vf64<W>)
    ensures
        forall|l: int|
            0 <= l < W ==> r@[l] == spec_ridge_1d(x@[l], lacunarity@[l], gain@[l], octaves, seed),
{
    let mut out = x;
    let mut l: usize = 0;
    while l < W
        invariant
            l <= W,
            forall|k: int|
                0 <= k < l ==> out@[k] == spec_ridge_1d(
                    x@[k],
                    lacunarity@[k],
                    gain@[k],
                    octaves,
                    seed,
                ),
        decreases W - l,
    {
        out = out.with_lane(
            l,
            ridge_1d_lane(x.lane(l), lacunarity.lane(l), gain.lane(l), octaves, seed),
        );
        l += 1;
    }
    out
}

/// Ridged noise in the plane, for `W` points at once.
pub fn ridge_2d<const W: usize>(
    x: Vf64<W>,
    y: Vf64<W>,
    lac: Vf64<W>,
    gain: Vf64<W>,
    octaves: u8,
    seed: i64,
) -> (r: Vf64<W>)
    ensures
        forall|l: int|
            0 <= l < W ==> r@[l] == spec_ridge_2d(x@[l], y@[l], lac@[l], gain@[l], octaves, seed),
{
    let mut out = x;
    let mut l: usize = 0;
    while l < W
        invariant
            l <= W,
            forall|k: int|
                0 <= k < l ==> out@[k] == spec_ridge_2d(
                    x@[k],
                    y@[k],
                    lac@[k],
                    gain@[k],
                    octaves,
                    seed,
                ),
        decreases W - l,
    {
        out = out.with_lane(
            l,
            ridge_2d_lane(x.lane(l), y.lane(l), lac.lane(l), gain.lane(l), octaves, seed),
        );
        l += 1;
    }
    out
}

/// Ridged noise in space, for `W` points at once. Fails at this precision as
/// soon as there is a lane to compute.
pub fn ridge_3d<const W: usize>(
    x: Vf64<W>,
    y: Vf64<W>,
    z: Vf64<W>,
    lac: Vf64<W>,
    gain: Vf64<W>,
    octaves: u8,
    seed: i64,
) -> (r: Result<Vf64<W>, NoiseError>)
    ensures
        W >= 1 ==> r == Err::<Vf64<W>, NoiseError>(NoiseError::NotImplemented),
        W == 0 ==> r is Ok,
{
    let mut out = x;
    let mut l: usize = 0;
    while l < W
        invariant
            l == 0,
        decreases W - l,
    {
        out = out.with_lane(
            l,
            ridge_3d_lane(
                x.lane(l),
                y.lane(l),
                z.lane(l),
                lac.lane(l),
                gain.lane(l),
                octaves,
                seed,
            )?,
        );
        l += 1;
    }
    Ok(out)
}

} // verus!

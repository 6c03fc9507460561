//! The kernels and the sampling loop on the wide engine: eight binary32
//! lanes at a time, or four binary64 lanes.
use crate::binary32::F32;
use crate::binary64::F64;
use crate::error::NoiseError;
use crate::is_scaled;
use crate::noise::fbm_32::{self, spec_fbm_1d, spec_fbm_2d, spec_fbm_3d};
use crate::noise::{fbm_64, simplex_64};
use crate::noise::simplex_32::{self, spec_simplex_1d, spec_simplex_2d, spec_simplex_3d};
use crate::noise_helpers_32::{self, is_lower_extreme, is_upper_extreme};
use crate::noise_helpers_64;
use crate::noise_type::NoiseType;
use crate::shared::get_scaled_noise;
use crate::vector_32::{Vf32, WIDE_WIDTH};
use crate::vector_64::{Vf64, WIDE_WIDTH_64};
use vstd::prelude::*;

verus! {

/// Eight values of simplex noise on the line.
pub fn simplex_1d(x: Vf32<WIDE_WIDTH>, seed: i32) -> (r: Vf32<WIDE_WIDTH>)
    ensures
        forall|l: int| 0 <= l < WIDE_WIDTH ==> r@[l] == spec_simplex_1d(x@[l], seed),
{
    simplex_32::simplex_1d::<WIDE_WIDTH>(x, seed)
}

/// Eight values of simplex noise in the plane.
pub fn simplex_2d(x: Vf32<WIDE_WIDTH>, y: Vf32<WIDE_WIDTH>, seed: i32) -> (r: Vf32<WIDE_WIDTH>)
    ensures
        forall|l: int| 0 <= l < WIDE_WIDTH ==> r@[l] == spec_simplex_2d(x@[l], y@[l], seed),
{
    simplex_32::simplex_2d::<WIDE_WIDTH>(x, y, seed)
}

/// Eight values of simplex noise in space.
pub fn simplex_3d(
    x: Vf32<WIDE_WIDTH>,
    y: Vf32<WIDE_WIDTH>,
    z: Vf32<WIDE_WIDTH>,
    seed: i32,
) -> (r: Vf32<WIDE_WIDTH>)
    ensures
        forall|l: int| 0 <= l < WIDE_WIDTH ==> r@[l] == spec_simplex_3d(x@[l], y@[l], z@[l], seed),
{
    simplex_32::simplex_3d::<WIDE_WIDTH>(x, y, z, seed)
}

/// Eight values of fractal noise on the line.
pub fn fbm_1d(
    x: Vf32<WIDE_WIDTH>,
    lacunarity: Vf32<WIDE_WIDTH>,
    gain: Vf32<WIDE_WIDTH>,
    octaves: u8,
    seed: i32,
) -> (r: Vf32<WIDE_WIDTH>)
    ensures
        forall|l: int| 0 <= l < WIDE_WIDTH ==> r@[l] == spec_fbm_1d(
            x@[l],
            lacunarity@[l],
            gain@[l],
            octaves,
            seed,
        ),
{
    fbm_32::fbm_1d::<WIDE_WIDTH>(x, lacunarity, gain, octaves, seed)
}

/// Eight values of fractal noise in the plane.
pub fn fbm_2d(
    x: Vf32<WIDE_WIDTH>,
    y: Vf32<WIDE_WIDTH>,
    lacunarity: Vf32<WIDE_WIDTH>,
    gain: Vf32<WIDE_WIDTH>,
    octaves: u8,
    seed: i32,
) -> (r: Vf32<WIDE_WIDTH>)
    ensures
        forall|l: int| 0 <= l < WIDE_WIDTH ==> r@[l] == spec_fbm_2d(
            x@[l],
            y@[l],
            lacunarity@[l],
            gain@[l],
            octaves,
            seed,
        ),
{
    fbm_32::fbm_2d::<WIDE_WIDTH>(x, y, lacunarity, gain, octaves, seed)
}

/// Eight values of fractal noise in space.
pub fn fbm_3d(
    x: Vf32<WIDE_WIDTH>,
    y: Vf32<WIDE_WIDTH>,
    z: Vf32<WIDE_WIDTH>,
    lacunarity: Vf32<WIDE_WIDTH>,
    gain: Vf32<WIDE_WIDTH>,
    octaves: u8,
    seed: i32,
) -> (r: Vf32<WIDE_WIDTH>)
    ensures
        forall|l: int| 0 <= l < WIDE_WIDTH ==> r@[l] == spec_fbm_3d(
            x@[l],
            y@[l],
            z@[l],
            lacunarity@[l],
            gain@[l],
            octaves,
            seed,
        ),
{
    fbm_32::fbm_3d::<WIDE_WIDTH>(x, y, z, lacunarity, gain, octaves, seed)
}

/// A block of noise in 1 dimension, unscaled, with the smallest and the
/// largest sample in it.
pub fn get_1d_noise(noise_type: &NoiseType) -> (r: (Vec<F32>, F32, F32))
    ensures
        r.0@ == noise_type.samples_1d(),
        is_lower_extreme(r.1, r.0@),
        is_upper_extreme(r.2, r.0@),
{
    noise_helpers_32::get_1d_noise::<WIDE_WIDTH>(noise_type)
}

/// A block of noise in 2 dimensions, unscaled, with the smallest and the
/// largest sample in it.
pub fn get_2d_noise(noise_type: &NoiseType) -> (r: (Vec<F32>, F32, F32))
    ensures
        r.0@ == noise_type.samples_2d(),
        is_lower_extreme(r.1, r.0@),
        is_upper_extreme(r.2, r.0@),
{
    noise_helpers_32::get_2d_noise::<WIDE_WIDTH>(noise_type)
}

/// A block of noise in 3 dimensions, unscaled, with the smallest and the
/// largest sample in it.
pub fn get_3d_noise(noise_type: &NoiseType) -> (r: (Vec<F32>, F32, F32))
    ensures
        r.0@ == noise_type.samples_3d(),
        is_lower_extreme(r.1, r.0@),
        is_upper_extreme(r.2, r.0@),
{
    noise_helpers_32::get_3d_noise::<WIDE_WIDTH>(noise_type)
}

/// A block of noise in 1 dimension, scaled into the range of its settings.
pub fn get_1d_scaled_noise(noise_type: &NoiseType) -> (r: Vec<F32>)
    ensures
        is_scaled(
            r@,
            noise_type.samples_1d(),
            noise_type.dimensions().min,
            noise_type.dimensions().max,
        ),
{
    get_scaled_noise::<WIDE_WIDTH>(noise_type, get_1d_noise(noise_type))
}

/// A block of noise in 2 dimensions, scaled into the range of its settings.
pub fn get_2d_scaled_noise(noise_type: &NoiseType) -> (r: Vec<F32>)
    ensures
        is_scaled(
            r@,
            noise_type.samples_2d(),
            noise_type.dimensions().min,
            noise_type.dimensions().max,
        ),
{
    get_scaled_noise::<WIDE_WIDTH>(noise_type, get_2d_noise(noise_type))
}

/// A block of noise in 3 dimensions, scaled into the range of its settings.
pub fn get_3d_scaled_noise(noise_type: &NoiseType) -> (r: Vec<F32>)
    ensures
        is_scaled(
            r@,
            noise_type.samples_3d(),
            noise_type.dimensions().min,
            noise_type.dimensions().max,
        ),
{
    get_scaled_noise::<WIDE_WIDTH>(noise_type, get_3d_noise(noise_type))
}

/// Four values of simplex noise on the line, at binary64 precision.
pub fn simplex_1d_f64(x: Vf64<WIDE_WIDTH_64>, seed: i64) -> (r: Vf64<WIDE_WIDTH_64>)
    ensures
        forall|l: int|
            0 <= l < WIDE_WIDTH_64 ==> r@[l] == simplex_64::spec_simplex_1d(x@[l], seed),
{
    simplex_64::simplex_1d::<WIDE_WIDTH_64>(x, seed)
}

/// Four values of simplex noise in the plane, at binary64 precision.
pub fn simplex_2d_f64(
    x: Vf64<WIDE_WIDTH_64>,
    y: Vf64<WIDE_WIDTH_64>,
    seed: i64,
) -> (r: Vf64<WIDE_WIDTH_64>)
    ensures
        forall|l: int|
            0 <= l < WIDE_WIDTH_64 ==> r@[l] == simplex_64::spec_simplex_2d(x@[l], y@[l], seed),
{
    simplex_64::simplex_2d::<WIDE_WIDTH_64>(x, y, seed)
}

/// Four values of simplex noise in space, at binary64 precision: a failure,
/// for want of a hash of the lattice points of space.
pub fn simplex_3d_f64(
    x: Vf64<WIDE_WIDTH_64>,
    y: Vf64<WIDE_WIDTH_64>,
    z: Vf64<WIDE_WIDTH_64>,
    seed: i64,
) -> (r: Result<Vf64<WIDE_WIDTH_64>, NoiseError>)
    ensures
        r == Err::<Vf64<WIDE_WIDTH_64>, NoiseError>(NoiseError::NotImplemented),
{
    simplex_64::simplex_3d::<WIDE_WIDTH_64>(x, y, z, seed)
}

/// Four values of fractal noise on the line, at binary64 precision.
pub fn fbm_1d_f64(
    x: Vf64<WIDE_WIDTH_64>,
    lacunarity: Vf64<WIDE_WIDTH_64>,
    gain: Vf64<WIDE_WIDTH_64>,
    octaves: u8,
    seed: i64,
) -> (r: Vf64<WIDE_WIDTH_64>)
    ensures
        forall|l: int|
            0 <= l < WIDE_WIDTH_64 ==> r@[l] == fbm_64::spec_fbm_1d(
                x@[l],
                lacunarity@[l],
                gain@[l],
                octaves,
                seed,
            ),
{
    fbm_64::fbm_1d::<WIDE_WIDTH_64>(x, lacunarity, gain, octaves, seed)
}

/// Four values of fractal noise in the plane, at binary64 precision.
pub fn fbm_2d_f64(
    x: Vf64<WIDE_WIDTH_64>,
    y: Vf64<WIDE_WIDTH_64>,
    lacunarity: Vf64<WIDE_WIDTH_64>,
    gain: Vf64<WIDE_WIDTH_64>,
    octaves: u8,
    seed: i64,
) -> (r: Vf64<WIDE_WIDTH_64>)
    ensures
        forall|l: int|
            0 <= l < WIDE_WIDTH_64 ==> r@[l] == fbm_64::spec_fbm_2d(
                x@[l],
                y@[l],
                lacunarity@[l],
                gain@[l],
                octaves,
                seed,
            ),
{
    fbm_64::fbm_2d::<WIDE_WIDTH_64>(x, y, lacunarity, gain, octaves, seed)
}

/// Four values of fractal noise in space, at binary64 precision: a failure,
/// for want of a hash of the lattice points of space.
pub fn fbm_3d_f64(
    x: Vf64<WIDE_WIDTH_64>,
    y: Vf64<WIDE_WIDTH_64>,
    z: Vf64<WIDE_WIDTH_64>,
    lacunarity: Vf64<WIDE_WIDTH_64>,
    gain: Vf64<WIDE_WIDTH_64>,
    octaves: u8,
    seed: i64,
) -> (r: Result<Vf64<WIDE_WIDTH_64>, NoiseError>)
    ensures
        r == Err::<Vf64<WIDE_WIDTH_64>, NoiseError>(NoiseError::NotImplemented),
{
    fbm_64::fbm_3d::<WIDE_WIDTH_64>(x, y, z, lacunarity, gain, octaves, seed)
}

/// A block of noise in 1 dimension at binary64 precision, unscaled, with
/// the smallest and the largest sample in it.
pub fn get_1d_noise_64(noise_type: &NoiseType) -> (r: (Vec<F64>, F64, F64))
    ensures
        r.0@ == noise_type.samples_1d_64(),
        noise_helpers_64::is_lower_extreme(r.1, r.0@),
        noise_helpers_64::is_upper_extreme(r.2, r.0@),
{
    noise_helpers_64::get_1d_noise::<WIDE_WIDTH_64>(noise_type)
}

/// A block of noise in 2 dimensions at binary64 precision, unscaled, with
/// the smallest and the largest sample in it.
pub fn get_2d_noise_64(noise_type: &NoiseType) -> (r: (Vec<F64>, F64, F64))
    ensures
        r.0@ == noise_type.samples_2d_64(),
        noise_helpers_64::is_lower_extreme(r.1, r.0@),
        noise_helpers_64::is_upper_extreme(r.2, r.0@),
{
    noise_helpers_64::get_2d_noise::<WIDE_WIDTH_64>(noise_type)
}

/// A block of noise in 3 dimensions at binary64 precision: a failure, which
/// comes before anything is sampled.
pub fn get_3d_noise_64(noise_type: &NoiseType) -> (r: Result<(Vec<F64>, F64, F64), NoiseError>)
    ensures
        r == Err::<(Vec<F64>, F64, F64), NoiseError>(NoiseError::NotImplemented),
{
    noise_helpers_64::get_3d_noise::<WIDE_WIDTH_64>(noise_type)
}

} // verus!

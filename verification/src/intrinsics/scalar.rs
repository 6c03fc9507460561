//! The kernels and the sampling loop on the scalar engine: one lane, one
//! value at a time. Much slower than the wide engine, and the measure it is
//! held to.
use crate::binary32::F32;
use crate::binary64::F64;
use crate::error::NoiseError;
use crate::is_scaled;
use crate::noise::fbm_32::{self, spec_fbm_1d, spec_fbm_2d, spec_fbm_3d};
use crate::noise::{fbm_64, simplex_64};
use crate::noise::simplex_32::{self, spec_simplex_1d, spec_simplex_2d, spec_simplex_3d};
use crate::noise_helpers_32::{self, is_lower_extreme, is_upper_extreme};
use crate::noise_helpers_64;
use crate::noise_type::NoiseType;
use crate::shared::get_scaled_noise;
use crate::vector_32::{Vf32, SCALAR_WIDTH};
use crate::vector_64::{Vf64, SCALAR_WIDTH_64};
use vstd::prelude::*;

verus! {

/// A single value of simplex noise on the line.
pub fn simplex_1d(x: F32, seed: i32) -> (r: F32)
    ensures
        r == spec_simplex_1d(x, seed),
{
    simplex_32::simplex_1d::<SCALAR_WIDTH>(Vf32::set1(x), seed).lane(0)
}

/// A single value of simplex noise in the plane.
pub fn simplex_2d(x: F32, y: F32, seed: i32) -> (r: F32)
    ensures
        r == spec_simplex_2d(x, y, seed),
{
    simplex_32::simplex_2d::<SCALAR_WIDTH>(Vf32::set1(x), Vf32::set1(y), seed).lane(0)
}

/// A single value of simplex noise in space.
pub fn simplex_3d(x: F32, y: F32, z: F32, seed: i32) -> (r: F32)
    ensures
        r == spec_simplex_3d(x, y, z, seed),
{
    simplex_32::simplex_3d::<SCALAR_WIDTH>(
        Vf32::set1(x),
        Vf32::set1(y),
        Vf32::set1(z),
        seed,
    ).lane(0)
}

/// A single value of fractal noise on the line.
pub fn fbm_1d(x: F32, lacunarity: F32, gain: F32, octaves: u8, seed: i32) -> (r: F32)
    ensures
        r == spec_fbm_1d(x, lacunarity, gain, octaves, seed),
{
    fbm_32::fbm_1d::<SCALAR_WIDTH>(
        Vf32::set1(x),
        Vf32::set1(lacunarity),
        Vf32::set1(gain),
        octaves,
        seed,
    ).lane(0)
}

/// A single value of fractal noise in the plane.
pub fn fbm_2d(x: F32, y: F32, lacunarity: F32, gain: F32, octaves: u8, seed: i32) -> (r: F32)
    ensures
        r == spec_fbm_2d(x, y, lacunarity, gain, octaves, seed),
{
    fbm_32::fbm_2d::<SCALAR_WIDTH>(
        Vf32::set1(x),
        Vf32::set1(y),
        Vf32::set1(lacunarity),
        Vf32::set1(gain),
        octaves,
        seed,
    ).lane(0)
}

/// A single value of fractal noise in space.
pub fn fbm_3d(
    x: F32,
    y: F32,
    z: F32,
    lacunarity: F32,
    gain: F32,
    octaves: u8,
    seed: i32,
) -> (r: F32)
    ensures
        r == spec_fbm_3d(x, y, z, lacunarity, gain, octaves, seed),
{
    fbm_32::fbm_3d::<SCALAR_WIDTH>(
        Vf32::set1(x),
        Vf32::set1(y),
        Vf32::set1(z),
        Vf32::set1(lacunarity),
        Vf32::set1(gain),
        octaves,
        seed,
    ).lane(0)
}

/// A block of noise in 1 dimension, unscaled, with the smallest and the
/// largest sample in it.
pub fn get_1d_noise(noise_type: &NoiseType) -> (r: (Vec<F32>, F32, F32))
    ensures
        r.0@ == noise_type.samples_1d(),
        is_lower_extreme(r.1, r.0@),
        is_upper_extreme(r.2, r.0@),
{
    noise_helpers_32::get_1d_noise::<SCALAR_WIDTH>(noise_type)
}

/// A block of noise in 2 dimensions, unscaled, with the smallest and the
/// largest sample in it.
pub fn get_2d_noise(noise_type: &NoiseType) -> (r: (Vec<F32>, F32, F32))
    ensures
        r.0@ == noise_type.samples_2d(),
        is_lower_extreme(r.1, r.0@),
        is_upper_extreme(r.2, r.0@),
{
    noise_helpers_32::get_2d_noise::<SCALAR_WIDTH>(noise_type)
}

/// A block of noise in 3 dimensions, unscaled, with the smallest and the
/// largest sample in it.
pub fn get_3d_noise(noise_type: &NoiseType) -> (r: (Vec<F32>, F32, F32))
    ensures
        r.0@ == noise_type.samples_3d(),
        is_lower_extreme(r.1, r.0@),
        is_upper_extreme(r.2, r.0@),
{
    noise_helpers_32::get_3d_noise::<SCALAR_WIDTH>(noise_type)
}

/// A block of noise in 1 dimension, scaled into the range of its settings.
pub fn get_1d_scaled_noise(noise_type: &NoiseType) -> (r: Vec<F32>)
    ensures
        is_scaled(
            r@,
            noise_type.samples_1d(),
            noise_type.dimensions().min,
            noise_type.dimensions().max,
        ),
{
    get_scaled_noise::<SCALAR_WIDTH>(noise_type, get_1d_noise(noise_type))
}

/// A block of noise in 2 dimensions, scaled into the range of its settings.
pub fn get_2d_scaled_noise(noise_type: &NoiseType) -> (r: Vec<F32>)
    ensures
        is_scaled(
            r@,
            noise_type.samples_2d(),
            noise_type.dimensions().min,
            noise_type.dimensions().max,
        ),
{
    get_scaled_noise::<SCALAR_WIDTH>(noise_type, get_2d_noise(noise_type))
}

/// A block of noise in 3 dimensions, scaled into the range of its settings.
pub fn get_3d_scaled_noise(noise_type: &NoiseType) -> (r: Vec<F32>)
    ensures
        is_scaled(
            r@,
            noise_type.samples_3d(),
            noise_type.dimensions().min,
            noise_type.dimensions().max,
        ),
{
    get_scaled_noise::<SCALAR_WIDTH>(noise_type, get_3d_noise(noise_type))
}

/// A single value of simplex noise on the line, at binary64 precision.
pub fn simplex_1d_f64(x: F64, seed: i64) -> (r: F64)
    ensures
        r == simplex_64::spec_simplex_1d(x, seed),
{
    simplex_64::simplex_1d::<SCALAR_WIDTH_64>(Vf64::set1(x), seed).lane(0)
}

/// A single value of simplex noise in the plane, at binary64 precision.
pub fn simplex_2d_f64(x: F64, y: F64, seed: i64) -> (r: F64)
    ensures
        r == simplex_64::spec_simplex_2d(x, y, seed),
{
    simplex_64::simplex_2d::<SCALAR_WIDTH_64>(Vf64::set1(x), Vf64::set1(y), seed).lane(0)
}

/// A single value of simplex noise in space, at binary64 precision: a failure,
/// for want of a hash of the lattice points of space.
pub fn simplex_3d_f64(x: F64, y: F64, z: F64, seed: i64) -> (r: Result<F64, NoiseError>)
    ensures
        r == Err::<F64, NoiseError>(NoiseError::NotImplemented),
{
    let v = simplex_64::simplex_3d::<SCALAR_WIDTH_64>(
        Vf64::set1(x),
        Vf64::set1(y),
        Vf64::set1(z),
        seed,
    )?;
    Ok(v.lane(0))
}

/// A single value of fractal noise on the line, at binary64 precision.
pub fn fbm_1d_f64(x: F64, lacunarity: F64, gain: F64, octaves: u8, seed: i64) -> (r: F64)
    ensures
        r == fbm_64::spec_fbm_1d(x, lacunarity, gain, octaves, seed),
{
    fbm_64::fbm_1d::<SCALAR_WIDTH_64>(
        Vf64::set1(x),
        Vf64::set1(lacunarity),
        Vf64::set1(gain),
        octaves,
        seed,
    ).lane(0)
}

/// A single value of fractal noise in the plane, at binary64 precision.
pub fn fbm_2d_f64(x: F64, y: F64, lacunarity: F64, gain: F64, octaves: u8, seed: i64) -> (r: F64)
    ensures
        r == fbm_64::spec_fbm_2d(x, y, lacunarity, gain, octaves, seed),
{
    fbm_64::fbm_2d::<SCALAR_WIDTH_64>(
        Vf64::set1(x),
        Vf64::set1(y),
        Vf64::set1(lacunarity),
        Vf64::set1(gain),
        octaves,
        seed,
    ).lane(0)
}

/// A single value of fractal noise in space, at binary64 precision: a failure,
/// for want of a hash of the lattice points of space.
pub fn fbm_3d_f64(
    x: F64,
    y: F64,
    z: F64,
    lacunarity: F64,
    gain: F64,
    octaves: u8,
    seed: i64,
) -> (r: Result<F64, NoiseError>)
    ensures
        r == Err::<F64, NoiseError>(NoiseError::NotImplemented),
{
    let v = fbm_64::fbm_3d::<SCALAR_WIDTH_64>(
        Vf64::set1(x),
        Vf64::set1(y),
        Vf64::set1(z),
        Vf64::set1(lacunarity),
        Vf64::set1(gain),
        octaves,
        seed,
    )?;
    Ok(v.lane(0))
}

/// A block of noise in 1 dimension at binary64 precision, unscaled, with
/// the smallest and the largest sample in it.
pub fn get_1d_noise_64(noise_type: &NoiseType) -> (r: (Vec<F64>, F64, F64))
    ensures
        r.0@ == noise_type.samples_1d_64(),
        noise_helpers_64::is_lower_extreme(r.1, r.0@),
        noise_helpers_64::is_upper_extreme(r.2, r.0@),
{
    noise_helpers_64::get_1d_noise::<SCALAR_WIDTH_64>(noise_type)
}

/// A block of noise in 2 dimensions at binary64 precision, unscaled, with
/// the smallest and the largest sample in it.
pub fn get_2d_noise_64(noise_type: &NoiseType) -> (r: (Vec<F64>, F64, F64))
    ensures
        r.0@ == noise_type.samples_2d_64(),
        noise_helpers_64::is_lower_extreme(r.1, r.0@),
        noise_helpers_64::is_upper_extreme(r.2, r.0@),
{
    noise_helpers_64::get_2d_noise::<SCALAR_WIDTH_64>(noise_type)
}

/// A block of noise in 3 dimensions at binary64 precision: a failure, which
/// comes before anything is sampled.
pub fn get_3d_noise_64(noise_type: &NoiseType) -> (r: Result<(Vec<F64>, F64, F64), NoiseError>)
    ensures
        r == Err::<(Vec<F64>, F64, F64), NoiseError>(NoiseError::NotImplemented),
{
    noise_helpers_64::get_3d_noise::<SCALAR_WIDTH_64>(noise_type)
}

} // verus!

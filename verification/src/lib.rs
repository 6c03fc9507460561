//! Coherent procedural noise over one, two and three dimensions, computed on
//! lanes of a vector engine and proved against a lane-by-lane model.
//!
//! A block of noise is described by settings, built with [`NoiseBuilder`],
//! and comes back as a buffer of samples in row-major order, x running
//! fastest. Samples are binary32 values held as bit patterns; see
//! [`binary32::F32`].
//!
//! The rounded arithmetic on samples is that of the scalar engine of
//! `simdeez` and is taken on trust, operation by operation, in [`simd_32`]
//! and [`simd_64`]. What is proved is everything around it: the lattice
//! hashes and the choice of gradients, which operations a kernel applies in
//! which order, that a lane does not depend on the width of the engine, the
//! layout of a block, the extremes that come with it, and its scaling.
pub mod binary32;
pub mod binary64;
pub mod engine;
pub mod error;
pub mod intrinsics;
pub mod noise;
pub mod noise_builder;
pub mod noise_dimensions;
pub mod noise_helpers_32;
pub mod noise_helpers_64;
pub mod noise_type;
pub mod settings;
pub mod shared;
pub mod simd_32;
pub mod simd_64;
pub mod vector_32;
pub mod vector_64;

pub use crate::binary32::F32;
pub use crate::binary64::F64;
pub use crate::engine::Engine;
pub use crate::error::NoiseError;
pub use crate::noise_builder::NoiseBuilder;
pub use crate::noise_dimensions::NoiseDimensions;
pub use crate::noise_type::NoiseType;
pub use crate::settings::fbm_settings::FbmSettings;
pub use crate::settings::gradient_settings::GradientSettings;
use crate::noise_helpers_32::{is_lower_extreme, is_upper_extreme, lemma_extremes_are_unique};
use crate::shared::{get_scaled_noise, scaled_block};
use crate::vector_32::WIDE_WIDTH;
use vstd::prelude::*;

verus! {

/// A block of one-dimensional noise on the wide engine, with the smallest
/// and the largest sample in it.
pub fn get_1d_noise(noise_type: &NoiseType) -> (r: (Vec<F32>, F32, F32))
    ensures
        r.0@ == noise_type.samples_1d(),
        is_lower_extreme(r.1, r.0@),
        is_upper_extreme(r.2, r.0@),
{
    noise_helpers_32::get_1d_noise::<WIDE_WIDTH>(noise_type)
}

/// A block of two-dimensional noise on the wide engine, with the smallest
/// and the largest sample in it.
pub fn get_2d_noise(noise_type: &NoiseType) -> (r: (Vec<F32>, F32, F32))
    ensures
        r.0@ == noise_type.samples_2d(),
        is_lower_extreme(r.1, r.0@),
        is_upper_extreme(r.2, r.0@),
{
    noise_helpers_32::get_2d_noise::<WIDE_WIDTH>(noise_type)
}

/// A block of three-dimensional noise on the wide engine, with the smallest
/// and the largest sample in it.
pub fn get_3d_noise(noise_type: &NoiseType) -> (r: (Vec<F32>, F32, F32))
    ensures
        r.0@ == noise_type.samples_3d(),
        is_lower_extreme(r.1, r.0@),
        is_upper_extreme(r.2, r.0@),
{
    noise_helpers_32::get_3d_noise::<WIDE_WIDTH>(noise_type)
}

/// `scaled` is `raw` brought into the range from `min` to `max` by its
/// minimum and its maximum.
pub open spec fn is_scaled(scaled: Seq<F32>, raw: Seq<F32>, min: F32, max: F32) -> bool {
    exists|lo: F32, hi: F32|
        is_lower_extreme(lo, raw) && is_upper_extreme(hi, raw) && scaled == #[trigger] scaled_block(
            raw,
            min,
            max,
            lo,
            hi,
        )
}

/// There is one scaled block: two blocks that are each `raw` brought into
/// the range from `min` to `max` are the same, bit for bit.
pub proof fn lemma_scaled_is_unique(a: Seq<F32>, b: Seq<F32>, raw: Seq<F32>, min: F32, max: F32)
    requires
        is_scaled(a, raw, min, max),
        is_scaled(b, raw, min, max),
    ensures
        a == b,
{
    let (lo1, hi1) = choose|lo: F32, hi: F32|
        is_lower_extreme(lo, raw) && is_upper_extreme(hi, raw) && a == #[trigger] scaled_block(
            raw,
            min,
            max,
            lo,
            hi,
        );
    let (lo2, hi2) = choose|lo: F32, hi: F32|
        is_lower_extreme(lo, raw) && is_upper_extreme(hi, raw) && b == #[trigger] scaled_block(
            raw,
            min,
            max,
            lo,
            hi,
        );
    lemma_extremes_are_unique(raw, lo1, hi1, lo2, hi2);
}

/// A block of one-dimensional noise on the wide engine, scaled into the
/// range of its settings.
pub fn get_1d_scaled_noise(noise_type: &NoiseType) -> (r: Vec<F32>)
    ensures
        is_scaled(
            r@,
            noise_type.samples_1d(),
            noise_type.dimensions().min,
            noise_type.dimensions().max,
        ),
{
    get_scaled_noise::<WIDE_WIDTH>(noise_type, get_1d_noise(noise_type))
}

/// A block of two-dimensional noise on the wide engine, scaled into the
/// range of its settings.
pub fn get_2d_scaled_noise(noise_type: &NoiseType) -> (r: Vec<F32>)
    ensures
        is_scaled(
            r@,
            noise_type.samples_2d(),
            noise_type.dimensions().min,
            noise_type.dimensions().max,
        ),
{
    get_scaled_noise::<WIDE_WIDTH>(noise_type, get_2d_noise(noise_type))
}

/// A block of three-dimensional noise on the wide engine, scaled into the
/// range of its settings.
pub fn get_3d_scaled_noise(noise_type: &NoiseType) -> (r: Vec<F32>)
    ensures
        is_scaled(
            r@,
            noise_type.samples_3d(),
            noise_type.dimensions().min,
            noise_type.dimensions().max,
        ),
{
    get_scaled_noise::<WIDE_WIDTH>(noise_type, get_3d_noise(noise_type))
}

} // verus!

//! The choice of a vector engine: made once, before a block is sampled, and
//! without effect on what the block holds.
use crate::binary32::F32;
use crate::binary64::F64;
use crate::error::NoiseError;
use crate::intrinsics::{avx2, scalar};
use crate::is_scaled;
use crate::noise_helpers_32::{is_lower_extreme, is_upper_extreme};
use crate::noise_helpers_64;
use crate::noise_type::NoiseType;
use crate::vector_32::{SCALAR_WIDTH, WIDE_WIDTH};
use crate::vector_64::{SCALAR_WIDTH_64, WIDE_WIDTH_64};
use vstd::prelude::*;

verus! {

/// A vector engine.
#[derive(Clone, Copy, PartialEq, Eq, Structural, Debug)]
pub enum Engine {
    /// One lane; runs on any hardware.
    Scalar,
    /// Eight binary32 lanes or four binary64 lanes.
    Avx2,
}

/// The raw samples that `noise_type` asks for at binary64 precision: in one
/// dimension or in two.
pub open spec fn samples_64(noise_type: NoiseType) -> Seq<F64> {
    if noise_type.dimensions().dim == 1 {
        noise_type.samples_1d_64()
    } else {
        noise_type.samples_2d_64()
    }
}

impl Engine {
    /// What [`Engine::select`] returns.
    pub open spec fn spec_select(wide: bool) -> Engine {
        if wide {
            Engine::Avx2
        } else {
            Engine::Scalar
        }
    }

    /// The fastest engine there is, `wide` saying whether the hardware has
    /// the wide one.
    #[verifier::when_used_as_spec(spec_select)]
    pub fn select(wide: bool) -> (r: Engine)
        ensures
            r == Engine::spec_select(wide),
    {
        if wide {
            Engine::Avx2
        } else {
            Engine::Scalar
        }
    }

    /// Lanes of a binary32 vector.
    pub fn width(self) -> (r: usize)
        ensures
            r == (if self == Engine::Scalar {
                SCALAR_WIDTH
            } else {
                WIDE_WIDTH
            }),
    {
        match self {
            Engine::Scalar => SCALAR_WIDTH,
            Engine::Avx2 => WIDE_WIDTH,
        }
    }

    /// Lanes of a binary64 vector.
    pub fn width_64(self) -> (r: usize)
        ensures
            r == (if self == Engine::Scalar {
                SCALAR_WIDTH_64
            } else {
                WIDE_WIDTH_64
            }),
    {
        match self {
            Engine::Scalar => SCALAR_WIDTH_64,
            Engine::Avx2 => WIDE_WIDTH_64,
        }
    }

    /// The block of noise that `noise_type` describes, sampled on this
    /// engine, with the smallest and the largest sample in it. The engine
    /// has no part in what comes back.
    ///
    /// Fails, before anything is sampled, where the number of dimensions is
    /// not 1, 2 or 3.
    pub fn get_noise(self, noise_type: &NoiseType) -> (r: Result<(Vec<F32>, F32, F32), NoiseError>)
        ensures
            !noise_type.dimensions().wf() ==> r == Err::<(Vec<F32>, F32, F32), NoiseError>(
                NoiseError::InvalidDimension,
            ),
            noise_type.dimensions().wf() ==> r is Ok && ({
                let (noise, min, max) = r->Ok_0;
                &&& noise@ == noise_type.samples()
                &&& noise@.len() == noise_type.count()
                &&& is_lower_extreme(min, noise@)
                &&& is_upper_extreme(max, noise@)
            }),
    {
        let d = noise_type.get_dimensions().dim;
        proof {
            noise_type.lemma_samples_len();
        }
        match self {
            Engine::Scalar => {
                if d == 1 {
                    Ok(scalar::get_1d_noise(noise_type))
                } else if d == 2 {
                    Ok(scalar::get_2d_noise(noise_type))
                } else if d == 3 {
                    Ok(scalar::get_3d_noise(noise_type))
                } else {
                    Err(NoiseError::InvalidDimension)
                }
            },
            Engine::Avx2 => {
                if d == 1 {
                    Ok(avx2::get_1d_noise(noise_type))
                } else if d == 2 {
                    Ok(avx2::get_2d_noise(noise_type))
                } else if d == 3 {
                    Ok(avx2::get_3d_noise(noise_type))
                } else {
                    Err(NoiseError::InvalidDimension)
                }
            },
        }
    }

    /// The block of noise that `noise_type` describes, sampled on this
    /// engine and scaled into the range of its settings.
    ///
    /// Fails, before anything is sampled, where the number of dimensions is
    /// not 1, 2 or 3.
    pub fn get_scaled_noise(self, noise_type: &NoiseType) -> (r: Result<Vec<F32>, NoiseError>)
        ensures
            !noise_type.dimensions().wf() ==> r == Err::<Vec<F32>, NoiseError>(
                NoiseError::InvalidDimension,
            ),
            noise_type.dimensions().wf() ==> r is Ok && is_scaled(
                r->Ok_0@,
                noise_type.samples(),
                noise_type.dimensions().min,
                noise_type.dimensions().max,
            ),
            noise_type.dimensions().wf() ==> r->Ok_0@.len() == noise_type.count(),
    {
        let d = noise_type.get_dimensions().dim;
        proof {
            noise_type.lemma_samples_len();
        }
        match self {
            Engine::Scalar => {
                if d == 1 {
                    Ok(scalar::get_1d_scaled_noise(noise_type))
                } else if d == 2 {
                    Ok(scalar::get_2d_scaled_noise(noise_type))
                } else if d == 3 {
                    Ok(scalar::get_3d_scaled_noise(noise_type))
                } else {
                    Err(NoiseError::InvalidDimension)
                }
            },
            Engine::Avx2 => {
                if d == 1 {
                    Ok(avx2::get_1d_scaled_noise(noise_type))
                } else if d == 2 {
                    Ok(avx2::get_2d_scaled_noise(noise_type))
                } else if d == 3 {
                    Ok(avx2::get_3d_scaled_noise(noise_type))
                } else {
                    Err(NoiseError::InvalidDimension)
                }
            },
        }
    }

    /// The block of noise that `noise_type` describes, sampled on this
    /// engine at binary64 precision, with the smallest and the largest
    /// sample in it.
    ///
    /// Fails, before anything is sampled, where the number of dimensions is
    /// not 1, 2 or 3, and where it is 3: there is no noise in space at this
    /// precision.
    pub fn get_noise_64(self, noise_type: &NoiseType) -> (r: Result<
        (Vec<F64>, F64, F64),
        NoiseError,
    >)
        ensures
            !noise_type.dimensions().wf() ==> r == Err::<(Vec<F64>, F64, F64), NoiseError>(
                NoiseError::InvalidDimension,
            ),
            noise_type.dimensions().dim == 3 ==> r == Err::<(Vec<F64>, F64, F64), NoiseError>(
                NoiseError::NotImplemented,
            ),
            1 <= noise_type.dimensions().dim <= 2 ==> r is Ok && ({
                let (noise, min, max) = r->Ok_0;
                &&& noise@ == samples_64(*noise_type)
                &&& noise_helpers_64::is_lower_extreme(min, noise@)
                &&& noise_helpers_64::is_upper_extreme(max, noise@)
            }),
    {
        let d = noise_type.get_dimensions().dim;
        match self {
            Engine::Scalar => {
                if d == 1 {
                    Ok(scalar::get_1d_noise_64(noise_type))
                } else if d == 2 {
                    Ok(scalar::get_2d_noise_64(noise_type))
                } else if d == 3 {
                    scalar::get_3d_noise_64(noise_type)
                } else {
                    Err(NoiseError::InvalidDimension)
                }
            },
            Engine::Avx2 => {
                if d == 1 {
                    Ok(avx2::get_1d_noise_64(noise_type))
                } else if d == 2 {
                    Ok(avx2::get_2d_noise_64(noise_type))
                } else if d == 3 {
                    avx2::get_3d_noise_64(noise_type)
                } else {
                    Err(NoiseError::InvalidDimension)
                }
            },
        }
    }
}

} // verus!

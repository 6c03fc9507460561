//! Where settings come from: a kind of noise and the box to take it over.
use crate::binary32::F32;
use crate::noise_dimensions::NoiseDimensions;
use crate::settings::fbm_settings::FbmSettings;
use crate::settings::gradient_settings::GradientSettings;
use vstd::prelude::*;

verus! {

/// Starts the settings of a block of noise.
pub struct NoiseBuilder {}

/// The box of `dim` dimensions with the given origin and extents, and with
/// the target range and the seed that [`NoiseDimensions::default`] gives.
pub open spec fn box_of(
    dim: usize,
    x: F32,
    width: usize,
    y: F32,
    height: usize,
    z: F32,
    depth: usize,
) -> NoiseDimensions {
    NoiseDimensions {
        dim,
        x,
        y,
        z,
        width,
        height,
        depth,
        min: F32::from_bits(crate::binary32::ZERO),
        max: F32::from_bits(crate::binary32::ONE),
        seed: 1,
    }
}

/// Pattern of 0.0, the origin of a box that is given none.
pub const ORIGIN: u32 = 0;

impl NoiseBuilder {
    /// Fractal noise on a line: `width` samples, with the
    /// settings that [`FbmSettings::default`] gives.
    pub fn fbm_1d(width: usize) -> (r: FbmSettings)
        ensures
            r == FbmSettings::default(
                box_of(
                    1,
                    F32::from_bits(ORIGIN),
                    width,
                    F32::from_bits(ORIGIN),
                    1,
                    F32::from_bits(ORIGIN),
                    1,
                ),
            ),
    {
        let mut dim = NoiseDimensions::default(1);
        dim.width = width;
        FbmSettings::default(dim)
    }

    /// Fractal noise on a line: `width` samples from the given offsets, with
    /// the settings that [`FbmSettings::default`] gives.
    pub fn fbm_1d_offset(x_offset: F32, width: usize) -> (r: FbmSettings)
        ensures
            r == FbmSettings::default(
                box_of(1, x_offset, width, F32::from_bits(ORIGIN), 1, F32::from_bits(ORIGIN), 1),
            ),
    {
        let mut dim = NoiseDimensions::default(1);
        dim.width = width;
        dim.x = x_offset;
        FbmSettings::default(dim)
    }

    /// Fractal noise in a plane: `width` by `height` samples, with the
    /// settings that [`FbmSettings::default`] gives.
    pub fn fbm_2d(width: usize, height: usize) -> (r: FbmSettings)
        ensures
            r == FbmSettings::default(
                box_of(
                    2,
                    F32::from_bits(ORIGIN),
                    width,
                    F32::from_bits(ORIGIN),
                    height,
                    F32::from_bits(ORIGIN),
                    1,
                ),
            ),
    {
        let mut dim = NoiseDimensions::default(2);
        dim.width = width;
        dim.height = height;
        FbmSettings::default(dim)
    }

    /// Fractal noise in a plane: `width` by `height` samples from the given
    /// offsets, with the settings that [`FbmSettings::default`] gives.
    pub fn fbm_2d_offset(
        x_offset: F32,
        width: usize,
        y_offset: F32,
        height: usize,
    ) -> (r: FbmSettings)
        ensures
            r == FbmSettings::default(
                box_of(2, x_offset, width, y_offset, height, F32::from_bits(ORIGIN), 1),
            ),
    {
        let mut dim = NoiseDimensions::default(2);
        dim.width = width;
        dim.height = height;
        dim.x = x_offset;
        dim.y = y_offset;
        FbmSettings::default(dim)
    }

    /// Fractal noise in space: `width` by `height` by `depth` samples, with
    /// the settings that [`FbmSettings::default`] gives.
    pub fn fbm_3d(width: usize, height: usize, depth: usize) -> (r: FbmSettings)
        ensures
            r == FbmSettings::default(
                box_of(
                    3,
                    F32::from_bits(ORIGIN),
                    width,
                    F32::from_bits(ORIGIN),
                    height,
                    F32::from_bits(ORIGIN),
                    depth,
                ),
            ),
    {
        let mut dim = NoiseDimensions::default(3);
        dim.width = width;
        dim.height = height;
        dim.depth = depth;
        FbmSettings::default(dim)
    }

    /// Fractal noise in space: `width` by `height` by `depth` samples from
    /// the given offsets, with the settings that [`FbmSettings::default`]
    /// gives.
    pub fn fbm_3d_offset(
        x_offset: F32,
        width: usize,
        y_offset: F32,
        height: usize,
        z_offset: F32,
        depth: usize,
    ) -> (r: FbmSettings)
        ensures
            r == FbmSettings::default(
                box_of(3, x_offset, width, y_offset, height, z_offset, depth),
            ),
    {
        let mut dim = NoiseDimensions::default(3);
        dim.width = width;
        dim.height = height;
        dim.depth = depth;
        dim.x = x_offset;
        dim.y = y_offset;
        dim.z = z_offset;
        FbmSettings::default(dim)
    }

    /// Gradient noise on a line: `width` samples, with the
    /// settings that [`GradientSettings::default`] gives.
    pub fn gradient_1d(width: usize) -> (r: GradientSettings)
        ensures
            r == GradientSettings::default(
                box_of(
                    1,
                    F32::from_bits(ORIGIN),
                    width,
                    F32::from_bits(ORIGIN),
                    1,
                    F32::from_bits(ORIGIN),
                    1,
                ),
            ),
    {
        let mut dim = NoiseDimensions::default(1);
        dim.width = width;
        GradientSettings::default(dim)
    }

    /// Gradient noise on a line: `width` samples from the given offsets, with
    /// the settings that [`GradientSettings::default`] gives.
    pub fn gradient_1d_offset(x_offset: F32, width: usize) -> (r: GradientSettings)
        ensures
            r == GradientSettings::default(
                box_of(1, x_offset, width, F32::from_bits(ORIGIN), 1, F32::from_bits(ORIGIN), 1),
            ),
    {
        let mut dim = NoiseDimensions::default(1);
        dim.width = width;
        dim.x = x_offset;
        GradientSettings::default(dim)
    }

    /// Gradient noise in a plane: `width` by `height` samples, with the
    /// settings that [`GradientSettings::default`] gives.
    pub fn gradient_2d(width: usize, height: usize) -> (r: GradientSettings)
        ensures
            r == GradientSettings::default(
                box_of(
                    2,
                    F32::from_bits(ORIGIN),
                    width,
                    F32::from_bits(ORIGIN),
                    height,
                    F32::from_bits(ORIGIN),
                    1,
                ),
            ),
    {
        let mut dim = NoiseDimensions::default(2);
        dim.width = width;
        dim.height = height;
        GradientSettings::default(dim)
    }

    /// Gradient noise in a plane: `width` by `height` samples from the given
    /// offsets, with the settings that [`GradientSettings::default`] gives.
    pub fn gradient_2d_offset(
        x_offset: F32,
        width: usize,
        y_offset: F32,
        height: usize,
    ) -> (r: GradientSettings)
        ensures
            r == GradientSettings::default(
                box_of(2, x_offset, width, y_offset, height, F32::from_bits(ORIGIN), 1),
            ),
    {
        let mut dim = NoiseDimensions::default(2);
        dim.width = width;
        dim.height = height;
        dim.x = x_offset;
        dim.y = y_offset;
        GradientSettings::default(dim)
    }

    /// Gradient noise in space: `width` by `height` by `depth` samples, with
    /// the settings that [`GradientSettings::default`] gives.
    pub fn gradient_3d(width: usize, height: usize, depth: usize) -> (r: GradientSettings)
        ensures
            r == GradientSettings::default(
                box_of(
                    3,
                    F32::from_bits(ORIGIN),
                    width,
                    F32::from_bits(ORIGIN),
                    height,
                    F32::from_bits(ORIGIN),
                    depth,
                ),
            ),
    {
        let mut dim = NoiseDimensions::default(3);
        dim.width = width;
        dim.height = height;
        dim.depth = depth;
        GradientSettings::default(dim)
    }

    /// Gradient noise in space: `width` by `height` by `depth` samples from
    /// the given offsets, with the settings that
    /// [`GradientSettings::default`] gives.
    pub fn gradient_3d_offset(
        x_offset: F32,
        width: usize,
        y_offset: F32,
        height: usize,
        z_offset: F32,
        depth: usize,
    ) -> (r: GradientSettings)
        ensures
            r == GradientSettings::default(
                box_of(3, x_offset, width, y_offset, height, z_offset, depth),
            ),
    {
        let mut dim = NoiseDimensions::default(3);
        dim.width = width;
        dim.height = height;
        dim.depth = depth;
        dim.x = x_offset;
        dim.y = y_offset;
        dim.z = z_offset;
        GradientSettings::default(dim)
    }
}

} // verus!

//! Settings of fractal noise.
use crate::{
    get_1d_noise, get_1d_scaled_noise, get_2d_noise, get_2d_scaled_noise, get_3d_noise,
    get_3d_scaled_noise, is_scaled,
};
use crate::binary32::F32;
use crate::binary64::F64;
use crate::error::NoiseError;
use crate::noise::fbm_32::{fbm_1d, fbm_2d, fbm_3d, spec_fbm_1d, spec_fbm_2d, spec_fbm_3d};
use crate::noise::fbm_64;
use crate::noise_dimensions::NoiseDimensions;
use crate::noise_helpers_32::{is_lower_extreme, is_upper_extreme, Sample32};
use crate::noise_helpers_64::Sample64;
use crate::noise_type::NoiseType;
use crate::vector_32::Vf32;
use crate::vector_64::Vf64;
use vstd::prelude::*;

verus! {

/// Pattern of 0.02, the frequency that settings start with.
pub const DEFAULT_FREQUENCY: u32 = 0x3ca3_d70a;

/// Pattern of 0.5, the lacunarity that settings start with.
pub const DEFAULT_LACUNARITY: u32 = 0x3f00_0000;

/// Pattern of 2.0, the gain that settings start with.
pub const DEFAULT_GAIN: u32 = 0x4000_0000;

/// The number of octaves that settings start with.
pub const DEFAULT_OCTAVES: u8 = 3;

/// A box of lattice points, the frequency of fractal noise on each axis, and
/// how its octaves follow one another.
#[derive(Copy, Clone, Debug)]
pub struct FbmSettings {
    pub dim: NoiseDimensions,
    pub freq_x: F32,
    pub freq_y: F32,
    pub freq_z: F32,
    pub lacunarity: F32,
    pub gain: F32,
    pub octaves: u8,
}

impl FbmSettings {
    /// The box the noise is taken over.
    pub fn get_dimensions(&self) -> (r: NoiseDimensions)
        ensures
            r == self.dim,
    {
        self.dim
    }

    /// What [`FbmSettings::default`] returns.
    pub open spec fn spec_default(dim: NoiseDimensions) -> FbmSettings {
        FbmSettings {
            dim,
            freq_x: F32::from_bits(DEFAULT_FREQUENCY),
            freq_y: F32::from_bits(DEFAULT_FREQUENCY),
            freq_z: F32::from_bits(DEFAULT_FREQUENCY),
            lacunarity: F32::from_bits(DEFAULT_LACUNARITY),
            gain: F32::from_bits(DEFAULT_GAIN),
            octaves: DEFAULT_OCTAVES,
        }
    }

    /// Fractal noise over `dim` with the settings a caller starts
    /// from: the frequency 0.02 on every axis,
    /// the lacunarity 0.5, the gain 2.0 and 3 octaves.
    #[verifier::when_used_as_spec(spec_default)]
    pub fn default(dim: NoiseDimensions) -> (r: FbmSettings)
        ensures
            r == FbmSettings::spec_default(dim),
    {
        FbmSettings {
            dim,
            freq_x: F32::from_bits(DEFAULT_FREQUENCY),
            freq_y: F32::from_bits(DEFAULT_FREQUENCY),
            freq_z: F32::from_bits(DEFAULT_FREQUENCY),
            lacunarity: F32::from_bits(DEFAULT_LACUNARITY),
            gain: F32::from_bits(DEFAULT_GAIN),
            octaves: DEFAULT_OCTAVES,
        }
    }

    /// Sets the seed.
    pub fn with_seed(&mut self, seed: i32) -> (r: &mut FbmSettings)
        ensures
            *r == (FbmSettings { dim: NoiseDimensions { seed, ..old(self).dim }, ..*old(self) }),
            *final(self) == *final(r),
    {
        self.dim.seed = seed;
        self
    }

    /// Sets the frequency of every axis.
    pub fn with_freq(&mut self, freq: F32) -> (r: &mut FbmSettings)
        ensures
            *r == (FbmSettings { freq_x: freq, freq_y: freq, freq_z: freq, ..*old(self) }),
            *final(self) == *final(r),
    {
        self.freq_x = freq;
        self.freq_y = freq;
        self.freq_z = freq;
        self
    }

    /// Sets the frequencies of the x and the y axis.
    pub fn with_freq_2d(&mut self, freq_x: F32, freq_y: F32) -> (r: &mut FbmSettings)
        ensures
            *r == (FbmSettings { freq_x, freq_y, ..*old(self) }),
            *final(self) == *final(r),
    {
        self.freq_x = freq_x;
        self.freq_y = freq_y;
        self
    }

    /// Sets the frequency of each axis.
    pub fn with_freq_3d(&mut self, freq_x: F32, freq_y: F32, freq_z: F32) -> (r: &mut FbmSettings)
        ensures
            *r == (FbmSettings { freq_x, freq_y, freq_z, ..*old(self) }),
            *final(self) == *final(r),
    {
        self.freq_x = freq_x;
        self.freq_y = freq_y;
        self.freq_z = freq_z;
        self
    }

    /// Sets the lacunarity: the factor from the frequency of one octave to
    /// that of the next.
    pub fn with_lacunarity(&mut self, lacunarity: F32) -> (r: &mut FbmSettings)
        ensures
            *r == (FbmSettings { lacunarity, ..*old(self) }),
            *final(self) == *final(r),
    {
        self.lacunarity = lacunarity;
        self
    }

    /// Sets the gain: the factor from the amplitude of one octave to that of
    /// the next.
    pub fn with_gain(&mut self, gain: F32) -> (r: &mut FbmSettings)
        ensures
            *r == (FbmSettings { gain, ..*old(self) }),
            *final(self) == *final(r),
    {
        self.gain = gain;
        self
    }

    /// Sets the number of octaves.
    pub fn with_octaves(&mut self, octaves: u8) -> (r: &mut FbmSettings)
        ensures
            *r == (FbmSettings { octaves, ..*old(self) }),
            *final(self) == *final(r),
    {
        self.octaves = octaves;
        self
    }

    /// The frequency of the x axis.
    pub fn get_freq_x(&self) -> (r: F32)
        ensures
            r == self.freq_x,
    {
        self.freq_x
    }

    /// The frequency of the y axis.
    pub fn get_freq_y(&self) -> (r: F32)
        ensures
            r == self.freq_y,
    {
        self.freq_y
    }

    /// The frequency of the z axis.
    pub fn get_freq_z(&self) -> (r: F32)
        ensures
            r == self.freq_z,
    {
        self.freq_z
    }

    /// The settings as one of the kinds of noise.
    pub fn wrap(self) -> (r: NoiseType)
        ensures
            r == NoiseType::Fbm(self),
    {
        NoiseType::Fbm(self)
    }

    /// Whether a block can be generated from the settings: the number of
    /// dimensions must be 1, 2 or 3.
    pub fn validate(&self) -> (r: Result<(), NoiseError>)
        ensures
            self.dim.wf() ==> r == Ok::<(), NoiseError>(()),
            !self.dim.wf() ==> r == Err::<(), NoiseError>(NoiseError::InvalidDimension),
    {
        if 1 <= self.dim.dim && self.dim.dim <= 3 {
            Ok(())
        } else {
            Err(NoiseError::InvalidDimension)
        }
    }

    /// The block of noise the settings describe, with the smallest and the
    /// largest sample in it.
    ///
    /// Fails, before anything is sampled, where the number of dimensions is
    /// not 1, 2 or 3.
    pub fn generate(self) -> (r: Result<(Vec<F32>, F32, F32), NoiseError>)
        ensures
            !self.dim.wf() ==> r == Err::<(Vec<F32>, F32, F32), NoiseError>(
                NoiseError::InvalidDimension,
            ),
            self.dim.wf() ==> r is Ok && ({
                let (noise, min, max) = r->Ok_0;
                &&& noise@ == NoiseType::Fbm(self).samples()
                &&& noise@.len() == NoiseType::Fbm(self).count()
                &&& is_lower_extreme(min, noise@)
                &&& is_upper_extreme(max, noise@)
            }),
    {
        let d = self.dim.dim;
        proof {
            NoiseType::Fbm(self).lemma_samples_len();
        }
        if d == 1 {
            Ok(get_1d_noise(&NoiseType::Fbm(self)))
        } else if d == 2 {
            Ok(get_2d_noise(&NoiseType::Fbm(self)))
        } else if d == 3 {
            Ok(get_3d_noise(&NoiseType::Fbm(self)))
        } else {
            Err(NoiseError::InvalidDimension)
        }
    }

    /// The block of noise the settings describe, brought into the range from
    /// `min` to `max`: the raw block is generated, and each sample is scaled
    /// with the extremes found in it.
    ///
    /// Fails, before anything is sampled, where the number of dimensions is
    /// not 1, 2 or 3.
    pub fn generate_scaled(self, min: F32, max: F32) -> (r: Result<Vec<F32>, NoiseError>)
        ensures
            !self.dim.wf() ==> r == Err::<Vec<F32>, NoiseError>(NoiseError::InvalidDimension),
            self.dim.wf() ==> r is Ok && is_scaled(
                r->Ok_0@,
                NoiseType::Fbm(self).samples(),
                min,
                max,
            ),
            self.dim.wf() ==> r->Ok_0@.len() == NoiseType::Fbm(self).count(),
    {
        let d = self.dim.dim;
        let mut new_self = self;
        new_self.dim.min = min;
        new_self.dim.max = max;
        let noise_type = NoiseType::Fbm(new_self);
        proof {
            noise_type.lemma_samples_ignore_range(NoiseType::Fbm(self));
            NoiseType::Fbm(self).lemma_samples_len();
        }
        if d == 1 {
            Ok(get_1d_scaled_noise(&noise_type))
        } else if d == 2 {
            Ok(get_2d_scaled_noise(&noise_type))
        } else if d == 3 {
            Ok(get_3d_scaled_noise(&noise_type))
        } else {
            Err(NoiseError::InvalidDimension)
        }
    }
}

impl Sample32 for FbmSettings {
    open spec fn dimensions(&self) -> NoiseDimensions {
        self.dim
    }

    open spec fn freq_x(&self) -> F32 {
        self.freq_x
    }

    open spec fn freq_y(&self) -> F32 {
        self.freq_y
    }

    open spec fn freq_z(&self) -> F32 {
        self.freq_z
    }

    open spec fn noise_1d(&self, x: F32) -> F32 {
        spec_fbm_1d(x, self.lacunarity, self.gain, self.octaves, self.dim.seed)
    }

    open spec fn noise_2d(&self, x: F32, y: F32) -> F32 {
        spec_fbm_2d(x, y, self.lacunarity, self.gain, self.octaves, self.dim.seed)
    }

    open spec fn noise_3d(&self, x: F32, y: F32, z: F32) -> F32 {
        spec_fbm_3d(x, y, z, self.lacunarity, self.gain, self.octaves, self.dim.seed)
    }

    fn get_dimensions(&self) -> (r: NoiseDimensions) {
        self.dim
    }

    fn get_freq_x(&self) -> (r: F32) {
        self.freq_x
    }

    fn get_freq_y(&self) -> (r: F32) {
        self.freq_y
    }

    fn get_freq_z(&self) -> (r: F32) {
        self.freq_z
    }

    fn sample_1d<const W: usize>(&self, x: Vf32<W>) -> (r: Vf32<W>) {
        fbm_1d::<W>(
            x,
            Vf32::set1(self.lacunarity),
            Vf32::set1(self.gain),
            self.octaves,
            self.dim.seed,
        )
    }

    fn sample_2d<const W: usize>(&self, x: Vf32<W>, y: Vf32<W>) -> (r: Vf32<W>) {
        fbm_2d::<W>(
            x,
            y,
            Vf32::set1(self.lacunarity),
            Vf32::set1(self.gain),
            self.octaves,
            self.dim.seed,
        )
    }

    fn sample_3d<const W: usize>(&self, x: Vf32<W>, y: Vf32<W>, z: Vf32<W>) -> (r: Vf32<W>) {
        fbm_3d::<W>(
            x,
            y,
            z,
            Vf32::set1(self.lacunarity),
            Vf32::set1(self.gain),
            self.octaves,
            self.dim.seed,
        )
    }
}

impl Sample64 for FbmSettings {
    open spec fn dimensions(&self) -> NoiseDimensions {
        self.dim
    }

    open spec fn freq_x(&self) -> F64 {
        F64::from_f32(self.freq_x)
    }

    open spec fn freq_y(&self) -> F64 {
        F64::from_f32(self.freq_y)
    }

    open spec fn freq_z(&self) -> F64 {
        F64::from_f32(self.freq_z)
    }

    open spec fn noise_1d(&self, x: F64) -> F64 {
        fbm_64::spec_fbm_1d(
            x,
            F64::from_f32(self.lacunarity),
            F64::from_f32(self.gain),
            self.octaves,
            self.dim.seed as i64,
        )
    }

    open spec fn noise_2d(&self, x: F64, y: F64) -> F64 {
        fbm_64::spec_fbm_2d(
            x,
            y,
            F64::from_f32(self.lacunarity),
            F64::from_f32(self.gain),
            self.octaves,
            self.dim.seed as i64,
        )
    }

    open spec fn has_3d(&self) -> bool {
        false
    }

    open spec fn noise_3d(&self, x: F64, y: F64, z: F64) -> F64 {
        F64::from_bits(0)
    }

    fn get_dimensions(&self) -> (r: NoiseDimensions) {
        self.dim
    }

    fn get_freq_x(&self) -> (r: F64) {
        F64::from_f32(self.freq_x)
    }

    fn get_freq_y(&self) -> (r: F64) {
        F64::from_f32(self.freq_y)
    }

    fn get_freq_z(&self) -> (r: F64) {
        F64::from_f32(self.freq_z)
    }

    fn sample_1d<const W: usize>(&self, x: Vf64<W>) -> (r: Vf64<W>) {
        fbm_64::fbm_1d::<W>(
            x,
            Vf64::set1(F64::from_f32(self.lacunarity)),
            Vf64::set1(F64::from_f32(self.gain)),
            self.octaves,
            self.dim.seed as i64,
        )
    }

    fn sample_2d<const W: usize>(&self, x: Vf64<W>, y: Vf64<W>) -> (r: Vf64<W>) {
        fbm_64::fbm_2d::<W>(
            x,
            y,
            Vf64::set1(F64::from_f32(self.lacunarity)),
            Vf64::set1(F64::from_f32(self.gain)),
            self.octaves,
            self.dim.seed as i64,
        )
    }

    fn supports_3d(&self) -> (r: bool) {
        false
    }

    fn sample_3d<const W: usize>(&self, x: Vf64<W>, y: Vf64<W>, z: Vf64<W>) -> (r: Result<
        Vf64<W>,
        NoiseError,
    >) {
        fbm_64::fbm_3d::<W>(
            x,
            y,
            z,
            Vf64::set1(F64::from_f32(self.lacunarity)),
            Vf64::set1(F64::from_f32(self.gain)),
            self.octaves,
            self.dim.seed as i64,
        )
    }
}

} // verus!

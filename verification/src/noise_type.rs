//! The kinds of noise.
use crate::binary32::F32;
use crate::binary64::F64;
use crate::noise_dimensions::NoiseDimensions;
use crate::noise_helpers_32::{
    block_1d, block_2d, block_3d, lemma_planes_len, lemma_rows_len, lemma_same_blocks,
};
use crate::noise_helpers_64;
use crate::settings::fbm_settings::FbmSettings;
use crate::settings::gradient_settings::GradientSettings;
use vstd::prelude::*;

verus! {

/// What kind of noise to generate, with its settings.
#[derive(Copy, Clone, Debug)]
pub enum NoiseType {
    Fbm(FbmSettings),
    Gradient(GradientSettings),
}

impl NoiseType {
    /// The box that [`NoiseType::get_dimensions`] returns.
    pub open spec fn dimensions(self) -> NoiseDimensions {
        match self {
            NoiseType::Fbm(s) => s.dim,
            NoiseType::Gradient(s) => s.dim,
        }
    }

    /// The box the noise is taken over.
    pub fn get_dimensions(&self) -> (r: NoiseDimensions)
        ensures
            r == self.dimensions(),
    {
        match self {
            NoiseType::Fbm(s) => s.get_dimensions(),
            NoiseType::Gradient(s) => s.get_dimensions(),
        }
    }

    /// The samples of the block taken as a single row.
    pub open spec fn samples_1d(self) -> Seq<F32> {
        match self {
            NoiseType::Fbm(s) => block_1d(s),
            NoiseType::Gradient(s) => block_1d(s),
        }
    }

    /// The samples of the block taken as rows of a plane.
    pub open spec fn samples_2d(self) -> Seq<F32> {
        match self {
            NoiseType::Fbm(s) => block_2d(s),
            NoiseType::Gradient(s) => block_2d(s),
        }
    }

    /// The samples of the block taken as planes of space.
    pub open spec fn samples_3d(self) -> Seq<F32> {
        match self {
            NoiseType::Fbm(s) => block_3d(s),
            NoiseType::Gradient(s) => block_3d(s),
        }
    }

    /// The samples of the block at binary64 precision, taken as a single
    /// row.
    pub open spec fn samples_1d_64(self) -> Seq<F64> {
        match self {
            NoiseType::Fbm(s) => noise_helpers_64::block_1d(s),
            NoiseType::Gradient(s) => noise_helpers_64::block_1d(s),
        }
    }

    /// The samples of the block at binary64 precision, taken as rows of a
    /// plane.
    pub open spec fn samples_2d_64(self) -> Seq<F64> {
        match self {
            NoiseType::Fbm(s) => noise_helpers_64::block_2d(s),
            NoiseType::Gradient(s) => noise_helpers_64::block_2d(s),
        }
    }

    /// The samples of the block, in as many dimensions as its box has: row
    /// after row, x running fastest, and plane after plane.
    pub open spec fn samples(self) -> Seq<F32> {
        let d = self.dimensions().dim;
        if d == 1 {
            self.samples_1d()
        } else if d == 2 {
            self.samples_2d()
        } else {
            self.samples_3d()
        }
    }

    /// How many samples the block has: the width for one dimension, the
    /// width times the height for two, and that times the depth for three.
    pub open spec fn count(self) -> nat {
        let dim = self.dimensions();
        if dim.dim == 1 {
            dim.width as nat
        } else if dim.dim == 2 {
            (dim.height * dim.width) as nat
        } else {
            (dim.depth * (dim.height * dim.width)) as nat
        }
    }

    /// A block has as many samples as its box has lattice points.
    pub proof fn lemma_samples_len(self)
        ensures
            self.samples_1d().len() == self.dimensions().width,
            self.samples_2d().len() == self.dimensions().height * self.dimensions().width,
            self.samples_3d().len() == self.dimensions().depth * (self.dimensions().height
                * self.dimensions().width),
            self.samples().len() == self.count(),
    {
        let dim = self.dimensions();
        match self {
            NoiseType::Fbm(s) => {
                lemma_rows_len(s, 2, dim.z, dim.height as nat);
                lemma_planes_len(s, dim.depth as nat);
            },
            NoiseType::Gradient(s) => {
                lemma_rows_len(s, 2, dim.z, dim.height as nat);
                lemma_planes_len(s, dim.depth as nat);
            },
        }
    }

    /// Whether `other` asks for the same noise over the same box, whatever
    /// range it wants the block scaled to.
    pub open spec fn same_but_range(self, other: NoiseType) -> bool {
        match (self, other) {
            (NoiseType::Fbm(a), NoiseType::Fbm(b)) => a == (FbmSettings {
                dim: NoiseDimensions { min: a.dim.min, max: a.dim.max, ..b.dim },
                ..b
            }),
            (NoiseType::Gradient(a), NoiseType::Gradient(b)) => a == (GradientSettings {
                dim: NoiseDimensions { min: a.dim.min, max: a.dim.max, ..b.dim },
                ..b
            }),
            _ => false,
        }
    }

    /// The raw samples do not depend on the range the block is to be scaled
    /// to.
    pub proof fn lemma_samples_ignore_range(self, other: NoiseType)
        requires
            self.same_but_range(other),
        ensures
            self.samples_1d() == other.samples_1d(),
            self.samples_2d() == other.samples_2d(),
            self.samples_3d() == other.samples_3d(),
            self.samples() == other.samples(),
    {
        match (self, other) {
            (NoiseType::Fbm(a), NoiseType::Fbm(b)) => {
                lemma_same_blocks(a, b);
            },
            (NoiseType::Gradient(a), NoiseType::Gradient(b)) => {
                lemma_same_blocks(a, b);
            },
            _ => {},
        }
    }
}

} // verus!

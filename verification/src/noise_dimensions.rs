//! The box of lattice points that a block of noise covers.
use crate::binary32::{F32, ONE, ZERO};
use vstd::prelude::*;

verus! {

/// Origin, extents, target range and seed of one block of noise.
#[derive(Copy, Clone, Debug)]
pub struct NoiseDimensions {
    /// Number of dimensions: 1, 2 or 3.
    pub dim: usize,
    /// Coordinate of the first column.
    pub x: F32,
    /// Coordinate of the first row.
    pub y: F32,
    /// Coordinate of the first plane.
    pub z: F32,
    /// Samples along x.
    pub width: usize,
    /// Samples along y.
    pub height: usize,
    /// Samples along z.
    pub depth: usize,
    /// Where the smallest sample lands when the block is scaled.
    pub min: F32,
    /// Where the largest sample lands when the block is scaled.
    pub max: F32,
    /// Seed mixed into every lattice hash.
    pub seed: i32,
}

impl NoiseDimensions {
    /// Whether the number of dimensions is one the library knows.
    pub open spec fn wf(self) -> bool {
        1 <= self.dim <= 3
    }

    /// Samples in the block.
    pub open spec fn spec_len(self) -> nat {
        (self.width * self.height * self.depth) as nat
    }

    /// A single sample at the origin, in `d` dimensions, with the target
    /// range `[0, 1]` and the seed 1.
    pub fn default(d: usize) -> (r: NoiseDimensions)
        requires
            1 <= d <= 3,
        ensures
            r.wf(),
            r == (NoiseDimensions {
                dim: d,
                x: F32::from_bits(ZERO),
                y: F32::from_bits(ZERO),
                z: F32::from_bits(ZERO),
                width: 1,
                height: 1,
                depth: 1,
                min: F32::from_bits(ZERO),
                max: F32::from_bits(ONE),
                seed: 1,
            }),
    {
        NoiseDimensions {
            dim: d,
            x: F32::from_bits(ZERO),
            y: F32::from_bits(ZERO),
            z: F32::from_bits(ZERO),
            width: 1,
            height: 1,
            depth: 1,
            min: F32::from_bits(ZERO),
            max: F32::from_bits(ONE),
            seed: 1,
        }
    }

    /// Samples in the block: width times height times depth.
    pub fn len(self) -> (r: usize)
        requires
            self.spec_len() <= usize::MAX,
        ensures
            r == self.spec_len(),
    {
        proof {
            lemma_product_bounds(self.width as nat, self.height as nat, self.depth as nat);
        }
        if self.width == 0 || self.height == 0 || self.depth == 0 {
            0
        } else {
            self.width * self.height * self.depth
        }
    }
}

/// A product of three naturals is at least the product of the first two
/// when the third is positive, and zero when a factor is zero.
pub proof fn lemma_product_bounds(w: nat, h: nat, d: nat)
    ensures
        d >= 1 ==> w * h <= w * h * d,
        d == 0 ==> w * h * d == 0,
        w == 0 || h == 0 ==> w * h * d == 0,
{
    assert(d >= 1 ==> w * h <= w * h * d) by (nonlinear_arith);
    assert(d == 0 ==> w * h * d == 0) by (nonlinear_arith);
    assert(w == 0 || h == 0 ==> w * h * d == 0) by (nonlinear_arith);
}

} // verus!

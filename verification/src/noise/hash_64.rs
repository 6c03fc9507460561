//! Lattice hashes at 64 bits: lattice coordinates and a seed go in, a
//! scrambled integer comes out, from which the gradient at the lattice point
//! is chosen.
use crate::binary64::F64;
use crate::error::NoiseError;
use vstd::prelude::*;

verus! {

/// Odd constant that spreads the x lattice coordinate before hashing.
pub const X_PRIME: i64 = 1619;

/// Odd constant that spreads the y lattice coordinate before hashing.
pub const Y_PRIME: i64 = 31337;

/// Odd constant that spreads the z lattice coordinate before hashing.
pub const Z_PRIME: i64 = 6791;

/// Odd constant of the scrambling step.
pub const HASH_PRIME: u64 = 0x9e37_79b9_7f4a_7c15;

/// The scrambling step: the cube of `h` times [`HASH_PRIME`], all modulo
/// 2^64, folded onto itself by a shift of 29 bits.
pub open spec fn spec_scramble(h: u64) -> u64 {
    let m = h.wrapping_mul(h).wrapping_mul(HASH_PRIME).wrapping_mul(h);
    (m >> 29) ^ m
}

/// The scrambling step of every lattice hash.
#[verifier::when_used_as_spec(spec_scramble)]
pub fn scramble(h: u64) -> (r: u64)
    ensures
        r == spec_scramble(h),
{
    let m = h.wrapping_mul(h).wrapping_mul(HASH_PRIME).wrapping_mul(h);
    (m >> 29) ^ m
}

/// What [`hash1d`] returns.
pub open spec fn spec_hash1d(seed: i64, i: i64) -> i64 {
    #[verifier::truncate] (scramble(#[verifier::truncate] ((i ^ seed) as u64)) as i64)
}

/// Hash of the lattice point `i` of a line.
#[verifier::when_used_as_spec(spec_hash1d)]
pub fn hash1d(seed: i64, i: i64) -> (r: i64)
    ensures
        r == spec_hash1d(seed, i),
{
    #[verifier::truncate] (scramble(#[verifier::truncate] ((i ^ seed) as u64)) as i64)
}

/// What [`hash2d`] returns.
pub open spec fn spec_hash2d(seed: i64, i: i64, j: i64) -> i64 {
    #[verifier::truncate] (scramble(#[verifier::truncate] ((j ^ (i ^ seed)) as u64)) as i64)
}

/// Hash of the lattice point `(i, j)` of a plane.
#[verifier::when_used_as_spec(spec_hash2d)]
pub fn hash2d(seed: i64, i: i64, j: i64) -> (r: i64)
    ensures
        r == spec_hash2d(seed, i, j),
{
    #[verifier::truncate] (scramble(#[verifier::truncate] ((j ^ (i ^ seed)) as u64)) as i64)
}

/// What the hash of a lattice point of space would say about its gradient:
/// which two axes it lies along, and with which signs.
#[derive(Clone, Copy, Debug)]
pub struct Hash3d {
    /// Mask: the first component lies along x (else along y).
    pub l8: F64,
    /// Mask: the second component lies along y.
    pub l4: F64,
    /// Mask: the second component lies along x, where not along y (else
    /// along z).
    pub h12_or_14: F64,
    /// Sign bit of the first component.
    pub h1: F64,
    /// Sign bit of the second component.
    pub h2: F64,
}

impl Hash3d {
    pub fn new(l8: F64, l4: F64, h12_or_14: F64, h1: F64, h2: F64) -> (r: Self)
        ensures
            r == (Hash3d { l8, l4, h12_or_14, h1, h2 }),
    {
        Hash3d { l8, l4, h12_or_14, h1, h2 }
    }
}

/// What [`hash3d`] returns.
pub open spec fn spec_hash3d(seed: i64, i: i64, j: i64, k: i64) -> Result<Hash3d, NoiseError> {
    Err(NoiseError::NotImplemented)
}

/// Hash of the lattice point `(i, j, k)` of space.
///
/// The masks and signs that a 64-bit hash would be taken apart into have
/// not been worked out, and the constants of the 32-bit hash do not carry
/// over. Rather than gradients that look right and are not, every lattice
/// point of space gets [`NoiseError::NotImplemented`] at this precision.
#[allow(unused_variables)]
#[verifier::when_used_as_spec(spec_hash3d)]
pub fn hash3d(seed: i64, i: i64, j: i64, k: i64) -> (r: Result<Hash3d, NoiseError>)
    ensures
        r == spec_hash3d(seed, i, j, k),
{
    Err(NoiseError::NotImplemented)
}

} // verus!

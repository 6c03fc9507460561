//! Lattice hashes at 32 bits: lattice coordinates and a seed go in, a
//! scrambled integer comes out, from which the gradient at the lattice point
//! is chosen.
use crate::binary32::F32;
use vstd::prelude::*;

verus! {

/// Odd constant that spreads the x lattice coordinate before hashing.
pub const X_PRIME: i32 = 1619;

/// Odd constant that spreads the y lattice coordinate before hashing.
pub const Y_PRIME: i32 = 31337;

/// Odd constant that spreads the z lattice coordinate before hashing.
pub const Z_PRIME: i32 = 6791;

/// Odd constant of the scrambling step.
pub const HASH_PRIME: u32 = 60493;

/// The scrambling step: the cube of `h` times [`HASH_PRIME`], all modulo
/// 2^32, folded onto itself by a shift of 13 bits.
pub open spec fn spec_scramble(h: u32) -> u32 {
    let m = h.wrapping_mul(h).wrapping_mul(HASH_PRIME).wrapping_mul(h);
    (m >> 13) ^ m
}

/// The scrambling step of every lattice hash.
#[verifier::when_used_as_spec(spec_scramble)]
pub fn scramble(h: u32) -> (r: u32)
    ensures
        r == spec_scramble(h),
{
    let m = h.wrapping_mul(h).wrapping_mul(HASH_PRIME).wrapping_mul(h);
    (m >> 13) ^ m
}

/// What [`hash1d`] returns.
pub open spec fn spec_hash1d(seed: i32, i: i32) -> i32 {
    #[verifier::truncate] (scramble(#[verifier::truncate] ((i ^ seed) as u32)) as i32)
}

/// Hash of the lattice point `i` of a line.
#[verifier::when_used_as_spec(spec_hash1d)]
pub fn hash1d(seed: i32, i: i32) -> (r: i32)
    ensures
        r == spec_hash1d(seed, i),
{
    #[verifier::truncate] (scramble(#[verifier::truncate] ((i ^ seed) as u32)) as i32)
}

/// What [`hash2d`] returns.
pub open spec fn spec_hash2d(seed: i32, i: i32, j: i32) -> i32 {
    #[verifier::truncate] (scramble(#[verifier::truncate] ((j ^ (i ^ seed)) as u32)) as i32)
}

/// Hash of the lattice point `(i, j)` of a plane.
#[verifier::when_used_as_spec(spec_hash2d)]
pub fn hash2d(seed: i32, i: i32, j: i32) -> (r: i32)
    ensures
        r == spec_hash2d(seed, i, j),
{
    #[verifier::truncate] (scramble(#[verifier::truncate] ((j ^ (i ^ seed)) as u32)) as i32)
}

/// What the hash of a lattice point of space says about its gradient: which
/// two axes it lies along, and with which signs.
#[derive(Clone, Copy, Debug)]
pub struct Hash3d {
    /// Mask: the first component lies along x (else along y).
    pub l8: F32,
    /// Mask: the second component lies along y.
    pub l4: F32,
    /// Mask: the second component lies along x, where not along y (else
    /// along z).
    pub h12_or_14: F32,
    /// Sign bit of the first component.
    pub h1: F32,
    /// Sign bit of the second component.
    pub h2: F32,
}

impl Hash3d {
    pub fn new(l8: F32, l4: F32, h12_or_14: F32, h1: F32, h2: F32) -> (r: Self)
        ensures
            r == (Hash3d { l8, l4, h12_or_14, h1, h2 }),
    {
        Hash3d { l8, l4, h12_or_14, h1, h2 }
    }
}

/// What [`hash3d`] returns.
pub open spec fn spec_hash3d(seed: i32, i: i32, j: i32, k: i32) -> Hash3d {
    let hash = scramble(#[verifier::truncate] ((k ^ (j ^ (i ^ seed))) as u32));
    let hasha13 = hash & 13;
    Hash3d {
        l8: F32::mask(hasha13 < 8),
        l4: F32::mask(hasha13 < 2),
        h12_or_14: F32::mask(hasha13 == 12),
        h1: F32::from_bits(hash << 31),
        h2: F32::from_bits((hash & 2) << 30),
    }
}

/// Hash of the lattice point `(i, j, k)` of space, taken apart into the
/// masks and signs that [`grad3d`](crate::noise::gradient_32::grad3d) and
/// [`grad3d_dot`](crate::noise::gradient_32::grad3d_dot) select with.
#[verifier::when_used_as_spec(spec_hash3d)]
pub fn hash3d(seed: i32, i: i32, j: i32, k: i32) -> (r: Hash3d)
    ensures
        r == spec_hash3d(seed, i, j, k),
{
    let hash = scramble(#[verifier::truncate] ((k ^ (j ^ (i ^ seed))) as u32));
    let hasha13 = hash & 13;
    Hash3d::new(
        F32::mask(hasha13 < 8),
        F32::mask(hasha13 < 2),
        F32::mask(hasha13 == 12),
        F32::from_bits(hash << 31),
        F32::from_bits((hash & 2) << 30),
    )
}

} // verus!

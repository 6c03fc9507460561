//! The ways a request for noise can fail.
use vstd::prelude::*;

verus! {

/// Why no noise was produced.
#[derive(Clone, Copy, PartialEq, Eq, Structural, Debug)]
pub enum NoiseError {
    /// The number of dimensions is not 1, 2 or 3.
    InvalidDimension,
    /// The lattice hash for this precision and dimension does not exist.
    NotImplemented,
}

} // verus!

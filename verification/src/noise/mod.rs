//! The noise kernels: lattice hashes, gradients, and the noise built on them.
pub mod fbm_32;
pub mod fbm_64;
pub mod gradient_32;
pub mod gradient_64;
pub mod hash_32;
pub mod hash_64;
pub mod perlin_32;
pub mod perlin_64;
pub mod ridge_64;
pub mod simplex_32;
pub mod simplex_64;

//! The library as each vector engine offers it.
pub mod avx2;
pub mod scalar;

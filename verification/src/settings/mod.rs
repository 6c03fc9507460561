//! What can be set for each kind of noise.
pub mod fbm_settings;
pub mod gradient_settings;

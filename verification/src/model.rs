//! Models.

pub mod params;

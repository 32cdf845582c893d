//! Compact grid directions: the eight compass steps of a plane, no step at
//! all, and each of those moving one layer up or down, with lossless
//! conversions to and from integer offsets and glam's integer vectors.
pub mod directions;
pub mod laws;
pub mod vectors;

pub use directions::Direction;
pub use directions::InvalidOffset;

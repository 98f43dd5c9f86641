//! A minimal dense two-dimensional container with row-major storage,
//! coordinate element access, shape query, and iteration helpers.

pub mod array2d;

pub use crate::array2d::Array2D;

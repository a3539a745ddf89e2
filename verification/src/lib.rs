//! A fixed-size 4x4 matrix of IEEE binary32 cells with two interchangeable
//! multiplication strategies: a straightforward scalar reference form and a
//! form that follows the wide-lane (two 8-wide lane groups) schedule, the
//! two connected by lossless conversion and compared by tolerance-based
//! equality relations.
//!
//! Cells are carried as `u32` bit patterns of binary32 values, so that every
//! statement about a matrix is a statement about exact bit patterns; the
//! rounded arithmetic itself is obtained from an outside software
//! implementation of the standard and named, not restated.

pub mod approx_eq;
pub mod capability;
pub mod float_bits;
pub mod matrix_simd;
pub mod matrix_sisd;

//! A small library of integer vectors and matrices for graphics and games.
//!
//! It provides vectors of two, three and four components, square matrices
//! of three and four rows, angles, and the numeric utilities they share:
//! clamping, linear interpolation, minimum and maximum. Every type is
//! generic over its scalar, an integer type implementing [`scalar::Scalar`].
pub mod angle;
pub mod matrix;
pub mod scalar;
pub mod util;
pub mod vector;

//! Addressing, storage and layout of 4×4 homogeneous matrices.

pub mod cell;
pub mod matrix;
pub mod vector;

pub use cell::Cell;
pub use matrix::AffineMatrix;
pub use vector::{AffineVector, Vector};

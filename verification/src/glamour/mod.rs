//! Linear algebra over a generic scalar type.

pub mod scalar;
pub mod mat;
pub mod ops;
pub mod elementwise;
pub mod matmul;
pub mod vector;
pub mod products;
pub mod convert;
pub mod shapes;
pub mod dim;
pub mod quat;
pub mod quat_convert;
pub mod affine;
pub mod ortho;
pub mod persp;
pub mod norm;
pub mod point;
pub mod motion;
pub mod rotation;
pub mod orientation;
pub mod text;
pub mod approx_eq;

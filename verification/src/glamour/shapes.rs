//! Constructors of the square matrix shapes.

use vstd::prelude::*;
use super::mat::{Mat, Mat2, Mat3, Mat4};

verus! {

impl<R> Mat2<R> {
    /// A 2x2 matrix from its cells, row by row.
    pub fn new(m00: R, m01: R, m10: R, m11: R) -> (r: Self)
        ensures
            r.at(0, 0) == m00,
            r.at(0, 1) == m01,
            r.at(1, 0) == m10,
            r.at(1, 1) == m11,
    {
        Mat([[m00, m01], [m10, m11]])
    }
}

impl<R> Mat3<R> {
    /// A 3x3 matrix from its rows.
    pub fn new(v: [[R; 3]; 3]) -> (r: Self)
        ensures
            r.0 == v,
    {
        Mat(v)
    }
}

impl<R> Mat4<R> {
    /// A 4x4 matrix from its rows.
    pub fn new(v: [[R; 4]; 4]) -> (r: Self)
        ensures
            r.0 == v,
    {
        Mat(v)
    }
}

} // verus!

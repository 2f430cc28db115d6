//! Approximate equality of matrices: two matrices are approximately equal when each cell of
//! one is approximately equal to the same cell of the other, as `approx` decides for scalars.

use vstd::prelude::*;
use super::mat::Mat;
use super::scalar::scalar_relative_eq;

verus! {

/// Calls `approx::AbsDiffEq::abs_diff_eq` with the default tolerance of the scalar type, as the
/// `approx::abs_diff_eq!` macro does: whether `a` and `b` differ by at most that tolerance.
/// Nothing is stated of the answer, which depends on the scalar type's implementation.
#[verifier::external_body]
pub fn scalar_abs_diff_eq<R: approx::AbsDiffEq>(a: R, b: R) -> bool {
    a.abs_diff_eq(&b, R::default_epsilon())
}

/// Calls `approx::UlpsEq::ulps_eq` with the default tolerances of the scalar type, as the
/// `approx::ulps_eq!` macro does: whether `a` and `b` are equal up to those tolerances.
/// Nothing is stated of the answer, which depends on the scalar type's implementation.
#[verifier::external_body]
pub fn scalar_ulps_eq<R: approx::UlpsEq>(a: R, b: R) -> bool {
    a.ulps_eq(&b, R::default_epsilon(), R::default_max_ulps())
}

/// `r` is an answer of comparing `m` and `o` cell by cell, where `answers(x, y, t)` tells
/// whether comparing the cells `x` and `y` may answer `t`: `true` only where every cell may be
/// accepted, `false` only where some cell may be refused.
pub open spec fn all_cells_answer<R, const I: usize, const J: usize>(m: Mat<R, I, J>, o: Mat<R, I, J>, answers: spec_fn(R, R, bool) -> bool, r: bool) -> bool {
    &&& r ==> forall|a: int, b: int| 0 <= a < I && 0 <= b < J ==> answers(#[trigger] m.at(a, b), o.at(a, b), true)
    &&& !r ==> exists|a: int, b: int| 0 <= a < I && 0 <= b < J && answers(#[trigger] m.at(a, b), o.at(a, b), false)
}

impl<R: Copy, const I: usize, const J: usize> Mat<R, I, J> {
    /// Compares the matrices cell by cell with `f`, in row-major order, until `f` refuses a cell.
    fn all_cells<F: Fn(R, R) -> bool>(&self, other: &Self, f: &F) -> (r: bool)
        requires
            forall|a: R, b: R| #[trigger] f.requires((a, b)),
        ensures
            all_cells_answer(*self, *other, |x: R, y: R, t: bool| call_ensures(*f, (x, y), t), r),
    {
        let mut i: usize = 0;
        while i < I
            invariant
                i <= I,
                forall|a: R, b: R| #[trigger] f.requires((a, b)),
                forall|a: int, b: int| 0 <= a < i && 0 <= b < J ==> call_ensures(*f, (#[trigger] self.at(a, b), other.at(a, b)), true),
            decreases I - i,
        {
            let mut j: usize = 0;
            while j < J
                invariant
                    i < I,
                    j <= J,
                    forall|a: R, b: R| #[trigger] f.requires((a, b)),
                    forall|a: int, b: int| 0 <= a < i && 0 <= b < J ==> call_ensures(*f, (#[trigger] self.at(a, b), other.at(a, b)), true),
                    forall|b: int| 0 <= b < j ==> call_ensures(*f, (#[trigger] self.at(i as int, b), other.at(i as int, b)), true),
                decreases J - j,
            {
                if !f(self.0[i][j], other.0[i][j]) {
                    assert(call_ensures(*f, (self.at(i as int, j as int), other.at(i as int, j as int)), false));
                    return false;
                }
                j = j + 1;
            }
            i = i + 1;
        }
        true
    }
}

impl<R: Copy + approx::AbsDiffEq, const I: usize, const J: usize> Mat<R, I, J> {
    /// Whether every cell differs from the same cell of `other` by at most the scalar type's
    /// default tolerance, as `scalar_abs_diff_eq` decides.
    pub fn abs_diff_eq(&self, other: &Self) -> (r: bool)
        ensures
            all_cells_answer(*self, *other, |x: R, y: R, t: bool| call_ensures(scalar_abs_diff_eq::<R>, (x, y), t), r),
    {
        let f = |a: R, b: R| -> (x: bool)
            ensures
                call_ensures(scalar_abs_diff_eq::<R>, (a, b), x),
        { scalar_abs_diff_eq(a, b) };
        self.all_cells(other, &f)
    }
}

impl<R: Copy + approx::RelativeEq, const I: usize, const J: usize> Mat<R, I, J> {
    /// Whether every cell equals the same cell of `other` up to the scalar type's default
    /// tolerances, as `scalar_relative_eq` decides.
    pub fn relative_eq(&self, other: &Self) -> (r: bool)
        ensures
            all_cells_answer(*self, *other, |x: R, y: R, t: bool| call_ensures(scalar_relative_eq::<R>, (x, y), t), r),
    {
        let f = |a: R, b: R| -> (x: bool)
            ensures
                call_ensures(scalar_relative_eq::<R>, (a, b), x),
        { scalar_relative_eq(a, b) };
        self.all_cells(other, &f)
    }
}

impl<R: Copy + approx::UlpsEq, const I: usize, const J: usize> Mat<R, I, J> {
    /// Whether every cell equals the same cell of `other` up to the scalar type's default
    /// tolerances, as `scalar_ulps_eq` decides.
    pub fn ulps_eq(&self, other: &Self) -> (r: bool)
        ensures
            all_cells_answer(*self, *other, |x: R, y: R, t: bool| call_ensures(scalar_ulps_eq::<R>, (x, y), t), r),
    {
        let f = |a: R, b: R| -> (x: bool)
            ensures
                call_ensures(scalar_ulps_eq::<R>, (a, b), x),
        { scalar_ulps_eq(a, b) };
        self.all_cells(other, &f)
    }
}

} // verus!

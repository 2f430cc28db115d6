//! Norms and NaN checks of matrices, and unit-length matrices and quaternions.

use vstd::prelude::*;
use std::ops::{Add, Div, Mul};
use vstd::std_specs::ops::{AddSpec, DivSpec, MulSpec};
use super::mat::Mat;
use super::quat::{sum_of_squares4, sum_of_squares4_req, Quat};
use super::scalar::{scalar_is_nan, scalar_sqrt, scalar_zero};

verus! {

/// A value scaled to unit length.
#[derive(Debug, Clone, Copy, PartialEq)]
pub struct Unit<T>(pub T);

impl<T> Unit<T> {
    /// The value of unit length.
    pub fn as_ref(&self) -> (r: &T)
        ensures
            *r == self.0,
    {
        &self.0
    }

    /// The value of unit length.
    pub fn into_inner(self) -> (r: T)
        ensures
            r == self.0,
    {
        self.0
    }
}

impl<R: Add<Output = R> + Mul<Output = R>, const I: usize, const J: usize> Mat<R, I, J> {
    /// `zero` plus the squares of the first `n` cells in row-major order, added from the first
    /// cell on.
    pub open spec fn squares_sum(&self, zero: R, n: int) -> R
        decreases n,
    {
        if n <= 0 || J == 0 {
            zero
        } else {
            let c = self.at((n - 1) / J as int, (n - 1) % J as int);
            self.squares_sum(zero, n - 1).add_spec(c.mul_spec(c))
        }
    }
}

/// Addition and multiplication of the scalars follow their specifications and never fail.
pub open spec fn add_mul_total<R: Add<Output = R> + Mul<Output = R>>() -> bool {
    &&& R::obeys_add_spec()
    &&& R::obeys_mul_spec()
    &&& forall|x: R, y: R| #[trigger] x.add_req(y)
    &&& forall|x: R, y: R| #[trigger] x.mul_req(y)
}

impl<R: Copy + Add<Output = R> + Mul<Output = R>, const I: usize, const J: usize> Mat<R, I, J> {
    /// `zero` plus the squares of all cells, in row-major order.
    pub fn sum_of_squares(&self, zero: R) -> (r: R)
        requires
            add_mul_total::<R>(),
        ensures
            r == self.squares_sum(zero, I * J),
    {
        let mut acc = zero;
        let mut i: usize = 0;
        while i < I
            invariant
                i <= I,
                add_mul_total::<R>(),
                acc == self.squares_sum(zero, i * J),
            decreases I - i,
        {
            let mut j: usize = 0;
            while j < J
                invariant
                    i < I,
                    j <= J,
                    add_mul_total::<R>(),
                    acc == self.squares_sum(zero, i * J + j),
                decreases J - j,
            {
                let c = self.0[i][j];
                proof {
                    let n = i * J + j + 1;
                    assert((n - 1) / J as int == i && (n - 1) % J as int == j) by (nonlinear_arith)
                        requires
                            n == i * J + j + 1,
                            j < J,
                    ;
                    assert(self.squares_sum(zero, n) == self.squares_sum(zero, n - 1).add_spec(c.mul_spec(c)));
                }
                let sq = c * c;
                acc = acc + sq;
                j += 1;
            }
            proof {
                assert(i * J + J == (i + 1) * J) by (nonlinear_arith);
            }
            i += 1;
        }
        acc
    }
}

impl<R: Copy + num_traits::Float + Add<Output = R> + Mul<Output = R>, const I: usize, const J: usize> Mat<R, I, J> {
    /// The Frobenius norm: the square root, as `num_traits::Float::sqrt` gives it, of the sum of
    /// the squares of all cells, starting from the scalar type's zero.
    pub fn norm(&self) -> (r: R)
        requires
            add_mul_total::<R>(),
        ensures
            exists|z: R|
                call_ensures(scalar_zero::<R>, (), z) && call_ensures(
                    scalar_sqrt::<R>,
                    (#[trigger] self.squares_sum(z, I * J),),
                    r,
                ),
    {
        let z = scalar_zero::<R>();
        let s = self.sum_of_squares(z);
        scalar_sqrt(s)
    }
}

impl<R: Copy + num_traits::Float, const I: usize, const J: usize> Mat<R, I, J> {
    /// Whether some cell is not a number, as `num_traits::Float::is_nan` decides for each cell.
    pub fn is_nan(&self) -> (r: bool)
        ensures
            r ==> exists|a: int, b: int|
                0 <= a < I && 0 <= b < J && call_ensures(scalar_is_nan::<R>, (#[trigger] self.at(a, b),), true),
            !r ==> forall|a: int, b: int|
                0 <= a < I && 0 <= b < J ==> call_ensures(scalar_is_nan::<R>, (#[trigger] self.at(a, b),), false),
    {
        let mut i: usize = 0;
        while i < I
            invariant
                i <= I,
                forall|a: int, b: int|
                    0 <= a < i && 0 <= b < J ==> call_ensures(scalar_is_nan::<R>, (#[trigger] self.at(a, b),), false),
            decreases I - i,
        {
            let mut j: usize = 0;
            while j < J
                invariant
                    i < I,
                    j <= J,
                    forall|a: int, b: int|
                        0 <= a < i && 0 <= b < J ==> call_ensures(scalar_is_nan::<R>, (#[trigger] self.at(a, b),), false),
                    forall|b: int| 0 <= b < j ==> call_ensures(scalar_is_nan::<R>, (#[trigger] self.at(i as int, b),), false),
                decreases J - j,
            {
                let c = self.0[i][j];
                if scalar_is_nan(c) {
                    assert(call_ensures(scalar_is_nan::<R>, (self.at(i as int, j as int),), true));
                    return true;
                }
                j += 1;
            }
            i += 1;
        }
        false
    }
}

impl<R: Copy + num_traits::Float + Add<Output = R> + Mul<Output = R> + Div<Output = R>, const I: usize, const J: usize> Unit<Mat<R, I, J>> {
    /// The matrix divided cell by cell by its norm.
    pub fn from_mat(v: Mat<R, I, J>) -> (r: Self)
        requires
            add_mul_total::<R>(),
            forall|x: R, y: R| #[trigger] x.div_req(y),
        ensures
            exists|n: R|
                #[trigger] call_ensures(Mat::<R, I, J>::norm, (&v,), n) && (R::obeys_div_spec() ==> forall|a: int, b: int|
                    0 <= a < I && 0 <= b < J ==> #[trigger] r.0.at(a, b) == v.at(a, b).div_spec(n)),
    {
        let n = v.norm();
        let m = v.div_scalar(&n);
        Unit(m)
    }
}

impl<R: Copy + num_traits::Float + Add<Output = R> + Mul<Output = R> + Div<Output = R>> Unit<Quat<R>> {
    /// The quaternion divided component by component by its norm.
    pub fn from_quat(v: Quat<R>) -> (r: Self)
        requires
            sum_of_squares4_req(v.w, v.i, v.j, v.k),
            forall|x: R, y: R| #[trigger] x.div_req(y),
        ensures
            exists|n: R|
                #[trigger] call_ensures(scalar_sqrt::<R>, (sum_of_squares4(v.w, v.i, v.j, v.k),), n) && (R::obeys_div_spec()
                    ==> r.0 == (Quat {
                    w: v.w.div_spec(n),
                    i: v.i.div_spec(n),
                    j: v.j.div_spec(n),
                    k: v.k.div_spec(n),
                })),
    {
        let n = v.norm();
        let r = Unit(v.div_scalar(&n));
        assert(call_ensures(scalar_sqrt::<R>, (sum_of_squares4(v.w, v.i, v.j, v.k),), n) && (R::obeys_div_spec() ==> r.0 == (Quat {
            w: v.w.div_spec(n),
            i: v.i.div_spec(n),
            j: v.j.div_spec(n),
            k: v.k.div_spec(n),
        })));
        r
    }
}

} // verus!

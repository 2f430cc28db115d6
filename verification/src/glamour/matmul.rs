//! Matrix products, inner products of column vectors and arrays, and the operator traits that
//! forward to them.

use vstd::prelude::*;
use std::ops::{Add, Mul};
use vstd::std_specs::ops::{AddSpec, MulSpec};
use super::mat::Mat;

verus! {

impl<R: Copy + Add<Output = R> + Mul<Output = R>, const I: usize, const J: usize> Mat<R, I, J> {
    /// The sum of the first `n` products of row `i` of `self` with column `k` of `rhs`, added
    /// from left to right: `s[i][0] * r[0][k] + s[i][1] * r[1][k] + ...`.
    pub open spec fn partial_dot<const K: usize>(&self, rhs: &Mat<R, J, K>, i: int, k: int, n: int) -> R
        decreases n,
    {
        if n <= 1 {
            self.at(i, 0).mul_spec(rhs.at(0, k))
        } else {
            self.partial_dot(rhs, i, k, n - 1).add_spec(self.at(i, n - 1).mul_spec(rhs.at(n - 1, k)))
        }
    }

    /// The cell in row `i` and column `k` of the matrix product of `self` and `rhs`.
    pub open spec fn product_cell<const K: usize>(&self, rhs: &Mat<R, J, K>, i: int, k: int) -> R {
        self.partial_dot(rhs, i, k, J as int)
    }

    /// Every product and every partial sum of the cell in row `i` and column `k` of the matrix
    /// product can be formed without overflow.
    pub open spec fn cell_req<const K: usize>(&self, rhs: &Mat<R, J, K>, i: int, k: int) -> bool {
        forall|m: int|
            0 <= m < J ==> {
                &&& #[trigger] self.at(i, m).mul_req(rhs.at(m, k))
                &&& m >= 1 ==> self.partial_dot(rhs, i, k, m).add_req(self.at(i, m).mul_spec(rhs.at(m, k)))
            }
    }

    /// The matrix product of `self` and `rhs` can be formed: `self` has rows and the shared
    /// dimension is not empty, addition and multiplication of the scalars follow their specifications, and no step
    /// overflows.
    pub open spec fn product_req<const K: usize>(&self, rhs: &Mat<R, J, K>) -> bool {
        &&& I > 0
        &&& J > 0
        &&& R::obeys_add_spec()
        &&& R::obeys_mul_spec()
        &&& forall|i: int, k: int| 0 <= i < I && 0 <= k < K ==> #[trigger] self.cell_req(rhs, i, k)
    }

    /// Computes one cell of the matrix product: row `i` of `self` times column `k` of `rhs`.
    pub fn product_at<const K: usize>(&self, rhs: &Mat<R, J, K>, i: usize, k: usize) -> (r: R)
        requires
            i < I,
            k < K,
            J > 0,
            R::obeys_add_spec(),
            R::obeys_mul_spec(),
            self.cell_req(rhs, i as int, k as int),
        ensures
            r == self.product_cell(rhs, i as int, k as int),
    {
        assert(self.at(i as int, 0).mul_req(rhs.at(0, k as int)));
        let mut acc = self.0[i][0] * rhs.0[0][k];
        let mut n: usize = 1;
        while n < J
            invariant
                1 <= n <= J,
                i < I,
                k < K,
                R::obeys_add_spec(),
                R::obeys_mul_spec(),
                self.cell_req(rhs, i as int, k as int),
                acc == self.partial_dot(rhs, i as int, k as int, n as int),
            decreases J - n,
        {
            assert(self.at(i as int, n as int).mul_req(rhs.at(n as int, k as int)));
            let p = self.0[i][n] * rhs.0[n][k];
            assert(acc.add_req(p));
            acc = acc + p;
            n += 1;
        }
        acc
    }

    /// The matrix product of `self` (`I` x `J`) and `rhs` (`J` x `K`).
    pub fn matmul<const K: usize>(&self, rhs: &Mat<R, J, K>) -> (r: Mat<R, I, K>)
        requires
            self.product_req(rhs),
        ensures
            forall|i: int, k: int| 0 <= i < I && 0 <= k < K ==> #[trigger] r.at(i, k) == self.product_cell(rhs, i, k),
    {
        let seed = self.0[0][0];
        let init = Mat::<R, I, K>::filled(seed);
        let f = |i: usize, k: usize| -> (x: R)
            requires
                i < I && k < K,
            ensures
                x == self.product_cell(rhs, i as int, k as int),
        {
            assert(self.cell_req(rhs, i as int, k as int));
            self.product_at(rhs, i, k)
        };
        let r = Mat::<R, I, K>::overwrite(init, &f);
        assert forall|i: int, k: int| 0 <= i < I && 0 <= k < K implies #[trigger] r.at(i, k) == self.product_cell(rhs, i, k) by {
            assert(f.ensures((i as usize, k as usize), r.at(i, k)));
        }
        r
    }
}

impl<R: Copy + Add<Output = R> + Mul<Output = R>, const I: usize> Mat<R, I, 1> {
    /// The sum of the first `n` component-wise products of two column vectors, added from the
    /// first component on.
    pub open spec fn partial_inner(&self, rhs: &Self, n: int) -> R
        decreases n,
    {
        if n <= 1 {
            self.at(0, 0).mul_spec(rhs.at(0, 0))
        } else {
            self.partial_inner(rhs, n - 1).add_spec(self.at(n - 1, 0).mul_spec(rhs.at(n - 1, 0)))
        }
    }

    /// The inner product can be formed: the vectors are not empty, addition and multiplication
    /// of the scalars follow their specifications, and no step overflows.
    pub open spec fn inner_req(&self, rhs: &Self) -> bool {
        &&& I > 0
        &&& R::obeys_add_spec()
        &&& R::obeys_mul_spec()
        &&& forall|m: int|
            0 <= m < I ==> {
                &&& #[trigger] self.at(m, 0).mul_req(rhs.at(m, 0))
                &&& m >= 1 ==> self.partial_inner(rhs, m).add_req(self.at(m, 0).mul_spec(rhs.at(m, 0)))
            }
    }

    /// The inner product of two column vectors.
    pub fn inner(&self, rhs: &Self) -> (r: R)
        requires
            self.inner_req(rhs),
        ensures
            r == self.partial_inner(rhs, I as int),
    {
        assert(self.at(0, 0).mul_req(rhs.at(0, 0)));
        let mut acc = self.0[0][0] * rhs.0[0][0];
        let mut n: usize = 1;
        while n < I
            invariant
                1 <= n <= I,
                self.inner_req(rhs),
                acc == self.partial_inner(rhs, n as int),
            decreases I - n,
        {
            assert(self.at(n as int, 0).mul_req(rhs.at(n as int, 0)));
            let p = self.0[n][0] * rhs.0[n][0];
            assert(acc.add_req(p));
            acc = acc + p;
            n += 1;
        }
        acc
    }
}

} // verus!

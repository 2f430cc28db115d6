//! Element-wise and scalar arithmetic on matrices, and the operator traits that forward to it.

use vstd::prelude::*;
use std::ops::{Add, Div, Mul, Neg, Sub};
use vstd::std_specs::ops::{AddSpec, DivSpec, MulSpec, NegSpec, SubSpec};
use vstd::std_specs::ops::{AddSpecImpl, DivSpecImpl, MulSpecImpl, NegSpecImpl, SubSpecImpl};
use super::mat::Mat;
use super::ops::MulElem;
use super::scalar::scalar_recip;

verus! {

impl<R: Copy + Add<Output = R>, const I: usize, const J: usize> Mat<R, I, J> {
    /// Adds `rhs` cell by cell.
    pub fn add_elementwise(&self, rhs: &Self) -> (r: Self)
        requires
            forall|a: int, b: int| 0 <= a < I && 0 <= b < J ==> self.at(a, b).add_req(rhs.at(a, b)),
        ensures
            R::obeys_add_spec() ==> forall|a: int, b: int| 0 <= a < I && 0 <= b < J ==> #[trigger] r.at(a, b) == self.at(a, b).add_spec(rhs.at(a, b)),
    {
        let f = |i: usize, j: usize| -> (x: R)
            requires
                i < I && j < J,
            ensures
                R::obeys_add_spec() ==> x == self.at(i as int, j as int).add_spec(rhs.at(i as int, j as int)),
        {
            assert(self.at(i as int, j as int).add_req(rhs.at(i as int, j as int)));
            self.0[i][j].add(rhs.0[i][j])
        };
        let r = Self::overwrite(*self, &f);
        assert forall|a: int, b: int| 0 <= a < I && 0 <= b < J && R::obeys_add_spec() implies #[trigger] r.at(a, b) == self.at(a, b).add_spec(rhs.at(a, b)) by {
            assert(f.ensures((a as usize, b as usize), r.at(a, b)));
        }
        r
    }
}

impl<R: Copy + Sub<Output = R>, const I: usize, const J: usize> Mat<R, I, J> {
    /// Subtracts `rhs` cell by cell.
    pub fn sub_elementwise(&self, rhs: &Self) -> (r: Self)
        requires
            forall|a: int, b: int| 0 <= a < I && 0 <= b < J ==> self.at(a, b).sub_req(rhs.at(a, b)),
        ensures
            R::obeys_sub_spec() ==> forall|a: int, b: int| 0 <= a < I && 0 <= b < J ==> #[trigger] r.at(a, b) == self.at(a, b).sub_spec(rhs.at(a, b)),
    {
        let f = |i: usize, j: usize| -> (x: R)
            requires
                i < I && j < J,
            ensures
                R::obeys_sub_spec() ==> x == self.at(i as int, j as int).sub_spec(rhs.at(i as int, j as int)),
        {
            assert(self.at(i as int, j as int).sub_req(rhs.at(i as int, j as int)));
            self.0[i][j].sub(rhs.0[i][j])
        };
        let r = Self::overwrite(*self, &f);
        assert forall|a: int, b: int| 0 <= a < I && 0 <= b < J && R::obeys_sub_spec() implies #[trigger] r.at(a, b) == self.at(a, b).sub_spec(rhs.at(a, b)) by {
            assert(f.ensures((a as usize, b as usize), r.at(a, b)));
        }
        r
    }
}

impl<R: Copy + Mul<Output = R>, const I: usize, const J: usize> Mat<R, I, J> {
    /// Multiplies by `rhs` cell by cell (the Hadamard product).
    pub fn mul_elementwise(&self, rhs: &Self) -> (r: Self)
        requires
            forall|a: int, b: int| 0 <= a < I && 0 <= b < J ==> self.at(a, b).mul_req(rhs.at(a, b)),
        ensures
            R::obeys_mul_spec() ==> forall|a: int, b: int| 0 <= a < I && 0 <= b < J ==> #[trigger] r.at(a, b) == self.at(a, b).mul_spec(rhs.at(a, b)),
    {
        let f = |i: usize, j: usize| -> (x: R)
            requires
                i < I && j < J,
            ensures
                R::obeys_mul_spec() ==> x == self.at(i as int, j as int).mul_spec(rhs.at(i as int, j as int)),
        {
            assert(self.at(i as int, j as int).mul_req(rhs.at(i as int, j as int)));
            self.0[i][j].mul(rhs.0[i][j])
        };
        let r = Self::overwrite(*self, &f);
        assert forall|a: int, b: int| 0 <= a < I && 0 <= b < J && R::obeys_mul_spec() implies #[trigger] r.at(a, b) == self.at(a, b).mul_spec(rhs.at(a, b)) by {
            assert(f.ensures((a as usize, b as usize), r.at(a, b)));
        }
        r
    }
}

impl<R: Copy + Add<Output = R>, const I: usize, const J: usize> Mat<R, I, J> {
    /// Applies `add` to every cell with `rhs` on the right.
    pub fn add_scalar(&self, rhs: &R) -> (r: Self)
        requires
            forall|a: int, b: int| 0 <= a < I && 0 <= b < J ==> self.at(a, b).add_req(*rhs),
        ensures
            R::obeys_add_spec() ==> forall|a: int, b: int| 0 <= a < I && 0 <= b < J ==> #[trigger] r.at(a, b) == self.at(a, b).add_spec(*rhs),
    {
        let s = *rhs;
        let f = |i: usize, j: usize| -> (x: R)
            requires
                i < I && j < J,
            ensures
                R::obeys_add_spec() ==> x == self.at(i as int, j as int).add_spec(s),
        {
            assert(self.at(i as int, j as int).add_req(s));
            self.0[i][j].add(s)
        };
        let r = Self::overwrite(*self, &f);
        assert forall|a: int, b: int| 0 <= a < I && 0 <= b < J && R::obeys_add_spec() implies #[trigger] r.at(a, b) == self.at(a, b).add_spec(s) by {
            assert(f.ensures((a as usize, b as usize), r.at(a, b)));
        }
        r
    }

    /// Applies `add` to every cell with `lhs` on the left.
    pub fn scalar_add(lhs: &R, rhs: &Self) -> (r: Self)
        requires
            forall|a: int, b: int| 0 <= a < I && 0 <= b < J ==> (*lhs).add_req(rhs.at(a, b)),
        ensures
            R::obeys_add_spec() ==> forall|a: int, b: int| 0 <= a < I && 0 <= b < J ==> #[trigger] r.at(a, b) == (*lhs).add_spec(rhs.at(a, b)),
    {
        let s = *lhs;
        let f = |i: usize, j: usize| -> (x: R)
            requires
                i < I && j < J,
            ensures
                R::obeys_add_spec() ==> x == s.add_spec(rhs.at(i as int, j as int)),
        {
            assert(s.add_req(rhs.at(i as int, j as int)));
            s.add(rhs.0[i][j])
        };
        let r = Self::overwrite(*rhs, &f);
        assert forall|a: int, b: int| 0 <= a < I && 0 <= b < J && R::obeys_add_spec() implies #[trigger] r.at(a, b) == s.add_spec(rhs.at(a, b)) by {
            assert(f.ensures((a as usize, b as usize), r.at(a, b)));
        }
        r
    }
}

impl<R: Copy + Sub<Output = R>, const I: usize, const J: usize> Mat<R, I, J> {
    /// Applies `sub` to every cell with `rhs` on the right.
    pub fn sub_scalar(&self, rhs: &R) -> (r: Self)
        requires
            forall|a: int, b: int| 0 <= a < I && 0 <= b < J ==> self.at(a, b).sub_req(*rhs),
        ensures
            R::obeys_sub_spec() ==> forall|a: int, b: int| 0 <= a < I && 0 <= b < J ==> #[trigger] r.at(a, b) == self.at(a, b).sub_spec(*rhs),
    {
        let s = *rhs;
        let f = |i: usize, j: usize| -> (x: R)
            requires
                i < I && j < J,
            ensures
                R::obeys_sub_spec() ==> x == self.at(i as int, j as int).sub_spec(s),
        {
            assert(self.at(i as int, j as int).sub_req(s));
            self.0[i][j].sub(s)
        };
        let r = Self::overwrite(*self, &f);
        assert forall|a: int, b: int| 0 <= a < I && 0 <= b < J && R::obeys_sub_spec() implies #[trigger] r.at(a, b) == self.at(a, b).sub_spec(s) by {
            assert(f.ensures((a as usize, b as usize), r.at(a, b)));
        }
        r
    }

    /// Applies `sub` to every cell with `lhs` on the left.
    pub fn scalar_sub(lhs: &R, rhs: &Self) -> (r: Self)
        requires
            forall|a: int, b: int| 0 <= a < I && 0 <= b < J ==> (*lhs).sub_req(rhs.at(a, b)),
        ensures
            R::obeys_sub_spec() ==> forall|a: int, b: int| 0 <= a < I && 0 <= b < J ==> #[trigger] r.at(a, b) == (*lhs).sub_spec(rhs.at(a, b)),
    {
        let s = *lhs;
        let f = |i: usize, j: usize| -> (x: R)
            requires
                i < I && j < J,
            ensures
                R::obeys_sub_spec() ==> x == s.sub_spec(rhs.at(i as int, j as int)),
        {
            assert(s.sub_req(rhs.at(i as int, j as int)));
            s.sub(rhs.0[i][j])
        };
        let r = Self::overwrite(*rhs, &f);
        assert forall|a: int, b: int| 0 <= a < I && 0 <= b < J && R::obeys_sub_spec() implies #[trigger] r.at(a, b) == s.sub_spec(rhs.at(a, b)) by {
            assert(f.ensures((a as usize, b as usize), r.at(a, b)));
        }
        r
    }
}

impl<R: Copy + Mul<Output = R>, const I: usize, const J: usize> Mat<R, I, J> {
    /// Applies `mul` to every cell with `rhs` on the right.
    pub fn mul_scalar(&self, rhs: &R) -> (r: Self)
        requires
            forall|a: int, b: int| 0 <= a < I && 0 <= b < J ==> self.at(a, b).mul_req(*rhs),
        ensures
            R::obeys_mul_spec() ==> forall|a: int, b: int| 0 <= a < I && 0 <= b < J ==> #[trigger] r.at(a, b) == self.at(a, b).mul_spec(*rhs),
    {
        let s = *rhs;
        let f = |i: usize, j: usize| -> (x: R)
            requires
                i < I && j < J,
            ensures
                R::obeys_mul_spec() ==> x == self.at(i as int, j as int).mul_spec(s),
        {
            assert(self.at(i as int, j as int).mul_req(s));
            self.0[i][j].mul(s)
        };
        let r = Self::overwrite(*self, &f);
        assert forall|a: int, b: int| 0 <= a < I && 0 <= b < J && R::obeys_mul_spec() implies #[trigger] r.at(a, b) == self.at(a, b).mul_spec(s) by {
            assert(f.ensures((a as usize, b as usize), r.at(a, b)));
        }
        r
    }

    /// Applies `mul` to every cell with `lhs` on the left.
    pub fn scalar_mul(lhs: &R, rhs: &Self) -> (r: Self)
        requires
            forall|a: int, b: int| 0 <= a < I && 0 <= b < J ==> (*lhs).mul_req(rhs.at(a, b)),
        ensures
            R::obeys_mul_spec() ==> forall|a: int, b: int| 0 <= a < I && 0 <= b < J ==> #[trigger] r.at(a, b) == (*lhs).mul_spec(rhs.at(a, b)),
    {
        let s = *lhs;
        let f = |i: usize, j: usize| -> (x: R)
            requires
                i < I && j < J,
            ensures
                R::obeys_mul_spec() ==> x == s.mul_spec(rhs.at(i as int, j as int)),
        {
            assert(s.mul_req(rhs.at(i as int, j as int)));
            s.mul(rhs.0[i][j])
        };
        let r = Self::overwrite(*rhs, &f);
        assert forall|a: int, b: int| 0 <= a < I && 0 <= b < J && R::obeys_mul_spec() implies #[trigger] r.at(a, b) == s.mul_spec(rhs.at(a, b)) by {
            assert(f.ensures((a as usize, b as usize), r.at(a, b)));
        }
        r
    }
}

impl<R: Copy + Div<Output = R>, const I: usize, const J: usize> Mat<R, I, J> {
    /// Applies `div` to every cell with `rhs` on the right.
    pub fn div_scalar(&self, rhs: &R) -> (r: Self)
        requires
            forall|a: int, b: int| 0 <= a < I && 0 <= b < J ==> self.at(a, b).div_req(*rhs),
        ensures
            R::obeys_div_spec() ==> forall|a: int, b: int| 0 <= a < I && 0 <= b < J ==> #[trigger] r.at(a, b) == self.at(a, b).div_spec(*rhs),
    {
        let s = *rhs;
        let f = |i: usize, j: usize| -> (x: R)
            requires
                i < I && j < J,
            ensures
                R::obeys_div_spec() ==> x == self.at(i as int, j as int).div_spec(s),
        {
            assert(self.at(i as int, j as int).div_req(s));
            self.0[i][j].div(s)
        };
        let r = Self::overwrite(*self, &f);
        assert forall|a: int, b: int| 0 <= a < I && 0 <= b < J && R::obeys_div_spec() implies #[trigger] r.at(a, b) == self.at(a, b).div_spec(s) by {
            assert(f.ensures((a as usize, b as usize), r.at(a, b)));
        }
        r
    }

    /// Applies `div` to every cell with `lhs` on the left.
    pub fn scalar_div(lhs: &R, rhs: &Self) -> (r: Self)
        requires
            forall|a: int, b: int| 0 <= a < I && 0 <= b < J ==> (*lhs).div_req(rhs.at(a, b)),
        ensures
            R::obeys_div_spec() ==> forall|a: int, b: int| 0 <= a < I && 0 <= b < J ==> #[trigger] r.at(a, b) == (*lhs).div_spec(rhs.at(a, b)),
    {
        let s = *lhs;
        let f = |i: usize, j: usize| -> (x: R)
            requires
                i < I && j < J,
            ensures
                R::obeys_div_spec() ==> x == s.div_spec(rhs.at(i as int, j as int)),
        {
            assert(s.div_req(rhs.at(i as int, j as int)));
            s.div(rhs.0[i][j])
        };
        let r = Self::overwrite(*rhs, &f);
        assert forall|a: int, b: int| 0 <= a < I && 0 <= b < J && R::obeys_div_spec() implies #[trigger] r.at(a, b) == s.div_spec(rhs.at(a, b)) by {
            assert(f.ensures((a as usize, b as usize), r.at(a, b)));
        }
        r
    }
}

impl<R: Copy + Neg<Output = R>, const I: usize, const J: usize> Mat<R, I, J> {
    /// Negates every cell.
    pub fn neg_elementwise(&self) -> (r: Self)
        requires
            forall|a: int, b: int| 0 <= a < I && 0 <= b < J ==> self.at(a, b).neg_req(),
        ensures
            R::obeys_neg_spec() ==> forall|a: int, b: int| 0 <= a < I && 0 <= b < J ==> #[trigger] r.at(a, b) == self.at(a, b).neg_spec(),
    {
        let f = |i: usize, j: usize| -> (x: R)
            requires
                i < I && j < J,
            ensures
                R::obeys_neg_spec() ==> x == self.at(i as int, j as int).neg_spec(),
        {
            assert(self.at(i as int, j as int).neg_req());
            self.0[i][j].neg()
        };
        let r = Self::overwrite(*self, &f);
        assert forall|a: int, b: int| 0 <= a < I && 0 <= b < J && R::obeys_neg_spec() implies #[trigger] r.at(a, b) == self.at(a, b).neg_spec() by {
            assert(f.ensures((a as usize, b as usize), r.at(a, b)));
        }
        r
    }
}


impl<'a, 'b, R: Copy + Add<Output = R>, const I: usize, const J: usize> Add<&'b Mat<R, I, J>> for &'a Mat<R, I, J> {
    type Output = Mat<R, I, J>;

    fn add(self, rhs: &'b Mat<R, I, J>) -> (r: Mat<R, I, J>)
        ensures
            R::obeys_add_spec() ==> forall|a: int, b: int| 0 <= a < I && 0 <= b < J ==> #[trigger] r.at(a, b) == self.at(a, b).add_spec(rhs.at(a, b)),
    {
        self.add_elementwise(rhs)
    }
}

impl<'a, 'b, R: Copy + Add<Output = R>, const I: usize, const J: usize> AddSpecImpl<&'b Mat<R, I, J>> for &'a Mat<R, I, J> {
    open spec fn obeys_add_spec() -> bool {
        false
    }

    open spec fn add_req(self, rhs: &'b Mat<R, I, J>) -> bool {
        forall|a: int, b: int| 0 <= a < I && 0 <= b < J ==> self.at(a, b).add_req(rhs.at(a, b))
    }

    open spec fn add_spec(self, rhs: &'b Mat<R, I, J>) -> Mat<R, I, J> {
        arbitrary()
    }
}

impl<'a, R: Copy + Add<Output = R>, const I: usize, const J: usize> Add<Mat<R, I, J>> for &'a Mat<R, I, J> {
    type Output = Mat<R, I, J>;

    fn add(self, rhs: Mat<R, I, J>) -> (r: Mat<R, I, J>)
        ensures
            R::obeys_add_spec() ==> forall|a: int, b: int| 0 <= a < I && 0 <= b < J ==> #[trigger] r.at(a, b) == self.at(a, b).add_spec(rhs.at(a, b)),
    {
        self.add_elementwise(&rhs)
    }
}

impl<'a, R: Copy + Add<Output = R>, const I: usize, const J: usize> AddSpecImpl<Mat<R, I, J>> for &'a Mat<R, I, J> {
    open spec fn obeys_add_spec() -> bool {
        false
    }

    open spec fn add_req(self, rhs: Mat<R, I, J>) -> bool {
        forall|a: int, b: int| 0 <= a < I && 0 <= b < J ==> self.at(a, b).add_req(rhs.at(a, b))
    }

    open spec fn add_spec(self, rhs: Mat<R, I, J>) -> Mat<R, I, J> {
        arbitrary()
    }
}

impl<'b, R: Copy + Add<Output = R>, const I: usize, const J: usize> Add<&'b Mat<R, I, J>> for Mat<R, I, J> {
    type Output = Mat<R, I, J>;

    fn add(self, rhs: &'b Mat<R, I, J>) -> (r: Mat<R, I, J>)
        ensures
            R::obeys_add_spec() ==> forall|a: int, b: int| 0 <= a < I && 0 <= b < J ==> #[trigger] r.at(a, b) == self.at(a, b).add_spec(rhs.at(a, b)),
    {
        (&self).add_elementwise(rhs)
    }
}

impl<'b, R: Copy + Add<Output = R>, const I: usize, const J: usize> AddSpecImpl<&'b Mat<R, I, J>> for Mat<R, I, J> {
    open spec fn obeys_add_spec() -> bool {
        false
    }

    open spec fn add_req(self, rhs: &'b Mat<R, I, J>) -> bool {
        forall|a: int, b: int| 0 <= a < I && 0 <= b < J ==> self.at(a, b).add_req(rhs.at(a, b))
    }

    open spec fn add_spec(self, rhs: &'b Mat<R, I, J>) -> Mat<R, I, J> {
        arbitrary()
    }
}

impl<R: Copy + Add<Output = R>, const I: usize, const J: usize> Add<Mat<R, I, J>> for Mat<R, I, J> {
    type Output = Mat<R, I, J>;

    fn add(self, rhs: Mat<R, I, J>) -> (r: Mat<R, I, J>)
        ensures
            R::obeys_add_spec() ==> forall|a: int, b: int| 0 <= a < I && 0 <= b < J ==> #[trigger] r.at(a, b) == self.at(a, b).add_spec(rhs.at(a, b)),
    {
        (&self).add_elementwise(&rhs)
    }
}

impl<R: Copy + Add<Output = R>, const I: usize, const J: usize> AddSpecImpl<Mat<R, I, J>> for Mat<R, I, J> {
    open spec fn obeys_add_spec() -> bool {
        false
    }

    open spec fn add_req(self, rhs: Mat<R, I, J>) -> bool {
        forall|a: int, b: int| 0 <= a < I && 0 <= b < J ==> self.at(a, b).add_req(rhs.at(a, b))
    }

    open spec fn add_spec(self, rhs: Mat<R, I, J>) -> Mat<R, I, J> {
        arbitrary()
    }
}

impl<'a, 'b, R: Copy + Sub<Output = R>, const I: usize, const J: usize> Sub<&'b Mat<R, I, J>> for &'a Mat<R, I, J> {
    type Output = Mat<R, I, J>;

    fn sub(self, rhs: &'b Mat<R, I, J>) -> (r: Mat<R, I, J>)
        ensures
            R::obeys_sub_spec() ==> forall|a: int, b: int| 0 <= a < I && 0 <= b < J ==> #[trigger] r.at(a, b) == self.at(a, b).sub_spec(rhs.at(a, b)),
    {
        self.sub_elementwise(rhs)
    }
}

impl<'a, 'b, R: Copy + Sub<Output = R>, const I: usize, const J: usize> SubSpecImpl<&'b Mat<R, I, J>> for &'a Mat<R, I, J> {
    open spec fn obeys_sub_spec() -> bool {
        false
    }

    open spec fn sub_req(self, rhs: &'b Mat<R, I, J>) -> bool {
        forall|a: int, b: int| 0 <= a < I && 0 <= b < J ==> self.at(a, b).sub_req(rhs.at(a, b))
    }

    open spec fn sub_spec(self, rhs: &'b Mat<R, I, J>) -> Mat<R, I, J> {
        arbitrary()
    }
}

impl<'a, R: Copy + Sub<Output = R>, const I: usize, const J: usize> Sub<Mat<R, I, J>> for &'a Mat<R, I, J> {
    type Output = Mat<R, I, J>;

    fn sub(self, rhs: Mat<R, I, J>) -> (r: Mat<R, I, J>)
        ensures
            R::obeys_sub_spec() ==> forall|a: int, b: int| 0 <= a < I && 0 <= b < J ==> #[trigger] r.at(a, b) == self.at(a, b).sub_spec(rhs.at(a, b)),
    {
        self.sub_elementwise(&rhs)
    }
}

impl<'a, R: Copy + Sub<Output = R>, const I: usize, const J: usize> SubSpecImpl<Mat<R, I, J>> for &'a Mat<R, I, J> {
    open spec fn obeys_sub_spec() -> bool {
        false
    }

    open spec fn sub_req(self, rhs: Mat<R, I, J>) -> bool {
        forall|a: int, b: int| 0 <= a < I && 0 <= b < J ==> self.at(a, b).sub_req(rhs.at(a, b))
    }

    open spec fn sub_spec(self, rhs: Mat<R, I, J>) -> Mat<R, I, J> {
        arbitrary()
    }
}

impl<'b, R: Copy + Sub<Output = R>, const I: usize, const J: usize> Sub<&'b Mat<R, I, J>> for Mat<R, I, J> {
    type Output = Mat<R, I, J>;

    fn sub(self, rhs: &'b Mat<R, I, J>) -> (r: Mat<R, I, J>)
        ensures
            R::obeys_sub_spec() ==> forall|a: int, b: int| 0 <= a < I && 0 <= b < J ==> #[trigger] r.at(a, b) == self.at(a, b).sub_spec(rhs.at(a, b)),
    {
        (&self).sub_elementwise(rhs)
    }
}

impl<'b, R: Copy + Sub<Output = R>, const I: usize, const J: usize> SubSpecImpl<&'b Mat<R, I, J>> for Mat<R, I, J> {
    open spec fn obeys_sub_spec() -> bool {
        false
    }

    open spec fn sub_req(self, rhs: &'b Mat<R, I, J>) -> bool {
        forall|a: int, b: int| 0 <= a < I && 0 <= b < J ==> self.at(a, b).sub_req(rhs.at(a, b))
    }

    open spec fn sub_spec(self, rhs: &'b Mat<R, I, J>) -> Mat<R, I, J> {
        arbitrary()
    }
}

impl<R: Copy + Sub<Output = R>, const I: usize, const J: usize> Sub<Mat<R, I, J>> for Mat<R, I, J> {
    type Output = Mat<R, I, J>;

    fn sub(self, rhs: Mat<R, I, J>) -> (r: Mat<R, I, J>)
        ensures
            R::obeys_sub_spec() ==> forall|a: int, b: int| 0 <= a < I && 0 <= b < J ==> #[trigger] r.at(a, b) == self.at(a, b).sub_spec(rhs.at(a, b)),
    {
        (&self).sub_elementwise(&rhs)
    }
}

impl<R: Copy + Sub<Output = R>, const I: usize, const J: usize> SubSpecImpl<Mat<R, I, J>> for Mat<R, I, J> {
    open spec fn obeys_sub_spec() -> bool {
        false
    }

    open spec fn sub_req(self, rhs: Mat<R, I, J>) -> bool {
        forall|a: int, b: int| 0 <= a < I && 0 <= b < J ==> self.at(a, b).sub_req(rhs.at(a, b))
    }

    open spec fn sub_spec(self, rhs: Mat<R, I, J>) -> Mat<R, I, J> {
        arbitrary()
    }
}

impl<'a, 'b, R: Copy + Add<Output = R>, const I: usize, const J: usize> Add<&'b R> for &'a Mat<R, I, J> {
    type Output = Mat<R, I, J>;

    fn add(self, rhs: &'b R) -> (r: Mat<R, I, J>)
        ensures
            R::obeys_add_spec() ==> forall|a: int, b: int| 0 <= a < I && 0 <= b < J ==> #[trigger] r.at(a, b) == self.at(a, b).add_spec(*rhs),
    {
        self.add_scalar(rhs)
    }
}

impl<'a, 'b, R: Copy + Add<Output = R>, const I: usize, const J: usize> AddSpecImpl<&'b R> for &'a Mat<R, I, J> {
    open spec fn obeys_add_spec() -> bool {
        false
    }

    open spec fn add_req(self, rhs: &'b R) -> bool {
        forall|a: int, b: int| 0 <= a < I && 0 <= b < J ==> self.at(a, b).add_req(*rhs)
    }

    open spec fn add_spec(self, rhs: &'b R) -> Mat<R, I, J> {
        arbitrary()
    }
}

impl<'a, R: Copy + Add<Output = R>, const I: usize, const J: usize> Add<R> for &'a Mat<R, I, J> {
    type Output = Mat<R, I, J>;

    fn add(self, rhs: R) -> (r: Mat<R, I, J>)
        ensures
            R::obeys_add_spec() ==> forall|a: int, b: int| 0 <= a < I && 0 <= b < J ==> #[trigger] r.at(a, b) == self.at(a, b).add_spec(rhs),
    {
        self.add_scalar(&rhs)
    }
}

impl<'a, R: Copy + Add<Output = R>, const I: usize, const J: usize> AddSpecImpl<R> for &'a Mat<R, I, J> {
    open spec fn obeys_add_spec() -> bool {
        false
    }

    open spec fn add_req(self, rhs: R) -> bool {
        forall|a: int, b: int| 0 <= a < I && 0 <= b < J ==> self.at(a, b).add_req(rhs)
    }

    open spec fn add_spec(self, rhs: R) -> Mat<R, I, J> {
        arbitrary()
    }
}

impl<'b, R: Copy + Add<Output = R>, const I: usize, const J: usize> Add<&'b R> for Mat<R, I, J> {
    type Output = Mat<R, I, J>;

    fn add(self, rhs: &'b R) -> (r: Mat<R, I, J>)
        ensures
            R::obeys_add_spec() ==> forall|a: int, b: int| 0 <= a < I && 0 <= b < J ==> #[trigger] r.at(a, b) == self.at(a, b).add_spec(*rhs),
    {
        (&self).add_scalar(rhs)
    }
}

impl<'b, R: Copy + Add<Output = R>, const I: usize, const J: usize> AddSpecImpl<&'b R> for Mat<R, I, J> {
    open spec fn obeys_add_spec() -> bool {
        false
    }

    open spec fn add_req(self, rhs: &'b R) -> bool {
        forall|a: int, b: int| 0 <= a < I && 0 <= b < J ==> self.at(a, b).add_req(*rhs)
    }

    open spec fn add_spec(self, rhs: &'b R) -> Mat<R, I, J> {
        arbitrary()
    }
}

impl<R: Copy + Add<Output = R>, const I: usize, const J: usize> Add<R> for Mat<R, I, J> {
    type Output = Mat<R, I, J>;

    fn add(self, rhs: R) -> (r: Mat<R, I, J>)
        ensures
            R::obeys_add_spec() ==> forall|a: int, b: int| 0 <= a < I && 0 <= b < J ==> #[trigger] r.at(a, b) == self.at(a, b).add_spec(rhs),
    {
        (&self).add_scalar(&rhs)
    }
}

impl<R: Copy + Add<Output = R>, const I: usize, const J: usize> AddSpecImpl<R> for Mat<R, I, J> {
    open spec fn obeys_add_spec() -> bool {
        false
    }

    open spec fn add_req(self, rhs: R) -> bool {
        forall|a: int, b: int| 0 <= a < I && 0 <= b < J ==> self.at(a, b).add_req(rhs)
    }

    open spec fn add_spec(self, rhs: R) -> Mat<R, I, J> {
        arbitrary()
    }
}

impl<'a, 'b, R: Copy + Sub<Output = R>, const I: usize, const J: usize> Sub<&'b R> for &'a Mat<R, I, J> {
    type Output = Mat<R, I, J>;

    fn sub(self, rhs: &'b R) -> (r: Mat<R, I, J>)
        ensures
            R::obeys_sub_spec() ==> forall|a: int, b: int| 0 <= a < I && 0 <= b < J ==> #[trigger] r.at(a, b) == self.at(a, b).sub_spec(*rhs),
    {
        self.sub_scalar(rhs)
    }
}

impl<'a, 'b, R: Copy + Sub<Output = R>, const I: usize, const J: usize> SubSpecImpl<&'b R> for &'a Mat<R, I, J> {
    open spec fn obeys_sub_spec() -> bool {
        false
    }

    open spec fn sub_req(self, rhs: &'b R) -> bool {
        forall|a: int, b: int| 0 <= a < I && 0 <= b < J ==> self.at(a, b).sub_req(*rhs)
    }

    open spec fn sub_spec(self, rhs: &'b R) -> Mat<R, I, J> {
        arbitrary()
    }
}

impl<'a, R: Copy + Sub<Output = R>, const I: usize, const J: usize> Sub<R> for &'a Mat<R, I, J> {
    type Output = Mat<R, I, J>;

    fn sub(self, rhs: R) -> (r: Mat<R, I, J>)
        ensures
            R::obeys_sub_spec() ==> forall|a: int, b: int| 0 <= a < I && 0 <= b < J ==> #[trigger] r.at(a, b) == self.at(a, b).sub_spec(rhs),
    {
        self.sub_scalar(&rhs)
    }
}

impl<'a, R: Copy + Sub<Output = R>, const I: usize, const J: usize> SubSpecImpl<R> for &'a Mat<R, I, J> {
    open spec fn obeys_sub_spec() -> bool {
        false
    }

    open spec fn sub_req(self, rhs: R) -> bool {
        forall|a: int, b: int| 0 <= a < I && 0 <= b < J ==> self.at(a, b).sub_req(rhs)
    }

    open spec fn sub_spec(self, rhs: R) -> Mat<R, I, J> {
        arbitrary()
    }
}

impl<'b, R: Copy + Sub<Output = R>, const I: usize, const J: usize> Sub<&'b R> for Mat<R, I, J> {
    type Output = Mat<R, I, J>;

    fn sub(self, rhs: &'b R) -> (r: Mat<R, I, J>)
        ensures
            R::obeys_sub_spec() ==> forall|a: int, b: int| 0 <= a < I && 0 <= b < J ==> #[trigger] r.at(a, b) == self.at(a, b).sub_spec(*rhs),
    {
        (&self).sub_scalar(rhs)
    }
}

impl<'b, R: Copy + Sub<Output = R>, const I: usize, const J: usize> SubSpecImpl<&'b R> for Mat<R, I, J> {
    open spec fn obeys_sub_spec() -> bool {
        false
    }

    open spec fn sub_req(self, rhs: &'b R) -> bool {
        forall|a: int, b: int| 0 <= a < I && 0 <= b < J ==> self.at(a, b).sub_req(*rhs)
    }

    open spec fn sub_spec(self, rhs: &'b R) -> Mat<R, I, J> {
        arbitrary()
    }
}

impl<R: Copy + Sub<Output = R>, const I: usize, const J: usize> Sub<R> for Mat<R, I, J> {
    type Output = Mat<R, I, J>;

    fn sub(self, rhs: R) -> (r: Mat<R, I, J>)
        ensures
            R::obeys_sub_spec() ==> forall|a: int, b: int| 0 <= a < I && 0 <= b < J ==> #[trigger] r.at(a, b) == self.at(a, b).sub_spec(rhs),
    {
        (&self).sub_scalar(&rhs)
    }
}

impl<R: Copy + Sub<Output = R>, const I: usize, const J: usize> SubSpecImpl<R> for Mat<R, I, J> {
    open spec fn obeys_sub_spec() -> bool {
        false
    }

    open spec fn sub_req(self, rhs: R) -> bool {
        forall|a: int, b: int| 0 <= a < I && 0 <= b < J ==> self.at(a, b).sub_req(rhs)
    }

    open spec fn sub_spec(self, rhs: R) -> Mat<R, I, J> {
        arbitrary()
    }
}

impl<'a, 'b, R: Copy + Mul<Output = R>, const I: usize, const J: usize> Mul<&'b R> for &'a Mat<R, I, J> {
    type Output = Mat<R, I, J>;

    fn mul(self, rhs: &'b R) -> (r: Mat<R, I, J>)
        ensures
            R::obeys_mul_spec() ==> forall|a: int, b: int| 0 <= a < I && 0 <= b < J ==> #[trigger] r.at(a, b) == self.at(a, b).mul_spec(*rhs),
    {
        self.mul_scalar(rhs)
    }
}

impl<'a, 'b, R: Copy + Mul<Output = R>, const I: usize, const J: usize> MulSpecImpl<&'b R> for &'a Mat<R, I, J> {
    open spec fn obeys_mul_spec() -> bool {
        false
    }

    open spec fn mul_req(self, rhs: &'b R) -> bool {
        forall|a: int, b: int| 0 <= a < I && 0 <= b < J ==> self.at(a, b).mul_req(*rhs)
    }

    open spec fn mul_spec(self, rhs: &'b R) -> Mat<R, I, J> {
        arbitrary()
    }
}

impl<'a, R: Copy + Mul<Output = R>, const I: usize, const J: usize> Mul<R> for &'a Mat<R, I, J> {
    type Output = Mat<R, I, J>;

    fn mul(self, rhs: R) -> (r: Mat<R, I, J>)
        ensures
            R::obeys_mul_spec() ==> forall|a: int, b: int| 0 <= a < I && 0 <= b < J ==> #[trigger] r.at(a, b) == self.at(a, b).mul_spec(rhs),
    {
        self.mul_scalar(&rhs)
    }
}

impl<'a, R: Copy + Mul<Output = R>, const I: usize, const J: usize> MulSpecImpl<R> for &'a Mat<R, I, J> {
    open spec fn obeys_mul_spec() -> bool {
        false
    }

    open spec fn mul_req(self, rhs: R) -> bool {
        forall|a: int, b: int| 0 <= a < I && 0 <= b < J ==> self.at(a, b).mul_req(rhs)
    }

    open spec fn mul_spec(self, rhs: R) -> Mat<R, I, J> {
        arbitrary()
    }
}

impl<'b, R: Copy + Mul<Output = R>, const I: usize, const J: usize> Mul<&'b R> for Mat<R, I, J> {
    type Output = Mat<R, I, J>;

    fn mul(self, rhs: &'b R) -> (r: Mat<R, I, J>)
        ensures
            R::obeys_mul_spec() ==> forall|a: int, b: int| 0 <= a < I && 0 <= b < J ==> #[trigger] r.at(a, b) == self.at(a, b).mul_spec(*rhs),
    {
        (&self).mul_scalar(rhs)
    }
}

impl<'b, R: Copy + Mul<Output = R>, const I: usize, const J: usize> MulSpecImpl<&'b R> for Mat<R, I, J> {
    open spec fn obeys_mul_spec() -> bool {
        false
    }

    open spec fn mul_req(self, rhs: &'b R) -> bool {
        forall|a: int, b: int| 0 <= a < I && 0 <= b < J ==> self.at(a, b).mul_req(*rhs)
    }

    open spec fn mul_spec(self, rhs: &'b R) -> Mat<R, I, J> {
        arbitrary()
    }
}

impl<R: Copy + Mul<Output = R>, const I: usize, const J: usize> Mul<R> for Mat<R, I, J> {
    type Output = Mat<R, I, J>;

    fn mul(self, rhs: R) -> (r: Mat<R, I, J>)
        ensures
            R::obeys_mul_spec() ==> forall|a: int, b: int| 0 <= a < I && 0 <= b < J ==> #[trigger] r.at(a, b) == self.at(a, b).mul_spec(rhs),
    {
        (&self).mul_scalar(&rhs)
    }
}

impl<R: Copy + Mul<Output = R>, const I: usize, const J: usize> MulSpecImpl<R> for Mat<R, I, J> {
    open spec fn obeys_mul_spec() -> bool {
        false
    }

    open spec fn mul_req(self, rhs: R) -> bool {
        forall|a: int, b: int| 0 <= a < I && 0 <= b < J ==> self.at(a, b).mul_req(rhs)
    }

    open spec fn mul_spec(self, rhs: R) -> Mat<R, I, J> {
        arbitrary()
    }
}

impl<'a, 'b, R: Copy + Div<Output = R>, const I: usize, const J: usize> Div<&'b R> for &'a Mat<R, I, J> {
    type Output = Mat<R, I, J>;

    fn div(self, rhs: &'b R) -> (r: Mat<R, I, J>)
        ensures
            R::obeys_div_spec() ==> forall|a: int, b: int| 0 <= a < I && 0 <= b < J ==> #[trigger] r.at(a, b) == self.at(a, b).div_spec(*rhs),
    {
        self.div_scalar(rhs)
    }
}

impl<'a, 'b, R: Copy + Div<Output = R>, const I: usize, const J: usize> DivSpecImpl<&'b R> for &'a Mat<R, I, J> {
    open spec fn obeys_div_spec() -> bool {
        false
    }

    open spec fn div_req(self, rhs: &'b R) -> bool {
        forall|a: int, b: int| 0 <= a < I && 0 <= b < J ==> self.at(a, b).div_req(*rhs)
    }

    open spec fn div_spec(self, rhs: &'b R) -> Mat<R, I, J> {
        arbitrary()
    }
}

impl<'a, R: Copy + Div<Output = R>, const I: usize, const J: usize> Div<R> for &'a Mat<R, I, J> {
    type Output = Mat<R, I, J>;

    fn div(self, rhs: R) -> (r: Mat<R, I, J>)
        ensures
            R::obeys_div_spec() ==> forall|a: int, b: int| 0 <= a < I && 0 <= b < J ==> #[trigger] r.at(a, b) == self.at(a, b).div_spec(rhs),
    {
        self.div_scalar(&rhs)
    }
}

impl<'a, R: Copy + Div<Output = R>, const I: usize, const J: usize> DivSpecImpl<R> for &'a Mat<R, I, J> {
    open spec fn obeys_div_spec() -> bool {
        false
    }

    open spec fn div_req(self, rhs: R) -> bool {
        forall|a: int, b: int| 0 <= a < I && 0 <= b < J ==> self.at(a, b).div_req(rhs)
    }

    open spec fn div_spec(self, rhs: R) -> Mat<R, I, J> {
        arbitrary()
    }
}

impl<'b, R: Copy + Div<Output = R>, const I: usize, const J: usize> Div<&'b R> for Mat<R, I, J> {
    type Output = Mat<R, I, J>;

    fn div(self, rhs: &'b R) -> (r: Mat<R, I, J>)
        ensures
            R::obeys_div_spec() ==> forall|a: int, b: int| 0 <= a < I && 0 <= b < J ==> #[trigger] r.at(a, b) == self.at(a, b).div_spec(*rhs),
    {
        (&self).div_scalar(rhs)
    }
}

impl<'b, R: Copy + Div<Output = R>, const I: usize, const J: usize> DivSpecImpl<&'b R> for Mat<R, I, J> {
    open spec fn obeys_div_spec() -> bool {
        false
    }

    open spec fn div_req(self, rhs: &'b R) -> bool {
        forall|a: int, b: int| 0 <= a < I && 0 <= b < J ==> self.at(a, b).div_req(*rhs)
    }

    open spec fn div_spec(self, rhs: &'b R) -> Mat<R, I, J> {
        arbitrary()
    }
}

impl<R: Copy + Div<Output = R>, const I: usize, const J: usize> Div<R> for Mat<R, I, J> {
    type Output = Mat<R, I, J>;

    fn div(self, rhs: R) -> (r: Mat<R, I, J>)
        ensures
            R::obeys_div_spec() ==> forall|a: int, b: int| 0 <= a < I && 0 <= b < J ==> #[trigger] r.at(a, b) == self.at(a, b).div_spec(rhs),
    {
        (&self).div_scalar(&rhs)
    }
}

impl<R: Copy + Div<Output = R>, const I: usize, const J: usize> DivSpecImpl<R> for Mat<R, I, J> {
    open spec fn obeys_div_spec() -> bool {
        false
    }

    open spec fn div_req(self, rhs: R) -> bool {
        forall|a: int, b: int| 0 <= a < I && 0 <= b < J ==> self.at(a, b).div_req(rhs)
    }

    open spec fn div_spec(self, rhs: R) -> Mat<R, I, J> {
        arbitrary()
    }
}

impl<'a, R: Copy + Neg<Output = R>, const I: usize, const J: usize> Neg for &'a Mat<R, I, J> {
    type Output = Mat<R, I, J>;

    fn neg(self) -> (r: Mat<R, I, J>)
        ensures
            R::obeys_neg_spec() ==> forall|a: int, b: int| 0 <= a < I && 0 <= b < J ==> #[trigger] r.at(a, b) == self.at(a, b).neg_spec(),
    {
        self.neg_elementwise()
    }
}

impl<'a, R: Copy + Neg<Output = R>, const I: usize, const J: usize> NegSpecImpl for &'a Mat<R, I, J> {
    open spec fn obeys_neg_spec() -> bool {
        false
    }

    open spec fn neg_req(self) -> bool {
        forall|a: int, b: int| 0 <= a < I && 0 <= b < J ==> self.at(a, b).neg_req()
    }

    open spec fn neg_spec(self) -> Mat<R, I, J> {
        arbitrary()
    }
}

impl<R: Copy + Neg<Output = R>, const I: usize, const J: usize> Neg for Mat<R, I, J> {
    type Output = Mat<R, I, J>;

    fn neg(self) -> (r: Mat<R, I, J>)
        ensures
            R::obeys_neg_spec() ==> forall|a: int, b: int| 0 <= a < I && 0 <= b < J ==> #[trigger] r.at(a, b) == self.at(a, b).neg_spec(),
    {
        (&self).neg_elementwise()
    }
}

impl<R: Copy + Neg<Output = R>, const I: usize, const J: usize> NegSpecImpl for Mat<R, I, J> {
    open spec fn obeys_neg_spec() -> bool {
        false
    }

    open spec fn neg_req(self) -> bool {
        forall|a: int, b: int| 0 <= a < I && 0 <= b < J ==> self.at(a, b).neg_req()
    }

    open spec fn neg_spec(self) -> Mat<R, I, J> {
        arbitrary()
    }
}

impl<'a, R: Copy + Mul<Output = R>, const I: usize, const J: usize> MulElem for &'a Mat<R, I, J> {
    type Output = Mat<R, I, J>;

    open spec fn mul_elem_req(&self, rhs: &&'a Mat<R, I, J>) -> bool {
        forall|a: int, b: int| 0 <= a < I && 0 <= b < J ==> self.at(a, b).mul_req(rhs.at(a, b))
    }

    fn mul_elem(self, rhs: &'a Mat<R, I, J>) -> (r: Mat<R, I, J>)
        ensures
            R::obeys_mul_spec() ==> forall|a: int, b: int| 0 <= a < I && 0 <= b < J ==> #[trigger] r.at(a, b) == self.at(a, b).mul_spec(rhs.at(a, b)),
    {
        self.mul_elementwise(rhs)
    }
}


impl<R: Copy + Mul<Output = R>, const I: usize, const J: usize> MulElem for Mat<R, I, J> {
    type Output = Mat<R, I, J>;

    open spec fn mul_elem_req(&self, rhs: &Mat<R, I, J>) -> bool {
        forall|a: int, b: int| 0 <= a < I && 0 <= b < J ==> self.at(a, b).mul_req(rhs.at(a, b))
    }

    fn mul_elem(self, rhs: Mat<R, I, J>) -> (r: Mat<R, I, J>)
        ensures
            R::obeys_mul_spec() ==> forall|a: int, b: int| 0 <= a < I && 0 <= b < J ==> #[trigger] r.at(a, b) == self.at(a, b).mul_spec(rhs.at(a, b)),
    {
        (&self).mul_elementwise(&rhs)
    }
}


impl<R: Copy + num_traits::Float, const I: usize, const J: usize> Mat<R, I, J> {
    /// Replaces every cell by its multiplicative inverse.
    pub fn inv_elem(&self) -> (r: Self)
        ensures
            forall|a: int, b: int| 0 <= a < I && 0 <= b < J ==> call_ensures(scalar_recip::<R>, (self.at(a, b),), #[trigger] r.at(a, b)),
    {
        let f = |i: usize, j: usize| -> (x: R)
            requires
                i < I && j < J,
            ensures
                call_ensures(scalar_recip::<R>, (self.at(i as int, j as int),), x),
        {
            scalar_recip(self.0[i][j])
        };
        let r = Self::overwrite(*self, &f);
        assert forall|a: int, b: int| 0 <= a < I && 0 <= b < J implies call_ensures(scalar_recip::<R>, (self.at(a, b),), #[trigger] r.at(a, b)) by {
            assert(f.ensures((a as usize, b as usize), r.at(a, b)));
        }
        r
    }
}

} // verus!

//! Quaternions: construction, the identity, component-wise scalar arithmetic and the norm.

use vstd::prelude::*;
use std::ops::{Add, Div, Mul, Sub};
use vstd::std_specs::ops::{AddSpec, DivSpec, MulSpec, NegSpec, SubSpec};
use vstd::std_specs::ops::{AddSpecImpl, DivSpecImpl, MulSpecImpl, SubSpecImpl};
use super::scalar::{scalar_one, scalar_sqrt, scalar_zero};

verus! {

/// A quaternion `w + i * I + j * J + k * K`.
#[derive(Debug, PartialEq, Clone, Copy)]
pub struct Quat<R> {
    pub w: R,
    pub i: R,
    pub j: R,
    pub k: R,
}

impl<R> Quat<R> {
    /// A quaternion from its real part `w` and its imaginary parts `i`, `j` and `k`.
    pub fn new(w: R, i: R, j: R, k: R) -> (r: Self)
        ensures
            r == (Quat { w, i, j, k }),
    {
        Quat { w, i, j, k }
    }
}

impl<R: Copy + num_traits::Zero + num_traits::One> Quat<R> {
    /// The identity rotation: the real part is the scalar type's one, the imaginary parts its
    /// zero.
    pub fn identity() -> (r: Self)
        ensures
            call_ensures(scalar_one::<R>, (), r.w),
            call_ensures(scalar_zero::<R>, (), r.i),
            r.j == r.i,
            r.k == r.i,
    {
        let o = scalar_one::<R>();
        let z = scalar_zero::<R>();
        Quat::new(o, z, z, z)
    }
}

impl<R: Copy + std::ops::Neg<Output = R>> Quat<R> {
    /// The conjugate quaternion: the real part is kept and the imaginary parts are negated.
    pub fn c(&self) -> (r: Self)
        requires
            self.i.neg_req(),
            self.j.neg_req(),
            self.k.neg_req(),
        ensures
            r.w == self.w,
            R::obeys_neg_spec() ==> r.i == self.i.neg_spec() && r.j == self.j.neg_spec() && r.k == self.k.neg_spec(),
    {
        Quat { w: self.w, i: self.i.neg(), j: self.j.neg(), k: self.k.neg() }
    }
}

/// The sum of squares `w * w + i * i + j * j + k * k`, added from left to right.
pub open spec fn sum_of_squares4<R: Add<Output = R> + Mul<Output = R>>(w: R, i: R, j: R, k: R) -> R {
    w.mul_spec(w).add_spec(i.mul_spec(i)).add_spec(j.mul_spec(j)).add_spec(k.mul_spec(k))
}

/// The sum of squares of four scalars can be formed: addition and multiplication follow their
/// specifications and no step overflows.
pub open spec fn sum_of_squares4_req<R: Add<Output = R> + Mul<Output = R>>(w: R, i: R, j: R, k: R) -> bool {
    &&& R::obeys_add_spec()
    &&& R::obeys_mul_spec()
    &&& w.mul_req(w)
    &&& i.mul_req(i)
    &&& j.mul_req(j)
    &&& k.mul_req(k)
    &&& w.mul_spec(w).add_req(i.mul_spec(i))
    &&& w.mul_spec(w).add_spec(i.mul_spec(i)).add_req(j.mul_spec(j))
    &&& w.mul_spec(w).add_spec(i.mul_spec(i)).add_spec(j.mul_spec(j)).add_req(k.mul_spec(k))
}

/// Computes `w * w + i * i + j * j + k * k`.
fn sum_of_squares4_exec<R: Copy + Add<Output = R> + Mul<Output = R>>(w: R, i: R, j: R, k: R) -> (r: R)
    requires
        sum_of_squares4_req(w, i, j, k),
    ensures
        r == sum_of_squares4(w, i, j, k),
{
    let a = w * w;
    let b = i * i;
    let c = j * j;
    let d = k * k;
    let s = a + b;
    let t = s + c;
    t + d
}

impl<R: Copy + num_traits::Float + Add<Output = R> + Mul<Output = R>> Quat<R> {
    /// The norm: the square root, as `num_traits::Float::sqrt` gives it, of the sum of the
    /// squares of the four components.
    pub fn norm(&self) -> (r: R)
        requires
            sum_of_squares4_req(self.w, self.i, self.j, self.k),
        ensures
            call_ensures(scalar_sqrt::<R>, (sum_of_squares4(self.w, self.i, self.j, self.k),), r),
    {
        let s = sum_of_squares4_exec(self.w, self.i, self.j, self.k);
        scalar_sqrt(s)
    }
}

impl<R: Copy + Add<Output = R>> Quat<R> {
    /// Applies `add` to every component with `rhs` on the right.
    pub fn add_scalar(&self, rhs: &R) -> (r: Self)
        requires
            self.w.add_req(*rhs),
            self.i.add_req(*rhs),
            self.j.add_req(*rhs),
            self.k.add_req(*rhs),
        ensures
            R::obeys_add_spec() ==> r == (Quat {
                w: self.w.add_spec(*rhs),
                i: self.i.add_spec(*rhs),
                j: self.j.add_spec(*rhs),
                k: self.k.add_spec(*rhs),
            }),
    {
        let s = *rhs;
        Quat { w: self.w.add(s), i: self.i.add(s), j: self.j.add(s), k: self.k.add(s) }
    }

    /// Applies `add` to every component with `lhs` on the left.
    pub fn scalar_add(lhs: &R, rhs: &Self) -> (r: Self)
        requires
            (*lhs).add_req(rhs.w),
            (*lhs).add_req(rhs.i),
            (*lhs).add_req(rhs.j),
            (*lhs).add_req(rhs.k),
        ensures
            R::obeys_add_spec() ==> r == (Quat {
                w: (*lhs).add_spec(rhs.w),
                i: (*lhs).add_spec(rhs.i),
                j: (*lhs).add_spec(rhs.j),
                k: (*lhs).add_spec(rhs.k),
            }),
    {
        let s = *lhs;
        Quat { w: s.add(rhs.w), i: s.add(rhs.i), j: s.add(rhs.j), k: s.add(rhs.k) }
    }
}

impl<'a, 'b, R: Copy + Add<Output = R>> Add<&'b R> for &'a Quat<R> {
    type Output = Quat<R>;

    fn add(self, rhs: &'b R) -> (r: Quat<R>)
        ensures
            R::obeys_add_spec() ==> r == (Quat {
                w: self.w.add_spec(*rhs),
                i: self.i.add_spec(*rhs),
                j: self.j.add_spec(*rhs),
                k: self.k.add_spec(*rhs),
            }),
    {
        self.add_scalar(rhs)
    }
}

impl<'a, 'b, R: Copy + Add<Output = R>> AddSpecImpl<&'b R> for &'a Quat<R> {
    open spec fn obeys_add_spec() -> bool {
        false
    }

    open spec fn add_req(self, rhs: &'b R) -> bool {
        &&& self.w.add_req(*rhs)
        &&& self.i.add_req(*rhs)
        &&& self.j.add_req(*rhs)
        &&& self.k.add_req(*rhs)
    }

    open spec fn add_spec(self, rhs: &'b R) -> Quat<R> {
        arbitrary()
    }
}

impl<'a, R: Copy + Add<Output = R>> Add<R> for &'a Quat<R> {
    type Output = Quat<R>;

    fn add(self, rhs: R) -> (r: Quat<R>)
        ensures
            R::obeys_add_spec() ==> r == (Quat {
                w: self.w.add_spec(rhs),
                i: self.i.add_spec(rhs),
                j: self.j.add_spec(rhs),
                k: self.k.add_spec(rhs),
            }),
    {
        self.add_scalar(&rhs)
    }
}

impl<'a, R: Copy + Add<Output = R>> AddSpecImpl<R> for &'a Quat<R> {
    open spec fn obeys_add_spec() -> bool {
        false
    }

    open spec fn add_req(self, rhs: R) -> bool {
        &&& self.w.add_req(rhs)
        &&& self.i.add_req(rhs)
        &&& self.j.add_req(rhs)
        &&& self.k.add_req(rhs)
    }

    open spec fn add_spec(self, rhs: R) -> Quat<R> {
        arbitrary()
    }
}

impl<'b, R: Copy + Add<Output = R>> Add<&'b R> for Quat<R> {
    type Output = Quat<R>;

    fn add(self, rhs: &'b R) -> (r: Quat<R>)
        ensures
            R::obeys_add_spec() ==> r == (Quat {
                w: self.w.add_spec(*rhs),
                i: self.i.add_spec(*rhs),
                j: self.j.add_spec(*rhs),
                k: self.k.add_spec(*rhs),
            }),
    {
        (&self).add_scalar(rhs)
    }
}

impl<'b, R: Copy + Add<Output = R>> AddSpecImpl<&'b R> for Quat<R> {
    open spec fn obeys_add_spec() -> bool {
        false
    }

    open spec fn add_req(self, rhs: &'b R) -> bool {
        &&& self.w.add_req(*rhs)
        &&& self.i.add_req(*rhs)
        &&& self.j.add_req(*rhs)
        &&& self.k.add_req(*rhs)
    }

    open spec fn add_spec(self, rhs: &'b R) -> Quat<R> {
        arbitrary()
    }
}

impl<R: Copy + Add<Output = R>> Add<R> for Quat<R> {
    type Output = Quat<R>;

    fn add(self, rhs: R) -> (r: Quat<R>)
        ensures
            R::obeys_add_spec() ==> r == (Quat {
                w: self.w.add_spec(rhs),
                i: self.i.add_spec(rhs),
                j: self.j.add_spec(rhs),
                k: self.k.add_spec(rhs),
            }),
    {
        (&self).add_scalar(&rhs)
    }
}

impl<R: Copy + Add<Output = R>> AddSpecImpl<R> for Quat<R> {
    open spec fn obeys_add_spec() -> bool {
        false
    }

    open spec fn add_req(self, rhs: R) -> bool {
        &&& self.w.add_req(rhs)
        &&& self.i.add_req(rhs)
        &&& self.j.add_req(rhs)
        &&& self.k.add_req(rhs)
    }

    open spec fn add_spec(self, rhs: R) -> Quat<R> {
        arbitrary()
    }
}

impl<R: Copy + Sub<Output = R>> Quat<R> {
    /// Applies `sub` to every component with `rhs` on the right.
    pub fn sub_scalar(&self, rhs: &R) -> (r: Self)
        requires
            self.w.sub_req(*rhs),
            self.i.sub_req(*rhs),
            self.j.sub_req(*rhs),
            self.k.sub_req(*rhs),
        ensures
            R::obeys_sub_spec() ==> r == (Quat {
                w: self.w.sub_spec(*rhs),
                i: self.i.sub_spec(*rhs),
                j: self.j.sub_spec(*rhs),
                k: self.k.sub_spec(*rhs),
            }),
    {
        let s = *rhs;
        Quat { w: self.w.sub(s), i: self.i.sub(s), j: self.j.sub(s), k: self.k.sub(s) }
    }

    /// Applies `sub` to every component with `lhs` on the left.
    pub fn scalar_sub(lhs: &R, rhs: &Self) -> (r: Self)
        requires
            (*lhs).sub_req(rhs.w),
            (*lhs).sub_req(rhs.i),
            (*lhs).sub_req(rhs.j),
            (*lhs).sub_req(rhs.k),
        ensures
            R::obeys_sub_spec() ==> r == (Quat {
                w: (*lhs).sub_spec(rhs.w),
                i: (*lhs).sub_spec(rhs.i),
                j: (*lhs).sub_spec(rhs.j),
                k: (*lhs).sub_spec(rhs.k),
            }),
    {
        let s = *lhs;
        Quat { w: s.sub(rhs.w), i: s.sub(rhs.i), j: s.sub(rhs.j), k: s.sub(rhs.k) }
    }
}

impl<'a, 'b, R: Copy + Sub<Output = R>> Sub<&'b R> for &'a Quat<R> {
    type Output = Quat<R>;

    fn sub(self, rhs: &'b R) -> (r: Quat<R>)
        ensures
            R::obeys_sub_spec() ==> r == (Quat {
                w: self.w.sub_spec(*rhs),
                i: self.i.sub_spec(*rhs),
                j: self.j.sub_spec(*rhs),
                k: self.k.sub_spec(*rhs),
            }),
    {
        self.sub_scalar(rhs)
    }
}

impl<'a, 'b, R: Copy + Sub<Output = R>> SubSpecImpl<&'b R> for &'a Quat<R> {
    open spec fn obeys_sub_spec() -> bool {
        false
    }

    open spec fn sub_req(self, rhs: &'b R) -> bool {
        &&& self.w.sub_req(*rhs)
        &&& self.i.sub_req(*rhs)
        &&& self.j.sub_req(*rhs)
        &&& self.k.sub_req(*rhs)
    }

    open spec fn sub_spec(self, rhs: &'b R) -> Quat<R> {
        arbitrary()
    }
}

impl<'a, R: Copy + Sub<Output = R>> Sub<R> for &'a Quat<R> {
    type Output = Quat<R>;

    fn sub(self, rhs: R) -> (r: Quat<R>)
        ensures
            R::obeys_sub_spec() ==> r == (Quat {
                w: self.w.sub_spec(rhs),
                i: self.i.sub_spec(rhs),
                j: self.j.sub_spec(rhs),
                k: self.k.sub_spec(rhs),
            }),
    {
        self.sub_scalar(&rhs)
    }
}

impl<'a, R: Copy + Sub<Output = R>> SubSpecImpl<R> for &'a Quat<R> {
    open spec fn obeys_sub_spec() -> bool {
        false
    }

    open spec fn sub_req(self, rhs: R) -> bool {
        &&& self.w.sub_req(rhs)
        &&& self.i.sub_req(rhs)
        &&& self.j.sub_req(rhs)
        &&& self.k.sub_req(rhs)
    }

    open spec fn sub_spec(self, rhs: R) -> Quat<R> {
        arbitrary()
    }
}

impl<'b, R: Copy + Sub<Output = R>> Sub<&'b R> for Quat<R> {
    type Output = Quat<R>;

    fn sub(self, rhs: &'b R) -> (r: Quat<R>)
        ensures
            R::obeys_sub_spec() ==> r == (Quat {
                w: self.w.sub_spec(*rhs),
                i: self.i.sub_spec(*rhs),
                j: self.j.sub_spec(*rhs),
                k: self.k.sub_spec(*rhs),
            }),
    {
        (&self).sub_scalar(rhs)
    }
}

impl<'b, R: Copy + Sub<Output = R>> SubSpecImpl<&'b R> for Quat<R> {
    open spec fn obeys_sub_spec() -> bool {
        false
    }

    open spec fn sub_req(self, rhs: &'b R) -> bool {
        &&& self.w.sub_req(*rhs)
        &&& self.i.sub_req(*rhs)
        &&& self.j.sub_req(*rhs)
        &&& self.k.sub_req(*rhs)
    }

    open spec fn sub_spec(self, rhs: &'b R) -> Quat<R> {
        arbitrary()
    }
}

impl<R: Copy + Sub<Output = R>> Sub<R> for Quat<R> {
    type Output = Quat<R>;

    fn sub(self, rhs: R) -> (r: Quat<R>)
        ensures
            R::obeys_sub_spec() ==> r == (Quat {
                w: self.w.sub_spec(rhs),
                i: self.i.sub_spec(rhs),
                j: self.j.sub_spec(rhs),
                k: self.k.sub_spec(rhs),
            }),
    {
        (&self).sub_scalar(&rhs)
    }
}

impl<R: Copy + Sub<Output = R>> SubSpecImpl<R> for Quat<R> {
    open spec fn obeys_sub_spec() -> bool {
        false
    }

    open spec fn sub_req(self, rhs: R) -> bool {
        &&& self.w.sub_req(rhs)
        &&& self.i.sub_req(rhs)
        &&& self.j.sub_req(rhs)
        &&& self.k.sub_req(rhs)
    }

    open spec fn sub_spec(self, rhs: R) -> Quat<R> {
        arbitrary()
    }
}

impl<R: Copy + Mul<Output = R>> Quat<R> {
    /// Applies `mul` to every component with `rhs` on the right.
    pub fn mul_scalar(&self, rhs: &R) -> (r: Self)
        requires
            self.w.mul_req(*rhs),
            self.i.mul_req(*rhs),
            self.j.mul_req(*rhs),
            self.k.mul_req(*rhs),
        ensures
            R::obeys_mul_spec() ==> r == (Quat {
                w: self.w.mul_spec(*rhs),
                i: self.i.mul_spec(*rhs),
                j: self.j.mul_spec(*rhs),
                k: self.k.mul_spec(*rhs),
            }),
    {
        let s = *rhs;
        Quat { w: self.w.mul(s), i: self.i.mul(s), j: self.j.mul(s), k: self.k.mul(s) }
    }

    /// Applies `mul` to every component with `lhs` on the left.
    pub fn scalar_mul(lhs: &R, rhs: &Self) -> (r: Self)
        requires
            (*lhs).mul_req(rhs.w),
            (*lhs).mul_req(rhs.i),
            (*lhs).mul_req(rhs.j),
            (*lhs).mul_req(rhs.k),
        ensures
            R::obeys_mul_spec() ==> r == (Quat {
                w: (*lhs).mul_spec(rhs.w),
                i: (*lhs).mul_spec(rhs.i),
                j: (*lhs).mul_spec(rhs.j),
                k: (*lhs).mul_spec(rhs.k),
            }),
    {
        let s = *lhs;
        Quat { w: s.mul(rhs.w), i: s.mul(rhs.i), j: s.mul(rhs.j), k: s.mul(rhs.k) }
    }
}

impl<'a, 'b, R: Copy + Mul<Output = R>> Mul<&'b R> for &'a Quat<R> {
    type Output = Quat<R>;

    fn mul(self, rhs: &'b R) -> (r: Quat<R>)
        ensures
            R::obeys_mul_spec() ==> r == (Quat {
                w: self.w.mul_spec(*rhs),
                i: self.i.mul_spec(*rhs),
                j: self.j.mul_spec(*rhs),
                k: self.k.mul_spec(*rhs),
            }),
    {
        self.mul_scalar(rhs)
    }
}

impl<'a, 'b, R: Copy + Mul<Output = R>> MulSpecImpl<&'b R> for &'a Quat<R> {
    open spec fn obeys_mul_spec() -> bool {
        false
    }

    open spec fn mul_req(self, rhs: &'b R) -> bool {
        &&& self.w.mul_req(*rhs)
        &&& self.i.mul_req(*rhs)
        &&& self.j.mul_req(*rhs)
        &&& self.k.mul_req(*rhs)
    }

    open spec fn mul_spec(self, rhs: &'b R) -> Quat<R> {
        arbitrary()
    }
}

impl<'a, R: Copy + Mul<Output = R>> Mul<R> for &'a Quat<R> {
    type Output = Quat<R>;

    fn mul(self, rhs: R) -> (r: Quat<R>)
        ensures
            R::obeys_mul_spec() ==> r == (Quat {
                w: self.w.mul_spec(rhs),
                i: self.i.mul_spec(rhs),
                j: self.j.mul_spec(rhs),
                k: self.k.mul_spec(rhs),
            }),
    {
        self.mul_scalar(&rhs)
    }
}

impl<'a, R: Copy + Mul<Output = R>> MulSpecImpl<R> for &'a Quat<R> {
    open spec fn obeys_mul_spec() -> bool {
        false
    }

    open spec fn mul_req(self, rhs: R) -> bool {
        &&& self.w.mul_req(rhs)
        &&& self.i.mul_req(rhs)
        &&& self.j.mul_req(rhs)
        &&& self.k.mul_req(rhs)
    }

    open spec fn mul_spec(self, rhs: R) -> Quat<R> {
        arbitrary()
    }
}

impl<'b, R: Copy + Mul<Output = R>> Mul<&'b R> for Quat<R> {
    type Output = Quat<R>;

    fn mul(self, rhs: &'b R) -> (r: Quat<R>)
        ensures
            R::obeys_mul_spec() ==> r == (Quat {
                w: self.w.mul_spec(*rhs),
                i: self.i.mul_spec(*rhs),
                j: self.j.mul_spec(*rhs),
                k: self.k.mul_spec(*rhs),
            }),
    {
        (&self).mul_scalar(rhs)
    }
}

impl<'b, R: Copy + Mul<Output = R>> MulSpecImpl<&'b R> for Quat<R> {
    open spec fn obeys_mul_spec() -> bool {
        false
    }

    open spec fn mul_req(self, rhs: &'b R) -> bool {
        &&& self.w.mul_req(*rhs)
        &&& self.i.mul_req(*rhs)
        &&& self.j.mul_req(*rhs)
        &&& self.k.mul_req(*rhs)
    }

    open spec fn mul_spec(self, rhs: &'b R) -> Quat<R> {
        arbitrary()
    }
}

impl<R: Copy + Mul<Output = R>> Mul<R> for Quat<R> {
    type Output = Quat<R>;

    fn mul(self, rhs: R) -> (r: Quat<R>)
        ensures
            R::obeys_mul_spec() ==> r == (Quat {
                w: self.w.mul_spec(rhs),
                i: self.i.mul_spec(rhs),
                j: self.j.mul_spec(rhs),
                k: self.k.mul_spec(rhs),
            }),
    {
        (&self).mul_scalar(&rhs)
    }
}

impl<R: Copy + Mul<Output = R>> MulSpecImpl<R> for Quat<R> {
    open spec fn obeys_mul_spec() -> bool {
        false
    }

    open spec fn mul_req(self, rhs: R) -> bool {
        &&& self.w.mul_req(rhs)
        &&& self.i.mul_req(rhs)
        &&& self.j.mul_req(rhs)
        &&& self.k.mul_req(rhs)
    }

    open spec fn mul_spec(self, rhs: R) -> Quat<R> {
        arbitrary()
    }
}

impl<R: Copy + Div<Output = R>> Quat<R> {
    /// Applies `div` to every component with `rhs` on the right.
    pub fn div_scalar(&self, rhs: &R) -> (r: Self)
        requires
            self.w.div_req(*rhs),
            self.i.div_req(*rhs),
            self.j.div_req(*rhs),
            self.k.div_req(*rhs),
        ensures
            R::obeys_div_spec() ==> r == (Quat {
                w: self.w.div_spec(*rhs),
                i: self.i.div_spec(*rhs),
                j: self.j.div_spec(*rhs),
                k: self.k.div_spec(*rhs),
            }),
    {
        let s = *rhs;
        Quat { w: self.w.div(s), i: self.i.div(s), j: self.j.div(s), k: self.k.div(s) }
    }

    /// Applies `div` to every component with `lhs` on the left.
    pub fn scalar_div(lhs: &R, rhs: &Self) -> (r: Self)
        requires
            (*lhs).div_req(rhs.w),
            (*lhs).div_req(rhs.i),
            (*lhs).div_req(rhs.j),
            (*lhs).div_req(rhs.k),
        ensures
            R::obeys_div_spec() ==> r == (Quat {
                w: (*lhs).div_spec(rhs.w),
                i: (*lhs).div_spec(rhs.i),
                j: (*lhs).div_spec(rhs.j),
                k: (*lhs).div_spec(rhs.k),
            }),
    {
        let s = *lhs;
        Quat { w: s.div(rhs.w), i: s.div(rhs.i), j: s.div(rhs.j), k: s.div(rhs.k) }
    }
}

impl<'a, 'b, R: Copy + Div<Output = R>> Div<&'b R> for &'a Quat<R> {
    type Output = Quat<R>;

    fn div(self, rhs: &'b R) -> (r: Quat<R>)
        ensures
            R::obeys_div_spec() ==> r == (Quat {
                w: self.w.div_spec(*rhs),
                i: self.i.div_spec(*rhs),
                j: self.j.div_spec(*rhs),
                k: self.k.div_spec(*rhs),
            }),
    {
        self.div_scalar(rhs)
    }
}

impl<'a, 'b, R: Copy + Div<Output = R>> DivSpecImpl<&'b R> for &'a Quat<R> {
    open spec fn obeys_div_spec() -> bool {
        false
    }

    open spec fn div_req(self, rhs: &'b R) -> bool {
        &&& self.w.div_req(*rhs)
        &&& self.i.div_req(*rhs)
        &&& self.j.div_req(*rhs)
        &&& self.k.div_req(*rhs)
    }

    open spec fn div_spec(self, rhs: &'b R) -> Quat<R> {
        arbitrary()
    }
}

impl<'a, R: Copy + Div<Output = R>> Div<R> for &'a Quat<R> {
    type Output = Quat<R>;

    fn div(self, rhs: R) -> (r: Quat<R>)
        ensures
            R::obeys_div_spec() ==> r == (Quat {
                w: self.w.div_spec(rhs),
                i: self.i.div_spec(rhs),
                j: self.j.div_spec(rhs),
                k: self.k.div_spec(rhs),
            }),
    {
        self.div_scalar(&rhs)
    }
}

impl<'a, R: Copy + Div<Output = R>> DivSpecImpl<R> for &'a Quat<R> {
    open spec fn obeys_div_spec() -> bool {
        false
    }

    open spec fn div_req(self, rhs: R) -> bool {
        &&& self.w.div_req(rhs)
        &&& self.i.div_req(rhs)
        &&& self.j.div_req(rhs)
        &&& self.k.div_req(rhs)
    }

    open spec fn div_spec(self, rhs: R) -> Quat<R> {
        arbitrary()
    }
}

impl<'b, R: Copy + Div<Output = R>> Div<&'b R> for Quat<R> {
    type Output = Quat<R>;

    fn div(self, rhs: &'b R) -> (r: Quat<R>)
        ensures
            R::obeys_div_spec() ==> r == (Quat {
                w: self.w.div_spec(*rhs),
                i: self.i.div_spec(*rhs),
                j: self.j.div_spec(*rhs),
                k: self.k.div_spec(*rhs),
            }),
    {
        (&self).div_scalar(rhs)
    }
}

impl<'b, R: Copy + Div<Output = R>> DivSpecImpl<&'b R> for Quat<R> {
    open spec fn obeys_div_spec() -> bool {
        false
    }

    open spec fn div_req(self, rhs: &'b R) -> bool {
        &&& self.w.div_req(*rhs)
        &&& self.i.div_req(*rhs)
        &&& self.j.div_req(*rhs)
        &&& self.k.div_req(*rhs)
    }

    open spec fn div_spec(self, rhs: &'b R) -> Quat<R> {
        arbitrary()
    }
}

impl<R: Copy + Div<Output = R>> Div<R> for Quat<R> {
    type Output = Quat<R>;

    fn div(self, rhs: R) -> (r: Quat<R>)
        ensures
            R::obeys_div_spec() ==> r == (Quat {
                w: self.w.div_spec(rhs),
                i: self.i.div_spec(rhs),
                j: self.j.div_spec(rhs),
                k: self.k.div_spec(rhs),
            }),
    {
        (&self).div_scalar(&rhs)
    }
}

impl<R: Copy + Div<Output = R>> DivSpecImpl<R> for Quat<R> {
    open spec fn obeys_div_spec() -> bool {
        false
    }

    open spec fn div_req(self, rhs: R) -> bool {
        &&& self.w.div_req(rhs)
        &&& self.i.div_req(rhs)
        &&& self.j.div_req(rhs)
        &&& self.k.div_req(rhs)
    }

    open spec fn div_spec(self, rhs: R) -> Quat<R> {
        arbitrary()
    }
}

} // verus!

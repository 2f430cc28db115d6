//! The Hamilton product of quaternions, the rotation of a vector by a quaternion, and applying
//! and composing affine transformations.

use vstd::prelude::*;
use std::ops::{Add, Div, Mul, Neg, Sub};
use vstd::std_specs::ops::{AddSpec, MulSpec, MulSpecImpl, NegSpec, SubSpec};
use super::affine::Affine;
use super::mat::{Mat, Vec3, Vec4};
use super::ops::Dot;
use super::ortho::arithmetic_total;
use super::quat::Quat;
use super::quat_convert::{quat_of_vec4, vec4_of_quat};
use super::scalar::scalar_zero;

verus! {

/// The Hamilton product `a b`; in each component the products are taken from left to right and
/// summed or subtracted from left to right.
pub open spec fn hamilton_spec<R: Add<Output = R> + Sub<Output = R> + Mul<Output = R>>(a: Quat<R>, b: Quat<R>) -> Quat<R> {
    Quat {
        w: a.w.mul_spec(b.w).sub_spec(a.i.mul_spec(b.i)).sub_spec(a.j.mul_spec(b.j)).sub_spec(a.k.mul_spec(b.k)),
        i: a.w.mul_spec(b.i).add_spec(a.i.mul_spec(b.w)).add_spec(a.j.mul_spec(b.k)).sub_spec(a.k.mul_spec(b.j)),
        j: a.w.mul_spec(b.j).sub_spec(a.i.mul_spec(b.k)).add_spec(a.j.mul_spec(b.w)).add_spec(a.k.mul_spec(b.i)),
        k: a.w.mul_spec(b.k).add_spec(a.i.mul_spec(b.j)).sub_spec(a.j.mul_spec(b.i)).add_spec(a.k.mul_spec(b.w)),
    }
}

/// The conjugate quaternion: the real part kept, the imaginary parts negated.
pub open spec fn conjugate_spec<R: Neg<Output = R>>(q: Quat<R>) -> Quat<R> {
    Quat { w: q.w, i: q.i.neg_spec(), j: q.j.neg_spec(), k: q.k.neg_spec() }
}

/// The vector `v`, read as the quaternion whose real part is its last component, multiplied by
/// `q` on the left and by the conjugate of `q` on the right: for a quaternion of unit length, the
/// first three components rotated and the last one kept.
pub open spec fn rotate_spec<R: Add<Output = R> + Sub<Output = R> + Mul<Output = R> + Neg<Output = R>>(q: Quat<R>, v: Vec4<R>) -> Vec4<R> {
    vec4_of_quat(hamilton_spec(hamilton_spec(q, quat_of_vec4(v)), conjugate_spec(q)))
}

/// `a` applied to the vector `v`, with `zero` the scalar type's additive identity: the first
/// three components scaled component-wise by `a.s`, the result rotated by `a.o`, then the
/// translation `a.t` added to the first three components and `zero` to the last.
pub open spec fn affine_apply_spec<R: Add<Output = R> + Sub<Output = R> + Mul<Output = R> + Neg<Output = R>>(a: Affine<R>, v: Vec4<R>, zero: R) -> Vec4<R> {
    let scaled = Mat([
        [a.s.at(0, 0).mul_spec(v.at(0, 0))],
        [a.s.at(1, 0).mul_spec(v.at(1, 0))],
        [a.s.at(2, 0).mul_spec(v.at(2, 0))],
        [v.at(3, 0)],
    ]);
    let rotated = rotate_spec(a.o, scaled);
    Mat([
        [a.t.at(0, 0).add_spec(rotated.at(0, 0))],
        [a.t.at(1, 0).add_spec(rotated.at(1, 0))],
        [a.t.at(2, 0).add_spec(rotated.at(2, 0))],
        [zero.add_spec(rotated.at(3, 0))],
    ])
}

/// The composition of `a` and `b`, part by part: the translations added, the orientations
/// multiplied (`a.o` on the left) and the scales multiplied component-wise.
pub open spec fn affine_compose_spec<R: Add<Output = R> + Sub<Output = R> + Mul<Output = R>>(a: Affine<R>, b: Affine<R>) -> Affine<R> {
    Affine {
        t: Mat([
            [a.t.at(0, 0).add_spec(b.t.at(0, 0))],
            [a.t.at(1, 0).add_spec(b.t.at(1, 0))],
            [a.t.at(2, 0).add_spec(b.t.at(2, 0))],
        ]),
        o: hamilton_spec(a.o, b.o),
        s: Mat([
            [a.s.at(0, 0).mul_spec(b.s.at(0, 0))],
            [a.s.at(1, 0).mul_spec(b.s.at(1, 0))],
            [a.s.at(2, 0).mul_spec(b.s.at(2, 0))],
        ]),
    }
}

impl<R: Copy + Add<Output = R> + Sub<Output = R> + Mul<Output = R> + Div<Output = R> + Neg<Output = R>> Quat<R> {
    /// The Hamilton product of `self` and `rhs`, `self` on the left.
    pub fn hamilton(&self, rhs: &Self) -> (r: Self)
        requires
            arithmetic_total::<R>(),
        ensures
            r == hamilton_spec(*self, *rhs),
    {
        let a = self;
        let b = rhs;
        Quat {
            w: a.w * b.w - a.i * b.i - a.j * b.j - a.k * b.k,
            i: a.w * b.i + a.i * b.w + a.j * b.k - a.k * b.j,
            j: a.w * b.j - a.i * b.k + a.j * b.w + a.k * b.i,
            k: a.w * b.k + a.i * b.j - a.j * b.i + a.k * b.w,
        }
    }

    /// `v` multiplied by `self` on the left and by its conjugate on the right; see
    /// `rotate_spec`.
    pub fn rotate(&self, v: &Vec4<R>) -> (r: Vec4<R>)
        requires
            arithmetic_total::<R>(),
        ensures
            r == rotate_spec(*self, *v),
    {
        let c = &v.0;
        let p = Quat { w: c[3][0], i: c[0][0], j: c[1][0], k: c[2][0] };
        let q = self.hamilton(&p).hamilton(&self.c());
        Mat([[q.i], [q.j], [q.k], [q.w]])
    }
}

impl<'a, 'b, R: Copy + Add<Output = R> + Sub<Output = R> + Mul<Output = R> + Div<Output = R> + Neg<Output = R>> Mul<&'b Quat<R>> for &'a Quat<R> {
    type Output = Quat<R>;

    fn mul(self, rhs: &'b Quat<R>) -> (r: Quat<R>)
        ensures
            r == hamilton_spec(*self, *rhs),
    {
        self.hamilton(rhs)
    }
}

impl<'a, 'b, R: Copy + Add<Output = R> + Sub<Output = R> + Mul<Output = R> + Div<Output = R> + Neg<Output = R>> MulSpecImpl<&'b Quat<R>> for &'a Quat<R> {
    open spec fn obeys_mul_spec() -> bool {
        true
    }

    open spec fn mul_req(self, rhs: &'b Quat<R>) -> bool {
        arithmetic_total::<R>()
    }

    open spec fn mul_spec(self, rhs: &'b Quat<R>) -> Quat<R> {
        hamilton_spec(*self, *rhs)
    }
}

impl<R: Copy + Add<Output = R> + Sub<Output = R> + Mul<Output = R> + Div<Output = R> + Neg<Output = R>> Mul<Quat<R>> for Quat<R> {
    type Output = Quat<R>;

    fn mul(self, rhs: Quat<R>) -> (r: Quat<R>)
        ensures
            r == hamilton_spec(self, rhs),
    {
        self.hamilton(&rhs)
    }
}

impl<R: Copy + Add<Output = R> + Sub<Output = R> + Mul<Output = R> + Div<Output = R> + Neg<Output = R>> MulSpecImpl<Quat<R>> for Quat<R> {
    open spec fn obeys_mul_spec() -> bool {
        true
    }

    open spec fn mul_req(self, rhs: Quat<R>) -> bool {
        arithmetic_total::<R>()
    }

    open spec fn mul_spec(self, rhs: Quat<R>) -> Quat<R> {
        hamilton_spec(self, rhs)
    }
}

impl<'a, 'b, R: Copy + Add<Output = R> + Sub<Output = R> + Mul<Output = R> + Div<Output = R> + Neg<Output = R>> Mul<&'b Vec4<R>> for &'a Quat<R> {
    type Output = Vec4<R>;

    fn mul(self, rhs: &'b Vec4<R>) -> (r: Vec4<R>)
        ensures
            r == rotate_spec(*self, *rhs),
    {
        self.rotate(rhs)
    }
}

impl<'a, 'b, R: Copy + Add<Output = R> + Sub<Output = R> + Mul<Output = R> + Div<Output = R> + Neg<Output = R>> MulSpecImpl<&'b Vec4<R>> for &'a Quat<R> {
    open spec fn obeys_mul_spec() -> bool {
        true
    }

    open spec fn mul_req(self, rhs: &'b Vec4<R>) -> bool {
        arithmetic_total::<R>()
    }

    open spec fn mul_spec(self, rhs: &'b Vec4<R>) -> Vec4<R> {
        rotate_spec(*self, *rhs)
    }
}

impl<R: Copy + Add<Output = R> + Sub<Output = R> + Mul<Output = R> + Div<Output = R> + Neg<Output = R>> Mul<Vec4<R>> for Quat<R> {
    type Output = Vec4<R>;

    fn mul(self, rhs: Vec4<R>) -> (r: Vec4<R>)
        ensures
            r == rotate_spec(self, rhs),
    {
        self.rotate(&rhs)
    }
}

impl<R: Copy + Add<Output = R> + Sub<Output = R> + Mul<Output = R> + Div<Output = R> + Neg<Output = R>> MulSpecImpl<Vec4<R>> for Quat<R> {
    open spec fn obeys_mul_spec() -> bool {
        true
    }

    open spec fn mul_req(self, rhs: Vec4<R>) -> bool {
        arithmetic_total::<R>()
    }

    open spec fn mul_spec(self, rhs: Vec4<R>) -> Vec4<R> {
        rotate_spec(self, rhs)
    }
}

impl<R: Copy + num_traits::Zero + Add<Output = R> + Sub<Output = R> + Mul<Output = R> + Div<Output = R> + Neg<Output = R>> Affine<R> {
    /// Applies the transformation to `v`; see `affine_apply_spec`.
    pub fn apply(&self, v: &Vec4<R>) -> (r: Vec4<R>)
        requires
            arithmetic_total::<R>(),
        ensures
            exists|z: R| #[trigger] call_ensures(scalar_zero::<R>, (), z) && r == affine_apply_spec(*self, *v, z),
    {
        let s = &self.s.0;
        let c = &v.0;
        let scaled: Vec4<R> = Mat([[s[0][0] * c[0][0]], [s[1][0] * c[1][0]], [s[2][0] * c[2][0]], [c[3][0]]]);
        let rotated = self.o.rotate(&scaled);
        let z = scalar_zero::<R>();
        let t = &self.t.0;
        let q = &rotated.0;
        let r = Mat([[t[0][0] + q[0][0]], [t[1][0] + q[1][0]], [t[2][0] + q[2][0]], [z + q[3][0]]]);
        assert(call_ensures(scalar_zero::<R>, (), z));
        r
    }
}

impl<'a, R: Copy + Add<Output = R> + Sub<Output = R> + Mul<Output = R> + Div<Output = R> + Neg<Output = R>> Dot for &'a Affine<R> {
    type Output = Affine<R>;

    open spec fn dot_req(&self, rhs: &Self) -> bool {
        arithmetic_total::<R>()
    }

    /// Composes the transformations part by part; see `affine_compose_spec`.
    fn dot(self, rhs: Self) -> (r: Affine<R>)
        ensures
            r == affine_compose_spec(*self, *rhs),
    {
        let a = &self.t.0;
        let b = &rhs.t.0;
        let c = &self.s.0;
        let d = &rhs.s.0;
        Affine {
            t: Mat([[a[0][0] + b[0][0]], [a[1][0] + b[1][0]], [a[2][0] + b[2][0]]]),
            o: self.o.hamilton(&rhs.o),
            s: Mat([[c[0][0] * d[0][0]], [c[1][0] * d[1][0]], [c[2][0] * d[2][0]]]),
        }
    }
}

impl<R: Copy + Add<Output = R> + Sub<Output = R> + Mul<Output = R> + Div<Output = R> + Neg<Output = R>> Dot for Affine<R> {
    type Output = Affine<R>;

    open spec fn dot_req(&self, rhs: &Self) -> bool {
        arithmetic_total::<R>()
    }

    /// Composes the transformations part by part; see `affine_compose_spec`.
    fn dot(self, rhs: Self) -> (r: Affine<R>)
        ensures
            r == affine_compose_spec(self, rhs),
    {
        (&self).dot(&rhs)
    }
}

impl<'a, R: Copy + Add<Output = R> + Sub<Output = R> + Mul<Output = R> + Div<Output = R> + Neg<Output = R>> Mul for &'a Affine<R> {
    type Output = Affine<R>;

    /// Composes the transformations part by part; see `affine_compose_spec`.
    fn mul(self, rhs: Self) -> (r: Affine<R>)
        ensures
            r == affine_compose_spec(*self, *rhs),
    {
        self.dot(rhs)
    }
}

impl<'a, R: Copy + Add<Output = R> + Sub<Output = R> + Mul<Output = R> + Div<Output = R> + Neg<Output = R>> MulSpecImpl for &'a Affine<R> {
    open spec fn obeys_mul_spec() -> bool {
        true
    }

    open spec fn mul_req(self, rhs: Self) -> bool {
        arithmetic_total::<R>()
    }

    open spec fn mul_spec(self, rhs: Self) -> Affine<R> {
        affine_compose_spec(*self, *rhs)
    }
}

impl<R: Copy + Add<Output = R> + Sub<Output = R> + Mul<Output = R> + Div<Output = R> + Neg<Output = R>> Mul for Affine<R> {
    type Output = Affine<R>;

    /// Composes the transformations part by part; see `affine_compose_spec`.
    fn mul(self, rhs: Self) -> (r: Affine<R>)
        ensures
            r == affine_compose_spec(self, rhs),
    {
        (&self).dot(&rhs)
    }
}

impl<R: Copy + Add<Output = R> + Sub<Output = R> + Mul<Output = R> + Div<Output = R> + Neg<Output = R>> MulSpecImpl for Affine<R> {
    open spec fn obeys_mul_spec() -> bool {
        true
    }

    open spec fn mul_req(self, rhs: Self) -> bool {
        arithmetic_total::<R>()
    }

    open spec fn mul_spec(self, rhs: Self) -> Affine<R> {
        affine_compose_spec(self, rhs)
    }
}

} // verus!


//! Column vectors of two, three and four dimensions: construction, component access, cross
//! products and homogeneous coordinates.

use vstd::prelude::*;
use std::ops::{Mul, Sub};
use vstd::std_specs::ops::{MulSpec, SubSpec};
use super::mat::{Mat, Vec2, Vec3, Vec4};
use super::ops::Cross;
use super::scalar::{scalar_one, scalar_zero};

verus! {

impl<R> Vec2<R> {
    /// A column vector with the components `x` and `y`.
    pub fn new(x: R, y: R) -> (r: Self)
        ensures
            r == Mat([[x], [y]]),
            r.at(0, 0) == x,
            r.at(1, 0) == y,
    {
        Mat([[x], [y]])
    }
}

impl<R: Copy> Vec2<R> {
    /// The first component.
    pub fn x(&self) -> (r: R)
        ensures
            r == self.at(0, 0),
    {
        self.0[0][0]
    }

    /// The second component.
    pub fn y(&self) -> (r: R)
        ensures
            r == self.at(1, 0),
    {
        self.0[1][0]
    }
}

impl<R> Vec3<R> {
    /// A column vector with the components `x`, `y` and `z`.
    pub fn new(x: R, y: R, z: R) -> (r: Self)
        ensures
            r == Mat([[x], [y], [z]]),
            r.at(0, 0) == x,
            r.at(1, 0) == y,
            r.at(2, 0) == z,
    {
        Mat([[x], [y], [z]])
    }
}

impl<R: Copy> Vec3<R> {
    /// The first component.
    pub fn x(&self) -> (r: R)
        ensures
            r == self.at(0, 0),
    {
        self.0[0][0]
    }

    /// The second component.
    pub fn y(&self) -> (r: R)
        ensures
            r == self.at(1, 0),
    {
        self.0[1][0]
    }

    /// The third component.
    pub fn z(&self) -> (r: R)
        ensures
            r == self.at(2, 0),
    {
        self.0[2][0]
    }

    /// The homogeneous coordinates of the vector taken as a direction: `w` is `zero`.
    pub fn to_homogeneous(&self, w: R) -> (r: Vec4<R>)
        ensures
            r.at(0, 0) == self.at(0, 0),
            r.at(1, 0) == self.at(1, 0),
            r.at(2, 0) == self.at(2, 0),
            r.at(3, 0) == w,
    {
        Vec4::new(self.x(), self.y(), self.z(), w)
    }
}

impl<R: Copy + num_traits::One> Vec3<R> {
    /// The homogeneous coordinates of the vector taken as a point: the fourth component is the
    /// scalar type's one.
    pub fn to_point4(&self) -> (r: Vec4<R>)
        ensures
            r.at(0, 0) == self.at(0, 0),
            r.at(1, 0) == self.at(1, 0),
            r.at(2, 0) == self.at(2, 0),
            call_ensures(scalar_one::<R>, (), r.at(3, 0)),
    {
        let o = scalar_one::<R>();
        self.to_homogeneous(o)
    }
}

impl<R: Copy + num_traits::Zero> Vec3<R> {
    /// The homogeneous coordinates of the vector taken as a direction: the fourth component is
    /// the scalar type's zero.
    pub fn to_vec4(&self) -> (r: Vec4<R>)
        ensures
            r.at(0, 0) == self.at(0, 0),
            r.at(1, 0) == self.at(1, 0),
            r.at(2, 0) == self.at(2, 0),
            call_ensures(scalar_zero::<R>, (), r.at(3, 0)),
    {
        let z = scalar_zero::<R>();
        self.to_homogeneous(z)
    }
}

impl<R> Vec4<R> {
    /// A column vector with the components `x`, `y`, `z` and `w`.
    pub fn new(x: R, y: R, z: R, w: R) -> (r: Self)
        ensures
            r == Mat([[x], [y], [z], [w]]),
            r.at(0, 0) == x,
            r.at(1, 0) == y,
            r.at(2, 0) == z,
            r.at(3, 0) == w,
    {
        Mat([[x], [y], [z], [w]])
    }
}

impl<R: Copy> Vec4<R> {
    /// The first component.
    pub fn x(&self) -> (r: R)
        ensures
            r == self.at(0, 0),
    {
        self.0[0][0]
    }

    /// The second component.
    pub fn y(&self) -> (r: R)
        ensures
            r == self.at(1, 0),
    {
        self.0[1][0]
    }

    /// The third component.
    pub fn z(&self) -> (r: R)
        ensures
            r == self.at(2, 0),
    {
        self.0[2][0]
    }

    /// The fourth component.
    pub fn w(&self) -> (r: R)
        ensures
            r == self.at(3, 0),
    {
        self.0[3][0]
    }
}

/// `a * b - c * d` in the scalars' arithmetic.
pub open spec fn cross_term<R: Mul<Output = R> + Sub<Output = R>>(a: R, b: R, c: R, d: R) -> R {
    a.mul_spec(b).sub_spec(c.mul_spec(d))
}

/// `a * b - c * d` can be computed without overflow.
pub open spec fn cross_term_req<R: Mul<Output = R> + Sub<Output = R>>(a: R, b: R, c: R, d: R) -> bool {
    &&& a.mul_req(b)
    &&& c.mul_req(d)
    &&& a.mul_spec(b).sub_req(c.mul_spec(d))
}

/// Computes `a * b - c * d`.
fn cross_term_exec<R: Copy + Mul<Output = R> + Sub<Output = R>>(a: R, b: R, c: R, d: R) -> (r: R)
    requires
        R::obeys_mul_spec(),
        R::obeys_sub_spec(),
        cross_term_req(a, b, c, d),
    ensures
        R::obeys_sub_spec() ==> r == cross_term(a, b, c, d),
{
    let p = a * b;
    let q = c * d;
    p - q
}

impl<R: Copy + Mul<Output = R> + Sub<Output = R>> Vec2<R> {
    /// The two-dimensional cross product `x * rhs.y - y * rhs.x` can be formed.
    pub open spec fn cross2_req(&self, rhs: &Self) -> bool {
        &&& R::obeys_mul_spec()
        &&& R::obeys_sub_spec()
        &&& cross_term_req(self.at(0, 0), rhs.at(1, 0), self.at(1, 0), rhs.at(0, 0))
    }

    /// The two-dimensional cross product: `x * rhs.y - y * rhs.x`.
    pub fn cross2(&self, rhs: &Self) -> (r: R)
        requires
            self.cross2_req(rhs),
        ensures
            r == cross_term(self.at(0, 0), rhs.at(1, 0), self.at(1, 0), rhs.at(0, 0)),
    {
        cross_term_exec(self.0[0][0], rhs.0[1][0], self.0[1][0], rhs.0[0][0])
    }
}

impl<R: Copy + Mul<Output = R> + Sub<Output = R>> Vec3<R> {
    /// The three-dimensional cross product can be formed.
    pub open spec fn cross3_req(&self, rhs: &Self) -> bool {
        &&& R::obeys_mul_spec()
        &&& R::obeys_sub_spec()
        &&& cross_term_req(self.at(0, 0), rhs.at(1, 0), self.at(1, 0), rhs.at(0, 0))
        &&& cross_term_req(self.at(1, 0), rhs.at(2, 0), self.at(2, 0), rhs.at(1, 0))
        &&& cross_term_req(self.at(2, 0), rhs.at(0, 0), self.at(0, 0), rhs.at(2, 0))
    }

    /// The three-dimensional cross product, with its components in the order
    /// `x * rhs.y - y * rhs.x`, `y * rhs.z - z * rhs.y`, `z * rhs.x - x * rhs.z`.
    pub fn cross3(&self, rhs: &Self) -> (r: Self)
        requires
            self.cross3_req(rhs),
        ensures
            r.at(0, 0) == cross_term(self.at(0, 0), rhs.at(1, 0), self.at(1, 0), rhs.at(0, 0)),
            r.at(1, 0) == cross_term(self.at(1, 0), rhs.at(2, 0), self.at(2, 0), rhs.at(1, 0)),
            r.at(2, 0) == cross_term(self.at(2, 0), rhs.at(0, 0), self.at(0, 0), rhs.at(2, 0)),
    {
        let a = cross_term_exec(self.0[0][0], rhs.0[1][0], self.0[1][0], rhs.0[0][0]);
        let b = cross_term_exec(self.0[1][0], rhs.0[2][0], self.0[2][0], rhs.0[1][0]);
        let c = cross_term_exec(self.0[2][0], rhs.0[0][0], self.0[0][0], rhs.0[2][0]);
        Vec3::new(a, b, c)
    }
}

/// The vector product of two three-dimensional vectors, with its components in the usual
/// order: `y * rhs.z - z * rhs.y`, `z * rhs.x - x * rhs.z`, `x * rhs.y - y * rhs.x`.
pub open spec fn vector_product_spec<R: Mul<Output = R> + Sub<Output = R>>(a: Vec3<R>, b: Vec3<R>) -> Vec3<R> {
    Mat([
        [cross_term(a.at(1, 0), b.at(2, 0), a.at(2, 0), b.at(1, 0))],
        [cross_term(a.at(2, 0), b.at(0, 0), a.at(0, 0), b.at(2, 0))],
        [cross_term(a.at(0, 0), b.at(1, 0), a.at(1, 0), b.at(0, 0))],
    ])
}

impl<R: Copy + Mul<Output = R> + Sub<Output = R>> Vec3<R> {
    /// The vector product can be formed.
    pub open spec fn vector_product_req(&self, rhs: &Self) -> bool {
        &&& R::obeys_mul_spec()
        &&& R::obeys_sub_spec()
        &&& cross_term_req(self.at(1, 0), rhs.at(2, 0), self.at(2, 0), rhs.at(1, 0))
        &&& cross_term_req(self.at(2, 0), rhs.at(0, 0), self.at(0, 0), rhs.at(2, 0))
        &&& cross_term_req(self.at(0, 0), rhs.at(1, 0), self.at(1, 0), rhs.at(0, 0))
    }

    /// The vector product, with its components in the usual order; see `vector_product_spec`.
    pub fn vector_product(&self, rhs: &Self) -> (r: Self)
        requires
            self.vector_product_req(rhs),
        ensures
            r == vector_product_spec(*self, *rhs),
    {
        let a = cross_term_exec(self.0[1][0], rhs.0[2][0], self.0[2][0], rhs.0[1][0]);
        let b = cross_term_exec(self.0[2][0], rhs.0[0][0], self.0[0][0], rhs.0[2][0]);
        let c = cross_term_exec(self.0[0][0], rhs.0[1][0], self.0[1][0], rhs.0[0][0]);
        let r = Vec3::new(a, b, c);
        proof {
            r.lemma_same_cells_equal(&vector_product_spec(*self, *rhs));
        }
        r
    }
}

impl<'a, R: Copy + Mul<Output = R> + Sub<Output = R>> Cross for &'a Vec2<R> {
    type Output = R;

    open spec fn cross_req(&self, rhs: &&'a Vec2<R>) -> bool {
        (*self).cross2_req(*rhs)
    }

    fn cross(self, rhs: &'a Vec2<R>) -> (r: R)
        ensures
            r == cross_term(self.at(0, 0), rhs.at(1, 0), self.at(1, 0), rhs.at(0, 0)),
    {
        self.cross2(rhs)
    }
}

impl<R: Copy + Mul<Output = R> + Sub<Output = R>> Cross for Vec2<R> {
    type Output = R;

    open spec fn cross_req(&self, rhs: &Vec2<R>) -> bool {
        self.cross2_req(rhs)
    }

    fn cross(self, rhs: Vec2<R>) -> (r: R)
        ensures
            r == cross_term(self.at(0, 0), rhs.at(1, 0), self.at(1, 0), rhs.at(0, 0)),
    {
        self.cross2(&rhs)
    }
}

impl<'a, R: Copy + Mul<Output = R> + Sub<Output = R>> Cross for &'a Vec3<R> {
    type Output = Vec3<R>;

    open spec fn cross_req(&self, rhs: &&'a Vec3<R>) -> bool {
        (*self).cross3_req(*rhs)
    }

    fn cross(self, rhs: &'a Vec3<R>) -> (r: Vec3<R>)
        ensures
            r.at(0, 0) == cross_term(self.at(0, 0), rhs.at(1, 0), self.at(1, 0), rhs.at(0, 0)),
            r.at(1, 0) == cross_term(self.at(1, 0), rhs.at(2, 0), self.at(2, 0), rhs.at(1, 0)),
            r.at(2, 0) == cross_term(self.at(2, 0), rhs.at(0, 0), self.at(0, 0), rhs.at(2, 0)),
    {
        self.cross3(rhs)
    }
}

impl<R: Copy + Mul<Output = R> + Sub<Output = R>> Cross for Vec3<R> {
    type Output = Vec3<R>;

    open spec fn cross_req(&self, rhs: &Vec3<R>) -> bool {
        self.cross3_req(rhs)
    }

    fn cross(self, rhs: Vec3<R>) -> (r: Vec3<R>)
        ensures
            r.at(0, 0) == cross_term(self.at(0, 0), rhs.at(1, 0), self.at(1, 0), rhs.at(0, 0)),
            r.at(1, 0) == cross_term(self.at(1, 0), rhs.at(2, 0), self.at(2, 0), rhs.at(1, 0)),
            r.at(2, 0) == cross_term(self.at(2, 0), rhs.at(0, 0), self.at(0, 0), rhs.at(2, 0)),
    {
        self.cross3(&rhs)
    }
}

} // verus!

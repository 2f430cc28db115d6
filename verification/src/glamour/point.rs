//! Points of three-dimensional space, and rays through them.

use vstd::prelude::*;
use std::ops::{Add, Mul};
use vstd::std_specs::ops::{AddSpec, MulSpec};
use super::mat::{Vec3, Vec4};
use super::norm::{add_mul_total, Unit};
use super::scalar::scalar_one;

verus! {

/// A point of three-dimensional space.
#[derive(Debug, Clone, Copy, PartialEq)]
pub struct Point3<R>(pub Vec3<R>);

impl<R: Copy> Point3<R> {
    /// The first coordinate.
    pub fn x(&self) -> (r: R)
        ensures
            r == self.0.at(0, 0),
    {
        self.0.0[0][0]
    }

    /// The second coordinate.
    pub fn y(&self) -> (r: R)
        ensures
            r == self.0.at(1, 0),
    {
        self.0.0[1][0]
    }

    /// The third coordinate.
    pub fn z(&self) -> (r: R)
        ensures
            r == self.0.at(2, 0),
    {
        self.0.0[2][0]
    }
}

impl<R: Copy + num_traits::One> Point3<R> {
    /// The homogeneous coordinates of the point: the fourth component is the scalar type's one.
    pub fn to_vec4(&self) -> (r: Vec4<R>)
        ensures
            r.at(0, 0) == self.0.at(0, 0),
            r.at(1, 0) == self.0.at(1, 0),
            r.at(2, 0) == self.0.at(2, 0),
            call_ensures(scalar_one::<R>, (), r.at(3, 0)),
    {
        let o = scalar_one::<R>();
        Vec4::new(self.x(), self.y(), self.z(), o)
    }
}

impl<R> From<Point3<R>> for Vec3<R> {
    fn from(value: Point3<R>) -> (r: Self)
        ensures
            r == value.0,
    {
        value.0
    }
}

impl<R> vstd::std_specs::convert::FromSpecImpl<Point3<R>> for Vec3<R> {
    open spec fn obeys_from_spec() -> bool {
        true
    }

    open spec fn from_spec(v: Point3<R>) -> Self {
        v.0
    }
}

/// A ray: an origin and a direction of unit length.
#[derive(Debug, PartialEq, Clone, Copy)]
pub struct Ray<R> {
    pub o: Vec4<R>,
    pub d: Unit<Vec4<R>>,
}

impl<R> Ray<R> {
    /// The ray from `origin` in the given direction.
    pub fn new<D: Into<Unit<Vec4<R>>>>(origin: Vec4<R>, direction: D) -> (r: Self)
        ensures
            r.o == origin,
            call_ensures(D::into, (direction,), r.d),
    {
        Ray { o: origin, d: direction.into() }
    }
}

impl<R: Copy + Add<Output = R> + Mul<Output = R>> Ray<R> {
    /// The point at the given distance along the ray: `o + d * position`.
    pub fn at(&self, position: &R) -> (r: Vec4<R>)
        requires
            add_mul_total::<R>(),
        ensures
            forall|a: int| 0 <= a < 4 ==> #[trigger] r.at(a, 0) == self.o.at(a, 0).add_spec(self.d.0.at(a, 0).mul_spec(*position)),
    {
        let scaled = self.d.0.mul_scalar(position);
        let r = self.o.add_elementwise(&scaled);
        assert forall|a: int| 0 <= a < 4 implies #[trigger] r.at(a, 0) == self.o.at(a, 0).add_spec(self.d.0.at(a, 0).mul_spec(*position)) by {
            assert(scaled.at(a, 0) == self.d.0.at(a, 0).mul_spec(*position));
        }
        r
    }
}

} // verus!

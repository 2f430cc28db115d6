//! Perspective projections.

use vstd::prelude::*;
use std::ops::{Add, Div, Mul, Neg, Sub};
use vstd::std_specs::ops::{AddSpec, DivSpec, MulSpec, NegSpec, SubSpec};
use super::mat::{Mat, Mat4};
use super::ortho::arithmetic_total;
use super::scalar::{scalar_one, scalar_tan, scalar_zero};

verus! {

/// A perspective projection matrix.
#[derive(Debug, Clone, Copy, PartialEq)]
pub struct Persp<R>(pub Mat4<R>);

impl<R> Persp<R> {
    /// The projection matrix.
    pub fn as_matrix(&self) -> (r: &Mat4<R>)
        ensures
            *r == self.0,
    {
        &self.0
    }

    /// The projection matrix.
    pub fn as_ref(&self) -> (r: &Mat4<R>)
        ensures
            *r == self.0,
    {
        &self.0
    }
}

/// The perspective projection matrix for the aspect ratio `aspect`, `cot`, the cotangent of
/// half the vertical field of view, and the near and far planes, with `zero` and `one` the
/// scalar type's neutral elements and `two = one + one`: the diagonal is `cot / aspect`, `cot`,
/// `(far_z + near_z) / (near_z - far_z)` and `zero`; row 2, column 3 holds
/// `(two * far_z * near_z) / (near_z - far_z)` and row 3, column 2 holds `-one`.
pub open spec fn persp_matrix<R: Add<Output = R> + Sub<Output = R> + Mul<Output = R> + Div<Output = R> + Neg<Output = R>>(aspect: R, cot: R, near_z: R, far_z: R, zero: R, one: R) -> Mat4<R> {
    let two = one.add_spec(one);
    let depth = near_z.sub_spec(far_z);
    Mat([
        [cot.div_spec(aspect), zero, zero, zero],
        [zero, cot, zero, zero],
        [zero, zero, far_z.add_spec(near_z).div_spec(depth), two.mul_spec(far_z).mul_spec(near_z).div_spec(depth)],
        [zero, zero, one.neg_spec(), zero],
    ])
}

/// The inverse of a perspective projection matrix `m` of the shape that `persp_matrix` gives,
/// with `zero` and `one` the scalar type's neutral elements.
pub open spec fn persp_inverse<R: Add<Output = R> + Sub<Output = R> + Mul<Output = R> + Div<Output = R> + Neg<Output = R>>(m: Mat4<R>, zero: R, one: R) -> Mat4<R> {
    Mat([
        [one.div_spec(m.at(0, 0)), zero, zero, zero],
        [zero, one.div_spec(m.at(1, 1)), zero, zero],
        [zero, zero, zero, one.neg_spec()],
        [zero, zero, one.div_spec(m.at(2, 3)), m.at(2, 2).div_spec(m.at(2, 3))],
    ])
}

impl<R: Copy + Add<Output = R> + Sub<Output = R> + Mul<Output = R> + Div<Output = R> + Neg<Output = R>> Persp<R> {
    /// The perspective projection for the given parameters; see `persp_matrix`.
    pub fn from_parameters(aspect: R, cot: R, near_z: R, far_z: R, zero: R, one: R) -> (r: Self)
        requires
            arithmetic_total::<R>(),
        ensures
            r.0 == persp_matrix(aspect, cot, near_z, far_z, zero, one),
    {
        let two = one + one;
        let depth = near_z - far_z;
        let m22 = (far_z + near_z) / depth;
        let m23 = two * far_z * near_z / depth;
        Persp(Mat([[cot / aspect, zero, zero, zero], [zero, cot, zero, zero], [zero, zero, m22, m23], [zero, zero, one.neg(), zero]]))
    }

    /// The inverse projection, for the neutral elements `zero` and `one`; see `persp_inverse`.
    pub fn inv_with(&self, zero: R, one: R) -> (r: Self)
        requires
            arithmetic_total::<R>(),
        ensures
            r.0 == persp_inverse(self.0, zero, one),
    {
        let m = &self.0;
        let m00 = one / m.0[0][0];
        let m11 = one / m.0[1][1];
        let m32 = one / m.0[2][3];
        let m33 = m.0[2][2] / m.0[2][3];
        Persp(Mat([[m00, zero, zero, zero], [zero, m11, zero, zero], [zero, zero, zero, one.neg()], [zero, zero, m32, m33]]))
    }

    /// Sets the first cell of the diagonal to `aspect` times the second.
    pub fn set_aspect(&mut self, aspect: R)
        requires
            arithmetic_total::<R>(),
        ensures
            forall|a: int, b: int|
                0 <= a < 4 && 0 <= b < 4 ==> #[trigger] final(self).0.at(a, b) == (if a == 0 && b == 0 {
                    aspect.mul_spec(old(self).0.at(1, 1))
                } else {
                    old(self).0.at(a, b)
                }),
    {
        let v = aspect * self.0.0[1][1];
        self.0.set(0, 0, v);
    }
}

impl<R: Copy + num_traits::Float + Add<Output = R> + Sub<Output = R> + Mul<Output = R> + Div<Output = R> + Neg<Output = R>> Persp<R> {
    /// The inverse projection.
    pub fn inv(&self) -> (r: Self)
        requires
            arithmetic_total::<R>(),
        ensures
            exists|z: R, o: R|
                #[trigger] call_ensures(scalar_zero::<R>, (), z) && #[trigger] call_ensures(scalar_one::<R>, (), o)
                    && r.0 == persp_inverse(self.0, z, o),
    {
        let z = scalar_zero::<R>();
        let o = scalar_one::<R>();
        let r = self.inv_with(z, o);
        assert(r.0 == persp_inverse(self.0, z, o));
        r
    }

    /// The perspective projection for the aspect ratio, the vertical field of view and the near
    /// and far planes: `persp_matrix` with the cotangent of half the field of view.
    ///
    /// For the aspect ratio 1.5, the field of view π/4 and the planes 0.1 and 1000 its diagonal
    /// is about 1.6095, 2.4142, -1.0002 and 0, with -0.2000 in row 2, column 3 and -1 in row 3,
    /// column 2. Its inverse (`inv`) has the diagonal 0.6213, 0.4142, 0 and 5.0005, with -1 in
    /// row 2, column 3 and -4.9995 in row 3, column 2: the values that a test of inversion
    /// checks are those of the inverse, not of this matrix.
    pub fn new(aspect: R, fov_y: R, near_z: R, far_z: R) -> (r: Self)
        requires
            arithmetic_total::<R>(),
        ensures
            exists|z: R, o: R, t: R|
                #[trigger] call_ensures(scalar_zero::<R>, (), z) && #[trigger] call_ensures(scalar_one::<R>, (), o)
                    && #[trigger] call_ensures(scalar_tan::<R>, (fov_y.div_spec(o.add_spec(o)),), t)
                    && r.0 == persp_matrix(aspect, o.div_spec(t), near_z, far_z, z, o),
    {
        let z = scalar_zero::<R>();
        let o = scalar_one::<R>();
        let t = scalar_tan(fov_y / (o + o));
        let cot = o / t;
        let r = Persp::from_parameters(aspect, cot, near_z, far_z, z, o);
        assert(r.0 == persp_matrix(aspect, o.div_spec(t), near_z, far_z, z, o));
        r
    }
}

} // verus!

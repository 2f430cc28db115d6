//! Orthographic projections and a builder that checks their parameters.

use vstd::prelude::*;
use std::ops::{Add, Div, Neg, Sub};
use vstd::std_specs::ops::{AddSpec, DivSpec, NegSpec, SubSpec};
use std::ops::Mul;
use vstd::std_specs::ops::MulSpec;
use super::mat::{Mat, Mat4};
use super::scalar::{scalar_lt, scalar_one, scalar_relative_eq, scalar_tan, scalar_zero};

verus! {

/// An orthographic projection matrix.
#[derive(Debug, PartialEq, Clone, Copy)]
pub struct Ortho<R>(pub Mat4<R>);

/// Collects the parameters of an orthographic projection.
#[derive(Debug, PartialEq, Clone, Copy)]
pub struct OrthoBuilder<R> {
    pub aspect: Option<R>,
    pub fov_y: Option<R>,
    pub near_z: Option<R>,
    pub far_z: Option<R>,
}

/// Describes why the parameters of an orthographic projection were refused.
#[derive(Debug, Clone, Copy, PartialEq)]
pub enum Error {
    /// The aspect ratio was not given.
    MissingAspectRatio,
    /// The aspect ratio is negative or zero.
    AspectRatioMustBePositive,
    /// The vertical field of view was not given.
    MissingFieldOfView,
    /// The vertical field of view is zero.
    FieldOfViewMustBeNonZero,
    /// The near plane was not given.
    MissingNearFrustumPlane,
    /// The far plane was not given.
    MissingFarFrustumPlane,
    /// The near and far planes are equal.
    FrustumZPlanesMustNotSuperimpose,
}

impl Error {
    /// The message that describes the error.
    pub fn message(&self) -> (r: &'static str)
        ensures
            r@ == (match *self {
                Error::MissingAspectRatio => "missing parameter 'aspect'. Use the method `OrthoBuilder::with_aspect` to specify this parameter"@,
                Error::AspectRatioMustBePositive => "the 'aspect' parameter must be non-negative and larger than zero"@,
                Error::MissingFieldOfView => "missing parameter 'fov_y'. Use the method `OrthoBuilder::with_fov_y` to specify this parameter"@,
                Error::FieldOfViewMustBeNonZero => "the 'fov_y' parameter must not be zero"@,
                Error::MissingNearFrustumPlane => "missing parameter 'near_z'. Use the method `OrthoBuilder::with_near_z` to specify this parameter"@,
                Error::MissingFarFrustumPlane => "missing parameter 'far_z'. Use the method `OrthoBuilder::with_far_z` to specify this parameter"@,
                Error::FrustumZPlanesMustNotSuperimpose => "the 'near_z' and 'far_z' parameters must not be similar"@,
            }),
    {
        match self {
            Error::MissingAspectRatio => "missing parameter 'aspect'. Use the method `OrthoBuilder::with_aspect` to specify this parameter",
            Error::AspectRatioMustBePositive => "the 'aspect' parameter must be non-negative and larger than zero",
            Error::MissingFieldOfView => "missing parameter 'fov_y'. Use the method `OrthoBuilder::with_fov_y` to specify this parameter",
            Error::FieldOfViewMustBeNonZero => "the 'fov_y' parameter must not be zero",
            Error::MissingNearFrustumPlane => "missing parameter 'near_z'. Use the method `OrthoBuilder::with_near_z` to specify this parameter",
            Error::MissingFarFrustumPlane => "missing parameter 'far_z'. Use the method `OrthoBuilder::with_far_z` to specify this parameter",
            Error::FrustumZPlanesMustNotSuperimpose => "the 'near_z' and 'far_z' parameters must not be similar",
        }
    }
}

impl<R> Ortho<R> {
    /// The projection matrix.
    pub fn as_matrix(&self) -> (r: &Mat4<R>)
        ensures
            *r == self.0,
    {
        &self.0
    }

    /// The projection matrix.
    pub fn as_ref(&self) -> (r: &Mat4<R>)
        ensures
            *r == self.0,
    {
        &self.0
    }

    /// A builder with no parameter set.
    pub fn builder() -> (r: OrthoBuilder<R>)
        ensures
            r.aspect is None,
            r.fov_y is None,
            r.near_z is None,
            r.far_z is None,
    {
        OrthoBuilder { aspect: None, fov_y: None, near_z: None, far_z: None }
    }
}

impl<R> Default for OrthoBuilder<R> {
    fn default() -> (r: Self)
        ensures
            r.aspect is None,
            r.fov_y is None,
            r.near_z is None,
            r.far_z is None,
    {
        OrthoBuilder { aspect: None, fov_y: None, near_z: None, far_z: None }
    }
}

impl<R> OrthoBuilder<R> {
    /// Sets the aspect ratio.
    pub fn with_aspect(self, a: R) -> (r: Self)
        ensures
            r == (OrthoBuilder { aspect: Some(a), ..self }),
    {
        OrthoBuilder { aspect: Some(a), ..self }
    }

    /// Sets the vertical field of view.
    pub fn with_fov_y(self, f: R) -> (r: Self)
        ensures
            r == (OrthoBuilder { fov_y: Some(f), ..self }),
    {
        OrthoBuilder { fov_y: Some(f), ..self }
    }

    /// Sets the near plane.
    pub fn with_near_z(self, n: R) -> (r: Self)
        ensures
            r == (OrthoBuilder { near_z: Some(n), ..self }),
    {
        OrthoBuilder { near_z: Some(n), ..self }
    }

    /// Sets the far plane.
    pub fn with_far_z(self, f: R) -> (r: Self)
        ensures
            r == (OrthoBuilder { far_z: Some(f), ..self }),
    {
        OrthoBuilder { far_z: Some(f), ..self }
    }
}

/// What the checks of the scalar values found: whether the aspect ratio is below zero, whether
/// it is close to zero, whether the field of view is close to zero, and whether the near and far
/// planes are close to each other. A check whose parameter is missing reads `false`.
#[derive(Debug, Clone, Copy, PartialEq)]
pub struct OrthoChecks {
    pub aspect_negative: bool,
    pub aspect_near_zero: bool,
    pub fov_y_near_zero: bool,
    pub planes_near: bool,
}

/// The outcome of the parameter checks, in the order in which the builder makes them: the
/// aspect ratio first, then the field of view, then the two planes.
pub open spec fn check_outcome<R>(b: OrthoBuilder<R>, c: OrthoChecks) -> Result<(R, R, R, R), Error> {
    if b.aspect is None {
        Err(Error::MissingAspectRatio)
    } else if c.aspect_negative || c.aspect_near_zero {
        Err(Error::AspectRatioMustBePositive)
    } else if b.fov_y is None {
        Err(Error::MissingFieldOfView)
    } else if c.fov_y_near_zero {
        Err(Error::FieldOfViewMustBeNonZero)
    } else if b.near_z is None {
        Err(Error::MissingNearFrustumPlane)
    } else if b.far_z is None {
        Err(Error::MissingFarFrustumPlane)
    } else if c.planes_near {
        Err(Error::FrustumZPlanesMustNotSuperimpose)
    } else {
        Ok((b.aspect->0, b.fov_y->0, b.near_z->0, b.far_z->0))
    }
}

impl<R: Copy> OrthoBuilder<R> {
    /// Decides, from the parameters and what the checks of their values found, whether the
    /// projection can be built, and with which parameters.
    pub fn check(&self, c: OrthoChecks) -> (r: Result<(R, R, R, R), Error>)
        ensures
            r == check_outcome(*self, c),
    {
        let aspect = match self.aspect {
            None => {
                return Err(Error::MissingAspectRatio);
            },
            Some(a) => {
                if c.aspect_negative || c.aspect_near_zero {
                    return Err(Error::AspectRatioMustBePositive);
                }
                a
            },
        };
        let fov_y = match self.fov_y {
            None => {
                return Err(Error::MissingFieldOfView);
            },
            Some(f) => {
                if c.fov_y_near_zero {
                    return Err(Error::FieldOfViewMustBeNonZero);
                }
                f
            },
        };
        let (near_z, far_z) = match (self.near_z, self.far_z) {
            (None, _) => {
                return Err(Error::MissingNearFrustumPlane);
            },
            (_, None) => {
                return Err(Error::MissingFarFrustumPlane);
            },
            (Some(n), Some(f)) => {
                if c.planes_near {
                    return Err(Error::FrustumZPlanesMustNotSuperimpose);
                }
                (n, f)
            },
        };
        Ok((aspect, fov_y, near_z, far_z))
    }
}

/// The scalar operations of the projection formulas can be called on any values and follow
/// vstd's specification of them: a call of an operator on a generic scalar type must meet the
/// operator's `*_req`, and its result is known only where the type obeys the operator's
/// specification.
pub open spec fn arithmetic_total<R: Add<Output = R> + Sub<Output = R> + Mul<Output = R> + Div<Output = R> + Neg<Output = R>>() -> bool {
    &&& R::obeys_add_spec()
    &&& R::obeys_sub_spec()
    &&& R::obeys_mul_spec()
    &&& R::obeys_div_spec()
    &&& R::obeys_neg_spec()
    &&& forall|x: R, y: R| #[trigger] x.add_req(y)
    &&& forall|x: R, y: R| #[trigger] x.sub_req(y)
    &&& forall|x: R, y: R| #[trigger] x.mul_req(y)
    &&& forall|x: R, y: R| #[trigger] x.div_req(y)
    &&& forall|x: R| #[trigger] x.neg_req()
}

/// The orthographic projection matrix for the far plane `far_z`, the near plane `near_z`, the
/// aspect ratio `aspect` and `half_tan`, the tangent of half the vertical field of view, with
/// `zero` and `one` the scalar type's neutral elements and `two = one + one`:
/// `width = far_z * half_tan`, `height = width / aspect`, and the diagonal
/// `two / width, two / height, -two / (far_z - near_z), one` with `-(far_z + near_z) / (far_z - near_z)`
/// in row 2, column 3.
pub open spec fn ortho_matrix<R: Add<Output = R> + Sub<Output = R> + Mul<Output = R> + Div<Output = R> + Neg<Output = R>>(aspect: R, half_tan: R, near_z: R, far_z: R, zero: R, one: R) -> Mat4<R> {
    let t = one.add_spec(one);
    let width = far_z.mul_spec(half_tan);
    let height = width.div_spec(aspect);
    let depth = far_z.sub_spec(near_z);
    Mat([
        [t.div_spec(width), zero, zero, zero],
        [zero, t.div_spec(height), zero, zero],
        [zero, zero, t.neg_spec().div_spec(depth), far_z.add_spec(near_z).neg_spec().div_spec(depth)],
        [zero, zero, zero, one],
    ])
}

impl<R: Copy + Add<Output = R> + Sub<Output = R> + Mul<Output = R> + Div<Output = R> + Neg<Output = R>> Ortho<R> {
    /// The orthographic projection for the given parameters; see `ortho_matrix`.
    pub fn from_parameters(aspect: R, half_tan: R, near_z: R, far_z: R, zero: R, one: R) -> (r: Self)
        requires
            arithmetic_total::<R>(),
        ensures
            r.0 == ortho_matrix(aspect, half_tan, near_z, far_z, zero, one),
    {
        let t = one + one;
        let width = far_z * half_tan;
        let height = width / aspect;
        let depth = far_z - near_z;
        let m00 = t / width;
        let m11 = t / height;
        let m22 = t.neg() / depth;
        let m23 = (far_z + near_z).neg() / depth;
        Ortho(Mat([[m00, zero, zero, zero], [zero, m11, zero, zero], [zero, zero, m22, m23], [zero, zero, zero, one]]))
    }
}

/// `c` holds what the checks of the builder's values found, with `zero` the scalar type's
/// additive identity: whether the aspect ratio is below zero (`PartialOrd::lt`) and whether it
/// is close to zero, whether the field of view is close to zero, and whether the two planes are
/// close to each other, closeness as `approx::relative_eq!` decides it. A check whose values
/// are missing finds nothing.
pub open spec fn checks_found<R: PartialOrd + approx::RelativeEq>(b: OrthoBuilder<R>, zero: R, c: OrthoChecks) -> bool {
    &&& match b.aspect {
        Some(a) => call_ensures(scalar_lt::<R>, (a, zero), c.aspect_negative) && call_ensures(
            scalar_relative_eq::<R>,
            (a, zero),
            c.aspect_near_zero,
        ),
        None => !c.aspect_negative && !c.aspect_near_zero,
    }
    &&& match b.fov_y {
        Some(f) => call_ensures(scalar_relative_eq::<R>, (f, zero), c.fov_y_near_zero),
        None => !c.fov_y_near_zero,
    }
    &&& match (b.near_z, b.far_z) {
        (Some(n), Some(fz)) => call_ensures(scalar_relative_eq::<R>, (n, fz), c.planes_near),
        _ => !c.planes_near,
    }
}

impl<R: Copy + num_traits::Float + approx::RelativeEq + PartialOrd + Add<Output = R> + Sub<Output = R> + Mul<Output = R> + Div<Output = R> + Neg<Output = R>> OrthoBuilder<R> {
    /// Checks the parameters and builds the projection: an error names the first parameter
    /// that is missing or refused, in the order of `check_outcome`; the aspect ratio is refused
    /// below zero or close to zero, the field of view close to zero, and the planes when close
    /// to each other, as `checks_found` states. Otherwise the projection is built from the
    /// parameters, with the tangent of half the field of view.
    pub fn build(self) -> (r: Result<Ortho<R>, Error>)
        requires
            self.aspect is Some && self.fov_y is Some && self.near_z is Some && self.far_z is Some ==> arithmetic_total::<R>(),
        ensures
            exists|z: R, c: OrthoChecks| {
                &&& #[trigger] call_ensures(scalar_zero::<R>, (), z)
                &&& #[trigger] checks_found(self, z, c)
                &&& check_outcome(self, c) matches Err(e) ==> r == Err::<Ortho<R>, Error>(e)
                &&& check_outcome(self, c) matches Ok((a, f, n, fz)) ==> exists|o: R, h: R|
                    call_ensures(scalar_one::<R>, (), o) && call_ensures(scalar_tan::<R>, (f.div_spec(o.add_spec(o)),), h)
                        && r == Ok::<Ortho<R>, Error>(Ortho(#[trigger] ortho_matrix(a, h, n, fz, z, o)))
            },
    {
        let z = scalar_zero::<R>();
        let o = scalar_one::<R>();
        let c = OrthoChecks {
            aspect_negative: match self.aspect {
                Some(a) => scalar_lt(a, z),
                None => false,
            },
            aspect_near_zero: match self.aspect {
                Some(a) => scalar_relative_eq(a, z),
                None => false,
            },
            fov_y_near_zero: match self.fov_y {
                Some(f) => scalar_relative_eq(f, z),
                None => false,
            },
            planes_near: match (self.near_z, self.far_z) {
                (Some(n), Some(f)) => scalar_relative_eq(n, f),
                _ => false,
            },
        };
        assert(call_ensures(scalar_zero::<R>, (), z));
        assert(checks_found(self, z, c));
        match self.check(c) {
            Err(e) => Err(e),
            Ok((aspect, fov_y, near_z, far_z)) => {
                let t = o + o;
                let h = scalar_tan(fov_y / t);
                let r = Ortho::from_parameters(aspect, h, near_z, far_z, z, o);
                assert(r.0 == ortho_matrix(aspect, h, near_z, far_z, z, o));
                assert(call_ensures(scalar_one::<R>, (), o));
                Ok(r)
            },
        }
    }
}

} // verus!

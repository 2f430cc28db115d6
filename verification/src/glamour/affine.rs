//! Affine transformations made of a translation, an orientation and a scale, and a builder for
//! them.

use vstd::prelude::*;
use std::ops::Neg;
use vstd::std_specs::ops::NegSpec;
use super::mat::{Mat, Vec3};
use super::quat::Quat;
use super::scalar::{scalar_one, scalar_recip, scalar_zero};

verus! {

/// An affine transformation: a translation `t`, an orientation `o` and a scale `s`.
#[derive(Debug, PartialEq, Clone, Copy)]
pub struct Affine<R> {
    pub t: Vec3<R>,
    pub o: Quat<R>,
    pub s: Vec3<R>,
}

/// Collects the parts of an affine transformation; parts left out take their neutral value.
#[derive(Debug, Clone, Copy)]
pub struct AffineBuilder<R> {
    pub t: Option<Vec3<R>>,
    pub o: Option<Quat<R>>,
    pub s: Option<Vec3<R>>,
}

impl<R> Default for AffineBuilder<R> {
    fn default() -> (r: Self)
        ensures
            r.t is None,
            r.o is None,
            r.s is None,
    {
        AffineBuilder { t: None, o: None, s: None }
    }
}

impl<R> Affine<R> {
    /// A builder with no part set.
    pub fn builder() -> (r: AffineBuilder<R>)
        ensures
            r.t is None,
            r.o is None,
            r.s is None,
    {
        AffineBuilder { t: None, o: None, s: None }
    }
}

impl<R> AffineBuilder<R> {
    /// Sets the translation.
    pub fn with_translation(self, v: Vec3<R>) -> (r: Self)
        ensures
            r.t == Some(v),
            r.o == self.o,
            r.s == self.s,
    {
        AffineBuilder { t: Some(v), o: self.o, s: self.s }
    }

    /// Sets the orientation.
    pub fn with_orientation(self, q: Quat<R>) -> (r: Self)
        ensures
            r.t == self.t,
            r.o == Some(q),
            r.s == self.s,
    {
        AffineBuilder { t: self.t, o: Some(q), s: self.s }
    }

    /// Sets the scale.
    pub fn with_scale(self, v: Vec3<R>) -> (r: Self)
        ensures
            r.t == self.t,
            r.o == self.o,
            r.s == Some(v),
    {
        AffineBuilder { t: self.t, o: self.o, s: Some(v) }
    }
}

impl<R: Copy> AffineBuilder<R> {
    /// `r` is the transformation that the builder describes when `zero` and `one` are the scalar
    /// type's neutral elements: an unset translation is `zero` in every component, an unset
    /// orientation is `w = one, i = j = k = zero`, and an unset scale is `one` in every
    /// component.
    pub open spec fn builds(self, r: Affine<R>, zero: R, one: R) -> bool {
        &&& match self.t {
            Some(t) => r.t == t,
            None => r.t.filled_with(zero),
        }
        &&& match self.o {
            Some(o) => r.o == o,
            None => r.o == Quat { w: one, i: zero, j: zero, k: zero },
        }
        &&& match self.s {
            Some(s) => r.s == s,
            None => r.s.filled_with(one),
        }
    }

    /// Builds the transformation with `zero` and `one` as the neutral elements of the scalar
    /// type.
    pub fn build_with(self, zero: R, one: R) -> (r: Affine<R>)
        ensures
            self.builds(r, zero, one),
    {
        let t = match self.t {
            Some(t) => t,
            None => Vec3::new(zero, zero, zero),
        };
        let o = match self.o {
            Some(o) => o,
            None => Quat::new(one, zero, zero, zero),
        };
        let s = match self.s {
            Some(s) => s,
            None => Vec3::new(one, one, one),
        };
        Affine { t, o, s }
    }
}

impl<R: Copy + num_traits::Zero + num_traits::One> AffineBuilder<R> {
    /// Builds the transformation: a part that was not set is the zero translation, the
    /// identity rotation or the unit scale of the scalar type.
    pub fn build(self) -> (r: Affine<R>)
        ensures
            exists|z: R, o: R|
                call_ensures(scalar_zero::<R>, (), z) && call_ensures(scalar_one::<R>, (), o)
                    && #[trigger] self.builds(r, z, o),
    {
        let z = scalar_zero::<R>();
        let o = scalar_one::<R>();
        self.build_with(z, o)
    }
}

impl<R: Copy + num_traits::Zero + num_traits::One> Affine<R> {
    /// The identity transformation: no translation, the identity rotation and the unit scale.
    pub fn identity() -> (r: Self)
        ensures
            exists|z: R, o: R|
                call_ensures(scalar_zero::<R>, (), z) && call_ensures(scalar_one::<R>, (), o) && #[trigger] r.t.filled_with(z)
                    && r.o == (Quat { w: o, i: z, j: z, k: z }) && #[trigger] r.s.filled_with(o),
    {
        let r = Affine::builder().build();
        let ghost b = AffineBuilder::<R> { t: None, o: None, s: None };
        assert(exists|z: R, o: R|
            call_ensures(scalar_zero::<R>, (), z) && call_ensures(scalar_one::<R>, (), o) && #[trigger] b.builds(r, z, o));
        r
    }
}

impl<R: Copy + num_traits::Float + Neg<Output = R>> Affine<R> {
    /// The inverse parts: the negated translation, the conjugate orientation and the
    /// component-wise inverse of the scale.
    pub fn inv(&self) -> (r: Self)
        requires
            forall|a: int, b: int| 0 <= a < 3 && 0 <= b < 1 ==> self.t.at(a, b).neg_req(),
            self.o.i.neg_req(),
            self.o.j.neg_req(),
            self.o.k.neg_req(),
        ensures
            R::obeys_neg_spec() ==> forall|a: int| 0 <= a < 3 ==> #[trigger] r.t.at(a, 0) == self.t.at(a, 0).neg_spec(),
            r.o.w == self.o.w,
            R::obeys_neg_spec() ==> r.o.i == self.o.i.neg_spec() && r.o.j == self.o.j.neg_spec() && r.o.k
                == self.o.k.neg_spec(),
            forall|a: int| 0 <= a < 3 ==> call_ensures(scalar_recip::<R>, (self.s.at(a, 0),), #[trigger] r.s.at(a, 0)),
    {
        let t = self.t.neg_elementwise();
        let o = self.o.c();
        let s = self.s.inv_elem();
        Affine { t, o, s }
    }
}

} // verus!

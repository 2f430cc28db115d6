//! The scalar operations that the matrix code takes from `num_traits` and `approx`.
//!
//! The results of these calls depend on the scalar type, which is a type parameter here; so no
//! contract below names them: a function that makes one of these calls states what holds
//! whatever came back, and a verified function beside it takes the result as an argument.

use vstd::prelude::*;

verus! {

/// Calls `num_traits::Zero::zero`: the additive identity of the scalar type. The value is not
/// stated here, since it depends on the scalar type alone.
#[verifier::external_body]
pub fn scalar_zero<R: num_traits::Zero>() -> R {
    R::zero()
}

/// Calls `num_traits::One::one`: the multiplicative identity of the scalar type. The value is
/// not stated here, since it depends on the scalar type alone.
#[verifier::external_body]
pub fn scalar_one<R: num_traits::One>() -> R {
    R::one()
}

} // verus!

verus! {

/// Calls `num_traits::Float::recip`: the multiplicative inverse of `x`. Nothing is stated of the
/// value, which depends on the scalar type's implementation.
#[verifier::external_body]
pub fn scalar_recip<R: num_traits::Float>(x: R) -> R {
    x.recip()
}

/// Calls `num_traits::Float::sqrt`: the square root of `x`. Nothing is stated of the value,
/// which depends on the scalar type's implementation.
#[verifier::external_body]
pub fn scalar_sqrt<R: num_traits::Float>(x: R) -> R {
    x.sqrt()
}

} // verus!

verus! {

/// Calls `num_traits::Float::tan`: the tangent of `x`. Nothing is stated of the value, which
/// depends on the scalar type's implementation.
#[verifier::external_body]
pub fn scalar_tan<R: num_traits::Float>(x: R) -> R {
    x.tan()
}

/// Calls `num_traits::Float::is_nan`: whether `x` is not a number. Nothing is stated of the
/// answer, which depends on the scalar type's implementation.
#[verifier::external_body]
pub fn scalar_is_nan<R: num_traits::Float>(x: R) -> bool {
    x.is_nan()
}

/// Calls `approx::Relative::eq` with the default tolerances of `approx::RelativeEq`, as the
/// `approx::relative_eq!` macro does: whether `a` and `b` are equal up to a relative tolerance.
/// Nothing is stated of the answer, which depends on the scalar type's implementation.
#[verifier::external_body]
pub fn scalar_relative_eq<R: approx::RelativeEq>(a: R, b: R) -> bool {
    approx::Relative::default().eq(&a, &b)
}

/// Calls `PartialOrd::lt`: whether `a` is less than `b`. Nothing is stated of the answer,
/// which depends on the scalar type's implementation.
#[verifier::external_body]
pub fn scalar_lt<R: PartialOrd>(a: R, b: R) -> bool {
    a < b
}

/// Calls `PartialOrd::gt`: whether `a` is greater than `b`. Nothing is stated of the answer,
/// which depends on the scalar type's implementation.
#[verifier::external_body]
pub fn scalar_gt<R: PartialOrd>(a: R, b: R) -> bool {
    a > b
}

} // verus!

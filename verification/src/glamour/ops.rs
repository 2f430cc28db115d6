//! Operator traits of the library: products, element-wise operations and norms.

use vstd::prelude::*;

verus! {

/// The dot product: a matrix product, or the inner product of two vectors or arrays.
pub trait Dot<Rhs = Self>: Sized {
    type Output;

    /// When the product can be formed without overflow.
    spec fn dot_req(&self, rhs: &Rhs) -> bool;

    fn dot(self, rhs: Rhs) -> Self::Output
        requires
            self.dot_req(&rhs),
    ;
}

/// The element-wise (Hadamard) product.
pub trait MulElem<Rhs = Self>: Sized {
    type Output;

    /// When every element-wise product can be formed without overflow.
    spec fn mul_elem_req(&self, rhs: &Rhs) -> bool;

    fn mul_elem(self, rhs: Rhs) -> Self::Output
        requires
            self.mul_elem_req(&rhs),
    ;
}

/// The cross product.
pub trait Cross<Rhs = Self>: Sized {
    type Output;

    /// When the product can be formed without overflow.
    spec fn cross_req(&self, rhs: &Rhs) -> bool;

    fn cross(self, rhs: Rhs) -> Self::Output
        requires
            self.cross_req(&rhs),
    ;
}

/// The Euclidean (Frobenius) norm.
pub trait Norm: Sized {
    type Output;

    fn norm(self) -> Self::Output;
}

} // verus!

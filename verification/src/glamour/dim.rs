//! Type-level dimensions.

use vstd::prelude::*;

verus! {

/// A dimension known to the type system.
pub trait Dim: Sized + Copy {
    /// The dimension as a number.
    spec fn dim() -> usize;

    fn as_usize(&self) -> (r: usize)
        ensures
            r == Self::dim(),
    ;
}

/// One dimension.
#[derive(Debug, PartialEq, Clone, Copy)]
pub struct D1;

/// Two dimensions.
#[derive(Debug, PartialEq, Clone, Copy)]
pub struct D2;

/// Three dimensions.
#[derive(Debug, PartialEq, Clone, Copy)]
pub struct D3;

/// Four dimensions.
#[derive(Debug, PartialEq, Clone, Copy)]
pub struct D4;

impl D1 {
    /// The dimension as a number.
    pub const DIM: usize = 1;
}

impl D2 {
    /// The dimension as a number.
    pub const DIM: usize = 2;
}

impl D3 {
    /// The dimension as a number.
    pub const DIM: usize = 3;
}

impl D4 {
    /// The dimension as a number.
    pub const DIM: usize = 4;
}

impl Dim for D1 {
    open spec fn dim() -> usize {
        1
    }

    fn as_usize(&self) -> (r: usize) {
        Self::DIM
    }
}

impl Dim for D2 {
    open spec fn dim() -> usize {
        2
    }

    fn as_usize(&self) -> (r: usize) {
        Self::DIM
    }
}

impl Dim for D3 {
    open spec fn dim() -> usize {
        3
    }

    fn as_usize(&self) -> (r: usize) {
        Self::DIM
    }
}

impl Dim for D4 {
    open spec fn dim() -> usize {
        4
    }

    fn as_usize(&self) -> (r: usize) {
        Self::DIM
    }
}

} // verus!

//! Operator tags, and the operations that are defined relative to a tag.
use crate::modular::centered;
use vstd::prelude::*;

verus! {

/// A tag that names an abstract binary operator.
///
/// A tag has no data and no behaviour. It only selects, at compile time, which
/// of a type's structures is meant.
pub trait Op: Copy {
}

/// The operator that is conventionally written `+`.
#[derive(Clone, Copy)]
pub struct Additive;

/// The operator that is conventionally written `*`.
#[derive(Clone, Copy)]
pub struct Multiplicative;

impl Op for Additive {
}

impl Op for Multiplicative {
}

/// The inverse of a value with respect to the operator `O`.
///
/// The laws that relate an inverse to the operation and to the identity are
/// stated where all three are at hand: in `QuasigroupApprox` and `LoopApprox`,
/// and in their exact counterparts.
pub trait Inverse<O: Op>: Sized {
    /// The inverse of `self`.
    spec fn inv_spec(self) -> Self;

    /// Returns the inverse of `self`.
    fn inv(self) -> (r: Self)
        ensures
            r == self.inv_spec(),
    ;
}

/// The reciprocal of a value.
pub trait Recip: Sized {
    /// The type of the reciprocal.
    type Result;

    /// The reciprocal of `self`.
    spec fn recip_spec(self) -> Self::Result;

    /// Returns the reciprocal of `self`.
    fn recip(self) -> (r: Self::Result)
        ensures
            r == self.recip_spec(),
    ;
}

/// Negation modulo two to the power 8: the least value is its own inverse.
impl Inverse<Additive> for i8 {
    open spec fn inv_spec(self) -> i8 {
        centered(-self, 0x100) as i8
    }

    fn inv(self) -> i8 {
        0i8.wrapping_sub(self)
    }
}

/// Negation modulo two to the power 16: the least value is its own inverse.
impl Inverse<Additive> for i16 {
    open spec fn inv_spec(self) -> i16 {
        centered(-self, 0x1_0000) as i16
    }

    fn inv(self) -> i16 {
        0i16.wrapping_sub(self)
    }
}

/// Negation modulo two to the power 32: the least value is its own inverse.
impl Inverse<Additive> for i32 {
    open spec fn inv_spec(self) -> i32 {
        centered(-self, 0x1_0000_0000) as i32
    }

    fn inv(self) -> i32 {
        0i32.wrapping_sub(self)
    }
}

/// Negation modulo two to the power 64: the least value is its own inverse.
impl Inverse<Additive> for i64 {
    open spec fn inv_spec(self) -> i64 {
        centered(-self, 0x1_0000_0000_0000_0000) as i64
    }

    fn inv(self) -> i64 {
        0i64.wrapping_sub(self)
    }
}

} // verus!

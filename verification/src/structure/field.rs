//! Fields.
use crate::cmp::approx_eq_spec;
use crate::ident::Identity;
use crate::ops::{Inverse, Multiplicative};
use crate::structure::magma::MagmaApprox;
use crate::structure::ring::{one, times, zero, RingCommutative, RingCommutativeApprox};
use vstd::prelude::*;

verus! {

/// The multiplicative inverse of `a`.
pub open spec fn reciprocal<T: Inverse<Multiplicative>>(a: T) -> T {
    a.inv_spec()
}

/// Whether the product of `a` and its multiplicative inverse, in either order,
/// is one up to the default tolerance.
pub open spec fn inv_is_reciprocal_approx<T>(a: T) -> bool where
    T: MagmaApprox<Multiplicative> + Inverse<Multiplicative> + Identity<Multiplicative>,
{
    &&& approx_eq_spec(
        times(a, reciprocal(a)),
        one(),
    )
    &&& approx_eq_spec(
        times(reciprocal(a), a),
        one(),
    )
}

/// Whether the product of `a` and its multiplicative inverse, in either order,
/// is one.
pub open spec fn inv_is_reciprocal<T>(a: T) -> bool where
    T: MagmaApprox<Multiplicative> + Inverse<Multiplicative> + Identity<Multiplicative>,
{
    &&& times(a, reciprocal(a)) == one::<T>()
    &&& times(reciprocal(a), a) == one::<T>()
}

/// A commutative ring in which every value that differs from zero by more
/// than the default tolerance can be divided by.
pub trait FieldApprox: RingCommutativeApprox + Inverse<Multiplicative> {
    /// A value that is not zero, up to the default tolerance, and its inverse
    /// have the product one, up to the default tolerance.
    proof fn lemma_inv_is_reciprocal_approx(a: Self)
        requires
            !approx_eq_spec(a, zero()),
        ensures
            inv_is_reciprocal_approx(a),
    ;
}

/// A commutative ring in which every value but zero can be divided by.
pub trait Field: FieldApprox + RingCommutative {
    /// A value other than zero and its inverse have the product one.
    proof fn lemma_inv_is_reciprocal(a: Self)
        requires
            a != zero::<Self>(),
        ensures
            inv_is_reciprocal(a),
    ;
}

} // verus!

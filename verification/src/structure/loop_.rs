//! Quasigroups with an identity element.
use crate::cmp::approx_eq_spec;
use crate::ident::Identity;
use crate::modular::lemma_add_centered_inverse;
use crate::ops::{Additive, Inverse, Op};
use crate::structure::magma::MagmaApprox;
use crate::structure::monoid::identity_is_noop;
use crate::structure::quasigroup::{Quasigroup, QuasigroupApprox};
use vstd::prelude::*;

verus! {

/// Whether operating `a` with its inverse, from either side, gives the
/// identity element up to the default tolerance.
pub open spec fn inv_is_two_sided_approx<O: Op, T>(a: T) -> bool where
    T: MagmaApprox<O> + Inverse<O> + Identity<O>,
{
    &&& approx_eq_spec(a.approx_spec(a.inv_spec()), T::id_spec())
    &&& approx_eq_spec(a.inv_spec().approx_spec(a), T::id_spec())
}

/// Whether operating `a` with its inverse, from either side, gives the
/// identity element.
pub open spec fn inv_is_two_sided<O: Op, T>(a: T) -> bool where
    T: MagmaApprox<O> + Inverse<O> + Identity<O>,
{
    &&& a.approx_spec(a.inv_spec()) == T::id_spec()
    &&& a.inv_spec().approx_spec(a) == T::id_spec()
}

/// A quasigroup with an identity element, which every value and its inverse
/// give up to the default tolerance.
pub trait LoopApprox<O: Op>: QuasigroupApprox<O> + Identity<O> {
    /// A value and its inverse give the identity element up to the default
    /// tolerance.
    proof fn lemma_inv_is_two_sided_approx(a: Self)
        ensures
            inv_is_two_sided_approx::<O, Self>(a),
    ;
}

/// A quasigroup with an identity element, which every value and its inverse
/// give.
pub trait Loop<O: Op>: LoopApprox<O> + Quasigroup<O> {
    /// A value and its inverse give the identity element.
    proof fn lemma_inv_is_two_sided(a: Self)
        ensures
            inv_is_two_sided::<O, Self>(a),
    ;
}

/// In a loop the identity element is neutral: operating a value with it, from
/// either side, gives the value.
pub proof fn lemma_loop_identity_is_noop<O: Op, T: Loop<O>>(a: T)
    ensures
        identity_is_noop::<O, T>(a),
{
    T::lemma_inv_is_two_sided(a);
    T::lemma_inv_is_latin_square(a, a);
}

// A signed integer and its negation add up to zero.

impl LoopApprox<Additive> for i8 {
    proof fn lemma_inv_is_two_sided_approx(a: i8) {
        lemma_add_centered_inverse(a as int, 0x100);
    }
}

impl Loop<Additive> for i8 {
    proof fn lemma_inv_is_two_sided(a: i8) {
        lemma_add_centered_inverse(a as int, 0x100);
    }
}

impl LoopApprox<Additive> for i16 {
    proof fn lemma_inv_is_two_sided_approx(a: i16) {
        lemma_add_centered_inverse(a as int, 0x1_0000);
    }
}

impl Loop<Additive> for i16 {
    proof fn lemma_inv_is_two_sided(a: i16) {
        lemma_add_centered_inverse(a as int, 0x1_0000);
    }
}

impl LoopApprox<Additive> for i32 {
    proof fn lemma_inv_is_two_sided_approx(a: i32) {
        lemma_add_centered_inverse(a as int, 0x1_0000_0000);
    }
}

impl Loop<Additive> for i32 {
    proof fn lemma_inv_is_two_sided(a: i32) {
        lemma_add_centered_inverse(a as int, 0x1_0000_0000);
    }
}

impl LoopApprox<Additive> for i64 {
    proof fn lemma_inv_is_two_sided_approx(a: i64) {
        lemma_add_centered_inverse(a as int, 0x1_0000_0000_0000_0000);
    }
}

impl Loop<Additive> for i64 {
    proof fn lemma_inv_is_two_sided(a: i64) {
        lemma_add_centered_inverse(a as int, 0x1_0000_0000_0000_0000);
    }
}

} // verus!

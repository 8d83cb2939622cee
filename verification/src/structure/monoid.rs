//! Semigroups with an identity element.
use crate::cmp::approx_eq_spec;
use crate::ident::Identity;
use crate::modular::{lemma_centered_neutral, lemma_mod_neutral};
use crate::ops::{Additive, Multiplicative, Op};
use crate::structure::magma::MagmaApprox;
use crate::structure::semigroup::{Semigroup, SemigroupApprox};
use vstd::prelude::*;

verus! {

/// Whether operating `a` with the identity element, from either side, gives
/// `a` up to the default tolerance.
pub open spec fn identity_is_noop_approx<O: Op, T>(a: T) -> bool where
    T: MagmaApprox<O> + Identity<O>,
{
    &&& approx_eq_spec(a.approx_spec(T::id_spec()), a)
    &&& approx_eq_spec(T::id_spec().approx_spec(a), a)
}

/// Whether operating `a` with the identity element, from either side, gives `a`.
pub open spec fn identity_is_noop<O: Op, T>(a: T) -> bool where
    T: MagmaApprox<O> + Identity<O>,
{
    &&& a.approx_spec(T::id_spec()) == a
    &&& T::id_spec().approx_spec(a) == a
}

/// A semigroup with an element that is neutral up to the default tolerance.
pub trait MonoidApprox<O: Op>: SemigroupApprox<O> + Identity<O> {
    /// The identity element is neutral up to the default tolerance.
    proof fn lemma_identity_is_noop_approx(a: Self)
        ensures
            identity_is_noop_approx::<O, Self>(a),
    ;

    /// Evaluates, up to the default tolerance, whether the identity element
    /// leaves the given value as it is. It holds of all values.
    fn prop_operating_identity_element_is_noop_approx(a: Self) -> (r: bool)
        ensures
            r == identity_is_noop_approx::<O, Self>(a),
            r,
    {
        let (a1, a2, a3) = (a.clone(), a.clone(), a.clone());
        proof {
            Self::lemma_clone_is_exact(a, a1);
            Self::lemma_clone_is_exact(a, a2);
            Self::lemma_clone_is_exact(a, a3);
            Self::lemma_identity_is_noop_approx(a);
        }
        a1.approx(Self::id()).approx_eq(&a2) && Self::id().approx(a3).approx_eq(&a)
    }
}

/// A semigroup with a neutral element.
pub trait Monoid<O: Op>: MonoidApprox<O> + Semigroup<O> {
    /// The identity element is neutral.
    proof fn lemma_identity_is_noop(a: Self)
        ensures
            identity_is_noop::<O, Self>(a),
    ;

    /// Evaluates whether the identity element leaves the given value as it
    /// is. It holds of all values.
    fn prop_operating_identity_element_is_noop(a: Self) -> (r: bool)
        ensures
            r == identity_is_noop::<O, Self>(a),
            r,
    {
        let (a1, a2, a3) = (a.clone(), a.clone(), a.clone());
        proof {
            Self::lemma_clone_is_exact(a, a1);
            Self::lemma_clone_is_exact(a, a2);
            Self::lemma_clone_is_exact(a, a3);
            Self::lemma_identity_is_noop(a);
            Self::lemma_eq_is_exact();
        }
        a1.operate(Self::id()) == a2 && Self::id().operate(a3) == a
    }
}

// Zero is neutral for addition and one for multiplication, modulo a power of two.

impl MonoidApprox<Additive> for u8 {
    proof fn lemma_identity_is_noop_approx(a: u8) {
        lemma_mod_neutral(a as int, 0x100);
    }
}

impl Monoid<Additive> for u8 {
    proof fn lemma_identity_is_noop(a: u8) {
        lemma_mod_neutral(a as int, 0x100);
    }
}

impl MonoidApprox<Multiplicative> for u8 {
    proof fn lemma_identity_is_noop_approx(a: u8) {
        lemma_mod_neutral(a as int, 0x100);
    }
}

impl Monoid<Multiplicative> for u8 {
    proof fn lemma_identity_is_noop(a: u8) {
        lemma_mod_neutral(a as int, 0x100);
    }
}

impl MonoidApprox<Additive> for u16 {
    proof fn lemma_identity_is_noop_approx(a: u16) {
        lemma_mod_neutral(a as int, 0x1_0000);
    }
}

impl Monoid<Additive> for u16 {
    proof fn lemma_identity_is_noop(a: u16) {
        lemma_mod_neutral(a as int, 0x1_0000);
    }
}

impl MonoidApprox<Multiplicative> for u16 {
    proof fn lemma_identity_is_noop_approx(a: u16) {
        lemma_mod_neutral(a as int, 0x1_0000);
    }
}

impl Monoid<Multiplicative> for u16 {
    proof fn lemma_identity_is_noop(a: u16) {
        lemma_mod_neutral(a as int, 0x1_0000);
    }
}

impl MonoidApprox<Additive> for u32 {
    proof fn lemma_identity_is_noop_approx(a: u32) {
        lemma_mod_neutral(a as int, 0x1_0000_0000);
    }
}

impl Monoid<Additive> for u32 {
    proof fn lemma_identity_is_noop(a: u32) {
        lemma_mod_neutral(a as int, 0x1_0000_0000);
    }
}

impl MonoidApprox<Multiplicative> for u32 {
    proof fn lemma_identity_is_noop_approx(a: u32) {
        lemma_mod_neutral(a as int, 0x1_0000_0000);
    }
}

impl Monoid<Multiplicative> for u32 {
    proof fn lemma_identity_is_noop(a: u32) {
        lemma_mod_neutral(a as int, 0x1_0000_0000);
    }
}

impl MonoidApprox<Additive> for u64 {
    proof fn lemma_identity_is_noop_approx(a: u64) {
        lemma_mod_neutral(a as int, 0x1_0000_0000_0000_0000);
    }
}

impl Monoid<Additive> for u64 {
    proof fn lemma_identity_is_noop(a: u64) {
        lemma_mod_neutral(a as int, 0x1_0000_0000_0000_0000);
    }
}

impl MonoidApprox<Multiplicative> for u64 {
    proof fn lemma_identity_is_noop_approx(a: u64) {
        lemma_mod_neutral(a as int, 0x1_0000_0000_0000_0000);
    }
}

impl Monoid<Multiplicative> for u64 {
    proof fn lemma_identity_is_noop(a: u64) {
        lemma_mod_neutral(a as int, 0x1_0000_0000_0000_0000);
    }
}

impl MonoidApprox<Additive> for i8 {
    proof fn lemma_identity_is_noop_approx(a: i8) {
        lemma_centered_neutral(a as int, 0x100);
    }
}

impl Monoid<Additive> for i8 {
    proof fn lemma_identity_is_noop(a: i8) {
        lemma_centered_neutral(a as int, 0x100);
    }
}

impl MonoidApprox<Multiplicative> for i8 {
    proof fn lemma_identity_is_noop_approx(a: i8) {
        lemma_centered_neutral(a as int, 0x100);
    }
}

impl Monoid<Multiplicative> for i8 {
    proof fn lemma_identity_is_noop(a: i8) {
        lemma_centered_neutral(a as int, 0x100);
    }
}

impl MonoidApprox<Additive> for i16 {
    proof fn lemma_identity_is_noop_approx(a: i16) {
        lemma_centered_neutral(a as int, 0x1_0000);
    }
}

impl Monoid<Additive> for i16 {
    proof fn lemma_identity_is_noop(a: i16) {
        lemma_centered_neutral(a as int, 0x1_0000);
    }
}

impl MonoidApprox<Multiplicative> for i16 {
    proof fn lemma_identity_is_noop_approx(a: i16) {
        lemma_centered_neutral(a as int, 0x1_0000);
    }
}

impl Monoid<Multiplicative> for i16 {
    proof fn lemma_identity_is_noop(a: i16) {
        lemma_centered_neutral(a as int, 0x1_0000);
    }
}

impl MonoidApprox<Additive> for i32 {
    proof fn lemma_identity_is_noop_approx(a: i32) {
        lemma_centered_neutral(a as int, 0x1_0000_0000);
    }
}

impl Monoid<Additive> for i32 {
    proof fn lemma_identity_is_noop(a: i32) {
        lemma_centered_neutral(a as int, 0x1_0000_0000);
    }
}

impl MonoidApprox<Multiplicative> for i32 {
    proof fn lemma_identity_is_noop_approx(a: i32) {
        lemma_centered_neutral(a as int, 0x1_0000_0000);
    }
}

impl Monoid<Multiplicative> for i32 {
    proof fn lemma_identity_is_noop(a: i32) {
        lemma_centered_neutral(a as int, 0x1_0000_0000);
    }
}

impl MonoidApprox<Additive> for i64 {
    proof fn lemma_identity_is_noop_approx(a: i64) {
        lemma_centered_neutral(a as int, 0x1_0000_0000_0000_0000);
    }
}

impl Monoid<Additive> for i64 {
    proof fn lemma_identity_is_noop(a: i64) {
        lemma_centered_neutral(a as int, 0x1_0000_0000_0000_0000);
    }
}

impl MonoidApprox<Multiplicative> for i64 {
    proof fn lemma_identity_is_noop_approx(a: i64) {
        lemma_centered_neutral(a as int, 0x1_0000_0000_0000_0000);
    }
}

impl Monoid<Multiplicative> for i64 {
    proof fn lemma_identity_is_noop(a: i64) {
        lemma_centered_neutral(a as int, 0x1_0000_0000_0000_0000);
    }
}

} // verus!

//! Invertibility.
use crate::cmp::approx_eq_spec;
use crate::modular::lemma_add_centered_cancels;
use crate::ops::{Additive, Inverse, Op};
use crate::structure::magma::{Magma, MagmaApprox};
use vstd::prelude::*;

verus! {

/// Whether operating `a` with the inverse of `b` and with `b`, in either
/// grouping, gives `a` back up to the default tolerance.
pub open spec fn inv_is_latin_square_approx<O: Op, T>(a: T, b: T) -> bool where
    T: MagmaApprox<O> + Inverse<O>,
{
    &&& approx_eq_spec(a, a.approx_spec(b.inv_spec()).approx_spec(b))
    &&& approx_eq_spec(a, a.approx_spec(b.approx_spec(b.inv_spec())))
}

/// Whether operating `a` with the inverse of `b` and with `b`, in either
/// grouping, gives `a` back.
pub open spec fn inv_is_latin_square<O: Op, T>(a: T, b: T) -> bool where
    T: MagmaApprox<O> + Inverse<O>,
{
    &&& a == a.approx_spec(b.inv_spec()).approx_spec(b)
    &&& a == a.approx_spec(b.approx_spec(b.inv_spec()))
}

/// A magma whose operation can be undone by the inverse, up to the default
/// tolerance.
pub trait QuasigroupApprox<O: Op>: MagmaApprox<O> + Inverse<O> {
    /// The inverse undoes the operation up to the default tolerance.
    proof fn lemma_inv_is_latin_square_approx(a: Self, b: Self)
        ensures
            inv_is_latin_square_approx::<O, Self>(a, b),
    ;

    /// Evaluates, up to the default tolerance, whether the inverse of the
    /// second value undoes the operation on the first. It holds of all values.
    fn prop_inv_is_latin_square_approx(args: (Self, Self)) -> (r: bool)
        ensures
            r == inv_is_latin_square_approx::<O, Self>(args.0, args.1),
            r,
    {
        let (a, b) = args;
        let (a1, a2, a3) = (a.clone(), a.clone(), a.clone());
        let (b1, b2, b3) = (b.clone(), b.clone(), b.clone());
        proof {
            Self::lemma_clone_is_exact(a, a1);
            Self::lemma_clone_is_exact(a, a2);
            Self::lemma_clone_is_exact(a, a3);
            Self::lemma_clone_is_exact(b, b1);
            Self::lemma_clone_is_exact(b, b2);
            Self::lemma_clone_is_exact(b, b3);
            Self::lemma_inv_is_latin_square_approx(a, b);
        }
        a1.approx_eq(&a2.approx(b1.inv()).approx(b2)) && a3.approx_eq(&a.approx(b3.approx(b.inv())))
    }
}

/// A magma whose operation can be undone by the inverse.
pub trait Quasigroup<O: Op>: QuasigroupApprox<O> + Magma<O> {
    /// The inverse undoes the operation.
    proof fn lemma_inv_is_latin_square(a: Self, b: Self)
        ensures
            inv_is_latin_square::<O, Self>(a, b),
    ;

    /// Evaluates whether the inverse of the second value undoes the operation
    /// on the first. It holds of all values.
    fn prop_inv_is_latin_square(args: (Self, Self)) -> (r: bool)
        ensures
            r == inv_is_latin_square::<O, Self>(args.0, args.1),
            r,
    {
        let (a, b) = args;
        let (a1, a2, a3) = (a.clone(), a.clone(), a.clone());
        let (b1, b2, b3) = (b.clone(), b.clone(), b.clone());
        proof {
            Self::lemma_clone_is_exact(a, a1);
            Self::lemma_clone_is_exact(a, a2);
            Self::lemma_clone_is_exact(a, a3);
            Self::lemma_clone_is_exact(b, b1);
            Self::lemma_clone_is_exact(b, b2);
            Self::lemma_clone_is_exact(b, b3);
            Self::lemma_inv_is_latin_square(a, b);
            Self::lemma_eq_is_exact();
        }
        a1 == a2.operate(b1.inv()).operate(b2) && a3 == a.operate(b3.operate(b.inv()))
    }
}

// Negation modulo a power of two undoes addition.

impl QuasigroupApprox<Additive> for i8 {
    proof fn lemma_inv_is_latin_square_approx(a: i8, b: i8) {
        lemma_add_centered_cancels(a as int, b as int, 0x100);
    }
}

impl Quasigroup<Additive> for i8 {
    proof fn lemma_inv_is_latin_square(a: i8, b: i8) {
        lemma_add_centered_cancels(a as int, b as int, 0x100);
    }
}

impl QuasigroupApprox<Additive> for i16 {
    proof fn lemma_inv_is_latin_square_approx(a: i16, b: i16) {
        lemma_add_centered_cancels(a as int, b as int, 0x1_0000);
    }
}

impl Quasigroup<Additive> for i16 {
    proof fn lemma_inv_is_latin_square(a: i16, b: i16) {
        lemma_add_centered_cancels(a as int, b as int, 0x1_0000);
    }
}

impl QuasigroupApprox<Additive> for i32 {
    proof fn lemma_inv_is_latin_square_approx(a: i32, b: i32) {
        lemma_add_centered_cancels(a as int, b as int, 0x1_0000_0000);
    }
}

impl Quasigroup<Additive> for i32 {
    proof fn lemma_inv_is_latin_square(a: i32, b: i32) {
        lemma_add_centered_cancels(a as int, b as int, 0x1_0000_0000);
    }
}

impl QuasigroupApprox<Additive> for i64 {
    proof fn lemma_inv_is_latin_square_approx(a: i64, b: i64) {
        lemma_add_centered_cancels(a as int, b as int, 0x1_0000_0000_0000_0000);
    }
}

impl Quasigroup<Additive> for i64 {
    proof fn lemma_inv_is_latin_square(a: i64, b: i64) {
        lemma_add_centered_cancels(a as int, b as int, 0x1_0000_0000_0000_0000);
    }
}

} // verus!

//! Associativity.
use crate::cmp::approx_eq_spec;
use crate::modular::{
    lemma_add_centered_associative, lemma_add_mod_associative, lemma_mul_centered_associative,
    lemma_mul_mod_associative,
};
use crate::ops::{Additive, Multiplicative, Op};
use crate::structure::magma::{Magma, MagmaApprox};
use vstd::prelude::*;

verus! {

/// Whether both groupings of `a`, `b` and `c` agree up to the default tolerance.
pub open spec fn is_associative_approx<O: Op, T: MagmaApprox<O>>(a: T, b: T, c: T) -> bool {
    approx_eq_spec(
        a.approx_spec(b).approx_spec(c),
        a.approx_spec(b.approx_spec(c)),
    )
}

/// Whether both groupings of `a`, `b` and `c` are equal.
pub open spec fn is_associative<O: Op, T: MagmaApprox<O>>(a: T, b: T, c: T) -> bool {
    a.approx_spec(b).approx_spec(c) == a.approx_spec(b.approx_spec(c))
}

/// A magma whose operation is associative up to the default tolerance.
pub trait SemigroupApprox<O: Op>: MagmaApprox<O> {
    /// The operation is associative up to the default tolerance.
    proof fn lemma_associative_approx(a: Self, b: Self, c: Self)
        ensures
            is_associative_approx::<O, Self>(a, b, c),
    ;

    /// Evaluates associativity, up to the default tolerance, on the given
    /// values. It holds of all of them.
    fn prop_is_associative_approx(args: (Self, Self, Self)) -> (r: bool)
        ensures
            r == is_associative_approx::<O, Self>(args.0, args.1, args.2),
            r,
    {
        let (a, b, c) = args;
        let (a1, b1, c1) = (a.clone(), b.clone(), c.clone());
        proof {
            Self::lemma_clone_is_exact(a, a1);
            Self::lemma_clone_is_exact(b, b1);
            Self::lemma_clone_is_exact(c, c1);
            Self::lemma_associative_approx(a, b, c);
        }
        a1.approx(b1).approx(c1).approx_eq(&a.approx(b.approx(c)))
    }
}

/// A magma whose operation is associative.
pub trait Semigroup<O: Op>: SemigroupApprox<O> + Magma<O> {
    /// The operation is associative.
    proof fn lemma_associative(a: Self, b: Self, c: Self)
        ensures
            is_associative::<O, Self>(a, b, c),
    ;

    /// Evaluates associativity on the given values. It holds of all of them.
    fn prop_is_associative(args: (Self, Self, Self)) -> (r: bool)
        ensures
            r == is_associative::<O, Self>(args.0, args.1, args.2),
            r,
    {
        let (a, b, c) = args;
        let (a1, b1, c1) = (a.clone(), b.clone(), c.clone());
        proof {
            Self::lemma_clone_is_exact(a, a1);
            Self::lemma_clone_is_exact(b, b1);
            Self::lemma_clone_is_exact(c, c1);
            Self::lemma_associative(a, b, c);
            Self::lemma_eq_is_exact();
        }
        a1.operate(b1).operate(c1) == a.operate(b.operate(c))
    }
}

// Addition and multiplication modulo a power of two are associative.

impl SemigroupApprox<Additive> for u8 {
    proof fn lemma_associative_approx(a: u8, b: u8, c: u8) {
        lemma_add_mod_associative(a as int, b as int, c as int, 0x100);
    }
}

impl Semigroup<Additive> for u8 {
    proof fn lemma_associative(a: u8, b: u8, c: u8) {
        lemma_add_mod_associative(a as int, b as int, c as int, 0x100);
    }
}

impl SemigroupApprox<Multiplicative> for u8 {
    proof fn lemma_associative_approx(a: u8, b: u8, c: u8) {
        lemma_mul_mod_associative(a as int, b as int, c as int, 0x100);
    }
}

impl Semigroup<Multiplicative> for u8 {
    proof fn lemma_associative(a: u8, b: u8, c: u8) {
        lemma_mul_mod_associative(a as int, b as int, c as int, 0x100);
    }
}

impl SemigroupApprox<Additive> for u16 {
    proof fn lemma_associative_approx(a: u16, b: u16, c: u16) {
        lemma_add_mod_associative(a as int, b as int, c as int, 0x1_0000);
    }
}

impl Semigroup<Additive> for u16 {
    proof fn lemma_associative(a: u16, b: u16, c: u16) {
        lemma_add_mod_associative(a as int, b as int, c as int, 0x1_0000);
    }
}

impl SemigroupApprox<Multiplicative> for u16 {
    proof fn lemma_associative_approx(a: u16, b: u16, c: u16) {
        lemma_mul_mod_associative(a as int, b as int, c as int, 0x1_0000);
    }
}

impl Semigroup<Multiplicative> for u16 {
    proof fn lemma_associative(a: u16, b: u16, c: u16) {
        lemma_mul_mod_associative(a as int, b as int, c as int, 0x1_0000);
    }
}

impl SemigroupApprox<Additive> for u32 {
    proof fn lemma_associative_approx(a: u32, b: u32, c: u32) {
        lemma_add_mod_associative(a as int, b as int, c as int, 0x1_0000_0000);
    }
}

impl Semigroup<Additive> for u32 {
    proof fn lemma_associative(a: u32, b: u32, c: u32) {
        lemma_add_mod_associative(a as int, b as int, c as int, 0x1_0000_0000);
    }
}

impl SemigroupApprox<Multiplicative> for u32 {
    proof fn lemma_associative_approx(a: u32, b: u32, c: u32) {
        lemma_mul_mod_associative(a as int, b as int, c as int, 0x1_0000_0000);
    }
}

impl Semigroup<Multiplicative> for u32 {
    proof fn lemma_associative(a: u32, b: u32, c: u32) {
        lemma_mul_mod_associative(a as int, b as int, c as int, 0x1_0000_0000);
    }
}

impl SemigroupApprox<Additive> for u64 {
    proof fn lemma_associative_approx(a: u64, b: u64, c: u64) {
        lemma_add_mod_associative(a as int, b as int, c as int, 0x1_0000_0000_0000_0000);
    }
}

impl Semigroup<Additive> for u64 {
    proof fn lemma_associative(a: u64, b: u64, c: u64) {
        lemma_add_mod_associative(a as int, b as int, c as int, 0x1_0000_0000_0000_0000);
    }
}

impl SemigroupApprox<Multiplicative> for u64 {
    proof fn lemma_associative_approx(a: u64, b: u64, c: u64) {
        lemma_mul_mod_associative(a as int, b as int, c as int, 0x1_0000_0000_0000_0000);
    }
}

impl Semigroup<Multiplicative> for u64 {
    proof fn lemma_associative(a: u64, b: u64, c: u64) {
        lemma_mul_mod_associative(a as int, b as int, c as int, 0x1_0000_0000_0000_0000);
    }
}

impl SemigroupApprox<Additive> for i8 {
    proof fn lemma_associative_approx(a: i8, b: i8, c: i8) {
        lemma_add_centered_associative(a as int, b as int, c as int, 0x100);
    }
}

impl Semigroup<Additive> for i8 {
    proof fn lemma_associative(a: i8, b: i8, c: i8) {
        lemma_add_centered_associative(a as int, b as int, c as int, 0x100);
    }
}

impl SemigroupApprox<Multiplicative> for i8 {
    proof fn lemma_associative_approx(a: i8, b: i8, c: i8) {
        lemma_mul_centered_associative(a as int, b as int, c as int, 0x100);
    }
}

impl Semigroup<Multiplicative> for i8 {
    proof fn lemma_associative(a: i8, b: i8, c: i8) {
        lemma_mul_centered_associative(a as int, b as int, c as int, 0x100);
    }
}

impl SemigroupApprox<Additive> for i16 {
    proof fn lemma_associative_approx(a: i16, b: i16, c: i16) {
        lemma_add_centered_associative(a as int, b as int, c as int, 0x1_0000);
    }
}

impl Semigroup<Additive> for i16 {
    proof fn lemma_associative(a: i16, b: i16, c: i16) {
        lemma_add_centered_associative(a as int, b as int, c as int, 0x1_0000);
    }
}

impl SemigroupApprox<Multiplicative> for i16 {
    proof fn lemma_associative_approx(a: i16, b: i16, c: i16) {
        lemma_mul_centered_associative(a as int, b as int, c as int, 0x1_0000);
    }
}

impl Semigroup<Multiplicative> for i16 {
    proof fn lemma_associative(a: i16, b: i16, c: i16) {
        lemma_mul_centered_associative(a as int, b as int, c as int, 0x1_0000);
    }
}

impl SemigroupApprox<Additive> for i32 {
    proof fn lemma_associative_approx(a: i32, b: i32, c: i32) {
        lemma_add_centered_associative(a as int, b as int, c as int, 0x1_0000_0000);
    }
}

impl Semigroup<Additive> for i32 {
    proof fn lemma_associative(a: i32, b: i32, c: i32) {
        lemma_add_centered_associative(a as int, b as int, c as int, 0x1_0000_0000);
    }
}

impl SemigroupApprox<Multiplicative> for i32 {
    proof fn lemma_associative_approx(a: i32, b: i32, c: i32) {
        lemma_mul_centered_associative(a as int, b as int, c as int, 0x1_0000_0000);
    }
}

impl Semigroup<Multiplicative> for i32 {
    proof fn lemma_associative(a: i32, b: i32, c: i32) {
        lemma_mul_centered_associative(a as int, b as int, c as int, 0x1_0000_0000);
    }
}

impl SemigroupApprox<Additive> for i64 {
    proof fn lemma_associative_approx(a: i64, b: i64, c: i64) {
        lemma_add_centered_associative(a as int, b as int, c as int, 0x1_0000_0000_0000_0000);
    }
}

impl Semigroup<Additive> for i64 {
    proof fn lemma_associative(a: i64, b: i64, c: i64) {
        lemma_add_centered_associative(a as int, b as int, c as int, 0x1_0000_0000_0000_0000);
    }
}

impl SemigroupApprox<Multiplicative> for i64 {
    proof fn lemma_associative_approx(a: i64, b: i64, c: i64) {
        lemma_mul_centered_associative(a as int, b as int, c as int, 0x1_0000_0000_0000_0000);
    }
}

impl Semigroup<Multiplicative> for i64 {
    proof fn lemma_associative(a: i64, b: i64, c: i64) {
        lemma_mul_centered_associative(a as int, b as int, c as int, 0x1_0000_0000_0000_0000);
    }
}

} // verus!

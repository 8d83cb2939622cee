//! Rings.
use crate::cmp::approx_eq_spec;
use crate::ident::Identity;
use crate::modular::{lemma_mul_centered_commutative, lemma_mul_centered_distributive};
use crate::ops::{Additive, Multiplicative};
use crate::structure::group_abelian::{GroupAbelian, GroupAbelianApprox};
use crate::structure::magma::{Magma, MagmaApprox};
use crate::structure::monoid::{Monoid, MonoidApprox};
use vstd::prelude::*;

verus! {

/// The sum of `a` and `b`: what the additive operation gives.
pub open spec fn plus<T: MagmaApprox<Additive>>(a: T, b: T) -> T {
    a.approx_spec(b)
}

/// The product of `a` and `b`: what the multiplicative operation gives.
pub open spec fn times<T: MagmaApprox<Multiplicative>>(a: T, b: T) -> T {
    a.approx_spec(b)
}

/// The identity element of addition.
pub open spec fn zero<T: Identity<Additive>>() -> T {
    T::id_spec()
}

/// The identity element of multiplication.
pub open spec fn one<T: Identity<Multiplicative>>() -> T {
    T::id_spec()
}

/// Whether multiplying by `a`, from either side, distributes over the sum of
/// `b` and `c` up to the default tolerance.
pub open spec fn mul_and_add_are_distributive_approx<T>(a: T, b: T, c: T) -> bool where
    T: MagmaApprox<Additive> + MagmaApprox<Multiplicative>,
{
    &&& approx_eq_spec(times(a, plus(b, c)), plus(times(a, b), times(a, c)))
    &&& approx_eq_spec(times(plus(b, c), a), plus(times(b, a), times(c, a)))
}

/// Whether multiplying by `a`, from either side, distributes over the sum of
/// `b` and `c`.
pub open spec fn mul_and_add_are_distributive<T>(a: T, b: T, c: T) -> bool where
    T: MagmaApprox<Additive> + MagmaApprox<Multiplicative>,
{
    &&& times(a, plus(b, c)) == plus(times(a, b), times(a, c))
    &&& times(plus(b, c), a) == plus(times(b, a), times(c, a))
}

/// Whether `a` and `b` have the same product in either order, up to the
/// default tolerance.
pub open spec fn mul_is_commutative_approx<T: MagmaApprox<Multiplicative>>(a: T, b: T) -> bool {
    approx_eq_spec(times(a, b), times(b, a))
}

/// Whether `a` and `b` have the same product in either order.
pub open spec fn mul_is_commutative<T: MagmaApprox<Multiplicative>>(a: T, b: T) -> bool {
    times(a, b) == times(b, a)
}

/// A commutative group under addition and a monoid under multiplication, where
/// multiplication distributes over addition up to the default tolerance.
pub trait RingApprox: GroupAbelianApprox<Additive> + MonoidApprox<Multiplicative> {
    /// Multiplication distributes over addition up to the default tolerance.
    proof fn lemma_mul_and_add_are_distributive_approx(a: Self, b: Self, c: Self)
        ensures
            mul_and_add_are_distributive_approx(a, b, c),
    ;

    /// Evaluates distributivity, up to the default tolerance, on the given
    /// values. It holds of all of them.
    fn prop_mul_and_add_are_distributive_approx(args: (Self, Self, Self)) -> (r: bool)
        ensures
            r == mul_and_add_are_distributive_approx(args.0, args.1, args.2),
            r,
    {
        let (a, b, c) = args;
        let (a1, a2, a3, a4, a5) = (a.clone(), a.clone(), a.clone(), a.clone(), a.clone());
        let (b1, b2, b3) = (b.clone(), b.clone(), b.clone());
        let (c1, c2, c3) = (c.clone(), c.clone(), c.clone());
        proof {
            <Self as MagmaApprox<Additive>>::lemma_clone_is_exact(a, a1);
            <Self as MagmaApprox<Additive>>::lemma_clone_is_exact(a, a2);
            <Self as MagmaApprox<Additive>>::lemma_clone_is_exact(a, a3);
            <Self as MagmaApprox<Additive>>::lemma_clone_is_exact(a, a4);
            <Self as MagmaApprox<Additive>>::lemma_clone_is_exact(a, a5);
            <Self as MagmaApprox<Additive>>::lemma_clone_is_exact(b, b1);
            <Self as MagmaApprox<Additive>>::lemma_clone_is_exact(b, b2);
            <Self as MagmaApprox<Additive>>::lemma_clone_is_exact(b, b3);
            <Self as MagmaApprox<Additive>>::lemma_clone_is_exact(c, c1);
            <Self as MagmaApprox<Additive>>::lemma_clone_is_exact(c, c2);
            <Self as MagmaApprox<Additive>>::lemma_clone_is_exact(c, c3);
            Self::lemma_mul_and_add_are_distributive_approx(a, b, c);
        }
        let left = a1.ap(Multiplicative, b1.ap(Additive, c1)).approx_eq(
            &a2.ap(Multiplicative, b2).ap(Additive, a3.ap(Multiplicative, c2)),
        );
        let right = b3.ap(Additive, c3).ap(Multiplicative, a4).approx_eq(
            &b.ap(Multiplicative, a5).ap(Additive, c.ap(Multiplicative, a)),
        );
        left && right
    }
}

/// A commutative group under addition and a monoid under multiplication, where
/// multiplication distributes over addition.
pub trait Ring: RingApprox + GroupAbelian<Additive> + Monoid<Multiplicative> {
    /// Multiplication distributes over addition.
    proof fn lemma_mul_and_add_are_distributive(a: Self, b: Self, c: Self)
        ensures
            mul_and_add_are_distributive(a, b, c),
    ;

    /// Evaluates distributivity on the given values. It holds of all of them.
    fn prop_mul_and_add_are_distributive(args: (Self, Self, Self)) -> (r: bool)
        ensures
            r == mul_and_add_are_distributive(args.0, args.1, args.2),
            r,
    {
        let (a, b, c) = args;
        let (a1, a2, a3, a4, a5) = (a.clone(), a.clone(), a.clone(), a.clone(), a.clone());
        let (b1, b2, b3) = (b.clone(), b.clone(), b.clone());
        let (c1, c2, c3) = (c.clone(), c.clone(), c.clone());
        proof {
            <Self as MagmaApprox<Additive>>::lemma_clone_is_exact(a, a1);
            <Self as MagmaApprox<Additive>>::lemma_clone_is_exact(a, a2);
            <Self as MagmaApprox<Additive>>::lemma_clone_is_exact(a, a3);
            <Self as MagmaApprox<Additive>>::lemma_clone_is_exact(a, a4);
            <Self as MagmaApprox<Additive>>::lemma_clone_is_exact(a, a5);
            <Self as MagmaApprox<Additive>>::lemma_clone_is_exact(b, b1);
            <Self as MagmaApprox<Additive>>::lemma_clone_is_exact(b, b2);
            <Self as MagmaApprox<Additive>>::lemma_clone_is_exact(b, b3);
            <Self as MagmaApprox<Additive>>::lemma_clone_is_exact(c, c1);
            <Self as MagmaApprox<Additive>>::lemma_clone_is_exact(c, c2);
            <Self as MagmaApprox<Additive>>::lemma_clone_is_exact(c, c3);
            Self::lemma_mul_and_add_are_distributive(a, b, c);
            <Self as Magma<Additive>>::lemma_eq_is_exact();
        }
        let left = a1.op(Multiplicative, b1.op(Additive, c1)) == a2.op(Multiplicative, b2).op(
            Additive,
            a3.op(Multiplicative, c2),
        );
        let right = b3.op(Additive, c3).op(Multiplicative, a4) == b.op(Multiplicative, a5).op(
            Additive,
            c.op(Multiplicative, a),
        );
        left && right
    }
}

/// A ring whose multiplication is commutative up to the default tolerance.
pub trait RingCommutativeApprox: RingApprox {
    /// Multiplication is commutative up to the default tolerance.
    proof fn lemma_mul_is_commutative_approx(a: Self, b: Self)
        ensures
            mul_is_commutative_approx(a, b),
    ;

    /// Evaluates commutativity of multiplication, up to the default tolerance,
    /// on the given values. It holds of all of them.
    fn prop_mul_is_commutative_approx(args: (Self, Self)) -> (r: bool)
        ensures
            r == mul_is_commutative_approx(args.0, args.1),
            r,
    {
        let (a, b) = args;
        let (a1, b1) = (a.clone(), b.clone());
        proof {
            <Self as MagmaApprox<Additive>>::lemma_clone_is_exact(a, a1);
            <Self as MagmaApprox<Additive>>::lemma_clone_is_exact(b, b1);
            Self::lemma_mul_is_commutative_approx(a, b);
        }
        a1.ap(Multiplicative, b1).approx_eq(&b.ap(Multiplicative, a))
    }
}

/// A ring whose multiplication is commutative.
pub trait RingCommutative: RingCommutativeApprox + Ring {
    /// Multiplication is commutative.
    proof fn lemma_mul_is_commutative(a: Self, b: Self)
        ensures
            mul_is_commutative(a, b),
    ;

    /// Evaluates commutativity of multiplication on the given values. It
    /// holds of all of them.
    fn prop_mul_is_commutative(args: (Self, Self)) -> (r: bool)
        ensures
            r == mul_is_commutative(args.0, args.1),
            r,
    {
        let (a, b) = args;
        let (a1, b1) = (a.clone(), b.clone());
        proof {
            <Self as MagmaApprox<Additive>>::lemma_clone_is_exact(a, a1);
            <Self as MagmaApprox<Additive>>::lemma_clone_is_exact(b, b1);
            Self::lemma_mul_is_commutative(a, b);
            <Self as Magma<Additive>>::lemma_eq_is_exact();
        }
        a1.op(Multiplicative, b1) == b.op(Multiplicative, a)
    }
}

// The signed integers are commutative rings.

impl RingApprox for i8 {
    proof fn lemma_mul_and_add_are_distributive_approx(a: i8, b: i8, c: i8) {
        lemma_mul_centered_distributive(a as int, b as int, c as int, 0x100);
    }
}

impl Ring for i8 {
    proof fn lemma_mul_and_add_are_distributive(a: i8, b: i8, c: i8) {
        lemma_mul_centered_distributive(a as int, b as int, c as int, 0x100);
    }
}

impl RingCommutativeApprox for i8 {
    proof fn lemma_mul_is_commutative_approx(a: i8, b: i8) {
        lemma_mul_centered_commutative(a as int, b as int, 0x100);
    }
}

impl RingCommutative for i8 {
    proof fn lemma_mul_is_commutative(a: i8, b: i8) {
        lemma_mul_centered_commutative(a as int, b as int, 0x100);
    }
}

impl RingApprox for i16 {
    proof fn lemma_mul_and_add_are_distributive_approx(a: i16, b: i16, c: i16) {
        lemma_mul_centered_distributive(a as int, b as int, c as int, 0x1_0000);
    }
}

impl Ring for i16 {
    proof fn lemma_mul_and_add_are_distributive(a: i16, b: i16, c: i16) {
        lemma_mul_centered_distributive(a as int, b as int, c as int, 0x1_0000);
    }
}

impl RingCommutativeApprox for i16 {
    proof fn lemma_mul_is_commutative_approx(a: i16, b: i16) {
        lemma_mul_centered_commutative(a as int, b as int, 0x1_0000);
    }
}

impl RingCommutative for i16 {
    proof fn lemma_mul_is_commutative(a: i16, b: i16) {
        lemma_mul_centered_commutative(a as int, b as int, 0x1_0000);
    }
}

impl RingApprox for i32 {
    proof fn lemma_mul_and_add_are_distributive_approx(a: i32, b: i32, c: i32) {
        lemma_mul_centered_distributive(a as int, b as int, c as int, 0x1_0000_0000);
    }
}

impl Ring for i32 {
    proof fn lemma_mul_and_add_are_distributive(a: i32, b: i32, c: i32) {
        lemma_mul_centered_distributive(a as int, b as int, c as int, 0x1_0000_0000);
    }
}

impl RingCommutativeApprox for i32 {
    proof fn lemma_mul_is_commutative_approx(a: i32, b: i32) {
        lemma_mul_centered_commutative(a as int, b as int, 0x1_0000_0000);
    }
}

impl RingCommutative for i32 {
    proof fn lemma_mul_is_commutative(a: i32, b: i32) {
        lemma_mul_centered_commutative(a as int, b as int, 0x1_0000_0000);
    }
}

impl RingApprox for i64 {
    proof fn lemma_mul_and_add_are_distributive_approx(a: i64, b: i64, c: i64) {
        lemma_mul_centered_distributive(a as int, b as int, c as int, 0x1_0000_0000_0000_0000);
    }
}

impl Ring for i64 {
    proof fn lemma_mul_and_add_are_distributive(a: i64, b: i64, c: i64) {
        lemma_mul_centered_distributive(a as int, b as int, c as int, 0x1_0000_0000_0000_0000);
    }
}

impl RingCommutativeApprox for i64 {
    proof fn lemma_mul_is_commutative_approx(a: i64, b: i64) {
        lemma_mul_centered_commutative(a as int, b as int, 0x1_0000_0000_0000_0000);
    }
}

impl RingCommutative for i64 {
    proof fn lemma_mul_is_commutative(a: i64, b: i64) {
        lemma_mul_centered_commutative(a as int, b as int, 0x1_0000_0000_0000_0000);
    }
}

} // verus!

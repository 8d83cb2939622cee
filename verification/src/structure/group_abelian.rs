//! Commutative groups.
use crate::cmp::approx_eq_spec;
use crate::modular::lemma_add_centered_commutative;
use crate::ops::{Additive, Op};
use crate::structure::group::{Group, GroupApprox};
use crate::structure::magma::MagmaApprox;
use vstd::prelude::*;

verus! {

/// Whether `a` and `b` give the same in either order, up to the default
/// tolerance.
pub open spec fn is_commutative_approx<O: Op, T: MagmaApprox<O>>(a: T, b: T) -> bool {
    approx_eq_spec(a.approx_spec(b), b.approx_spec(a))
}

/// Whether `a` and `b` give the same in either order.
pub open spec fn is_commutative<O: Op, T: MagmaApprox<O>>(a: T, b: T) -> bool {
    a.approx_spec(b) == b.approx_spec(a)
}

/// A group whose operation is commutative up to the default tolerance.
pub trait GroupAbelianApprox<O: Op>: GroupApprox<O> {
    /// The operation is commutative up to the default tolerance.
    proof fn lemma_commutative_approx(a: Self, b: Self)
        ensures
            is_commutative_approx::<O, Self>(a, b),
    ;

    /// Evaluates commutativity, up to the default tolerance, on the given
    /// values. It holds of all of them.
    fn prop_is_commutative_approx(args: (Self, Self)) -> (r: bool)
        ensures
            r == is_commutative_approx::<O, Self>(args.0, args.1),
            r,
    {
        let (a, b) = args;
        let (a1, b1) = (a.clone(), b.clone());
        proof {
            Self::lemma_clone_is_exact(a, a1);
            Self::lemma_clone_is_exact(b, b1);
            Self::lemma_commutative_approx(a, b);
        }
        a1.approx(b1).approx_eq(&b.approx(a))
    }
}

/// A group whose operation is commutative.
pub trait GroupAbelian<O: Op>: GroupAbelianApprox<O> + Group<O> {
    /// The operation is commutative.
    proof fn lemma_commutative(a: Self, b: Self)
        ensures
            is_commutative::<O, Self>(a, b),
    ;

    /// Evaluates commutativity on the given values. It holds of all of them.
    fn prop_is_commutative(args: (Self, Self)) -> (r: bool)
        ensures
            r == is_commutative::<O, Self>(args.0, args.1),
            r,
    {
        let (a, b) = args;
        let (a1, b1) = (a.clone(), b.clone());
        proof {
            Self::lemma_clone_is_exact(a, a1);
            Self::lemma_clone_is_exact(b, b1);
            Self::lemma_commutative(a, b);
            Self::lemma_eq_is_exact();
        }
        a1.operate(b1) == b.operate(a)
    }
}

// Addition modulo a power of two is commutative.

impl GroupAbelianApprox<Additive> for i8 {
    proof fn lemma_commutative_approx(a: i8, b: i8) {
        lemma_add_centered_commutative(a as int, b as int, 0x100);
        assert(is_commutative::<Additive, i8>(a, b));
    }
}

impl GroupAbelian<Additive> for i8 {
    proof fn lemma_commutative(a: i8, b: i8) {
        lemma_add_centered_commutative(a as int, b as int, 0x100);
        assert(is_commutative::<Additive, i8>(a, b));
    }
}

impl GroupAbelianApprox<Additive> for i16 {
    proof fn lemma_commutative_approx(a: i16, b: i16) {
        lemma_add_centered_commutative(a as int, b as int, 0x1_0000);
        assert(is_commutative::<Additive, i16>(a, b));
    }
}

impl GroupAbelian<Additive> for i16 {
    proof fn lemma_commutative(a: i16, b: i16) {
        lemma_add_centered_commutative(a as int, b as int, 0x1_0000);
        assert(is_commutative::<Additive, i16>(a, b));
    }
}

impl GroupAbelianApprox<Additive> for i32 {
    proof fn lemma_commutative_approx(a: i32, b: i32) {
        lemma_add_centered_commutative(a as int, b as int, 0x1_0000_0000);
        assert(is_commutative::<Additive, i32>(a, b));
    }
}

impl GroupAbelian<Additive> for i32 {
    proof fn lemma_commutative(a: i32, b: i32) {
        lemma_add_centered_commutative(a as int, b as int, 0x1_0000_0000);
        assert(is_commutative::<Additive, i32>(a, b));
    }
}

impl GroupAbelianApprox<Additive> for i64 {
    proof fn lemma_commutative_approx(a: i64, b: i64) {
        lemma_add_centered_commutative(a as int, b as int, 0x1_0000_0000_0000_0000);
        assert(is_commutative::<Additive, i64>(a, b));
    }
}

impl GroupAbelian<Additive> for i64 {
    proof fn lemma_commutative(a: i64, b: i64) {
        lemma_add_centered_commutative(a as int, b as int, 0x1_0000_0000_0000_0000);
        assert(is_commutative::<Additive, i64>(a, b));
    }
}

} // verus!

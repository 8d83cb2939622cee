//! Modules and vector spaces.
use crate::cmp::approx_eq_spec;
use crate::ops::{Additive, Multiplicative};
use crate::structure::field::{Field, FieldApprox};
use crate::structure::group_abelian::{GroupAbelian, GroupAbelianApprox};
use crate::structure::magma::MagmaApprox;
use crate::structure::monoid::{Monoid, MonoidApprox};
use crate::structure::ring::{one, plus, times, RingCommutative, RingCommutativeApprox};
use crate::structure::semigroup::{Semigroup, SemigroupApprox};
use vstd::prelude::*;

verus! {

/// A commutative group under addition on which the commutative ring `S` acts,
/// with the laws of a module up to the default tolerance.
pub trait ModuleApprox<S: RingCommutativeApprox>: GroupAbelianApprox<Additive> {
    /// The element that the scalar `s` makes of `self`.
    spec fn multiply_by_spec(self, s: S) -> Self;

    /// Lets the scalar `s` act on `self`.
    fn multiply_by(self, s: S) -> (r: Self)
        ensures
            r == self.multiply_by_spec(s),
    ;

    /// The action meets the laws of a module up to the default tolerance: it
    /// distributes over the sum of elements and over the sum of scalars, it
    /// agrees with the product of scalars, and the scalar one leaves an
    /// element as it is.
    proof fn lemma_is_module_action_approx(p: S, q: S, x: Self, y: Self)
        ensures
            approx_eq_spec(
                plus(x, y).multiply_by_spec(p),
                plus(x.multiply_by_spec(p), y.multiply_by_spec(p)),
            ),
            approx_eq_spec(
                x.multiply_by_spec(plus(p, q)),
                plus(x.multiply_by_spec(p), x.multiply_by_spec(q)),
            ),
            approx_eq_spec(
                x.multiply_by_spec(times(p, q)),
                x.multiply_by_spec(q).multiply_by_spec(p),
            ),
            approx_eq_spec(
                x.multiply_by_spec(one()),
                x,
            ),
    ;
}

/// A commutative group under addition on which the commutative ring `S` acts,
/// with the laws of a module.
pub trait Module<S: RingCommutative>: ModuleApprox<S> + GroupAbelian<Additive> {
    /// The action meets the laws of a module: it distributes over the sum of
    /// elements and over the sum of scalars, it agrees with the product of
    /// scalars, and the scalar one leaves an element as it is.
    proof fn lemma_is_module_action(p: S, q: S, x: Self, y: Self)
        ensures
            plus(x, y).multiply_by_spec(p) == plus(
                x.multiply_by_spec(p),
                y.multiply_by_spec(p),
            ),
            x.multiply_by_spec(plus(p, q)) == plus(
                x.multiply_by_spec(p),
                x.multiply_by_spec(q),
            ),
            x.multiply_by_spec(times(p, q)) == x.multiply_by_spec(
                q,
            ).multiply_by_spec(p),
            x.multiply_by_spec(one()) == x,
    ;
}

/// An approximate vector space is an approximate module over an approximate
/// field.
pub trait VectorSpaceApprox<S: FieldApprox>: ModuleApprox<S> {
}

/// A vector space is a module over a field.
pub trait VectorSpace<S: Field>: VectorSpaceApprox<S> + Module<S> {
}

/// Every commutative ring is a module over itself: a scalar acts by
/// multiplication from the left.
impl<R: RingCommutativeApprox> ModuleApprox<R> for R {
    open spec fn multiply_by_spec(self, s: R) -> R {
        times(s, self)
    }

    fn multiply_by(self, s: R) -> R {
        s.ap(Multiplicative, self)
    }

    proof fn lemma_is_module_action_approx(p: R, q: R, x: R, y: R) {
        R::lemma_mul_and_add_are_distributive_approx(p, x, y);
        R::lemma_mul_and_add_are_distributive_approx(x, p, q);
        <R as SemigroupApprox<Multiplicative>>::lemma_associative_approx(p, q, x);
        <R as MonoidApprox<Multiplicative>>::lemma_identity_is_noop_approx(x);
    }
}

impl<R: RingCommutative> Module<R> for R {
    proof fn lemma_is_module_action(p: R, q: R, x: R, y: R) {
        R::lemma_mul_and_add_are_distributive(p, x, y);
        R::lemma_mul_and_add_are_distributive(x, p, q);
        <R as Semigroup<Multiplicative>>::lemma_associative(p, q, x);
        <R as Monoid<Multiplicative>>::lemma_identity_is_noop(x);
    }
}

/// Every field is a vector space over itself.
impl<F: FieldApprox> VectorSpaceApprox<F> for F {
}

impl<F: Field> VectorSpace<F> for F {
}

} // verus!

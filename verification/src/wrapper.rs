//! A wrapper that lets an algebraic type be used with the arithmetic operators.
use crate::cmp::{approx_eq_spec, ApproxEq};
use crate::ident::Identity;
use crate::ops::{Additive, Inverse, Multiplicative, Op, Recip};
use crate::structure::magma::MagmaApprox;
use crate::structure::quasigroup::{Quasigroup, QuasigroupApprox};
use core::ops::Neg;
use vstd::prelude::*;
use vstd::std_specs::ops::{AddSpec, DivSpec, MulSpec, NegSpec, SubSpec};

verus! {

/// A value together with the operators that its structures give it.
///
/// `+` and `*` are the additive and the multiplicative operation of the
/// wrapped type, `-` and `recip` its inverses. Subtraction and division are
/// derived: `a - b` is `a + (-b)`, and `a / b` is `a * b.recip()`.
#[derive(PartialOrd, PartialEq, Debug)]
pub struct Wrapper<M>(pub M);

impl<M: Clone> Clone for Wrapper<M> {
    /// Wraps a clone of the wrapped value.
    fn clone(&self) -> (r: Wrapper<M>)
        ensures
            cloned(self.0, r.0),
    {
        Wrapper(self.0.clone())
    }
}

impl<M: Copy> Copy for Wrapper<M> {
}

/// Wraps the identity element of the operator that the tag names.
pub fn id<O: Op, M: Identity<O>>(_op: O) -> (r: Wrapper<M>)
    ensures
        r == Wrapper(M::id_spec()),
{
    Wrapper(M::id())
}

/// Wrappers compare as the wrapped values do, with the same tolerances.
impl<M: ApproxEq> ApproxEq for Wrapper<M> {
    type Eps = M::Eps;

    open spec fn default_epsilon_spec() -> M::Eps {
        M::default_epsilon_spec()
    }

    open spec fn approx_eq_eps_spec(&self, b: &Wrapper<M>, epsilon: &M::Eps) -> bool {
        self.0.approx_eq_eps_spec(&b.0, epsilon)
    }

    open spec fn eps_le(small: &M::Eps, large: &M::Eps) -> bool {
        M::eps_le(small, large)
    }

    fn default_epsilon() -> M::Eps {
        M::default_epsilon()
    }

    fn approx_eq_eps(&self, b: &Wrapper<M>, epsilon: &M::Eps) -> bool {
        self.0.approx_eq_eps(&b.0, epsilon)
    }

    proof fn lemma_approx_eq_reflexive(a: Wrapper<M>) {
        M::lemma_approx_eq_reflexive(a.0);
    }

    proof fn lemma_approx_eq_monotone(a: Wrapper<M>, b: Wrapper<M>, small: M::Eps, large: M::Eps) {
        M::lemma_approx_eq_monotone(a.0, b.0, small, large);
    }
}

/// A wrapper is closed under every operator that the wrapped type is closed
/// under.
impl<O: Op, M: MagmaApprox<O>> MagmaApprox<O> for Wrapper<M> {
    open spec fn approx_spec(self, rhs: Wrapper<M>) -> Wrapper<M> {
        Wrapper(self.0.approx_spec(rhs.0))
    }

    fn approx(self, rhs: Wrapper<M>) -> Wrapper<M> {
        Wrapper(self.0.approx(rhs.0))
    }

    proof fn lemma_clone_is_exact(a: Wrapper<M>, b: Wrapper<M>) {
        M::lemma_clone_is_exact(a.0, b.0);
    }
}

impl<M: MagmaApprox<Additive>> vstd::std_specs::ops::AddSpecImpl<Wrapper<M>>
    for Wrapper<M> {
    open spec fn obeys_add_spec() -> bool {
        true
    }

    open spec fn add_req(self, rhs: Wrapper<M>) -> bool {
        true
    }

    open spec fn add_spec(self, rhs: Wrapper<M>) -> Wrapper<M> {
        Wrapper(self.0.approx_spec(rhs.0))
    }
}

impl<M: MagmaApprox<Additive>> core::ops::Add<Wrapper<M>> for Wrapper<M> {
    type Output = Wrapper<M>;

    /// The additive operation of the wrapped type.
    fn add(self, rhs: Wrapper<M>) -> (r: Wrapper<M>)
        ensures
            r == Wrapper(self.0.approx_spec(rhs.0)),
    {
        Wrapper(self.0.approx(rhs.0))
    }
}

impl<M: QuasigroupApprox<Additive>> vstd::std_specs::ops::NegSpecImpl for Wrapper<M> {
    open spec fn obeys_neg_spec() -> bool {
        true
    }

    open spec fn neg_req(self) -> bool {
        true
    }

    open spec fn neg_spec(self) -> Wrapper<M> {
        Wrapper(self.0.inv_spec())
    }
}

impl<M: QuasigroupApprox<Additive>> core::ops::Neg for Wrapper<M> {
    type Output = Wrapper<M>;

    /// The additive inverse of the wrapped type.
    fn neg(self) -> (r: Wrapper<M>)
        ensures
            r == Wrapper(self.0.inv_spec()),
    {
        Wrapper(self.0.inv())
    }
}

impl<M: QuasigroupApprox<Additive>> vstd::std_specs::ops::SubSpecImpl<Wrapper<M>>
    for Wrapper<M> {
    open spec fn obeys_sub_spec() -> bool {
        true
    }

    open spec fn sub_req(self, rhs: Wrapper<M>) -> bool {
        true
    }

    open spec fn sub_spec(self, rhs: Wrapper<M>) -> Wrapper<M> {
        self.add_spec(rhs.neg_spec())
    }
}

impl<M: QuasigroupApprox<Additive>> core::ops::Sub<Wrapper<M>> for Wrapper<M> {
    type Output = Wrapper<M>;

    /// The sum of `self` and the additive inverse of `rhs`.
    fn sub(self, rhs: Wrapper<M>) -> (r: Wrapper<M>)
        ensures
            r == Wrapper(self.0.approx_spec(rhs.0.inv_spec())),
    {
        self + rhs.neg()
    }
}

impl<M: MagmaApprox<Multiplicative>> vstd::std_specs::ops::MulSpecImpl<Wrapper<M>>
    for Wrapper<M> {
    open spec fn obeys_mul_spec() -> bool {
        true
    }

    open spec fn mul_req(self, rhs: Wrapper<M>) -> bool {
        true
    }

    open spec fn mul_spec(self, rhs: Wrapper<M>) -> Wrapper<M> {
        Wrapper(self.0.approx_spec(rhs.0))
    }
}

impl<M: MagmaApprox<Multiplicative>> core::ops::Mul<Wrapper<M>> for Wrapper<M> {
    type Output = Wrapper<M>;

    /// The multiplicative operation of the wrapped type.
    fn mul(self, rhs: Wrapper<M>) -> (r: Wrapper<M>)
        ensures
            r == Wrapper(self.0.approx_spec(rhs.0)),
    {
        Wrapper(self.0.approx(rhs.0))
    }
}

impl<M: QuasigroupApprox<Multiplicative>> Recip for Wrapper<M> {
    type Result = Wrapper<M>;

    open spec fn recip_spec(self) -> Wrapper<M> {
        Wrapper(self.0.inv_spec())
    }

    /// The multiplicative inverse of the wrapped type.
    fn recip(self) -> Wrapper<M> {
        Wrapper(self.0.inv())
    }
}

impl<M: QuasigroupApprox<Multiplicative>> vstd::std_specs::ops::DivSpecImpl<Wrapper<M>>
    for Wrapper<M> {
    open spec fn obeys_div_spec() -> bool {
        true
    }

    open spec fn div_req(self, rhs: Wrapper<M>) -> bool {
        true
    }

    open spec fn div_spec(self, rhs: Wrapper<M>) -> Wrapper<M> {
        self.mul_spec(rhs.recip_spec())
    }
}

impl<M: QuasigroupApprox<Multiplicative>> core::ops::Div<Wrapper<M>> for Wrapper<M> {
    type Output = Wrapper<M>;

    /// The product of `self` and the reciprocal of `rhs`.
    fn div(self, rhs: Wrapper<M>) -> (r: Wrapper<M>)
        ensures
            r == Wrapper(self.0.approx_spec(rhs.0.inv_spec())),
    {
        self * rhs.recip()
    }
}

/// Subtracting a value and adding it again gives the value that one started
/// from, up to the default tolerance.
pub proof fn lemma_sub_add_round_trip_approx<M: QuasigroupApprox<Additive>>(a: M, b: M)
    ensures
        approx_eq_spec(
            Wrapper(a),
            Wrapper(a).sub_spec(Wrapper(b)).add_spec(Wrapper(b)),
        ),
{
    M::lemma_inv_is_latin_square_approx(a, b);
}

/// Where the additive operation can be undone exactly, as in every group under
/// addition, subtracting a value and adding it again gives the value that one
/// started from.
pub proof fn lemma_sub_add_round_trip<M: Quasigroup<Additive>>(a: M, b: M)
    ensures
        Wrapper(a).sub_spec(Wrapper(b)).add_spec(Wrapper(b)) == Wrapper(a),
        approx_eq_spec(
            Wrapper(a).sub_spec(Wrapper(b)).add_spec(Wrapper(b)),
            Wrapper(a),
        ),
{
    M::lemma_inv_is_latin_square(a, b);
    Wrapper::<M>::lemma_approx_eq_reflexive(Wrapper(a));
}

/// Dividing by a value and multiplying by it again gives the value that one
/// started from, up to the default tolerance.
pub proof fn lemma_div_mul_round_trip_approx<M: QuasigroupApprox<Multiplicative>>(a: M, b: M)
    ensures
        approx_eq_spec(
            Wrapper(a),
            Wrapper(a).div_spec(Wrapper(b)).mul_spec(Wrapper(b)),
        ),
{
    M::lemma_inv_is_latin_square_approx(a, b);
}

/// Where the multiplicative operation can be undone exactly, dividing by a
/// value and multiplying by it again gives the value that one started from.
pub proof fn lemma_div_mul_round_trip<M: Quasigroup<Multiplicative>>(a: M, b: M)
    ensures
        Wrapper(a).div_spec(Wrapper(b)).mul_spec(Wrapper(b)) == Wrapper(a),
{
    M::lemma_inv_is_latin_square(a, b);
}

} // verus!

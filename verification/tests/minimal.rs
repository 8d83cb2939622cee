use algebra::cmp::ApproxEq;
use algebra::ops::Additive;
use algebra::structure::{Magma, MagmaApprox, Semigroup, SemigroupApprox};

/// A number under the operation that keeps the larger of two: a semigroup and
/// nothing more. No inverse and no identity element is declared for it.
#[derive(Clone, PartialEq, Eq, Debug)]
struct Largest(u32);

impl ApproxEq for Largest {
    type Eps = u32;

    fn default_epsilon_spec() -> u32 {
        unreachable!()
    }

    fn approx_eq_eps_spec(&self, _: &Largest, _: &u32) -> bool {
        unreachable!()
    }

    fn eps_le(_: &u32, _: &u32) -> bool {
        unreachable!()
    }

    fn default_epsilon() -> u32 {
        0
    }

    fn approx_eq_eps(&self, b: &Largest, epsilon: &u32) -> bool {
        self.0.abs_diff(b.0) <= *epsilon
    }

    fn lemma_approx_eq_reflexive(_: Largest) {
        unreachable!()
    }

    fn lemma_approx_eq_monotone(_: Largest, _: Largest, _: u32, _: u32) {
        unreachable!()
    }
}

impl MagmaApprox<Additive> for Largest {
    fn approx_spec(self, _: Largest) -> Largest {
        unreachable!()
    }

    fn approx(self, rhs: Largest) -> Largest {
        Largest(self.0.max(rhs.0))
    }

    fn lemma_clone_is_exact(_: Largest, _: Largest) {
        unreachable!()
    }
}

impl Magma<Additive> for Largest {
    fn lemma_eq_is_exact() {
        unreachable!()
    }
}

impl SemigroupApprox<Additive> for Largest {
    fn lemma_associative_approx(_: Largest, _: Largest, _: Largest) {
        unreachable!()
    }
}

impl Semigroup<Additive> for Largest {
    fn lemma_associative(_: Largest, _: Largest, _: Largest) {
        unreachable!()
    }
}

#[test]
fn a_bare_semigroup_evaluates_its_law() {
    assert_eq!(Largest(3).operate(Largest(7)), Largest(7));
    assert_eq!(Largest(3).op(Additive, Largest(2)), Largest(3));
    assert!(<Largest as Semigroup<Additive>>::prop_is_associative((
        Largest(5),
        Largest(3),
        Largest(2)
    )));
    assert!(<Largest as SemigroupApprox<Additive>>::prop_is_associative_approx((
        Largest(2),
        Largest(9),
        Largest(4)
    )));
    for a in 0..12 {
        for b in 0..12 {
            for c in 0..12 {
                let args = (Largest(a), Largest(b), Largest(c));
                assert!(<Largest as Semigroup<Additive>>::prop_is_associative(args));
            }
        }
    }
}

/// A number under subtraction, which is not associative: the predicates tell.
#[derive(Clone, PartialEq, Eq, Debug)]
struct Minus(i32);

impl ApproxEq for Minus {
    type Eps = i32;

    fn default_epsilon_spec() -> i32 {
        unreachable!()
    }

    fn approx_eq_eps_spec(&self, _: &Minus, _: &i32) -> bool {
        unreachable!()
    }

    fn eps_le(_: &i32, _: &i32) -> bool {
        unreachable!()
    }

    fn default_epsilon() -> i32 {
        0
    }

    fn approx_eq_eps(&self, b: &Minus, epsilon: &i32) -> bool {
        self.0.abs_diff(b.0) <= epsilon.unsigned_abs() && *epsilon >= 0
    }

    fn lemma_approx_eq_reflexive(_: Minus) {
        unreachable!()
    }

    fn lemma_approx_eq_monotone(_: Minus, _: Minus, _: i32, _: i32) {
        unreachable!()
    }
}

impl MagmaApprox<Additive> for Minus {
    fn approx_spec(self, _: Minus) -> Minus {
        unreachable!()
    }

    fn approx(self, rhs: Minus) -> Minus {
        Minus(self.0.wrapping_sub(rhs.0))
    }

    fn lemma_clone_is_exact(_: Minus, _: Minus) {
        unreachable!()
    }
}

impl Magma<Additive> for Minus {
    fn lemma_eq_is_exact() {
        unreachable!()
    }
}

impl SemigroupApprox<Additive> for Minus {
    fn lemma_associative_approx(_: Minus, _: Minus, _: Minus) {
        unreachable!()
    }
}

impl Semigroup<Additive> for Minus {
    fn lemma_associative(_: Minus, _: Minus, _: Minus) {
        unreachable!()
    }
}

#[test]
fn the_predicates_tell_a_broken_law() {
    // (5 - 3) - 2 is 0, and 5 - (3 - 2) is 4.
    let args = (Minus(5), Minus(3), Minus(2));
    assert!(!<Minus as Semigroup<Additive>>::prop_is_associative(args.clone()));
    assert!(!<Minus as SemigroupApprox<Additive>>::prop_is_associative_approx(args));
    // With a zero at the end both groupings agree.
    let args = (Minus(5), Minus(3), Minus(0));
    assert!(<Minus as Semigroup<Additive>>::prop_is_associative(args.clone()));
    assert!(<Minus as SemigroupApprox<Additive>>::prop_is_associative_approx(args));
}

use algebra::ops::{Additive, Multiplicative, Recip};
use algebra::structure::{Group, MagmaApprox, QuasigroupApprox};
use algebra::wrapper::{id, Wrapper};

#[test]
fn subtraction_of_wrapped_integers() {
    assert_eq!(Wrapper(5i32) - Wrapper(3i32), Wrapper(2i32));
}

#[test]
fn a_wrapped_value_plus_its_negation_is_the_identity() {
    assert_eq!(Wrapper(2i32) + (-Wrapper(2i32)), id(Additive));
    assert_eq!(Wrapper(2i32) + (-Wrapper(2i32)), Wrapper(0i32));
}

#[test]
fn the_identity_wrapper_holds_the_identity_element() {
    assert_eq!(id::<Additive, i32>(Additive), Wrapper(0));
    assert_eq!(id::<Multiplicative, i32>(Multiplicative), Wrapper(1));
    assert_eq!(id::<Additive, u8>(Additive), Wrapper(0));
    assert_eq!(id::<Multiplicative, u64>(Multiplicative), Wrapper(1));
    let zero: Wrapper<i64> = id(Additive);
    assert_eq!(zero.0, 0);
}

#[test]
fn operators_of_wrapped_integers() {
    assert_eq!(Wrapper(5u8) + Wrapper(3), Wrapper(8));
    assert_eq!(Wrapper(200u8) + Wrapper(100), Wrapper(44));
    assert_eq!(Wrapper(6u8) * Wrapper(7), Wrapper(42));
    assert_eq!(Wrapper(200u8) * Wrapper(2), Wrapper(144));
    assert_eq!(-Wrapper(5i16), Wrapper(-5));
    assert_eq!(-Wrapper(i16::MIN), Wrapper(i16::MIN));
    assert_eq!(Wrapper(3i64) - Wrapper(5), Wrapper(-2));
    assert_eq!(Wrapper(i64::MIN) - Wrapper(1), Wrapper(i64::MAX));
    assert_eq!(Wrapper(0i8) - Wrapper(i8::MIN), Wrapper(i8::MIN));
}

#[test]
fn a_wrapper_is_closed_under_the_operators_of_its_value() {
    assert_eq!(Wrapper(5u8).ap(Additive, Wrapper(3)), Wrapper(8));
    assert_eq!(Wrapper(200u8).ap(Additive, Wrapper(100)), Wrapper(44));
    assert_eq!(Wrapper(5i32).ap(Multiplicative, Wrapper(-3)), Wrapper(-15));
    assert_eq!(Wrapper(Wrapper(2i16)) + Wrapper(Wrapper(3)), Wrapper(Wrapper(5)));
}

#[test]
fn subtraction_is_addition_of_the_negation() {
    for a in i8::MIN..=i8::MAX {
        for b in i8::MIN..=i8::MAX {
            assert_eq!(Wrapper(a) - Wrapper(b), Wrapper(a) + (-Wrapper(b)));
            assert_eq!(Wrapper(a) - Wrapper(b), Wrapper(a.wrapping_sub(b)));
        }
    }
}

fn round_trips<M: Group<Additive> + Copy>(a: M, b: M) -> bool {
    Wrapper(a) - Wrapper(b) + Wrapper(b) == Wrapper(a)
}

#[test]
fn subtracting_and_adding_again_round_trips() {
    assert!(round_trips(5i32, 3));
    assert!(round_trips(i32::MIN, 1));
    assert!(round_trips(i64::MAX, i64::MIN));
    assert!(round_trips(-1i16, i16::MAX));
    for a in i8::MIN..=i8::MAX {
        for b in i8::MIN..=i8::MAX {
            assert!(round_trips(a, b));
        }
    }
}

#[test]
fn wrappers_are_copied_and_ordered_as_their_values() {
    let a = Wrapper(5i32);
    let b = a;
    let c = a.clone();
    assert_eq!(a, b);
    assert_eq!(a, c);
    assert!(Wrapper(1u8) < Wrapper(2u8));
    assert!(Wrapper(-1i8) <= Wrapper(-1i8));
    assert_ne!(Wrapper(1u8), Wrapper(2u8));
    assert_eq!(format!("{:?}", Wrapper(7u8)), "Wrapper(7)");
}

/// The odd residues modulo 256: a multiplicative group, written out here to
/// drive division through the wrapper.
#[derive(Clone, Copy, PartialEq, Debug)]
struct Odd(u8);

impl algebra::cmp::ApproxEq for Odd {
    type Eps = u8;

    fn default_epsilon_spec() -> u8 {
        unreachable!()
    }

    fn approx_eq_eps_spec(&self, _: &Odd, _: &u8) -> bool {
        unreachable!()
    }

    fn eps_le(_: &u8, _: &u8) -> bool {
        unreachable!()
    }

    fn default_epsilon() -> u8 {
        0
    }

    fn approx_eq_eps(&self, b: &Odd, epsilon: &u8) -> bool {
        self.0.abs_diff(b.0) <= *epsilon
    }

    fn lemma_approx_eq_reflexive(_: Odd) {
        unreachable!()
    }

    fn lemma_approx_eq_monotone(_: Odd, _: Odd, _: u8, _: u8) {
        unreachable!()
    }
}

impl algebra::structure::MagmaApprox<Multiplicative> for Odd {
    fn approx_spec(self, _: Odd) -> Odd {
        unreachable!()
    }

    fn approx(self, rhs: Odd) -> Odd {
        Odd(self.0.wrapping_mul(rhs.0))
    }

    fn lemma_clone_is_exact(_: Odd, _: Odd) {
        unreachable!()
    }
}

impl algebra::ops::Inverse<Multiplicative> for Odd {
    fn inv_spec(self) -> Odd {
        unreachable!()
    }

    fn inv(self) -> Odd {
        // An odd residue to the power 64 is one, so its power 63 is its inverse.
        let mut r = Odd(1);
        for _ in 0..63 {
            r = Odd(r.0.wrapping_mul(self.0));
        }
        r
    }
}

impl QuasigroupApprox<Multiplicative> for Odd {
    fn lemma_inv_is_latin_square_approx(_: Odd, _: Odd) {
        unreachable!()
    }
}

#[test]
fn division_is_multiplication_by_the_reciprocal() {
    assert_eq!(Wrapper(Odd(3)).recip(), Wrapper(Odd(171)));
    assert_eq!(Wrapper(Odd(1)) / Wrapper(Odd(3)), Wrapper(Odd(171)));
    assert_eq!(Wrapper(Odd(15)) / Wrapper(Odd(3)), Wrapper(Odd(5)));
    assert_eq!(Wrapper(Odd(15)) / Wrapper(Odd(3)), Wrapper(Odd(15)) * Wrapper(Odd(3)).recip());
}

#[test]
fn dividing_and_multiplying_again_round_trips() {
    let mut a: u16 = 1;
    while a <= 255 {
        let mut b: u16 = 1;
        while b <= 255 {
            let (x, y) = (Wrapper(Odd(a as u8)), Wrapper(Odd(b as u8)));
            assert_eq!((x / y) * y, x);
            assert!(<Odd as QuasigroupApprox<Multiplicative>>::prop_inv_is_latin_square_approx((
                x.0, y.0
            )));
            b += 2;
        }
        a += 2;
    }
}

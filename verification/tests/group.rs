use algebra::ident::Identity;
use algebra::ops::{Additive, Inverse};
use algebra::structure::{Group, GroupAbelian, GroupAbelianApprox, Loop, Magma, Monoid};

fn cancels<T: Loop<Additive> + Copy>(a: T) -> bool {
    a.operate(a.inv()) == T::id() && a.inv().operate(a) == T::id()
}

#[test]
fn a_value_and_its_inverse_give_the_identity() {
    assert!(cancels(5i8));
    assert!(cancels(i8::MIN));
    assert!(cancels(i16::MAX));
    assert!(cancels(-1i32));
    assert!(cancels(i32::MIN));
    assert!(cancels(i64::MIN));
    assert!(cancels(0i64));
    assert_eq!(5i32.op(Additive, 5i32.inv()), 0);
    assert_eq!(i32::MIN.op(Additive, i32::MIN.inv()), 0);
}

#[test]
fn every_i8_cancels_against_its_inverse() {
    for a in i8::MIN..=i8::MAX {
        assert!(cancels(a));
    }
}

fn difference<T: Group<Additive>>(a: T, b: T) -> T {
    a.operate(b.inv())
}

fn is_neutral<T: Monoid<Additive>>(a: T) -> bool {
    T::prop_operating_identity_element_is_noop(a)
}

#[test]
fn a_group_is_a_loop_and_a_monoid() {
    assert_eq!(difference(5i32, 3), 2);
    assert_eq!(difference(i8::MIN, 1), i8::MAX);
    assert_eq!(difference(0i64, i64::MIN), i64::MIN);
    assert!(cancels(difference(5i16, 3)));
    assert!(is_neutral(difference(5i16, 3)));
}

#[test]
fn addition_is_commutative() {
    assert!(<i8 as GroupAbelian<Additive>>::prop_is_commutative((100, 100)));
    assert!(<i16 as GroupAbelian<Additive>>::prop_is_commutative((i16::MIN, -1)));
    assert!(<i32 as GroupAbelian<Additive>>::prop_is_commutative((5, -3)));
    assert!(<i64 as GroupAbelian<Additive>>::prop_is_commutative((i64::MAX, i64::MAX)));
    assert!(<i64 as GroupAbelianApprox<Additive>>::prop_is_commutative_approx((i64::MAX, 1)));
    for a in i8::MIN..=i8::MAX {
        for b in i8::MIN..=i8::MAX {
            assert!(<i8 as GroupAbelian<Additive>>::prop_is_commutative((a, b)));
            assert!(<i8 as GroupAbelianApprox<Additive>>::prop_is_commutative_approx((a, b)));
        }
    }
}

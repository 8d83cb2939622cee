use algebra::ops::{Additive, Multiplicative};
use algebra::structure::{Magma, Ring, RingApprox, RingCommutative, RingCommutativeApprox};

#[test]
fn multiplication_distributes_over_addition() {
    assert!(<i32 as Ring>::prop_mul_and_add_are_distributive((5, 3, 2)));
    assert!(<i32 as RingApprox>::prop_mul_and_add_are_distributive_approx((5, 3, 2)));
    assert_eq!(5i32.op(Multiplicative, 3i32.op(Additive, 2)), 25);
    assert_eq!(5i32.op(Multiplicative, 3).op(Additive, 5i32.op(Multiplicative, 2)), 25);
}

#[test]
fn distributivity_survives_overflow() {
    assert!(<i8 as Ring>::prop_mul_and_add_are_distributive((100, 100, 100)));
    assert!(<i8 as Ring>::prop_mul_and_add_are_distributive((i8::MIN, i8::MAX, -1)));
    assert!(<i16 as Ring>::prop_mul_and_add_are_distributive((i16::MAX, i16::MAX, 2)));
    assert!(<i32 as Ring>::prop_mul_and_add_are_distributive((65_536, 65_535, 65_537)));
    assert!(<i64 as Ring>::prop_mul_and_add_are_distributive((i64::MIN, 3, i64::MAX)));
    assert!(<i64 as RingApprox>::prop_mul_and_add_are_distributive_approx((
        3_037_000_500,
        3_037_000_500,
        i64::MAX
    )));
}

#[test]
fn distributivity_holds_of_sampled_i8_triples() {
    let mut a: i16 = -128;
    while a <= 127 {
        let mut b: i16 = -128;
        while b <= 127 {
            let mut c: i16 = -128;
            while c <= 127 {
                let args = (a as i8, b as i8, c as i8);
                assert!(<i8 as Ring>::prop_mul_and_add_are_distributive(args));
                assert!(<i8 as RingApprox>::prop_mul_and_add_are_distributive_approx(args));
                c += 3;
            }
            b += 7;
        }
        a += 5;
    }
}

#[test]
fn multiplication_is_commutative() {
    assert!(<i8 as RingCommutative>::prop_mul_is_commutative((100, -3)));
    assert!(<i16 as RingCommutative>::prop_mul_is_commutative((i16::MIN, i16::MAX)));
    assert!(<i32 as RingCommutative>::prop_mul_is_commutative((65_536, 65_537)));
    assert!(<i64 as RingCommutative>::prop_mul_is_commutative((i64::MIN, -1)));
    assert!(<i64 as RingCommutativeApprox>::prop_mul_is_commutative_approx((i64::MAX, 3)));
    for a in i8::MIN..=i8::MAX {
        for b in i8::MIN..=i8::MAX {
            assert!(<i8 as RingCommutative>::prop_mul_is_commutative((a, b)));
            assert!(<i8 as RingCommutativeApprox>::prop_mul_is_commutative_approx((a, b)));
        }
    }
}

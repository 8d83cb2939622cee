use algebra::ops::{Additive, Multiplicative};
use algebra::structure::{Magma, Semigroup, SemigroupApprox};

#[test]
fn prop_add_is_associative_for_5_3_2() {
    assert!(<i32 as Semigroup<Additive>>::prop_is_associative((5, 3, 2)));
    assert!(<i32 as SemigroupApprox<Additive>>::prop_is_associative_approx((5, 3, 2)));
    assert_eq!(5i32.op(Additive, 3).op(Additive, 2), 10);
    assert_eq!(5i32.op(Additive, 3i32.op(Additive, 2)), 10);
}

#[test]
fn prop_mul_is_associative_for_5_3_2() {
    assert!(<i32 as Semigroup<Multiplicative>>::prop_is_associative((5, 3, 2)));
    assert!(<i32 as SemigroupApprox<Multiplicative>>::prop_is_associative_approx((5, 3, 2)));
    assert_eq!(5i32.op(Multiplicative, 3).op(Multiplicative, 2), 30);
    assert_eq!(5i32.op(Multiplicative, 3i32.op(Multiplicative, 2)), 30);
}

#[test]
fn addition_stays_associative_across_overflow() {
    assert!(<u8 as Semigroup<Additive>>::prop_is_associative((200, 100, 50)));
    assert!(<i8 as Semigroup<Additive>>::prop_is_associative((100, 100, -100)));
    assert!(<u16 as Semigroup<Additive>>::prop_is_associative((u16::MAX, u16::MAX, u16::MAX)));
    assert!(<i16 as Semigroup<Additive>>::prop_is_associative((i16::MIN, i16::MIN, i16::MAX)));
    assert!(<u32 as Semigroup<Additive>>::prop_is_associative((u32::MAX, 1, u32::MAX)));
    assert!(<i32 as Semigroup<Additive>>::prop_is_associative((i32::MAX, i32::MAX, i32::MIN)));
    assert!(<u64 as Semigroup<Additive>>::prop_is_associative((u64::MAX, 2, u64::MAX - 1)));
    assert!(<i64 as Semigroup<Additive>>::prop_is_associative((i64::MIN, -1, i64::MAX)));
    assert!(<i64 as SemigroupApprox<Additive>>::prop_is_associative_approx((i64::MIN, -1, 1)));
}

#[test]
fn multiplication_stays_associative_across_overflow() {
    assert!(<u8 as Semigroup<Multiplicative>>::prop_is_associative((200, 100, 50)));
    assert!(<i8 as Semigroup<Multiplicative>>::prop_is_associative((100, -100, 77)));
    assert!(<u16 as Semigroup<Multiplicative>>::prop_is_associative((u16::MAX, 255, 257)));
    assert!(<i16 as Semigroup<Multiplicative>>::prop_is_associative((i16::MIN, 3, -5)));
    assert!(<u32 as Semigroup<Multiplicative>>::prop_is_associative((65_537, 65_537, 3)));
    assert!(<i32 as Semigroup<Multiplicative>>::prop_is_associative((i32::MAX, -3, i32::MIN)));
    assert!(<u64 as Semigroup<Multiplicative>>::prop_is_associative((u64::MAX, u64::MAX, 12_345)));
    assert!(<i64 as Semigroup<Multiplicative>>::prop_is_associative((i64::MIN, -1, i64::MAX)));
    assert!(<i64 as SemigroupApprox<Multiplicative>>::prop_is_associative_approx((
        3_037_000_500,
        3_037_000_500,
        -7
    )));
}

#[test]
fn associativity_holds_of_sampled_i8_triples() {
    let mut a: i16 = -128;
    while a <= 127 {
        let mut b: i16 = -128;
        while b <= 127 {
            let mut c: i16 = -128;
            while c <= 127 {
                let args = (a as i8, b as i8, c as i8);
                assert!(<i8 as Semigroup<Additive>>::prop_is_associative(args));
                assert!(<i8 as Semigroup<Multiplicative>>::prop_is_associative(args));
                assert!(<i8 as SemigroupApprox<Additive>>::prop_is_associative_approx(args));
                assert!(<i8 as SemigroupApprox<Multiplicative>>::prop_is_associative_approx(args));
                c += 5;
            }
            b += 3;
        }
        a += 7;
    }
}

#[test]
fn both_groupings_give_the_same_u8() {
    let mut a: u16 = 0;
    while a <= 255 {
        let mut b: u16 = 0;
        while b <= 255 {
            let mut c: u16 = 0;
            while c <= 255 {
                let (x, y, z) = (a as u8, b as u8, c as u8);
                assert_eq!(x.op(Additive, y).op(Additive, z), x.op(Additive, y.op(Additive, z)));
                assert_eq!(
                    x.op(Multiplicative, y).op(Multiplicative, z),
                    x.op(Multiplicative, y.op(Multiplicative, z))
                );
                c += 7;
            }
            b += 5;
        }
        a += 3;
    }
}

fn groupings_agree<T: Semigroup<Additive>>(a: T, b: T, c: T) -> bool {
    T::prop_is_associative((a, b, c))
}

#[test]
fn a_semigroup_needs_no_inverse() {
    // The unsigned integers have no additive inverse and are no group, yet
    // the predicate is at hand for them.
    assert!(groupings_agree(7u8, 250u8, 9u8));
    assert!(groupings_agree(u64::MAX, u64::MAX, u64::MAX));
    assert!(<u32 as Semigroup<Multiplicative>>::prop_is_associative((7, 250, 9)));
}

use algebra::ops::{Additive, Inverse};
use algebra::structure::{Magma, Quasigroup, QuasigroupApprox};

#[test]
fn the_inverse_undoes_addition() {
    assert!(<i32 as Quasigroup<Additive>>::prop_inv_is_latin_square((5, 3)));
    assert!(<i32 as QuasigroupApprox<Additive>>::prop_inv_is_latin_square_approx((5, 3)));
    assert_eq!(5i32.op(Additive, 3i32.inv()), 2);
    assert_eq!(5i32.op(Additive, 3i32.inv()).op(Additive, 3), 5);
    assert_eq!(5i32.op(Additive, 3i32.op(Additive, 3i32.inv())), 5);
}

#[test]
fn the_inverse_undoes_addition_across_overflow() {
    assert!(<i8 as Quasigroup<Additive>>::prop_inv_is_latin_square((i8::MIN, i8::MIN)));
    assert!(<i8 as Quasigroup<Additive>>::prop_inv_is_latin_square((i8::MAX, i8::MIN)));
    assert!(<i16 as Quasigroup<Additive>>::prop_inv_is_latin_square((i16::MIN, 1)));
    assert!(<i32 as Quasigroup<Additive>>::prop_inv_is_latin_square((i32::MAX, -1)));
    assert!(<i64 as Quasigroup<Additive>>::prop_inv_is_latin_square((i64::MIN, i64::MAX)));
    assert!(<i64 as QuasigroupApprox<Additive>>::prop_inv_is_latin_square_approx((
        i64::MIN,
        i64::MIN
    )));
}

#[test]
fn the_inverse_undoes_addition_of_every_i8_pair() {
    for a in i8::MIN..=i8::MAX {
        for b in i8::MIN..=i8::MAX {
            assert!(<i8 as Quasigroup<Additive>>::prop_inv_is_latin_square((a, b)));
            assert!(<i8 as QuasigroupApprox<Additive>>::prop_inv_is_latin_square_approx((a, b)));
        }
    }
}

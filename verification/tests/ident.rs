use algebra::ident::Identity;
use algebra::ops::{Additive, Multiplicative};

#[test]
fn additive_identity_is_zero() {
    assert_eq!(<u8 as Identity<Additive>>::id(), 0);
    assert_eq!(<u16 as Identity<Additive>>::id(), 0);
    assert_eq!(<u32 as Identity<Additive>>::id(), 0);
    assert_eq!(<u64 as Identity<Additive>>::id(), 0);
    assert_eq!(<i8 as Identity<Additive>>::id(), 0);
    assert_eq!(<i16 as Identity<Additive>>::id(), 0);
    assert_eq!(<i32 as Identity<Additive>>::id(), 0);
    assert_eq!(<i64 as Identity<Additive>>::id(), 0);
}

#[test]
fn multiplicative_identity_is_one() {
    assert_eq!(<u8 as Identity<Multiplicative>>::id(), 1);
    assert_eq!(<u16 as Identity<Multiplicative>>::id(), 1);
    assert_eq!(<u32 as Identity<Multiplicative>>::id(), 1);
    assert_eq!(<u64 as Identity<Multiplicative>>::id(), 1);
    assert_eq!(<i8 as Identity<Multiplicative>>::id(), 1);
    assert_eq!(<i16 as Identity<Multiplicative>>::id(), 1);
    assert_eq!(<i32 as Identity<Multiplicative>>::id(), 1);
    assert_eq!(<i64 as Identity<Multiplicative>>::id(), 1);
}

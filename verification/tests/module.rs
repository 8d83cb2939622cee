use algebra::ident::Identity;
use algebra::ops::{Additive, Multiplicative};
use algebra::structure::{Magma, Module, ModuleApprox, RingCommutative};

#[test]
fn a_ring_acts_on_itself_by_multiplication() {
    assert_eq!(3i32.multiply_by(4), 12);
    assert_eq!((-3i8).multiply_by(4), -12);
    assert_eq!(100i8.multiply_by(3), 44);
    assert_eq!(i64::MIN.multiply_by(-1), i64::MIN);
    assert_eq!(7i16.multiply_by(0), 0);
}

fn meets_the_laws<S, M>(p: S, q: S, x: M, y: M) -> bool
where
    S: RingCommutative + Copy,
    M: Module<S> + Copy,
{
    let over_elements =
        x.op(Additive, y).multiply_by(p) == x.multiply_by(p).op(Additive, y.multiply_by(p));
    let over_scalars =
        x.multiply_by(p.op(Additive, q)) == x.multiply_by(p).op(Additive, x.multiply_by(q));
    let with_product = x.multiply_by(p.op(Multiplicative, q)) == x.multiply_by(q).multiply_by(p);
    let with_one = x.multiply_by(<S as Identity<Multiplicative>>::id()) == x;
    over_elements && over_scalars && with_product && with_one
}

#[test]
fn the_action_meets_the_laws_of_a_module() {
    assert!(meets_the_laws(2i32, 3i32, 5i32, 7i32));
    assert!(meets_the_laws(-2i8, 3i8, 5i8, -7i8));
    assert!(meets_the_laws(i16::MIN, i16::MAX, -1i16, 2i16));
    assert!(meets_the_laws(65_536i32, 65_537i32, i32::MAX, i32::MIN));
    assert!(meets_the_laws(i64::MAX, i64::MIN, 3_037_000_500i64, -3i64));
}

#[test]
fn the_laws_hold_of_sampled_i8_values() {
    let mut p: i16 = -128;
    while p <= 127 {
        let mut q: i16 = -128;
        while q <= 127 {
            let mut x: i16 = -128;
            while x <= 127 {
                let mut y: i16 = -128;
                while y <= 127 {
                    assert!(meets_the_laws(p as i8, q as i8, x as i8, y as i8));
                    y += 17;
                }
                x += 13;
            }
            q += 11;
        }
        p += 7;
    }
}

//! Addition and multiplication of integers modulo a positive number.
//!
//! A fixed-width integer type computes in the ring of the integers modulo a
//! power of two. An unsigned type holds the remainder itself, a signed type
//! the representative that lies around zero. The lemmas below carry the laws
//! of the integers over to both kinds of representative.
use vstd::arithmetic::div_mod::{
    lemma_add_mod_noop, lemma_add_mod_noop_right, lemma_mod_multiples_vanish, lemma_mod_twice,
    lemma_mul_mod_noop_left, lemma_mul_mod_noop_right, lemma_small_mod,
};
use vstd::arithmetic::mul::{
    lemma_mul_is_associative, lemma_mul_is_commutative, lemma_mul_is_distributive_add,
    lemma_mul_is_distributive_add_other_way,
};
use vstd::prelude::*;

verus! {

/// The representative of `x` modulo `r` that lies around zero: in
/// `r / 2 - r ..= r / 2 - 1`.
pub open spec fn centered(x: int, r: int) -> int {
    if x % r > r / 2 - 1 {
        x % r - r
    } else {
        x % r
    }
}

/// The centered representative of `x` is congruent to `x`.
pub proof fn lemma_centered_is_congruent(x: int, r: int)
    requires
        0 < r,
    ensures
        centered(x, r) % r == x % r,
{
    lemma_mod_twice(x, r);
    lemma_mod_multiples_vanish(-1, x % r, r);
}

/// A number that lies around zero is its own centered representative.
pub proof fn lemma_centered_of_representative(x: int, r: int)
    requires
        0 < r,
        r / 2 - r <= x <= r / 2 - 1,
    ensures
        centered(x, r) == x,
{
    if x >= 0 {
        lemma_small_mod(x as nat, r as nat);
    } else {
        lemma_small_mod((x + r) as nat, r as nat);
        lemma_mod_multiples_vanish(1, x, r);
    }
}

/// Reducing a summand first does not change a sum's remainder.
pub proof fn lemma_sum_of_centered(x: int, y: int, r: int)
    requires
        0 < r,
    ensures
        (centered(x, r) + y) % r == (x + y) % r,
        (y + centered(x, r)) % r == (y + x) % r,
{
    lemma_centered_is_congruent(x, r);
    lemma_add_mod_noop(centered(x, r), y, r);
    lemma_add_mod_noop(x, y, r);
}

/// Reducing a factor first does not change a product's remainder.
pub proof fn lemma_product_of_centered(x: int, y: int, r: int)
    requires
        0 < r,
    ensures
        (centered(x, r) * y) % r == (x * y) % r,
        (y * centered(x, r)) % r == (y * x) % r,
{
    lemma_centered_is_congruent(x, r);
    lemma_mul_mod_noop_left(centered(x, r), y, r);
    lemma_mul_mod_noop_left(x, y, r);
    lemma_mul_mod_noop_right(y, centered(x, r), r);
    lemma_mul_mod_noop_right(y, x, r);
}

/// Zero is neutral for the addition of remainders, and one for their
/// multiplication.
pub proof fn lemma_mod_neutral(a: int, r: int)
    requires
        0 <= a < r,
    ensures
        (a + 0) % r == a,
        (0 + a) % r == a,
        (a * 1) % r == a,
        (1 * a) % r == a,
{
    lemma_small_mod(a as nat, r as nat);
}

/// Zero is neutral for the addition of centered representatives, and one for
/// their multiplication.
pub proof fn lemma_centered_neutral(a: int, r: int)
    requires
        0 < r,
        r / 2 - r <= a <= r / 2 - 1,
    ensures
        centered(a + 0, r) == a,
        centered(0 + a, r) == a,
        centered(a * 1, r) == a,
        centered(1 * a, r) == a,
{
    lemma_centered_of_representative(a, r);
}

/// Addition of remainders is associative.
pub proof fn lemma_add_mod_associative(a: int, b: int, c: int, r: int)
    requires
        0 < r,
    ensures
        (((a + b) % r) + c) % r == (a + ((b + c) % r)) % r,
{
    lemma_add_mod_noop(a + b, c, r);
    lemma_add_mod_noop((a + b) % r, c, r);
    lemma_mod_twice(a + b, r);
    lemma_add_mod_noop_right(a, b + c, r);
}

/// Addition of centered representatives is associative.
pub proof fn lemma_add_centered_associative(a: int, b: int, c: int, r: int)
    requires
        0 < r,
    ensures
        centered(centered(a + b, r) + c, r) == centered(a + centered(b + c, r), r),
{
    lemma_sum_of_centered(a + b, c, r);
    lemma_sum_of_centered(b + c, a, r);
}

/// Addition of centered representatives is commutative.
pub proof fn lemma_add_centered_commutative(a: int, b: int, r: int)
    ensures
        centered(a + b, r) == centered(b + a, r),
{
    assert(a + b == b + a);
}

/// Adding the negation of a number and then the number, in either grouping,
/// gives back the centered representative that one started from.
pub proof fn lemma_add_centered_cancels(a: int, b: int, r: int)
    requires
        0 < r,
        r / 2 - r <= a <= r / 2 - 1,
    ensures
        centered(centered(a + centered(-b, r), r) + b, r) == a,
        centered(a + centered(b + centered(-b, r), r), r) == a,
{
    let n = centered(-b, r);
    lemma_centered_of_representative(a, r);
    // (a + n) + b is congruent to (a - b) + b.
    lemma_sum_of_centered(-b, a, r);
    lemma_sum_of_centered(a + n, b, r);
    lemma_add_mod_noop(a + n, b, r);
    lemma_add_mod_noop(a - b, b, r);
    // a + (b + n) is congruent to a + (b - b).
    lemma_sum_of_centered(-b, b, r);
    lemma_sum_of_centered(b + n, a, r);
    lemma_add_mod_noop(a, b + n, r);
    lemma_add_mod_noop(a, b - b, r);
}

/// A number and the centered representative of its negation add up to zero.
pub proof fn lemma_add_centered_inverse(a: int, r: int)
    requires
        1 < r,
    ensures
        centered(a + centered(-a, r), r) == 0,
        centered(centered(-a, r) + a, r) == 0,
{
    lemma_sum_of_centered(-a, a, r);
    lemma_centered_of_representative(0, r);
}

/// Multiplication of remainders is associative.
pub proof fn lemma_mul_mod_associative(a: int, b: int, c: int, r: int)
    requires
        0 < r,
    ensures
        (((a * b) % r) * c) % r == (a * ((b * c) % r)) % r,
{
    lemma_mul_mod_noop_left(a * b, c, r);
    lemma_mul_mod_noop_right(a, b * c, r);
    lemma_mul_is_associative(a, b, c);
}

/// Multiplication of centered representatives is associative.
pub proof fn lemma_mul_centered_associative(a: int, b: int, c: int, r: int)
    requires
        0 < r,
    ensures
        centered(centered(a * b, r) * c, r) == centered(a * centered(b * c, r), r),
{
    lemma_product_of_centered(a * b, c, r);
    lemma_product_of_centered(b * c, a, r);
    lemma_mul_is_associative(a, b, c);
}

/// Multiplication of centered representatives is commutative.
pub proof fn lemma_mul_centered_commutative(a: int, b: int, r: int)
    ensures
        centered(a * b, r) == centered(b * a, r),
{
    lemma_mul_is_commutative(a, b);
}

/// Multiplication of centered representatives distributes over their addition,
/// from both sides.
pub proof fn lemma_mul_centered_distributive(a: int, b: int, c: int, r: int)
    requires
        0 < r,
    ensures
        centered(a * centered(b + c, r), r) == centered(
            centered(a * b, r) + centered(a * c, r),
            r,
        ),
        centered(centered(b + c, r) * a, r) == centered(
            centered(b * a, r) + centered(c * a, r),
            r,
        ),
{
    lemma_product_of_centered(b + c, a, r);
    lemma_sum_of_centered(a * b, centered(a * c, r), r);
    lemma_sum_of_centered(a * c, a * b, r);
    lemma_sum_of_centered(b * a, centered(c * a, r), r);
    lemma_sum_of_centered(c * a, b * a, r);
    lemma_mul_is_distributive_add(a, b, c);
    lemma_mul_is_distributive_add_other_way(a, b, c);
}

} // verus!

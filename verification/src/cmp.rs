//! Comparison up to a tolerance.
use vstd::prelude::*;

verus! {

/// Values that can be compared up to a tolerance.
///
/// The comparison at the default tolerance is reflexive, and a larger
/// tolerance never turns a match into a mismatch.
pub trait ApproxEq: Sized {
    /// The type of a tolerance.
    type Eps;

    /// The tolerance that `approx_eq` compares with.
    spec fn default_epsilon_spec() -> Self::Eps;

    /// Whether `self` and `b` are equal up to `epsilon`.
    spec fn approx_eq_eps_spec(&self, b: &Self, epsilon: &Self::Eps) -> bool;

    /// The order of tolerances: whether every match at `small` is one at `large`.
    spec fn eps_le(small: &Self::Eps, large: &Self::Eps) -> bool;

    /// Returns the default tolerance.
    fn default_epsilon() -> (epsilon: Self::Eps)
        ensures
            epsilon == Self::default_epsilon_spec(),
    ;

    /// Tells whether `self` and `b` are equal up to `epsilon`.
    fn approx_eq_eps(&self, b: &Self, epsilon: &Self::Eps) -> (r: bool)
        ensures
            r == self.approx_eq_eps_spec(b, epsilon),
    ;

    /// Tells whether `self` and `b` are equal up to the default tolerance.
    fn approx_eq(&self, b: &Self) -> (r: bool)
        ensures
            r == self.approx_eq_eps_spec(b, &Self::default_epsilon_spec()),
    {
        self.approx_eq_eps(b, &Self::default_epsilon())
    }

    /// Every value matches itself at the default tolerance.
    proof fn lemma_approx_eq_reflexive(a: Self)
        ensures
            a.approx_eq_eps_spec(&a, &Self::default_epsilon_spec()),
    ;

    /// What matches at a tolerance matches at every larger one.
    proof fn lemma_approx_eq_monotone(a: Self, b: Self, small: Self::Eps, large: Self::Eps)
        requires
            Self::eps_le(&small, &large),
            a.approx_eq_eps_spec(&b, &small),
        ensures
            a.approx_eq_eps_spec(&b, &large),
    ;
}

/// Whether `a` and `b` are equal up to the default tolerance of their type.
pub open spec fn approx_eq_spec<T: ApproxEq>(a: T, b: T) -> bool {
    a.approx_eq_eps_spec(&b, &T::default_epsilon_spec())
}

/// Two integers match when their distance is at most the tolerance. The
/// default tolerance is zero: integers do not round.
impl ApproxEq for u8 {
    type Eps = u8;

    open spec fn default_epsilon_spec() -> u8 {
        0
    }

    open spec fn approx_eq_eps_spec(&self, b: &u8, epsilon: &u8) -> bool {
        -*epsilon <= *self - *b <= *epsilon
    }

    open spec fn eps_le(small: &u8, large: &u8) -> bool {
        *small <= *large
    }

    fn default_epsilon() -> u8 {
        0
    }

    fn approx_eq_eps(&self, b: &u8, epsilon: &u8) -> bool {
        if *self < *b {
            *b - *self <= *epsilon
        } else {
            *self - *b <= *epsilon
        }
    }

    proof fn lemma_approx_eq_reflexive(a: u8) {
    }

    proof fn lemma_approx_eq_monotone(a: u8, b: u8, small: u8, large: u8) {
    }
}

/// Two integers match when their distance is at most the tolerance. The
/// default tolerance is zero: integers do not round.
impl ApproxEq for u16 {
    type Eps = u16;

    open spec fn default_epsilon_spec() -> u16 {
        0
    }

    open spec fn approx_eq_eps_spec(&self, b: &u16, epsilon: &u16) -> bool {
        -*epsilon <= *self - *b <= *epsilon
    }

    open spec fn eps_le(small: &u16, large: &u16) -> bool {
        *small <= *large
    }

    fn default_epsilon() -> u16 {
        0
    }

    fn approx_eq_eps(&self, b: &u16, epsilon: &u16) -> bool {
        if *self < *b {
            *b - *self <= *epsilon
        } else {
            *self - *b <= *epsilon
        }
    }

    proof fn lemma_approx_eq_reflexive(a: u16) {
    }

    proof fn lemma_approx_eq_monotone(a: u16, b: u16, small: u16, large: u16) {
    }
}

/// Two integers match when their distance is at most the tolerance. The
/// default tolerance is zero: integers do not round.
impl ApproxEq for u32 {
    type Eps = u32;

    open spec fn default_epsilon_spec() -> u32 {
        0
    }

    open spec fn approx_eq_eps_spec(&self, b: &u32, epsilon: &u32) -> bool {
        -*epsilon <= *self - *b <= *epsilon
    }

    open spec fn eps_le(small: &u32, large: &u32) -> bool {
        *small <= *large
    }

    fn default_epsilon() -> u32 {
        0
    }

    fn approx_eq_eps(&self, b: &u32, epsilon: &u32) -> bool {
        if *self < *b {
            *b - *self <= *epsilon
        } else {
            *self - *b <= *epsilon
        }
    }

    proof fn lemma_approx_eq_reflexive(a: u32) {
    }

    proof fn lemma_approx_eq_monotone(a: u32, b: u32, small: u32, large: u32) {
    }
}

/// Two integers match when their distance is at most the tolerance. The
/// default tolerance is zero: integers do not round.
impl ApproxEq for u64 {
    type Eps = u64;

    open spec fn default_epsilon_spec() -> u64 {
        0
    }

    open spec fn approx_eq_eps_spec(&self, b: &u64, epsilon: &u64) -> bool {
        -*epsilon <= *self - *b <= *epsilon
    }

    open spec fn eps_le(small: &u64, large: &u64) -> bool {
        *small <= *large
    }

    fn default_epsilon() -> u64 {
        0
    }

    fn approx_eq_eps(&self, b: &u64, epsilon: &u64) -> bool {
        if *self < *b {
            *b - *self <= *epsilon
        } else {
            *self - *b <= *epsilon
        }
    }

    proof fn lemma_approx_eq_reflexive(a: u64) {
    }

    proof fn lemma_approx_eq_monotone(a: u64, b: u64, small: u64, large: u64) {
    }
}

/// Two integers match when their distance is at most the tolerance. The
/// default tolerance is zero: integers do not round.
impl ApproxEq for i8 {
    type Eps = i8;

    open spec fn default_epsilon_spec() -> i8 {
        0
    }

    open spec fn approx_eq_eps_spec(&self, b: &i8, epsilon: &i8) -> bool {
        -*epsilon <= *self - *b <= *epsilon
    }

    open spec fn eps_le(small: &i8, large: &i8) -> bool {
        *small <= *large
    }

    fn default_epsilon() -> i8 {
        0
    }

    fn approx_eq_eps(&self, b: &i8, epsilon: &i8) -> bool {
        let a: i16 = *self as i16;
        let b: i16 = *b as i16;
        if a < b {
            b - a <= *epsilon as i16
        } else {
            a - b <= *epsilon as i16
        }
    }

    proof fn lemma_approx_eq_reflexive(a: i8) {
    }

    proof fn lemma_approx_eq_monotone(a: i8, b: i8, small: i8, large: i8) {
    }
}

/// Two integers match when their distance is at most the tolerance. The
/// default tolerance is zero: integers do not round.
impl ApproxEq for i16 {
    type Eps = i16;

    open spec fn default_epsilon_spec() -> i16 {
        0
    }

    open spec fn approx_eq_eps_spec(&self, b: &i16, epsilon: &i16) -> bool {
        -*epsilon <= *self - *b <= *epsilon
    }

    open spec fn eps_le(small: &i16, large: &i16) -> bool {
        *small <= *large
    }

    fn default_epsilon() -> i16 {
        0
    }

    fn approx_eq_eps(&self, b: &i16, epsilon: &i16) -> bool {
        let a: i32 = *self as i32;
        let b: i32 = *b as i32;
        if a < b {
            b - a <= *epsilon as i32
        } else {
            a - b <= *epsilon as i32
        }
    }

    proof fn lemma_approx_eq_reflexive(a: i16) {
    }

    proof fn lemma_approx_eq_monotone(a: i16, b: i16, small: i16, large: i16) {
    }
}

/// Two integers match when their distance is at most the tolerance. The
/// default tolerance is zero: integers do not round.
impl ApproxEq for i32 {
    type Eps = i32;

    open spec fn default_epsilon_spec() -> i32 {
        0
    }

    open spec fn approx_eq_eps_spec(&self, b: &i32, epsilon: &i32) -> bool {
        -*epsilon <= *self - *b <= *epsilon
    }

    open spec fn eps_le(small: &i32, large: &i32) -> bool {
        *small <= *large
    }

    fn default_epsilon() -> i32 {
        0
    }

    fn approx_eq_eps(&self, b: &i32, epsilon: &i32) -> bool {
        let a: i64 = *self as i64;
        let b: i64 = *b as i64;
        if a < b {
            b - a <= *epsilon as i64
        } else {
            a - b <= *epsilon as i64
        }
    }

    proof fn lemma_approx_eq_reflexive(a: i32) {
    }

    proof fn lemma_approx_eq_monotone(a: i32, b: i32, small: i32, large: i32) {
    }
}

/// Two integers match when their distance is at most the tolerance. The
/// default tolerance is zero: integers do not round.
impl ApproxEq for i64 {
    type Eps = i64;

    open spec fn default_epsilon_spec() -> i64 {
        0
    }

    open spec fn approx_eq_eps_spec(&self, b: &i64, epsilon: &i64) -> bool {
        -*epsilon <= *self - *b <= *epsilon
    }

    open spec fn eps_le(small: &i64, large: &i64) -> bool {
        *small <= *large
    }

    fn default_epsilon() -> i64 {
        0
    }

    fn approx_eq_eps(&self, b: &i64, epsilon: &i64) -> bool {
        let a: i128 = *self as i128;
        let b: i128 = *b as i128;
        if a < b {
            b - a <= *epsilon as i128
        } else {
            a - b <= *epsilon as i128
        }
    }

    proof fn lemma_approx_eq_reflexive(a: i64) {
    }

    proof fn lemma_approx_eq_monotone(a: i64, b: i64, small: i64, large: i64) {
    }
}

} // verus!

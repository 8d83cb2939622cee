//! Closure under an operator.
use crate::cmp::ApproxEq;
use crate::modular::centered;
use crate::ops::{Additive, Multiplicative, Op};
use vstd::prelude::*;
use vstd::std_specs::cmp::PartialEqSpec;

verus! {

/// A type that is closed, up to rounding, under the operator `O`.
///
/// The operation consumes its operands. A law predicate therefore clones the
/// values it is given, and the contract asks that a clone be equal to the
/// value it was made from.
pub trait MagmaApprox<O: Op>: Sized + PartialEq + ApproxEq + Clone {
    /// The result of the operation on `self` and `rhs`.
    spec fn approx_spec(self, rhs: Self) -> Self;

    /// Performs the operation.
    fn approx(self, rhs: Self) -> (r: Self)
        ensures
            r == self.approx_spec(rhs),
    ;

    /// Performs the operation that the tag names.
    fn ap(self, _op: O, rhs: Self) -> (r: Self)
        ensures
            r == self.approx_spec(rhs),
    {
        self.approx(rhs)
    }

    /// A clone is equal to the value it was made from.
    proof fn lemma_clone_is_exact(a: Self, b: Self)
        requires
            cloned(a, b),
        ensures
            a == b,
    ;
}

/// A type that is closed under the operator `O`, and whose `==` never needs a
/// tolerance: it holds of two values exactly when they are the same value.
pub trait Magma<O: Op>: Eq + MagmaApprox<O> {
    /// Performs the operation.
    fn operate(self, rhs: Self) -> (r: Self)
        ensures
            r == self.approx_spec(rhs),
    {
        self.approx(rhs)
    }

    /// Performs the operation that the tag names.
    fn op(self, _op: O, rhs: Self) -> (r: Self)
        ensures
            r == self.approx_spec(rhs),
    {
        self.operate(rhs)
    }

    /// `==` decides equality of values.
    proof fn lemma_eq_is_exact()
        ensures
            Self::obeys_eq_spec(),
            forall|a: Self, b: Self| #[trigger] a.eq_spec(&b) <==> a == b,
    ;
}

/// Addition modulo two to the power 8.
impl MagmaApprox<Additive> for u8 {
    open spec fn approx_spec(self, rhs: u8) -> u8 {
        ((self + rhs) % 0x100) as u8
    }

    fn approx(self, rhs: u8) -> u8 {
        self.wrapping_add(rhs)
    }

    proof fn lemma_clone_is_exact(a: u8, b: u8) {
    }
}

impl Magma<Additive> for u8 {
    proof fn lemma_eq_is_exact() {
    }
}

/// Multiplication modulo two to the power 8.
impl MagmaApprox<Multiplicative> for u8 {
    open spec fn approx_spec(self, rhs: u8) -> u8 {
        ((self * rhs) % 0x100) as u8
    }

    fn approx(self, rhs: u8) -> u8 {
        self.wrapping_mul(rhs)
    }

    proof fn lemma_clone_is_exact(a: u8, b: u8) {
    }
}

impl Magma<Multiplicative> for u8 {
    proof fn lemma_eq_is_exact() {
    }
}

/// Addition modulo two to the power 16.
impl MagmaApprox<Additive> for u16 {
    open spec fn approx_spec(self, rhs: u16) -> u16 {
        ((self + rhs) % 0x1_0000) as u16
    }

    fn approx(self, rhs: u16) -> u16 {
        self.wrapping_add(rhs)
    }

    proof fn lemma_clone_is_exact(a: u16, b: u16) {
    }
}

impl Magma<Additive> for u16 {
    proof fn lemma_eq_is_exact() {
    }
}

/// Multiplication modulo two to the power 16.
impl MagmaApprox<Multiplicative> for u16 {
    open spec fn approx_spec(self, rhs: u16) -> u16 {
        ((self * rhs) % 0x1_0000) as u16
    }

    fn approx(self, rhs: u16) -> u16 {
        self.wrapping_mul(rhs)
    }

    proof fn lemma_clone_is_exact(a: u16, b: u16) {
    }
}

impl Magma<Multiplicative> for u16 {
    proof fn lemma_eq_is_exact() {
    }
}

/// Addition modulo two to the power 32.
impl MagmaApprox<Additive> for u32 {
    open spec fn approx_spec(self, rhs: u32) -> u32 {
        ((self + rhs) % 0x1_0000_0000) as u32
    }

    fn approx(self, rhs: u32) -> u32 {
        self.wrapping_add(rhs)
    }

    proof fn lemma_clone_is_exact(a: u32, b: u32) {
    }
}

impl Magma<Additive> for u32 {
    proof fn lemma_eq_is_exact() {
    }
}

/// Multiplication modulo two to the power 32.
impl MagmaApprox<Multiplicative> for u32 {
    open spec fn approx_spec(self, rhs: u32) -> u32 {
        ((self * rhs) % 0x1_0000_0000) as u32
    }

    fn approx(self, rhs: u32) -> u32 {
        self.wrapping_mul(rhs)
    }

    proof fn lemma_clone_is_exact(a: u32, b: u32) {
    }
}

impl Magma<Multiplicative> for u32 {
    proof fn lemma_eq_is_exact() {
    }
}

/// Addition modulo two to the power 64.
impl MagmaApprox<Additive> for u64 {
    open spec fn approx_spec(self, rhs: u64) -> u64 {
        ((self + rhs) % 0x1_0000_0000_0000_0000) as u64
    }

    fn approx(self, rhs: u64) -> u64 {
        self.wrapping_add(rhs)
    }

    proof fn lemma_clone_is_exact(a: u64, b: u64) {
    }
}

impl Magma<Additive> for u64 {
    proof fn lemma_eq_is_exact() {
    }
}

/// Multiplication modulo two to the power 64.
impl MagmaApprox<Multiplicative> for u64 {
    open spec fn approx_spec(self, rhs: u64) -> u64 {
        ((self * rhs) % 0x1_0000_0000_0000_0000) as u64
    }

    fn approx(self, rhs: u64) -> u64 {
        self.wrapping_mul(rhs)
    }

    proof fn lemma_clone_is_exact(a: u64, b: u64) {
    }
}

impl Magma<Multiplicative> for u64 {
    proof fn lemma_eq_is_exact() {
    }
}

/// Addition modulo two to the power 8.
impl MagmaApprox<Additive> for i8 {
    open spec fn approx_spec(self, rhs: i8) -> i8 {
        centered(self + rhs, 0x100) as i8
    }

    fn approx(self, rhs: i8) -> i8 {
        self.wrapping_add(rhs)
    }

    proof fn lemma_clone_is_exact(a: i8, b: i8) {
    }
}

impl Magma<Additive> for i8 {
    proof fn lemma_eq_is_exact() {
    }
}

/// Multiplication modulo two to the power 8.
impl MagmaApprox<Multiplicative> for i8 {
    open spec fn approx_spec(self, rhs: i8) -> i8 {
        centered(self * rhs, 0x100) as i8
    }

    fn approx(self, rhs: i8) -> i8 {
        self.wrapping_mul(rhs)
    }

    proof fn lemma_clone_is_exact(a: i8, b: i8) {
    }
}

impl Magma<Multiplicative> for i8 {
    proof fn lemma_eq_is_exact() {
    }
}

/// Addition modulo two to the power 16.
impl MagmaApprox<Additive> for i16 {
    open spec fn approx_spec(self, rhs: i16) -> i16 {
        centered(self + rhs, 0x1_0000) as i16
    }

    fn approx(self, rhs: i16) -> i16 {
        self.wrapping_add(rhs)
    }

    proof fn lemma_clone_is_exact(a: i16, b: i16) {
    }
}

impl Magma<Additive> for i16 {
    proof fn lemma_eq_is_exact() {
    }
}

/// Multiplication modulo two to the power 16.
impl MagmaApprox<Multiplicative> for i16 {
    open spec fn approx_spec(self, rhs: i16) -> i16 {
        centered(self * rhs, 0x1_0000) as i16
    }

    fn approx(self, rhs: i16) -> i16 {
        self.wrapping_mul(rhs)
    }

    proof fn lemma_clone_is_exact(a: i16, b: i16) {
    }
}

impl Magma<Multiplicative> for i16 {
    proof fn lemma_eq_is_exact() {
    }
}

/// Addition modulo two to the power 32.
impl MagmaApprox<Additive> for i32 {
    open spec fn approx_spec(self, rhs: i32) -> i32 {
        centered(self + rhs, 0x1_0000_0000) as i32
    }

    fn approx(self, rhs: i32) -> i32 {
        self.wrapping_add(rhs)
    }

    proof fn lemma_clone_is_exact(a: i32, b: i32) {
    }
}

impl Magma<Additive> for i32 {
    proof fn lemma_eq_is_exact() {
    }
}

/// Multiplication modulo two to the power 32.
impl MagmaApprox<Multiplicative> for i32 {
    open spec fn approx_spec(self, rhs: i32) -> i32 {
        centered(self * rhs, 0x1_0000_0000) as i32
    }

    fn approx(self, rhs: i32) -> i32 {
        self.wrapping_mul(rhs)
    }

    proof fn lemma_clone_is_exact(a: i32, b: i32) {
    }
}

impl Magma<Multiplicative> for i32 {
    proof fn lemma_eq_is_exact() {
    }
}

/// Addition modulo two to the power 64.
impl MagmaApprox<Additive> for i64 {
    open spec fn approx_spec(self, rhs: i64) -> i64 {
        centered(self + rhs, 0x1_0000_0000_0000_0000) as i64
    }

    fn approx(self, rhs: i64) -> i64 {
        self.wrapping_add(rhs)
    }

    proof fn lemma_clone_is_exact(a: i64, b: i64) {
    }
}

impl Magma<Additive> for i64 {
    proof fn lemma_eq_is_exact() {
    }
}

/// Multiplication modulo two to the power 64.
impl MagmaApprox<Multiplicative> for i64 {
    open spec fn approx_spec(self, rhs: i64) -> i64 {
        centered(self * rhs, 0x1_0000_0000_0000_0000) as i64
    }

    fn approx(self, rhs: i64) -> i64 {
        self.wrapping_mul(rhs)
    }

    proof fn lemma_clone_is_exact(a: i64, b: i64) {
    }
}

impl Magma<Multiplicative> for i64 {
    proof fn lemma_eq_is_exact() {
    }
}

} // verus!

//! Groups.
use crate::ops::{Additive, Op};
use crate::structure::loop_::{Loop, LoopApprox};
use crate::structure::monoid::{Monoid, MonoidApprox};
use vstd::prelude::*;

verus! {

/// An approximate group is an approximate loop and an approximate monoid at
/// the same time. It adds no law of its own.
pub trait GroupApprox<O: Op>: LoopApprox<O> + MonoidApprox<O> {
}

/// A group is a loop and a monoid at the same time. It adds no law of its own.
pub trait Group<O: Op>: GroupApprox<O> + Loop<O> + Monoid<O> {
}

// The signed integers are groups under addition.

impl GroupApprox<Additive> for i8 {
}

impl Group<Additive> for i8 {
}

impl GroupApprox<Additive> for i16 {
}

impl Group<Additive> for i16 {
}

impl GroupApprox<Additive> for i32 {
}

impl Group<Additive> for i32 {
}

impl GroupApprox<Additive> for i64 {
}

impl Group<Additive> for i64 {
}

} // verus!

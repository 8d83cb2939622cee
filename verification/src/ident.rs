//! Identity elements.
use crate::ops::{Additive, Multiplicative, Op};
use vstd::prelude::*;

verus! {

/// A type that has an identity element for the operator `O`.
///
/// That the element is neutral for the operation is a law of `MonoidApprox`
/// and `Monoid`, where the operation is at hand.
pub trait Identity<O: Op>: Sized {
    /// The identity element.
    spec fn id_spec() -> Self;

    /// Returns the identity element.
    fn id() -> (r: Self)
        ensures
            r == Self::id_spec(),
    ;
}

// Zero is the identity element of addition, one that of multiplication.

impl Identity<Additive> for u8 {
    open spec fn id_spec() -> u8 {
        0
    }

    fn id() -> u8 {
        0
    }
}

impl Identity<Multiplicative> for u8 {
    open spec fn id_spec() -> u8 {
        1
    }

    fn id() -> u8 {
        1
    }
}

impl Identity<Additive> for u16 {
    open spec fn id_spec() -> u16 {
        0
    }

    fn id() -> u16 {
        0
    }
}

impl Identity<Multiplicative> for u16 {
    open spec fn id_spec() -> u16 {
        1
    }

    fn id() -> u16 {
        1
    }
}

impl Identity<Additive> for u32 {
    open spec fn id_spec() -> u32 {
        0
    }

    fn id() -> u32 {
        0
    }
}

impl Identity<Multiplicative> for u32 {
    open spec fn id_spec() -> u32 {
        1
    }

    fn id() -> u32 {
        1
    }
}

impl Identity<Additive> for u64 {
    open spec fn id_spec() -> u64 {
        0
    }

    fn id() -> u64 {
        0
    }
}

impl Identity<Multiplicative> for u64 {
    open spec fn id_spec() -> u64 {
        1
    }

    fn id() -> u64 {
        1
    }
}

impl Identity<Additive> for i8 {
    open spec fn id_spec() -> i8 {
        0
    }

    fn id() -> i8 {
        0
    }
}

impl Identity<Multiplicative> for i8 {
    open spec fn id_spec() -> i8 {
        1
    }

    fn id() -> i8 {
        1
    }
}

impl Identity<Additive> for i16 {
    open spec fn id_spec() -> i16 {
        0
    }

    fn id() -> i16 {
        0
    }
}

impl Identity<Multiplicative> for i16 {
    open spec fn id_spec() -> i16 {
        1
    }

    fn id() -> i16 {
        1
    }
}

impl Identity<Additive> for i32 {
    open spec fn id_spec() -> i32 {
        0
    }

    fn id() -> i32 {
        0
    }
}

impl Identity<Multiplicative> for i32 {
    open spec fn id_spec() -> i32 {
        1
    }

    fn id() -> i32 {
        1
    }
}

impl Identity<Additive> for i64 {
    open spec fn id_spec() -> i64 {
        0
    }

    fn id() -> i64 {
        0
    }
}

impl Identity<Multiplicative> for i64 {
    open spec fn id_spec() -> i64 {
        1
    }

    fn id() -> i64 {
        1
    }
}

} // verus!

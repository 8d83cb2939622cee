//! Abstract algebraic structures as a lattice of contracts.
//!
//! Every structure is stated twice: once with equality up to a tolerance, for
//! types whose operations round, and once with exact equality. A structure
//! names the operator it speaks of by a tag, so that one definition serves both
//! the structure written with `+` and the one written with `*`.
//!
//! A contract holds the laws of its structure as proof obligations: a type is
//! granted a structure by an implementation that proves them. The predicates
//! named `prop_*` evaluate one instance of a law on given values.
//!
//! The integers `u8` to `u64` and `i8` to `i64` compute modulo a power of two:
//! their addition and multiplication wrap around. Under both operators all of
//! them are semigroups and monoids; the signed ones are, under addition,
//! abelian groups, and with multiplication commutative rings. `Wrapper` lends
//! the arithmetic operators to every type with such a structure.
pub mod cmp;
pub mod ident;
pub mod modular;
pub mod ops;
pub mod structure;
pub mod wrapper;

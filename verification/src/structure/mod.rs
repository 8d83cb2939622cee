//! The lattice of algebraic structures.
//!
//! Each structure refines the ones it builds on, in its approximate and in its
//! exact form alike:
//!
//! - a magma is closed under the operator;
//! - a semigroup is an associative magma;
//! - a quasigroup is a magma with inverses;
//! - a loop is a quasigroup with an identity element;
//! - a monoid is a semigroup with an identity element;
//! - a group is a loop and a monoid at the same time;
//! - an abelian group is a commutative group;
//! - a ring is an abelian group under addition and a monoid under
//!   multiplication, joined by distributivity;
//! - a field is a commutative ring with division by all but zero;
//! - a module is an abelian group under addition on which a commutative ring
//!   acts, and a vector space is a module over a field.
pub mod field;
pub mod group;
pub mod group_abelian;
pub mod loop_;
pub mod magma;
pub mod module;
pub mod monoid;
pub mod quasigroup;
pub mod ring;
pub mod semigroup;

pub use self::field::{Field, FieldApprox};
pub use self::group::{Group, GroupApprox};
pub use self::group_abelian::{GroupAbelian, GroupAbelianApprox};
pub use self::loop_::{Loop, LoopApprox};
pub use self::magma::{Magma, MagmaApprox};
pub use self::module::{Module, ModuleApprox, VectorSpace, VectorSpaceApprox};
pub use self::monoid::{Monoid, MonoidApprox};
pub use self::quasigroup::{Quasigroup, QuasigroupApprox};
pub use self::ring::{Ring, RingApprox, RingCommutative, RingCommutativeApprox};
pub use self::semigroup::{Semigroup, SemigroupApprox};

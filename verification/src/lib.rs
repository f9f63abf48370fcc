//! An interoperability kernel for holding, mutating and releasing values that
//! live in a foreign managed (garbage-collected) runtime's heap.
//!
//! The kernel has three parts:
//! - a per-kind "missing value" (NA) protocol ([`na::CanBeNA`]) with
//!   NA-aware scalar wrappers ([`scalar`]);
//! - a double-vector handle ([`doubles::Doubles`]) that presents an
//!   eagerly materialized buffer and a lazily generated one through the
//!   same read/write interface;
//! - an external-pointer bridge ([`externalptr`]) that lets the foreign
//!   collector own a native object and guarantees its destructor runs
//!   exactly once.
//!
//! The foreign runtime's allocator and collector are outside the kernel;
//! they appear here as an explicit, modelled rooting/finalization registry
//! so that every rule the kernel relies on is stated and proved.

use vstd::prelude::*;

pub mod bits;
pub mod doubles;
pub mod externalptr;
pub mod na;
pub mod robj;
pub mod scalar;

verus! {

/// The kernel's recoverable error conditions.
///
/// NA propagation in arithmetic is deliberately *not* an error: it is
/// ordinary data flow. These four conditions are local, synchronous and
/// recoverable; none of them aborts the process.
#[derive(Clone, Copy, Debug, PartialEq, Eq, Structural)]
pub enum Error {
    /// An element index was outside the vector's bounds.
    IndexError,
    /// A generic handle was downcast to a wrapper of the wrong kind.
    TypeMismatch,
    /// A mutation was attempted on storage that is not uniquely owned
    /// and materialized.
    OwnershipViolation,
    /// An external pointer was released after its native object had
    /// already been destroyed.
    DoubleReleaseViolation,
}

} // verus!

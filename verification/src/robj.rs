//! The opaque boundary representation: the tagged union through which
//! values cross between native code and the foreign runtime.
//!
//! A generic handle is a numeric vector, a logical vector, or an
//! external pointer; vectors carry their elements, an external pointer
//! carries its slot index and type tag. Downcasting a generic handle to
//! a typed wrapper checks the kind (and, for external pointers, the
//! tag) and fails with [`Error::TypeMismatch`] rather than ever
//! reinterpreting the payload.

use vstd::prelude::*;

use crate::Error;
use crate::doubles::Doubles;
use crate::doubles::LAZY_THRESHOLD;
use crate::doubles::Source;
use crate::externalptr::ExternalPtr;
use crate::externalptr::XptrRuntime;
use crate::externalptr::extptr_named;
use crate::externalptr::lemma_extptr_named_identity;
use crate::scalar::Rbool;
use crate::scalar::Rfloat;

verus! {

/// A generic foreign value at the boundary.
pub enum Robj {
    /// A numeric (double) vector and its elements.
    Real { values: Vec<Rfloat> },
    /// A logical (tri-state boolean) vector and its elements.
    Logical { values: Vec<Rbool> },
    /// An external pointer: the slot it names and its type tag.
    ExtPtr { id: usize, type_tag: u64 },
}

impl Robj {
    /// Whether this is a numeric-vector handle.
    pub fn is_real(&self) -> (r: bool)
        ensures
            r == (self is Real),
    {
        match self {
            Robj::Real { .. } => true,
            _ => false,
        }
    }

    /// Whether this is a logical-vector handle.
    pub fn is_logical(&self) -> (r: bool)
        ensures
            r == (self is Logical),
    {
        match self {
            Robj::Logical { .. } => true,
            _ => false,
        }
    }

    /// Whether this is an external-pointer handle.
    pub fn is_extptr(&self) -> (r: bool)
        ensures
            r == (self is ExtPtr),
    {
        match self {
            Robj::ExtPtr { .. } => true,
            _ => false,
        }
    }

    /// The length a vector handle carries; an external pointer has no
    /// elements and reports zero.
    pub fn len(&self) -> (r: usize)
        ensures
            self matches Robj::Real { values } ==> r == values@.len(),
            self matches Robj::Logical { values } ==> r == values@.len(),
            self is ExtPtr ==> r == 0,
    {
        match self {
            Robj::Real { values } => values.len(),
            Robj::Logical { values } => values.len(),
            Robj::ExtPtr { .. } => 0,
        }
    }
}

impl Doubles {
    /// Materialize this vector into the boundary representation.
    pub fn to_robj(&self) -> (r: Robj)
        ensures
            r matches Robj::Real { values } && values@ == self@,
    {
        Robj::Real { values: self.to_vec() }
    }

    /// Downcast a generic handle to a double vector. Succeeds exactly
    /// on numeric-vector handles, preserving the elements (the backing
    /// mode follows the usual length policy); anything else fails with
    /// [`Error::TypeMismatch`].
    pub fn try_from_robj(robj: Robj) -> (r: Result<Doubles, Error>)
        ensures
            robj matches Robj::Real { values } ==> r matches Ok(d) && d@ == values@
                && d.is_lazy_spec() == (values@.len() >= LAZY_THRESHOLD),
            !(robj is Real) ==> r == Err::<Doubles, Error>(Error::TypeMismatch),
    {
        match robj {
            Robj::Real { values } => Ok(Doubles::from_values(Source::Values(values))),
            _ => Err(Error::TypeMismatch),
        }
    }
}

/// What encoding a typed external pointer to the boundary yields: an
/// external-pointer handle carrying the slot index and tag.
pub open spec fn encode_extptr_spec<T>(p: &ExternalPtr<T>) -> Robj {
    Robj::ExtPtr { id: p.id_spec(), type_tag: p.tag_spec() }
}

/// What downcasting a generic handle to a typed external pointer
/// yields: the typed handle when the kind matches, the tag is the
/// registry's, and the slot exists; [`Error::TypeMismatch`] otherwise.
pub open spec fn decode_extptr_spec<T>(robj: Robj, rt: &XptrRuntime<T>) -> Result<
    ExternalPtr<T>,
    Error,
> {
    match robj {
        Robj::ExtPtr { id, type_tag } => if type_tag == rt.tag_spec() && (id as nat)
            < rt.slot_count() {
            Ok(extptr_named::<T>(id, type_tag))
        } else {
            Err(Error::TypeMismatch)
        },
        _ => Err(Error::TypeMismatch),
    }
}

impl<T> ExternalPtr<T> {
    /// Convert the typed handle to the generic boundary representation.
    pub fn to_robj(&self) -> (r: Robj)
        ensures
            r == encode_extptr_spec(self),
    {
        Robj::ExtPtr { id: self.id(), type_tag: self.type_tag() }
    }

    /// Downcast a generic handle to a typed external pointer of this
    /// registry. The stored tag and kind are checked: on any mismatch
    /// the result is [`Error::TypeMismatch`], never a reinterpreted
    /// handle.
    pub fn try_from_robj(robj: &Robj, rt: &XptrRuntime<T>) -> (r: Result<ExternalPtr<T>, Error>)
        ensures
            r == decode_extptr_spec(*robj, rt),
    {
        match robj {
            Robj::ExtPtr { id, type_tag } => {
                if *type_tag == rt.tag() && *id < rt.len() {
                    Ok(ExternalPtr::from_parts(*id, *type_tag))
                } else {
                    Err(Error::TypeMismatch)
                }
            },
            _ => Err(Error::TypeMismatch),
        }
    }
}

/// Conversion round-trip law: encoding a valid typed handle to the
/// boundary representation and downcasting it back through the same
/// registry recovers an indistinguishable handle to the same slot.
pub proof fn lemma_boundary_round_trip<T>(rt: &XptrRuntime<T>, p: &ExternalPtr<T>)
    requires
        p.tag_spec() == rt.tag_spec(),
        p.id_spec() < rt.slot_count(),
    ensures
        decode_extptr_spec(encode_extptr_spec(p), rt) == Ok::<ExternalPtr<T>, Error>(*p),
{
    lemma_extptr_named_identity(p);
}

/// Mismatched downcasts fail: when the generic handle is not an
/// external pointer of this registry's tag (or names no slot), the
/// downcast yields [`Error::TypeMismatch`] and no value.
pub proof fn lemma_mismatched_downcast_fails<T>(robj: Robj, rt: &XptrRuntime<T>)
    requires
        !(robj matches Robj::ExtPtr { id, type_tag } && type_tag == rt.tag_spec() && (id as nat)
            < rt.slot_count()),
    ensures
        decode_extptr_spec(robj, rt) == Err::<ExternalPtr<T>, Error>(Error::TypeMismatch),
{
}

} // verus!

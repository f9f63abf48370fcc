//! The NA sentinel protocol: one designated "value absent" encoding per
//! primitive kind, with a uniform construct/test contract.
//!
//! Per-kind encodings:
//! - fixed-width signed integers reserve the minimum representable value
//!   and test by plain equality;
//! - tri-state booleans reserve the same minimum-integer sentinel in
//!   their underlying storage (see [`crate::scalar::Rbool`]);
//! - doubles reserve one canonical not-a-number bit pattern whose low
//!   word is 1954, and test with a dedicated predicate rather than bit
//!   equality, because many bit patterns are NaN but only those are the
//!   semantic NA (see [`is_na_real_bits`]);
//! - text scalars reserve one singleton instance and test by *identity*,
//!   never by content (see [`crate::scalar::Rstr`]).

use vstd::prelude::*;

verus! {

/// The bit pattern of the canonical NA double: a NaN (exponent all ones,
/// non-zero mantissa) whose low 32-bit word is 1954.
pub const NA_REAL_BITS: u64 = 0x7FF0_0000_0000_07A2;

/// Whether a 64-bit pattern encodes an IEEE-754 double-precision NaN:
/// the 11 exponent bits are all ones and the 52 mantissa bits are not
/// all zero.
pub open spec fn is_nan_bits(b: u64) -> bool {
    (b >> 52) & 0x7FF == 0x7FF && b & 0x000F_FFFF_FFFF_FFFF != 0
}

/// The dedicated NA predicate for doubles: NaN with low word 1954.
/// An ordinary NaN produced by invalid arithmetic has a different low
/// word and is *not* NA.
pub open spec fn is_na_real_bits(b: u64) -> bool {
    is_nan_bits(b) && b & 0xFFFF_FFFF == 1954
}

/// The uniform NA protocol: every supported primitive kind can construct
/// its sentinel and test for it, such that `na()` always tests as NA and
/// no legitimately produced value does unless it was derived from `na()`.
pub trait CanBeNA: Sized {
    /// What "this value is NA" means for the kind, as a mathematical
    /// predicate.
    spec fn is_na_spec(&self) -> bool;

    /// Return true if this value is the kind's NA sentinel.
    fn is_na(&self) -> (r: bool)
        ensures
            r == self.is_na_spec(),
    ;

    /// Construct the kind's NA sentinel.
    fn na() -> (r: Self)
        ensures
            r.is_na_spec(),
    ;
}

impl CanBeNA for i32 {
    open spec fn is_na_spec(&self) -> bool {
        *self == i32::MIN
    }

    fn is_na(&self) -> (r: bool) {
        *self == i32::MIN
    }

    fn na() -> (r: i32) {
        i32::MIN
    }
}

/// The canonical NA double is a NaN.
pub proof fn lemma_na_real_is_nan()
    ensures
        is_nan_bits(NA_REAL_BITS),
        is_na_real_bits(NA_REAL_BITS),
{
    assert(is_nan_bits(NA_REAL_BITS)) by (bit_vector);
    assert(NA_REAL_BITS & 0xFFFF_FFFF == 1954) by (bit_vector);
}

/// Every NA double is a NaN, so NA never collides with an ordinary,
/// legitimately produced (non-NaN) double.
pub proof fn lemma_na_real_implies_nan(b: u64)
    ensures
        is_na_real_bits(b) ==> is_nan_bits(b),
{
}

/// The sentinel is distinguishable from ordinary invalid-arithmetic
/// results: a NaN whose low word is not 1954 — which covers every NaN
/// the hardware produces for operations such as dividing zero by zero
/// — is *not* NA.
pub proof fn lemma_ordinary_nan_not_na(b: u64)
    requires
        b & 0xFFFF_FFFF != 1954,
    ensures
        !is_na_real_bits(b),
{
}

} // verus!

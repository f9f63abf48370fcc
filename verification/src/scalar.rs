//! NA-aware scalar wrappers, one per primitive kind.
//!
//! Each wrapper carries its NA state inside the primitive's own bit
//! pattern (or, for text, its identity); there is no separate flag a
//! caller could forget to copy. Arithmetic with either operand NA yields
//! NA (silent propagation, not an error). Comparison involving an NA
//! operand is defined to yield `false` — one consistent rule for every
//! kind, chosen because the native primitive comparison would treat the
//! integer/boolean sentinel as an ordinary number.

use vstd::prelude::*;

use crate::na::CanBeNA;
use crate::na::NA_REAL_BITS;
use crate::na::is_na_real_bits;
use crate::na::is_nan_bits;
use crate::na::lemma_na_real_is_nan;

verus! {

/// A double-precision scalar, held as its IEEE-754 bit pattern.
///
/// NA is the canonical NaN with low word 1954; it is tested with the
/// dedicated predicate, never by bit equality, because invalid
/// arithmetic produces other NaN patterns that are *not* NA.
///
/// The derived `==` is bit-pattern (representation) equality, used by
/// the vector wrapper and by tests; the numeric equality that treats the
/// two zeros as equal and any NaN as unequal is [`Rfloat::na_eq`].
#[derive(Clone, Copy, Debug, PartialEq, Eq, Structural)]
pub struct Rfloat {
    /// The IEEE-754 double-precision bit pattern.
    pub bits: u64,
}

/// Numeric equality on double bit patterns: false if either side is any
/// NaN (NA included), true for the two zero encodings, bit equality
/// otherwise.
pub open spec fn real_eq_bits(a: u64, b: u64) -> bool {
    &&& !is_nan_bits(a)
    &&& !is_nan_bits(b)
    &&& (a == b || (a & 0x7FFF_FFFF_FFFF_FFFF == 0 && b & 0x7FFF_FFFF_FFFF_FFFF == 0))
}

impl Rfloat {
    /// Wrap a raw bit pattern.
    pub fn from_bits(bits: u64) -> (r: Rfloat)
        ensures
            r.bits == bits,
    {
        Rfloat { bits }
    }

    /// The raw bit pattern.
    pub fn bits(&self) -> (r: u64)
        ensures
            r == self.bits,
    {
        self.bits
    }

    /// Numeric equality under the NA rule: any comparison involving an
    /// NA (or any other NaN) operand yields `false`; the two zero
    /// encodings compare equal.
    pub fn na_eq(&self, other: &Rfloat) -> (r: bool)
        ensures
            r == real_eq_bits(self.bits, other.bits),
    {
        let a = self.bits;
        let b = other.bits;
        let a_nan = (a >> 52) & 0x7FF == 0x7FF && a & 0x000F_FFFF_FFFF_FFFF != 0;
        let b_nan = (b >> 52) & 0x7FF == 0x7FF && b & 0x000F_FFFF_FFFF_FFFF != 0;
        !a_nan && !b_nan && (a == b || (a & 0x7FFF_FFFF_FFFF_FFFF == 0 && b
            & 0x7FFF_FFFF_FFFF_FFFF == 0))
    }

    /// The NA-propagation step of a binary arithmetic operation: if
    /// either operand is NA the result is NA, otherwise it is the value
    /// the host's floating-point unit computed for the two operands.
    /// The numeric work itself is host float work and is done by the
    /// embedding layer, which passes it in as `computed`.
    pub fn propagate_na(a: Rfloat, b: Rfloat, computed: Rfloat) -> (r: Rfloat)
        ensures
            r == (if a.is_na_spec() || b.is_na_spec() {
                Rfloat { bits: NA_REAL_BITS }
            } else {
                computed
            }),
            a.is_na_spec() || b.is_na_spec() ==> r.is_na_spec(),
    {
        if a.is_na() || b.is_na() {
            Rfloat::na()
        } else {
            computed
        }
    }
}

impl CanBeNA for Rfloat {
    open spec fn is_na_spec(&self) -> bool {
        is_na_real_bits(self.bits)
    }

    fn is_na(&self) -> (r: bool) {
        let b = self.bits;
        let nan = (b >> 52) & 0x7FF == 0x7FF && b & 0x000F_FFFF_FFFF_FFFF != 0;
        nan && b & 0xFFFF_FFFF == 1954
    }

    fn na() -> (r: Rfloat)
        ensures
            r.bits == NA_REAL_BITS,
    {
        proof {
            lemma_na_real_is_nan();
        }
        Rfloat { bits: NA_REAL_BITS }
    }
}

/// A signed-integer scalar. NA is the minimum representable value,
/// tested by plain equality.
#[derive(Clone, Copy, Debug, PartialEq, Eq, Structural)]
pub struct Rint {
    /// The underlying value; `i32::MIN` encodes NA.
    pub val: i32,
}

/// What integer addition returns: NA if either operand is NA, the exact
/// sum while it stays inside the representable non-NA range, NA on
/// overflow (the sentinel itself counts as overflow, so no legitimate
/// sum ever aliases NA).
pub open spec fn rint_add_spec(a: Rint, b: Rint) -> Rint {
    if a.is_na_spec() || b.is_na_spec() {
        Rint { val: i32::MIN }
    } else if i32::MIN < a.val + b.val && a.val + b.val <= i32::MAX {
        Rint { val: (a.val + b.val) as i32 }
    } else {
        Rint { val: i32::MIN }
    }
}

/// What integer subtraction returns, under the same NA/overflow rule as
/// [`rint_add_spec`].
pub open spec fn rint_sub_spec(a: Rint, b: Rint) -> Rint {
    if a.is_na_spec() || b.is_na_spec() {
        Rint { val: i32::MIN }
    } else if i32::MIN < a.val - b.val && a.val - b.val <= i32::MAX {
        Rint { val: (a.val - b.val) as i32 }
    } else {
        Rint { val: i32::MIN }
    }
}

/// What integer multiplication returns, under the same NA/overflow rule
/// as [`rint_add_spec`].
pub open spec fn rint_mul_spec(a: Rint, b: Rint) -> Rint {
    if a.is_na_spec() || b.is_na_spec() {
        Rint { val: i32::MIN }
    } else if i32::MIN < a.val * b.val && a.val * b.val <= i32::MAX {
        Rint { val: (a.val * b.val) as i32 }
    } else {
        Rint { val: i32::MIN }
    }
}

impl Rint {
    /// Wrap a raw integer; `i32::MIN` yields the NA scalar.
    pub fn new(val: i32) -> (r: Rint)
        ensures
            r.val == val,
    {
        Rint { val }
    }

    /// The underlying storage value.
    pub fn inner(&self) -> (r: i32)
        ensures
            r == self.val,
    {
        self.val
    }

    /// NA-propagating addition; overflow also yields NA rather than
    /// wrapping, so the sentinel can never be produced by accident.
    pub fn add(self, other: Rint) -> (r: Rint)
        ensures
            r == rint_add_spec(self, other),
    {
        if self.is_na() || other.is_na() {
            Rint { val: i32::MIN }
        } else {
            let s: i64 = self.val as i64 + other.val as i64;
            if s > i32::MIN as i64 && s <= i32::MAX as i64 {
                Rint { val: s as i32 }
            } else {
                Rint { val: i32::MIN }
            }
        }
    }

    /// NA-propagating subtraction, with the same overflow rule as
    /// [`Rint::add`].
    pub fn sub(self, other: Rint) -> (r: Rint)
        ensures
            r == rint_sub_spec(self, other),
    {
        if self.is_na() || other.is_na() {
            Rint { val: i32::MIN }
        } else {
            let s: i64 = self.val as i64 - other.val as i64;
            if s > i32::MIN as i64 && s <= i32::MAX as i64 {
                Rint { val: s as i32 }
            } else {
                Rint { val: i32::MIN }
            }
        }
    }

    /// NA-propagating multiplication, with the same overflow rule as
    /// [`Rint::add`].
    pub fn mul(self, other: Rint) -> (r: Rint)
        ensures
            r == rint_mul_spec(self, other),
    {
        if self.is_na() || other.is_na() {
            Rint { val: i32::MIN }
        } else {
            proof {
                let a = self.val as int;
                let b = other.val as int;
                assert(a * b <= 0x4000_0000_0000_0000 && a * b >= -0x4000_0000_0000_0000)
                    by (nonlinear_arith)
                    requires
                        -0x8000_0000 <= a <= 0x7FFF_FFFF,
                        -0x8000_0000 <= b <= 0x7FFF_FFFF,
                ;
            }
            let s: i64 = self.val as i64 * other.val as i64;
            if s > i32::MIN as i64 && s <= i32::MAX as i64 {
                Rint { val: s as i32 }
            } else {
                Rint { val: i32::MIN }
            }
        }
    }

    /// NA-aware equality: false whenever either operand is NA.
    pub fn na_eq(&self, other: &Rint) -> (r: bool)
        ensures
            r == (!self.is_na_spec() && !other.is_na_spec() && self.val == other.val),
    {
        !self.is_na() && !other.is_na() && self.val == other.val
    }
}

impl CanBeNA for Rint {
    open spec fn is_na_spec(&self) -> bool {
        self.val == i32::MIN
    }

    fn is_na(&self) -> (r: bool) {
        self.val == i32::MIN
    }

    fn na() -> (r: Rint) {
        Rint { val: i32::MIN }
    }
}

/// A tri-state (true / false / NA) boolean scalar, stored as an integer:
/// zero is false, any other non-sentinel value is true, and the
/// minimum-integer sentinel is NA, as in the underlying integer kind.
#[derive(Clone, Copy, Debug, PartialEq, Eq, Structural)]
pub struct Rbool {
    /// The underlying storage; 0 is false, `i32::MIN` is NA, anything
    /// else is true.
    pub val: i32,
}

/// Whether a tri-state boolean is definitely true.
pub open spec fn rbool_is_true(a: Rbool) -> bool {
    a.val != 0 && a.val != i32::MIN
}

/// Whether a tri-state boolean is definitely false.
pub open spec fn rbool_is_false(a: Rbool) -> bool {
    a.val == 0
}

/// What three-valued conjunction returns: false if either side is
/// false, then NA if either side is NA, else true.
pub open spec fn rbool_and_spec(a: Rbool, b: Rbool) -> Rbool {
    if rbool_is_false(a) || rbool_is_false(b) {
        Rbool { val: 0 }
    } else if a.is_na_spec() || b.is_na_spec() {
        Rbool { val: i32::MIN }
    } else {
        Rbool { val: 1 }
    }
}

/// What three-valued disjunction returns: true if either side is true,
/// then NA if either side is NA, else false.
pub open spec fn rbool_or_spec(a: Rbool, b: Rbool) -> Rbool {
    if rbool_is_true(a) || rbool_is_true(b) {
        Rbool { val: 1 }
    } else if a.is_na_spec() || b.is_na_spec() {
        Rbool { val: i32::MIN }
    } else {
        Rbool { val: 0 }
    }
}

/// What three-valued negation returns: NA stays NA, true and false
/// swap.
pub open spec fn rbool_not_spec(a: Rbool) -> Rbool {
    if a.is_na_spec() {
        Rbool { val: i32::MIN }
    } else if rbool_is_false(a) {
        Rbool { val: 1 }
    } else {
        Rbool { val: 0 }
    }
}

impl Rbool {
    /// Wrap a two-state boolean; never NA.
    pub fn from_bool(b: bool) -> (r: Rbool)
        ensures
            rbool_is_true(r) == b,
            rbool_is_false(r) == !b,
            !r.is_na_spec(),
    {
        Rbool { val: if b { 1 } else { 0 } }
    }

    /// Wrap a raw storage value; `i32::MIN` yields the NA scalar.
    pub fn from_storage(val: i32) -> (r: Rbool)
        ensures
            r.val == val,
    {
        Rbool { val }
    }

    /// True if this scalar is definitely true (not false, not NA).
    pub fn is_true(&self) -> (r: bool)
        ensures
            r == rbool_is_true(*self),
    {
        self.val != 0 && self.val != i32::MIN
    }

    /// True if this scalar is definitely false.
    pub fn is_false(&self) -> (r: bool)
        ensures
            r == rbool_is_false(*self),
    {
        self.val == 0
    }

    /// Three-valued conjunction: false if either side is false, NA if
    /// neither is false and either is NA, true otherwise.
    pub fn and(self, other: Rbool) -> (r: Rbool)
        ensures
            r == rbool_and_spec(self, other),
    {
        if self.is_false() || other.is_false() {
            Rbool { val: 0 }
        } else if self.is_na() || other.is_na() {
            Rbool { val: i32::MIN }
        } else {
            Rbool { val: 1 }
        }
    }

    /// Three-valued disjunction: true if either side is true, NA if
    /// neither is true and either is NA, false otherwise.
    pub fn or(self, other: Rbool) -> (r: Rbool)
        ensures
            r == rbool_or_spec(self, other),
    {
        if self.is_true() || other.is_true() {
            Rbool { val: 1 }
        } else if self.is_na() || other.is_na() {
            Rbool { val: i32::MIN }
        } else {
            Rbool { val: 0 }
        }
    }

    /// Three-valued negation: NA stays NA.
    pub fn not(self) -> (r: Rbool)
        ensures
            r == rbool_not_spec(self),
    {
        if self.is_na() {
            Rbool { val: i32::MIN }
        } else if self.val == 0 {
            Rbool { val: 1 }
        } else {
            Rbool { val: 0 }
        }
    }
}

impl CanBeNA for Rbool {
    open spec fn is_na_spec(&self) -> bool {
        self.val == i32::MIN
    }

    fn is_na(&self) -> (r: bool) {
        self.val == i32::MIN
    }

    fn na() -> (r: Rbool) {
        Rbool { val: i32::MIN }
    }
}

/// The two bytes of the sentinel text, `"NA"`.
pub open spec fn na_text() -> Seq<u8> {
    seq![78u8, 65u8]
}

/// A text scalar. Unlike every other kind, its NA-ness is governed by
/// *identity*, not content: the system holds one shared sentinel
/// instance whose content happens to be `"NA"`, and only values obtained
/// from that singleton are NA. A freshly constructed scalar with the
/// same `"NA"` content is content-equal to the sentinel yet is **not**
/// NA. This asymmetry is deliberate and easy to misuse: never build the
/// sentinel by hand; always take it from [`CanBeNA::na`].
///
/// `==` on text scalars is content equality and ignores identity, so
/// `Rstr::na() == Rstr::new(b"NA")` holds even though only the former is
/// NA.
#[derive(Clone, Debug)]
pub struct Rstr {
    bytes: Vec<u8>,
    sentinel: bool,
}

/// Content equality of two text scalars: the bytes agree; identity (and
/// so NA-ness) plays no part.
pub open spec fn str_content_eq(a: &Rstr, b: &Rstr) -> bool {
    a.content() == b.content()
}

impl Rstr {
    /// The scalar's textual content, as a byte sequence.
    pub closed spec fn content(&self) -> Seq<u8> {
        self.bytes@
    }

    /// Construct a fresh text scalar with the given content. The result
    /// is never NA, even when the content is `"NA"`.
    pub fn new(bytes: Vec<u8>) -> (r: Rstr)
        ensures
            r.content() == bytes@,
            !r.is_na_spec(),
    {
        Rstr { bytes, sentinel: false }
    }

    /// The content bytes.
    pub fn content_bytes(&self) -> (r: &Vec<u8>)
        ensures
            r@ == self.content(),
    {
        &self.bytes
    }
}

impl CanBeNA for Rstr {
    /// NA-ness is identity with the singleton sentinel, never content.
    closed spec fn is_na_spec(&self) -> bool {
        self.sentinel
    }

    fn is_na(&self) -> (r: bool) {
        self.sentinel
    }

    /// The singleton sentinel: the one text scalar that is NA. Its
    /// content is the two characters `"NA"`.
    fn na() -> (r: Rstr)
        ensures
            r.content() == na_text(),
    {
        let mut bytes: Vec<u8> = Vec::new();
        bytes.push(78);
        bytes.push(65);
        proof {
            assert(bytes@ =~= na_text());
        }
        Rstr { bytes, sentinel: true }
    }
}

impl PartialEq for Rstr {
    /// Content equality, byte for byte; identity is ignored.
    fn eq(&self, other: &Rstr) -> (r: bool) {
        if self.bytes.len() != other.bytes.len() {
            return false;
        }
        let n = self.bytes.len();
        let mut i: usize = 0;
        while i < n
            invariant
                i <= n,
                n == self.bytes.len(),
                n == other.bytes.len(),
                forall|j: int| 0 <= j < i ==> self.bytes@[j] == other.bytes@[j],
            decreases n - i,
        {
            if self.bytes[i] != other.bytes[i] {
                return false;
            }
            i += 1;
        }
        proof {
            assert(self.content() =~= other.content());
        }
        true
    }
}

impl vstd::std_specs::cmp::PartialEqSpecImpl for Rstr {
    open spec fn obeys_eq_spec() -> bool {
        true
    }

    open spec fn eq_spec(&self, other: &Rstr) -> bool {
        str_content_eq(self, other)
    }
}

/// Identity, not content, governs text NA-ness: any non-singleton
/// scalar whose content is `"NA"` is content-equal to any sentinel-
/// identity scalar, yet only the latter is NA.
pub proof fn lemma_text_na_is_identity(fresh: &Rstr, sentinel: &Rstr)
    requires
        !fresh.is_na_spec(),
        sentinel.is_na_spec(),
        fresh.content() == na_text(),
        sentinel.content() == na_text(),
    ensures
        str_content_eq(fresh, sentinel),
        !fresh.is_na_spec() && sentinel.is_na_spec(),
{
}

} // verus!

//! The double-vector abstraction: a fixed-length sequence of
//! [`Rfloat`] scalars behind one handle, transparently backed either by
//! an eagerly materialized buffer or by a lazily evaluated generator.
//!
//! The backing mode is a performance policy, never a correctness one:
//! element access and bulk region access return the same values in both
//! modes, and the only operations that can tell the modes apart are the
//! explicit [`Doubles::is_lazy`] query and the mutation guard (a lazily
//! backed handle has no addressable storage to mutate, so in-place
//! writes on it fail with [`Error::OwnershipViolation`] until the
//! handle is materialized).

use vstd::pervasive::VecAdditionalExecFns;
use vstd::prelude::*;

use crate::Error;
use crate::bits::double_bits_of;
use crate::bits::double_bits_spec;
use crate::scalar::Rfloat;

verus! {

/// Sequences at or above this length are given lazy backing by
/// [`Doubles::from_values`]; shorter ones are copied into a
/// materialized buffer up front.
pub const LAZY_THRESHOLD: usize = 65536;

/// A deterministic, side-effect-free element generator for lazy
/// backing: a pure function from index to scalar, so repeated
/// evaluation at one index always yields the same value.
#[derive(Debug)]
pub enum Generator {
    /// Element `i` is the exact double encoding of the integer
    /// `start + i`.
    Affine { start: u64, len: usize },
    /// Every element is one fixed scalar.
    Repeat { value: Rfloat, len: usize },
    /// Element `i` is looked up in a table of scalars.
    Table { values: Vec<Rfloat> },
}

impl Generator {
    /// How many elements the generator produces.
    pub open spec fn len_spec(&self) -> nat {
        match self {
            Generator::Affine { len, .. } => *len as nat,
            Generator::Repeat { len, .. } => *len as nat,
            Generator::Table { values } => values@.len(),
        }
    }

    /// The value produced at an index.
    pub open spec fn at_spec(&self, i: int) -> Rfloat {
        match self {
            Generator::Affine { start, .. } => Rfloat {
                bits: double_bits_spec((*start + i) as nat),
            },
            Generator::Repeat { value, .. } => *value,
            Generator::Table { values } => values@[i],
        }
    }

    /// The whole generated sequence.
    pub open spec fn seq_spec(&self) -> Seq<Rfloat> {
        Seq::new(self.len_spec(), |i: int| self.at_spec(i))
    }

    /// A generator is well formed when every index it serves stays
    /// inside the exactly-representable integer range of a double.
    pub open spec fn wf(&self) -> bool {
        match self {
            Generator::Affine { start, len } => *start as nat + *len as nat
                <= 0x20_0000_0000_0000,
            Generator::Repeat { .. } => true,
            Generator::Table { .. } => true,
        }
    }

    /// The element count.
    pub fn len(&self) -> (r: usize)
        ensures
            r == self.len_spec(),
    {
        match self {
            Generator::Affine { len, .. } => *len,
            Generator::Repeat { len, .. } => *len,
            Generator::Table { values } => values.len(),
        }
    }

    /// Evaluate the generator at one index.
    pub fn at(&self, i: usize) -> (r: Rfloat)
        requires
            self.wf(),
            i < self.len_spec(),
        ensures
            r == self.at_spec(i as int),
    {
        match self {
            Generator::Affine { start, .. } => Rfloat { bits: double_bits_of(*start + i as u64) },
            Generator::Repeat { value, .. } => *value,
            Generator::Table { values } => values[i],
        }
    }
}

/// A finite sequence of scalars handed to [`Doubles::from_values`]:
/// either the values themselves or a description that can produce them.
pub enum Source {
    /// An explicit, already computed sequence.
    Values(Vec<Rfloat>),
    /// A sequence described by a generator.
    Generated(Generator),
}

impl Source {
    /// The sequence a source denotes.
    pub open spec fn seq_spec(&self) -> Seq<Rfloat> {
        match self {
            Source::Values(v) => v@,
            Source::Generated(g) => g.seq_spec(),
        }
    }

    /// Whether the source can be evaluated everywhere.
    pub open spec fn wf(&self) -> bool {
        match self {
            Source::Values(_) => true,
            Source::Generated(g) => g.wf(),
        }
    }

    /// The sequence's length.
    pub fn len(&self) -> (r: usize)
        ensures
            r == self.seq_spec().len(),
    {
        match self {
            Source::Values(v) => v.len(),
            Source::Generated(g) => g.len(),
        }
    }
}

#[derive(Debug)]
enum Backing {
    Materialized(Vec<Rfloat>),
    Lazy(Generator),
}

/// A handle to a fixed-length vector of doubles with dual backing.
///
/// Logically the handle *is* its element sequence (`self@`); whether
/// the elements sit in a materialized buffer or come from a generator
/// is invisible to every read. Only in-place mutation distinguishes the
/// modes: it needs addressable, uniquely owned storage, so it is
/// refused on a lazy handle until [`Doubles::materialize`] is called.
///
/// `==` on handles is content equality of the element sequences,
/// whatever the backing modes.
#[derive(Debug)]
pub struct Doubles {
    backing: Backing,
}

fn copy_values(values: &Vec<Rfloat>) -> (r: Vec<Rfloat>)
    ensures
        r@ == values@,
{
    let n = values.len();
    let mut v: Vec<Rfloat> = Vec::new();
    let mut i: usize = 0;
    while i < n
        invariant
            i <= n,
            n == values@.len(),
            v@.len() == i,
            forall|j: int| 0 <= j < i ==> v@[j] == values@[j],
        decreases n - i,
    {
        v.push(values[i]);
        i += 1;
    }
    proof {
        assert(v@ =~= values@);
    }
    v
}

impl Clone for Generator {
    /// The clone generates the same sequence.
    fn clone(&self) -> (r: Generator)
        ensures
            r.seq_spec() == self.seq_spec(),
            r.wf() == self.wf(),
    {
        let r = match self {
            Generator::Affine { start, len } => Generator::Affine { start: *start, len: *len },
            Generator::Repeat { value, len } => Generator::Repeat { value: *value, len: *len },
            Generator::Table { values } => Generator::Table { values: copy_values(values) },
        };
        proof {
            assert(r.seq_spec() =~= self.seq_spec());
        }
        r
    }
}

impl Clone for Doubles {
    /// The clone presents the same element sequence in the same
    /// backing mode.
    fn clone(&self) -> (r: Doubles)
        ensures
            r@ == self@,
            r.is_lazy_spec() == self.is_lazy_spec(),
    {
        proof {
            use_type_invariant(&*self);
        }
        match &self.backing {
            Backing::Materialized(v) => Doubles { backing: Backing::Materialized(copy_values(v)) },
            Backing::Lazy(g) => Doubles { backing: Backing::Lazy(g.clone()) },
        }
    }
}

impl View for Doubles {
    type V = Seq<Rfloat>;

    closed spec fn view(&self) -> Seq<Rfloat> {
        match &self.backing {
            Backing::Materialized(v) => v@,
            Backing::Lazy(g) => g.seq_spec(),
        }
    }
}

impl Doubles {
    #[verifier::type_invariant]
    spec fn inv(&self) -> bool {
        match &self.backing {
            Backing::Materialized(_) => true,
            Backing::Lazy(g) => g.wf(),
        }
    }

    /// Whether the handle is lazily backed.
    pub closed spec fn is_lazy_spec(&self) -> bool {
        self.backing is Lazy
    }

    /// Allocate a materialized vector of `len` elements. Every element
    /// is initialized to positive zero — a fixed, documented default;
    /// it is *not* NA.
    pub fn new(len: usize) -> (r: Doubles)
        ensures
            r@.len() == len,
            forall|i: int| 0 <= i < len ==> r@[i] == (Rfloat { bits: 0u64 }),
            !r.is_lazy_spec(),
    {
        let mut v: Vec<Rfloat> = Vec::new();
        let mut i: usize = 0;
        while i < len
            invariant
                i <= len,
                v@.len() == i,
                forall|j: int| 0 <= j < i ==> v@[j] == (Rfloat { bits: 0u64 }),
            decreases len - i,
        {
            v.push(Rfloat { bits: 0 });
            i += 1;
        }
        Doubles { backing: Backing::Materialized(v) }
    }

    /// Build a vector from a finite sequence. Sequences shorter than
    /// [`LAZY_THRESHOLD`] are copied into a materialized buffer; longer
    /// ones get lazy backing. The choice is pure policy: the resulting
    /// handle presents exactly the source's sequence either way.
    pub fn from_values(src: Source) -> (r: Doubles)
        requires
            src.wf(),
        ensures
            r@ == src.seq_spec(),
            r.is_lazy_spec() == (src.seq_spec().len() >= LAZY_THRESHOLD),
    {
        let n = src.len();
        if n < LAZY_THRESHOLD {
            match src {
                Source::Values(v) => {
                    proof {
                        assert(v@ =~= Source::Values(v).seq_spec());
                    }
                    Doubles { backing: Backing::Materialized(v) }
                },
                Source::Generated(g) => {
                    let m = g.len();
                    let mut v: Vec<Rfloat> = Vec::new();
                    let mut i: usize = 0;
                    while i < m
                        invariant
                            i <= m,
                            m == g.len_spec(),
                            g.wf(),
                            v@.len() == i,
                            forall|j: int| 0 <= j < i ==> v@[j] == g.at_spec(j),
                        decreases m - i,
                    {
                        let x = g.at(i);
                        v.push(x);
                        i += 1;
                    }
                    proof {
                        assert(v@ =~= g.seq_spec());
                    }
                    Doubles { backing: Backing::Materialized(v) }
                },
            }
        } else {
            match src {
                Source::Values(v) => {
                    proof {
                        assert((Generator::Table { values: v }).seq_spec() =~= v@);
                    }
                    Doubles { backing: Backing::Lazy(Generator::Table { values: v }) }
                },
                Source::Generated(g) => Doubles { backing: Backing::Lazy(g) },
            }
        }
    }

    /// The element count.
    pub fn len(&self) -> (r: usize)
        ensures
            r == self@.len(),
    {
        proof {
            use_type_invariant(&*self);
        }
        match &self.backing {
            Backing::Materialized(v) => v.len(),
            Backing::Lazy(g) => g.len(),
        }
    }

    /// Whether the handle is lazily backed. Callers never need to ask
    /// to read correctly; the answer only predicts whether in-place
    /// mutation will be accepted.
    pub fn is_lazy(&self) -> (r: bool)
        ensures
            r == self.is_lazy_spec(),
    {
        match &self.backing {
            Backing::Materialized(_) => false,
            Backing::Lazy(_) => true,
        }
    }

    fn elt_unchecked(&self, index: usize) -> (r: Rfloat)
        requires
            index < self@.len(),
        ensures
            r == self@[index as int],
    {
        proof {
            use_type_invariant(&*self);
        }
        match &self.backing {
            Backing::Materialized(v) => v[index],
            Backing::Lazy(g) => g.at(index),
        }
    }

    /// Bounds-checked element access: the element at `index`, or
    /// [`Error::IndexError`] exactly when `index` is out of range. The
    /// value is the same in both backing modes.
    pub fn elt(&self, index: usize) -> (r: Result<Rfloat, Error>)
        ensures
            index < self@.len() ==> r == Ok::<Rfloat, Error>(self@[index as int]),
            index >= self@.len() ==> r == Err::<Rfloat, Error>(Error::IndexError),
    {
        if index < self.len() {
            Ok(self.elt_unchecked(index))
        } else {
            Err(Error::IndexError)
        }
    }

    /// Bulk region read: copy `dest.len()` consecutive elements
    /// beginning at `start` into `dest`. Fails with
    /// [`Error::IndexError`], leaving `dest` unchanged, exactly when
    /// the span does not fit. For lazy backing only the requested span
    /// is evaluated; the values are the ones repeated [`Doubles::elt`]
    /// calls over the same range would return.
    pub fn get_region(&self, start: usize, dest: &mut Vec<Rfloat>) -> (r: Result<(), Error>)
        ensures
            start + old(dest)@.len() <= self@.len() ==> {
                &&& r == Ok::<(), Error>(())
                &&& final(dest)@ == self@.subrange(start as int, start + old(dest)@.len())
            },
            start + old(dest)@.len() > self@.len() ==> {
                &&& r == Err::<(), Error>(Error::IndexError)
                &&& final(dest)@ == old(dest)@
            },
            final(dest)@.len() == old(dest)@.len(),
    {
        let n = dest.len();
        let total = self.len();
        if start > total || n > total - start {
            return Err(Error::IndexError);
        }
        let mut i: usize = 0;
        while i < n
            invariant
                i <= n,
                n == dest@.len(),
                start + n <= self@.len(),
                self@.len() <= usize::MAX,
                forall|j: int| 0 <= j < i ==> dest@[j] == self@[start + j],
            decreases n - i,
        {
            let x = self.elt_unchecked(start + i);
            dest.set(i, x);
            i += 1;
        }
        proof {
            assert(dest@ =~= self@.subrange(start as int, start + n as int));
        }
        Ok(())
    }

    /// In-place mutation of one element. Requires uniquely owned,
    /// materialized storage: on a lazy handle it fails with
    /// [`Error::OwnershipViolation`] (materialize first), and out of
    /// range it fails with [`Error::IndexError`]; the contents are
    /// unchanged in both failure cases. The backing mode never changes.
    pub fn set_elt(&mut self, index: usize, val: Rfloat) -> (r: Result<(), Error>)
        ensures
            old(self).is_lazy_spec() ==> r == Err::<(), Error>(Error::OwnershipViolation),
            !old(self).is_lazy_spec() && index >= old(self)@.len() ==> r == Err::<(), Error>(
                Error::IndexError,
            ),
            !old(self).is_lazy_spec() && index < old(self)@.len() ==> {
                &&& r == Ok::<(), Error>(())
                &&& final(self)@ == old(self)@.update(index as int, val)
            },
            r is Err ==> final(self)@ == old(self)@,
            final(self).is_lazy_spec() == old(self).is_lazy_spec(),
    {
        proof {
            use_type_invariant(&*self);
        }
        let mut b = Backing::Materialized(Vec::new());
        core::mem::swap(&mut b, &mut self.backing);
        match b {
            Backing::Materialized(mut v) => {
                if index < v.len() {
                    v.set(index, val);
                    self.backing = Backing::Materialized(v);
                    Ok(())
                } else {
                    self.backing = Backing::Materialized(v);
                    Err(Error::IndexError)
                }
            },
            Backing::Lazy(g) => {
                self.backing = Backing::Lazy(g);
                Err(Error::OwnershipViolation)
            },
        }
    }

    /// Force materialized backing, evaluating the generator over the
    /// whole index range if the handle was lazy. The element sequence
    /// is unchanged; afterwards in-place mutation is accepted.
    pub fn materialize(&mut self)
        ensures
            final(self)@ == old(self)@,
            !final(self).is_lazy_spec(),
    {
        proof {
            use_type_invariant(&*self);
        }
        let is_lazy = self.is_lazy();
        if !is_lazy {
            return ;
        }
        let n = self.len();
        let mut v: Vec<Rfloat> = Vec::new();
        let mut i: usize = 0;
        while i < n
            invariant
                i <= n,
                n == self@.len(),
                self.inv(),
                v@.len() == i,
                forall|j: int| 0 <= j < i ==> v@[j] == self@[j],
            decreases n - i,
        {
            let x = self.elt_unchecked(i);
            v.push(x);
            i += 1;
        }
        proof {
            assert(v@ =~= self@);
        }
        self.backing = Backing::Materialized(v);
    }

    /// The whole element sequence as a fresh buffer, in index order.
    /// This is the iteration interface: the handle's storage persists
    /// independently of any pass, so iteration can be restarted by
    /// calling it again.
    pub fn to_vec(&self) -> (r: Vec<Rfloat>)
        ensures
            r@ == self@,
    {
        let n = self.len();
        let mut v: Vec<Rfloat> = Vec::new();
        let mut i: usize = 0;
        while i < n
            invariant
                i <= n,
                n == self@.len(),
                v@.len() == i,
                forall|j: int| 0 <= j < i ==> v@[j] == self@[j],
            decreases n - i,
        {
            let x = self.elt_unchecked(i);
            v.push(x);
            i += 1;
        }
        proof {
            assert(v@ =~= self@);
        }
        v
    }
}

impl PartialEq for Doubles {
    /// Content equality of the element sequences; the backing modes
    /// play no part.
    fn eq(&self, other: &Doubles) -> (r: bool) {
        let n = self.len();
        if n != other.len() {
            return false;
        }
        let mut i: usize = 0;
        while i < n
            invariant
                i <= n,
                n == self@.len(),
                n == other@.len(),
                forall|j: int| 0 <= j < i ==> self@[j] == other@[j],
            decreases n - i,
        {
            let a = self.elt_unchecked(i);
            let b = other.elt_unchecked(i);
            if a != b {
                return false;
            }
            i += 1;
        }
        proof {
            assert(self@ =~= other@);
        }
        true
    }
}

impl vstd::std_specs::cmp::PartialEqSpecImpl for Doubles {
    open spec fn obeys_eq_spec() -> bool {
        true
    }

    open spec fn eq_spec(&self, other: &Doubles) -> bool {
        self@ == other@
    }
}

/// The element sequence after writing `vals[j]` at index `j`, in
/// order, for every `j < n` — the view [`Doubles::set_elt`] leaves
/// behind after `n` successful writes.
pub open spec fn seq_after_writes(init: Seq<Rfloat>, vals: Seq<Rfloat>, n: int) -> Seq<Rfloat>
    decreases n,
{
    if n <= 0 {
        init
    } else {
        seq_after_writes(init, vals, n - 1).update(n - 1, vals[n - 1])
    }
}

proof fn lemma_writes_prefix(init: Seq<Rfloat>, vals: Seq<Rfloat>, n: int)
    requires
        init.len() == vals.len(),
        0 <= n <= vals.len(),
    ensures
        seq_after_writes(init, vals, n).len() == init.len(),
        forall|j: int| 0 <= j < n ==> seq_after_writes(init, vals, n)[j] == vals[j],
        forall|j: int| n <= j < init.len() ==> seq_after_writes(init, vals, n)[j] == init[j],
    decreases n,
{
    if n > 0 {
        lemma_writes_prefix(init, vals, n - 1);
    }
}

/// Write/read round-trip law: start from any vector contents of length
/// `N`, write a chosen value at every index with [`Doubles::set_elt`]
/// (whose contract makes each write `view.update`), and the resulting
/// view *is* the written sequence — so reading back with
/// [`Doubles::elt`] at each index, with [`Doubles::get_region`] over
/// any span, or by full iteration through [`Doubles::to_vec`]
/// reproduces exactly the written values, in order.
pub proof fn lemma_write_read_round_trip(init: Seq<Rfloat>, vals: Seq<Rfloat>)
    requires
        init.len() == vals.len(),
    ensures
        seq_after_writes(init, vals, vals.len() as int) == vals,
{
    lemma_writes_prefix(init, vals, vals.len() as int);
    assert(seq_after_writes(init, vals, vals.len() as int) =~= vals);
}

} // verus!

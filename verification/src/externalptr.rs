//! The external-pointer bridge: a foreign-heap handle that owns exactly
//! one native object and guarantees its destructor runs exactly once.
//!
//! The foreign collector, not native scope exit, decides when a
//! GC-discovered unreachable handle dies, so the bridge is built around
//! an explicit registry ([`XptrRuntime`]) modelling the foreign heap's
//! rooting and finalization protocol: every handle slot walks the state
//! machine Alive (rooted or unrooted) → Released (native-initiated,
//! synchronous) or Finalized (collector-initiated), and both terminal
//! states mean "the destructor has run, exactly once". The registry's
//! well-formedness predicate [`XptrRuntime::wf`] carries that count; it
//! holds after construction and is preserved by every operation, which
//! is the no-double-destruction guarantee.
//!
//! Dereferencing is valid only while the slot is alive; the contracts
//! demand it, mirroring the discipline that a rooted lifetime must
//! cover every access.

use core::marker::PhantomData;
use vstd::pervasive::VecAdditionalExecFns;
use vstd::pervasive::unreached;
use vstd::prelude::*;

use crate::Error;

verus! {

/// A typed handle to one slot of an [`XptrRuntime`]. The handle itself
/// is only a name (slot index plus type tag); the owned object lives in
/// the registry until released or finalized.
pub struct ExternalPtr<T> {
    id: usize,
    type_tag: u64,
    _object: PhantomData<T>,
}

impl<T> ExternalPtr<T> {
    /// The slot this handle names.
    pub closed spec fn id_spec(&self) -> usize {
        self.id
    }

    /// The type tag the handle was created under.
    pub closed spec fn tag_spec(&self) -> u64 {
        self.type_tag
    }

    /// The slot index.
    pub fn id(&self) -> (r: usize)
        ensures
            r == self.id_spec(),
    {
        self.id
    }

    /// The type tag.
    pub fn type_tag(&self) -> (r: u64)
        ensures
            r == self.tag_spec(),
    {
        self.type_tag
    }

    /// Reassemble a typed handle from its boundary fields.
    pub(crate) fn from_parts(id: usize, type_tag: u64) -> (r: ExternalPtr<T>)
        ensures
            r == extptr_named::<T>(id, type_tag),
    {
        ExternalPtr { id, type_tag, _object: PhantomData }
    }
}

/// The typed handle with the given slot index and tag. A handle is
/// nothing but these two fields, so this names every handle value.
pub closed spec fn extptr_named<T>(id: usize, type_tag: u64) -> ExternalPtr<T> {
    ExternalPtr { id, type_tag, _object: PhantomData }
}

/// A handle is determined by its slot index and tag.
pub proof fn lemma_extptr_named_identity<T>(p: &ExternalPtr<T>)
    ensures
        extptr_named::<T>(p.id_spec(), p.tag_spec()) == *p,
{
}

/// The handle, as a value, names its slot and nothing more; copying it
/// does not copy, root or otherwise touch the owned object.
impl<T> Clone for ExternalPtr<T> {
    fn clone(&self) -> (r: ExternalPtr<T>)
        ensures
            r == *self,
    {
        ExternalPtr { id: self.id, type_tag: self.type_tag, _object: PhantomData }
    }
}

enum Slot<T> {
    Alive { obj: T, roots: u32 },
    Released,
    Finalized,
}

/// The modelled foreign-heap registry for external pointers of one
/// native type: per-slot object ownership, a root count, and a
/// destructor-invocation count.
pub struct XptrRuntime<T> {
    type_tag: u64,
    slots: Vec<Slot<T>>,
    drops: Vec<u32>,
}

impl<T> XptrRuntime<T> {
    /// The tag every handle of this registry carries.
    pub closed spec fn tag_spec(&self) -> u64 {
        self.type_tag
    }

    /// How many slots have ever been allocated.
    pub closed spec fn slot_count(&self) -> nat {
        self.slots@.len()
    }

    /// Whether a slot still owns its object (not yet released or
    /// finalized).
    pub closed spec fn is_alive(&self, id: int) -> bool {
        0 <= id < self.slots@.len() && self.slots@[id] is Alive
    }

    /// Whether a slot was ended by explicit native release.
    pub closed spec fn is_released(&self, id: int) -> bool {
        0 <= id < self.slots@.len() && self.slots@[id] is Released
    }

    /// Whether a slot was ended by the collector's finalizer.
    pub closed spec fn is_finalized(&self, id: int) -> bool {
        0 <= id < self.slots@.len() && self.slots@[id] is Finalized
    }

    /// The slot's native root count (zero once the slot is dead).
    pub closed spec fn roots_of(&self, id: int) -> nat {
        if self.is_alive(id) {
            self.slots@[id]->Alive_roots as nat
        } else {
            0
        }
    }

    /// The object a live slot owns.
    pub closed spec fn object_of(&self, id: int) -> T
        recommends
            self.is_alive(id),
    {
        self.slots@[id]->Alive_obj
    }

    /// How many times the slot's destructor has been invoked.
    pub closed spec fn drop_count(&self, id: int) -> nat {
        if 0 <= id < self.drops@.len() {
            self.drops@[id] as nat
        } else {
            0
        }
    }

    /// The registry's invariant: the destructor count of every slot is
    /// zero exactly while the slot is alive and one as soon as it is
    /// not. It holds after construction and every operation preserves
    /// it, so no object is ever destroyed twice — or left undestroyed
    /// after its slot ended.
    pub closed spec fn wf(&self) -> bool {
        &&& self.drops@.len() == self.slots@.len()
        &&& forall|j: int|
            0 <= j < self.slots@.len() ==> self.drops@[j] == (if self.slots@[j] is Alive {
                0u32
            } else {
                1u32
            })
    }

    /// The tag every handle of this registry carries.
    pub fn tag(&self) -> (r: u64)
        ensures
            r == self.tag_spec(),
    {
        self.type_tag
    }

    /// How many slots have ever been allocated.
    pub fn len(&self) -> (r: usize)
        ensures
            r == self.slot_count(),
    {
        self.slots.len()
    }

    /// Create an empty registry whose handles will carry `type_tag`.
    pub fn new(type_tag: u64) -> (r: XptrRuntime<T>)
        ensures
            r.wf(),
            r.tag_spec() == type_tag,
            r.slot_count() == 0,
    {
        XptrRuntime { type_tag, slots: Vec::new(), drops: Vec::new() }
    }

    /// Move a native object into a fresh foreign-heap slot and return
    /// the owning handle. The new slot is alive with one native root;
    /// its destructor has not run. This also registers the slot with
    /// the collector: once its roots drop to zero, a collection will
    /// finalize it (see [`XptrRuntime::gc`]).
    pub fn new_extptr(&mut self, obj: T) -> (p: ExternalPtr<T>)
        requires
            old(self).wf(),
        ensures
            final(self).wf(),
            p.id_spec() == old(self).slot_count(),
            p.tag_spec() == old(self).tag_spec(),
            final(self).tag_spec() == old(self).tag_spec(),
            final(self).slot_count() == old(self).slot_count() + 1,
            final(self).is_alive(p.id_spec() as int),
            final(self).object_of(p.id_spec() as int) == obj,
            final(self).roots_of(p.id_spec() as int) == 1,
            final(self).drop_count(p.id_spec() as int) == 0,
            forall|j: int|
                0 <= j < old(self).slot_count() ==> slot_unchanged(old(self), final(self), j),
    {
        let id = self.slots.len();
        self.slots.push(Slot::Alive { obj, roots: 1 });
        self.drops.push(0);
        ExternalPtr { id, type_tag: self.type_tag, _object: PhantomData }
    }

    /// Dereference: direct access to the owned object. Valid only while
    /// the slot is alive — after release or finalization there is no
    /// object, and the contract forbids the call rather than checking
    /// at run time.
    pub fn get(&self, p: &ExternalPtr<T>) -> (r: &T)
        requires
            self.is_alive(p.id_spec() as int),
        ensures
            r == self.object_of(p.id_spec() as int),
    {
        match &self.slots[p.id] {
            Slot::Alive { obj, .. } => obj,
            _ => unreached(),
        }
    }

    /// Mutable dereference, as an exchange: put `obj` into the live
    /// slot and get the previous object back. Roots and destructor
    /// counts are untouched.
    pub fn replace(&mut self, p: &ExternalPtr<T>, obj: T) -> (r: T)
        requires
            old(self).wf(),
            old(self).is_alive(p.id_spec() as int),
        ensures
            final(self).wf(),
            r == old(self).object_of(p.id_spec() as int),
            final(self).is_alive(p.id_spec() as int),
            final(self).object_of(p.id_spec() as int) == obj,
            final(self).roots_of(p.id_spec() as int) == old(self).roots_of(p.id_spec() as int),
            final(self).drop_count(p.id_spec() as int) == old(self).drop_count(
                p.id_spec() as int,
            ),
            final(self).slot_count() == old(self).slot_count(),
            final(self).tag_spec() == old(self).tag_spec(),
            forall|j: int|
                0 <= j < old(self).slot_count() && j != p.id_spec() as int ==> slot_unchanged(
                    old(self),
                    final(self),
                    j,
                ),
    {
        let id = p.id;
        let roots = match &self.slots[id] {
            Slot::Alive { roots, .. } => *roots,
            _ => unreached(),
        };
        let mut slot = Slot::Alive { obj, roots };
        self.slots.set_and_swap(id, &mut slot);
        match slot {
            Slot::Alive { obj: prev, .. } => prev,
            _ => unreached(),
        }
    }

    /// Native-initiated release: destroy the owned object now,
    /// synchronously, before returning, and mark the slot Released so
    /// that no later collection finalizes it again. Releasing a slot
    /// that is no longer alive fails with
    /// [`Error::DoubleReleaseViolation`] and changes nothing.
    pub fn release(&mut self, p: &ExternalPtr<T>) -> (r: Result<(), Error>)
        requires
            old(self).wf(),
            p.id_spec() < old(self).slot_count(),
        ensures
            final(self).wf(),
            final(self).slot_count() == old(self).slot_count(),
            final(self).tag_spec() == old(self).tag_spec(),
            old(self).is_alive(p.id_spec() as int) ==> {
                &&& r == Ok::<(), Error>(())
                &&& final(self).is_released(p.id_spec() as int)
                &&& !final(self).is_alive(p.id_spec() as int)
                &&& final(self).drop_count(p.id_spec() as int) == old(self).drop_count(
                    p.id_spec() as int,
                ) + 1
                &&& final(self).drop_count(p.id_spec() as int) == 1
            },
            !old(self).is_alive(p.id_spec() as int) ==> {
                &&& r == Err::<(), Error>(Error::DoubleReleaseViolation)
                &&& slot_unchanged(old(self), final(self), p.id_spec() as int)
            },
            forall|j: int|
                0 <= j < old(self).slot_count() && j != p.id_spec() as int ==> slot_unchanged(
                    old(self),
                    final(self),
                    j,
                ),
    {
        let id = p.id;
        let alive = match &self.slots[id] {
            Slot::Alive { .. } => true,
            _ => false,
        };
        if alive {
            // Replacing the slot drops the owned object here, before
            // this call returns: the destructor runs synchronously.
            self.slots.set(id, Slot::Released);
            self.drops.set(id, 1);
            Ok(())
        } else {
            Err(Error::DoubleReleaseViolation)
        }
    }

    /// Drop the last native reference without releasing: un-root the
    /// slot. The object is *not* destroyed here; it stays alive until
    /// a collection finds the slot unrooted.
    pub fn drop_native(&mut self, p: ExternalPtr<T>)
        requires
            old(self).wf(),
            p.id_spec() < old(self).slot_count(),
        ensures
            final(self).wf(),
            final(self).slot_count() == old(self).slot_count(),
            final(self).tag_spec() == old(self).tag_spec(),
            old(self).is_alive(p.id_spec() as int) ==> {
                &&& final(self).is_alive(p.id_spec() as int)
                &&& final(self).object_of(p.id_spec() as int) == old(self).object_of(
                    p.id_spec() as int,
                )
                &&& final(self).drop_count(p.id_spec() as int) == old(self).drop_count(
                    p.id_spec() as int,
                )
                &&& final(self).roots_of(p.id_spec() as int) == (if old(self).roots_of(
                    p.id_spec() as int,
                ) > 0 {
                    (old(self).roots_of(p.id_spec() as int) - 1) as nat
                } else {
                    0nat
                })
            },
            !old(self).is_alive(p.id_spec() as int) ==> slot_unchanged(
                old(self),
                final(self),
                p.id_spec() as int,
            ),
            forall|j: int|
                0 <= j < old(self).slot_count() && j != p.id_spec() as int ==> slot_unchanged(
                    old(self),
                    final(self),
                    j,
                ),
    {
        let id = p.id;
        let mut slot = Slot::Finalized;
        self.slots.set_and_swap(id, &mut slot);
        let restored = match slot {
            Slot::Alive { obj, roots } => Slot::Alive {
                obj,
                roots: if roots > 0 {
                    roots - 1
                } else {
                    0
                },
            },
            s => s,
        };
        self.slots.set(id, restored);
    }

    /// Add one native root to a live slot, extending the rooted
    /// lifetime that must cover every access to the handle.
    pub fn root(&mut self, p: &ExternalPtr<T>)
        requires
            old(self).wf(),
            old(self).is_alive(p.id_spec() as int),
            old(self).roots_of(p.id_spec() as int) < u32::MAX,
        ensures
            final(self).wf(),
            final(self).slot_count() == old(self).slot_count(),
            final(self).tag_spec() == old(self).tag_spec(),
            final(self).is_alive(p.id_spec() as int),
            final(self).object_of(p.id_spec() as int) == old(self).object_of(p.id_spec() as int),
            final(self).drop_count(p.id_spec() as int) == old(self).drop_count(
                p.id_spec() as int,
            ),
            final(self).roots_of(p.id_spec() as int) == old(self).roots_of(p.id_spec() as int)
                + 1,
            forall|j: int|
                0 <= j < old(self).slot_count() && j != p.id_spec() as int ==> slot_unchanged(
                    old(self),
                    final(self),
                    j,
                ),
    {
        let id = p.id;
        let mut slot = Slot::Finalized;
        self.slots.set_and_swap(id, &mut slot);
        let restored = match slot {
            Slot::Alive { obj, roots } => Slot::Alive { obj, roots: roots + 1 },
            _ => unreached(),
        };
        self.slots.set(id, restored);
    }

    /// A collection cycle: every slot that is alive but no longer
    /// rooted is finalized — its destructor runs, once — and every
    /// rooted or already-dead slot is left exactly as it was. A rooted
    /// handle is therefore never destroyed behind native code's back,
    /// and a released slot is never destroyed a second time.
    pub fn gc(&mut self)
        requires
            old(self).wf(),
        ensures
            final(self).wf(),
            final(self).slot_count() == old(self).slot_count(),
            final(self).tag_spec() == old(self).tag_spec(),
            forall|j: int|
                0 <= j < old(self).slot_count() ==> {
                    &&& (old(self).is_alive(j) && old(self).roots_of(j) == 0 ==> {
                        &&& final(self).is_finalized(j)
                        &&& !final(self).is_alive(j)
                        &&& final(self).drop_count(j) == old(self).drop_count(j) + 1
                        &&& final(self).drop_count(j) == 1
                    })
                    &&& (old(self).is_alive(j) && old(self).roots_of(j) > 0 ==> slot_unchanged(
                        old(self),
                        final(self),
                        j,
                    ))
                    &&& (!old(self).is_alive(j) ==> slot_unchanged(old(self), final(self), j))
                },
    {
        let n = self.slots.len();
        let mut i: usize = 0;
        while i < n
            invariant
                i <= n,
                n == self.slots@.len(),
                old(self).wf(),
                n == old(self).slots@.len(),
                self.wf(),
                self.tag_spec() == old(self).tag_spec(),
                self.slot_count() == old(self).slot_count(),
                forall|j: int|
                    i <= j < n ==> slot_unchanged(old(self), self, j),
                forall|j: int|
                    0 <= j < i ==> {
                        &&& (old(self).is_alive(j) && old(self).roots_of(j) == 0 ==> {
                            &&& self.is_finalized(j)
                            &&& !self.is_alive(j)
                            &&& self.drop_count(j) == old(self).drop_count(j) + 1
                            &&& self.drop_count(j) == 1
                        })
                        &&& (old(self).is_alive(j) && old(self).roots_of(j) > 0
                            ==> slot_unchanged(old(self), self, j))
                        &&& (!old(self).is_alive(j) ==> slot_unchanged(old(self), self, j))
                    },
            decreases n - i,
        {
            let ghost prev = *self;
            let finalize = match &self.slots[i] {
                Slot::Alive { roots, .. } => *roots == 0,
                _ => false,
            };
            if finalize {
                // Replacing the slot drops the owned object: this is
                // the collector invoking the registered finalizer.
                self.slots.set(i, Slot::Finalized);
                self.drops.set(i, 1);
            }
            proof {
                assert forall|j: int| 0 <= j < n && j != i implies slot_unchanged(
                    &prev,
                    self,
                    j,
                ) by {
                    assert(self.slots@[j] == prev.slots@[j]);
                    assert(self.drops@[j] == prev.drops@[j]);
                }
                assert forall|j: int| i < j < n implies slot_unchanged(old(self), self, j) by {
                    assert(slot_unchanged(old(self), &prev, j));
                    assert(slot_unchanged(&prev, self, j));
                }
                if finalize {
                    assert(prev.slots@[i as int] is Alive);
                    assert(slot_unchanged(old(self), &prev, i as int));
                    assert(old(self).is_alive(i as int));
                    assert(old(self).drops@[i as int] == 0);
                    assert(self.slots@[i as int] is Finalized);
                    assert(self.drops@[i as int] == 1);
                } else {
                    assert(slot_unchanged(old(self), self, i as int));
                }
            }
            i += 1;
        }
    }

    /// How many times the slot's destructor has been invoked so far:
    /// zero while alive, one after release or finalization.
    pub fn times_destroyed(&self, id: usize) -> (r: u32)
        requires
            self.wf(),
            id < self.slot_count(),
        ensures
            r == self.drop_count(id as int),
    {
        self.drops[id]
    }

    /// Whether the slot's destructor has run.
    pub fn was_destroyed(&self, id: usize) -> (r: bool)
        requires
            self.wf(),
            id < self.slot_count(),
        ensures
            r == (self.drop_count(id as int) > 0),
    {
        self.drops[id] > 0
    }
}

/// Nothing about the slot `j` differs between the two registry states:
/// same liveness, same terminal state if any, same roots, same owned
/// object and same destructor count.
pub open spec fn slot_unchanged<T>(a: &XptrRuntime<T>, b: &XptrRuntime<T>, j: int) -> bool {
    &&& a.is_alive(j) == b.is_alive(j)
    &&& a.is_released(j) == b.is_released(j)
    &&& a.is_finalized(j) == b.is_finalized(j)
    &&& a.roots_of(j) == b.roots_of(j)
    &&& (a.is_alive(j) ==> b.object_of(j) == a.object_of(j))
    &&& a.drop_count(j) == b.drop_count(j)
}

/// The destructor-exactly-once law: in any well-formed registry no
/// slot's destructor has run more than once; it has not run at all
/// exactly while the slot is alive, and exactly once as soon as the
/// slot was released or finalized.
pub proof fn lemma_destructor_exactly_once<T>(rt: &XptrRuntime<T>, id: int)
    requires
        rt.wf(),
        0 <= id < rt.slot_count(),
    ensures
        rt.drop_count(id) <= 1,
        rt.is_alive(id) <==> rt.drop_count(id) == 0,
        !rt.is_alive(id) <==> rt.drop_count(id) == 1,
{
}

} // verus!

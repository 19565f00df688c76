//! Reference-counted ownership of native objects.
//!
//! Native capture objects live behind opaque handles whose lifetime is
//! governed by a retain count: retaining increments it, releasing
//! decrements it, and the object is destroyed when the count reaches zero.
//! The count itself lives on the native side; here it is modeled by an
//! explicit `RetainTable`, an instrumented ledger of one count per object,
//! so that the discipline — each live `OwnedHandle` owns exactly one
//! retain, cloning retains, releasing gives the one retain back — is
//! stated and proved rather than trusted.

use vstd::prelude::*;

verus! {

/// The retain-count ledger: one count per object, indexed by object id.
/// A count of zero means the object has been destroyed.
#[derive(Clone, Debug)]
pub struct RetainTable {
    counts: Vec<u64>,
}

/// The ledger after the count of object `id` is raised by one.
pub open spec fn spec_retain(counts: Seq<u64>, id: int) -> Seq<u64> {
    counts.update(id, (counts[id] + 1) as u64)
}

/// The ledger after the count of object `id` is lowered by one.
pub open spec fn spec_release(counts: Seq<u64>, id: int) -> Seq<u64> {
    counts.update(id, (counts[id] - 1) as u64)
}

impl RetainTable {
    /// The counts this ledger holds, by object id.
    pub closed spec fn counts(&self) -> Seq<u64> {
        self.counts@
    }

    pub open spec fn spec_is_live(&self, id: usize) -> bool {
        id < self.counts().len() && self.counts()[id as int] > 0
    }

    pub fn new() -> (r: RetainTable)
        ensures
            r.counts() == Seq::<u64>::empty(),
    {
        RetainTable { counts: Vec::new() }
    }

    pub fn len(&self) -> (r: usize)
        ensures
            r == self.counts().len(),
    {
        self.counts.len()
    }

    /// Brings a new object into existence with a retain count of one and
    /// returns its id.
    pub fn allocate(&mut self) -> (id: usize)
        ensures
            final(self).counts() == old(self).counts().push(1u64),
            id == old(self).counts().len(),
            final(self).spec_is_live(id),
    {
        let id = self.counts.len();
        self.counts.push(1);
        id
    }

    #[verifier::when_used_as_spec(spec_is_live)]
    pub fn is_live(&self, id: usize) -> (r: bool)
        ensures
            r == self.spec_is_live(id),
    {
        id < self.counts.len() && self.counts[id] > 0
    }

    pub fn retain_count(&self, id: usize) -> (r: u64)
        requires
            id < self.counts().len(),
        ensures
            r == self.counts()[id as int],
    {
        self.counts[id]
    }

    /// Raises the retain count of a live object by one.
    pub fn retain(&mut self, id: usize)
        requires
            old(self).spec_is_live(id),
            old(self).counts()[id as int] < u64::MAX,
        ensures
            final(self).counts() == spec_retain(old(self).counts(), id as int),
    {
        let c = self.counts[id];
        self.counts.set(id, c + 1);
    }

    /// Lowers the retain count of a live object by one; at zero the object
    /// is destroyed.
    pub fn release(&mut self, id: usize)
        requires
            old(self).spec_is_live(id),
        ensures
            final(self).counts() == spec_release(old(self).counts(), id as int),
    {
        let c = self.counts[id];
        self.counts.set(id, c - 1);
    }
}

/// Owns exactly one retain of one native object. A handle gives its retain
/// back exactly once, by `release`, which consumes it; cloning takes a
/// fresh retain for the new handle and leaves the original untouched.
#[derive(Debug)]
pub struct OwnedHandle {
    id: usize,
}

impl OwnedHandle {
    /// The id of the object this handle owns a retain of.
    pub closed spec fn spec_id(&self) -> usize {
        self.id
    }

    #[verifier::when_used_as_spec(spec_id)]
    pub fn id(&self) -> (r: usize)
        ensures
            r == self.spec_id(),
    {
        self.id
    }

    /// Wraps an object the caller does not own: takes a fresh retain.
    pub fn from_unretained(table: &mut RetainTable, id: usize) -> (h: OwnedHandle)
        requires
            old(table).spec_is_live(id),
            old(table).counts()[id as int] < u64::MAX,
        ensures
            final(table).counts() == spec_retain(old(table).counts(), id as int),
            h.spec_id() == id,
    {
        table.retain(id);
        OwnedHandle { id }
    }

    /// The handle for object `id`, as a specification value.
    pub closed spec fn spec_new(id: usize) -> OwnedHandle {
        OwnedHandle { id }
    }

    /// Wraps an object whose retain the caller already holds and hands
    /// over: the count is left as it is.
    pub fn from_retained(id: usize) -> (h: OwnedHandle)
        ensures
            h == OwnedHandle::spec_new(id),
            h.spec_id() == id,
    {
        OwnedHandle { id }
    }

    /// Clones the handle: the clone owns a retain of its own.
    pub fn clone_handle(&self, table: &mut RetainTable) -> (h: OwnedHandle)
        requires
            old(table).spec_is_live(self.spec_id()),
            old(table).counts()[self.spec_id() as int] < u64::MAX,
        ensures
            final(table).counts() == spec_retain(old(table).counts(), self.spec_id() as int),
            h.spec_id() == self.spec_id(),
    {
        table.retain(self.id);
        OwnedHandle { id: self.id }
    }

    /// Consumes the handle, giving its one retain back.
    pub fn release(self, table: &mut RetainTable)
        requires
            old(table).spec_is_live(self.spec_id()),
        ensures
            final(table).counts() == spec_release(old(table).counts(), self.spec_id() as int),
    {
        table.release(self.id);
    }
}

/// Retain and release balance: cloning a handle and releasing the clone
/// leaves every retain count exactly where it stood before the clone.
pub proof fn lemma_clone_release_balance(counts: Seq<u64>, id: int)
    requires
        0 <= id < counts.len(),
        counts[id] < u64::MAX,
    ensures
        spec_release(spec_retain(counts, id), id) == counts,
{
    assert(spec_release(spec_retain(counts, id), id) =~= counts);
}

/// Releasing a handle and its clone is one net release: the object keeps
/// the retains it had from elsewhere, less the one the original handle
/// owned.
pub proof fn lemma_clone_release_both(counts: Seq<u64>, id: int)
    requires
        0 <= id < counts.len(),
        counts[id] < u64::MAX,
    ensures
        spec_release(spec_release(spec_retain(counts, id), id), id) == spec_release(counts, id),
{
    assert(spec_release(spec_release(spec_retain(counts, id), id), id) =~= spec_release(
        counts,
        id,
    ));
}

} // verus!

//! The reference-counting ownership discipline for native resources.
//!
//! A native resource is born with one reference held on its behalf; sharing
//! a handle increments the count, dropping one decrements it, and the
//! resource is released exactly when the count reaches zero. The ledger
//! mirrors the native side's counts; handles are affine values, so a dropped
//! handle cannot be used again.

use vstd::prelude::*;

verus! {

/// One operation on a reference-counted handle.
#[derive(Clone, Copy, Debug, PartialEq, Eq, Structural)]
pub enum HandleOp {
    /// Share the handle: increment the count, yield a new handle value.
    Share,
    /// Drop one handle: decrement the count.
    Drop,
}

/// The reference count after a fresh resource (count one) has seen `ops`.
pub open spec fn count_after(ops: Seq<HandleOp>) -> int
    decreases ops.len(),
{
    if ops.len() == 0 {
        1
    } else {
        count_after(ops.drop_last()) + (if ops.last() == HandleOp::Share {
            1int
        } else {
            -1int
        })
    }
}

/// A sequence of operations is valid when every operation finds the
/// resource still alive: the count before each step is positive.
pub open spec fn valid_op_sequence(ops: Seq<HandleOp>) -> bool {
    forall|i: int| 0 <= i < ops.len() ==> count_after(#[trigger] ops.take(i)) > 0
}

/// How many times the underlying resource is released along `ops`: once for
/// every step whose count reaches zero.
pub open spec fn release_events(ops: Seq<HandleOp>) -> int
    decreases ops.len(),
{
    if ops.len() == 0 {
        0
    } else {
        release_events(ops.drop_last()) + (if count_after(ops) == 0 {
            1int
        } else {
            0int
        })
    }
}

/// Reference counting invariant: along any valid sequence of share/drop
/// operations on a fresh handle, the underlying resource is released at most
/// once; it is released exactly once precisely when the count has reached
/// zero, which can only happen at the final operation — never before.
pub proof fn lemma_release_exactly_once(ops: Seq<HandleOp>)
    requires
        valid_op_sequence(ops),
    ensures
        0 <= release_events(ops) <= 1,
        release_events(ops) == 1 <==> count_after(ops) == 0,
    decreases ops.len(),
{
    if ops.len() > 0 {
        let prefix = ops.drop_last();
        assert(prefix =~= ops.take(ops.len() - 1));
        assert forall|i: int| 0 <= i < prefix.len() implies count_after(
            #[trigger] prefix.take(i),
        ) > 0 by {
            assert(prefix.take(i) =~= ops.take(i));
        }
        lemma_release_exactly_once(prefix);
        assert(count_after(prefix) > 0);
        assert(release_events(prefix) == 0);
    }
}

/// A handle to one reference-counted native resource. Affine: consumed by
/// the drop that releases it, so no use after the final drop can be written.
#[derive(Debug)]
pub struct NativeResourceHandle {
    id: usize,
}

impl NativeResourceHandle {
    /// Which ledger entry this handle refers to.
    pub closed spec fn spec_id(&self) -> int {
        self.id as int
    }

    pub fn id(&self) -> (r: usize)
        ensures
            r == self.spec_id(),
    {
        self.id
    }
}

/// The mirror of the native side's reference counts, indexed by resource.
/// An entry of zero means the resource has been released.
pub struct ResourceLedger {
    counts: Vec<u64>,
}

impl View for ResourceLedger {
    type V = Seq<u64>;

    /// The reference count of each resource the ledger has ever tracked.
    closed spec fn view(&self) -> Seq<u64> {
        self.counts@
    }
}

impl ResourceLedger {
    /// How many resources the ledger has ever tracked.
    pub open spec fn spec_len(&self) -> int {
        self@.len() as int
    }

    /// The current reference count of resource `id`.
    pub open spec fn spec_count(&self, id: int) -> int {
        self@[id] as int
    }

    /// Whether `h` is a live handle in this ledger.
    pub open spec fn holds(&self, h: &NativeResourceHandle) -> bool {
        0 <= h.spec_id() < self.spec_len() && self.spec_count(h.spec_id()) > 0
    }

    pub fn new() -> (r: ResourceLedger)
        ensures
            r.spec_len() == 0,
    {
        ResourceLedger { counts: Vec::new() }
    }

    /// Acquires a fresh resource: its count starts at one.
    pub fn create(&mut self) -> (h: NativeResourceHandle)
        ensures
            final(self)@ == old(self)@.push(1u64),
            final(self).spec_len() == old(self).spec_len() + 1,
            h.spec_id() == old(self).spec_len(),
            final(self).spec_count(h.spec_id()) == 1,
            final(self).holds(&h),
    {
        let id = self.counts.len();
        self.counts.push(1);
        NativeResourceHandle { id }
    }

    /// Shares a live handle: the count rises by one and a second handle to
    /// the same resource is returned.
    pub fn share(&mut self, h: &NativeResourceHandle) -> (h2: NativeResourceHandle)
        requires
            old(self).holds(h),
            old(self).spec_count(h.spec_id()) < u64::MAX,
        ensures
            h2.spec_id() == h.spec_id(),
            final(self)@ == old(self)@.update(
                h.spec_id(),
                (old(self)@[h.spec_id()] + 1) as u64,
            ),
            final(self).spec_len() == old(self).spec_len(),
            final(self).spec_count(h.spec_id()) == old(self).spec_count(h.spec_id()) + 1,
    {
        let id = h.id();
        let c = self.counts[id];
        self.counts.set(id, c + 1);
        NativeResourceHandle { id }
    }

    /// Drops a live handle: the count falls by one, and the resource is
    /// released exactly when it reaches zero. The handle is consumed, so a
    /// repeated drop of the same handle cannot be written.
    pub fn release(&mut self, h: NativeResourceHandle) -> (freed: bool)
        requires
            old(self).holds(&h),
        ensures
            final(self)@ == old(self)@.update(
                h.spec_id(),
                (old(self)@[h.spec_id()] - 1) as u64,
            ),
            final(self).spec_len() == old(self).spec_len(),
            final(self).spec_count(h.spec_id()) == old(self).spec_count(h.spec_id()) - 1,
            freed <==> final(self).spec_count(h.spec_id()) == 0,
    {
        let id = h.id();
        let c = self.counts[id];
        self.counts.set(id, c - 1);
        c == 1
    }

    /// The number of resources among the first `k` whose count is still
    /// positive.
    pub open spec fn spec_live_below(&self, k: int) -> int
        decreases k,
    {
        if k <= 0 {
            0
        } else {
            self.spec_live_below(k - 1) + (if self.spec_count(k - 1) > 0 {
                1int
            } else {
                0int
            })
        }
    }

    /// The number of resources whose count is still positive.
    pub fn live_count(&self) -> (r: usize)
        ensures
            r == self.spec_live_below(self.spec_len()),
    {
        let mut n: usize = 0;
        let mut i: usize = 0;
        while i < self.counts.len()
            invariant
                i <= self.counts@.len(),
                n == self.spec_live_below(i as int),
                n <= i,
            decreases self.counts@.len() - i,
        {
            if self.counts[i] > 0 {
                n = n + 1;
            }
            i = i + 1;
        }
        n
    }
}

} // verus!

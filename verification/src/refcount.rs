//! The reference-count discipline behind device handles.
//!
//! Several handles may stand for the same native object at once; the
//! object stays alive as long as any of them does, and goes away exactly
//! when the last one is released.  The ledger mirrors the native
//! reference counts of the objects a context has handed out: every
//! acquisition path of a handle adds one reference, destruction releases
//! exactly one, and — the central lifetime invariant — once every
//! acquisition has been matched by a release, in whatever order, each
//! count stands exactly where it started, so nothing dangles and nothing
//! leaks.

use vstd::prelude::*;

verus! {

/// One reference-count movement on the object with the given slot.
pub enum RefOp {
    Acquire(usize),
    Release(usize),
}

/// The counts after applying one movement; a movement on a slot outside
/// the ledger changes nothing.
pub open spec fn apply_op(counts: Seq<int>, op: RefOp) -> Seq<int> {
    match op {
        RefOp::Acquire(id) => {
            if id < counts.len() {
                counts.update(id as int, counts[id as int] + 1)
            } else {
                counts
            }
        },
        RefOp::Release(id) => {
            if id < counts.len() {
                counts.update(id as int, counts[id as int] - 1)
            } else {
                counts
            }
        },
    }
}

/// The counts after applying a sequence of movements in order.
pub open spec fn apply_ops(counts: Seq<int>, ops: Seq<RefOp>) -> Seq<int>
    decreases ops.len(),
{
    if ops.len() == 0 {
        counts
    } else {
        apply_ops(apply_op(counts, ops[0]), ops.drop_first())
    }
}

/// The net movement a sequence of operations makes on one slot.
pub open spec fn net(ops: Seq<RefOp>, id: int) -> int
    decreases ops.len(),
{
    if ops.len() == 0 {
        0
    } else {
        (match ops[0] {
            RefOp::Acquire(i) => {
                if i == id {
                    1int
                } else {
                    0int
                }
            },
            RefOp::Release(i) => {
                if i == id {
                    -1int
                } else {
                    0int
                }
            },
        }) + net(ops.drop_first(), id)
    }
}

/// Every acquisition in `ops` is matched by a release of the same slot
/// and vice versa: the movements cancel out slot by slot.
pub open spec fn balanced(ops: Seq<RefOp>, n_slots: int) -> bool {
    forall|id: int| 0 <= id < n_slots ==> net(ops, id) == 0
}

/// Applying movements leaves the ledger's size unchanged.
pub proof fn lemma_apply_ops_len(counts: Seq<int>, ops: Seq<RefOp>)
    ensures
        apply_ops(counts, ops).len() == counts.len(),
    decreases ops.len(),
{
    if ops.len() > 0 {
        lemma_apply_ops_len(apply_op(counts, ops[0]), ops.drop_first());
    }
}

/// Each count moves by exactly the net movement of the operations on its
/// slot — so the order of the operations is irrelevant to the outcome.
pub proof fn lemma_apply_ops_net(counts: Seq<int>, ops: Seq<RefOp>, id: int)
    requires
        0 <= id < counts.len(),
    ensures
        apply_ops(counts, ops)[id] == counts[id] + net(ops, id),
    decreases ops.len(),
{
    if ops.len() > 0 {
        let next = apply_op(counts, ops[0]);
        assert(next.len() == counts.len());
        lemma_apply_ops_net(next, ops.drop_first(), id);
    }
}

/// Constructing any number of handles to the same objects and dropping
/// them all, in whatever order, returns every native reference count to
/// its baseline: nothing dangles and nothing leaks.
pub proof fn lemma_balanced_ops_restore_baseline(counts: Seq<int>, ops: Seq<RefOp>)
    requires
        balanced(ops, counts.len() as int),
    ensures
        apply_ops(counts, ops) == counts,
    decreases ops.len(),
{
    lemma_apply_ops_len(counts, ops);
    assert forall|id: int| 0 <= id < counts.len() implies apply_ops(counts, ops)[id]
        == counts[id] by {
        lemma_apply_ops_net(counts, ops, id);
    };
    assert(apply_ops(counts, ops) =~= counts);
}

/// The executable ledger: one count per native object a context has
/// handed handles out for.  The native boundary drives it — one
/// acquisition per handle construction, one release per handle
/// destruction.
pub struct RefLedger {
    counts: Vec<u64>,
}

impl RefLedger {
    /// The tracked counts.
    pub closed spec fn view(self) -> Seq<int> {
        self.counts@.map(|i: int, c: u64| c as int)
    }

    /// An empty ledger.
    pub fn new() -> (r: RefLedger)
        ensures
            r@ == Seq::<int>::empty(),
    {
        let r = RefLedger { counts: Vec::new() };
        proof {
            assert(r@ =~= Seq::<int>::empty());
        }
        r
    }

    /// Starts tracking one object at its current native count, returning
    /// its slot.
    pub fn track(&mut self, baseline: u64) -> (r: usize)
        ensures
            final(self)@ == old(self)@.push(baseline as int),
            r == old(self)@.len(),
    {
        let id = self.counts.len();
        self.counts.push(baseline);
        proof {
            assert(self@ =~= old(self)@.push(baseline as int));
        }
        id
    }

    /// The count currently on a slot.
    pub fn count(&self, id: usize) -> (r: u64)
        requires
            id < self@.len(),
        ensures
            r == self@[id as int],
    {
        self.counts[id]
    }

    /// Records that one more handle holds the object: a lookup, a parent
    /// traversal, or an explicitly added reference.
    pub fn acquire(&mut self, id: usize)
        requires
            id < old(self)@.len(),
            old(self)@[id as int] < u64::MAX,
        ensures
            final(self)@ == apply_op(old(self)@, RefOp::Acquire(id)),
    {
        let c = self.counts[id];
        self.counts.set(id, c + 1);
        proof {
            assert(self@ =~= apply_op(old(self)@, RefOp::Acquire(id)));
        }
    }

    /// Records that one handle released the object.
    pub fn release(&mut self, id: usize)
        requires
            id < old(self)@.len(),
            old(self)@[id as int] > 0,
        ensures
            final(self)@ == apply_op(old(self)@, RefOp::Release(id)),
    {
        let c = self.counts[id];
        self.counts.set(id, c - 1);
        proof {
            assert(self@ =~= apply_op(old(self)@, RefOp::Release(id)));
        }
    }
}

} // verus!

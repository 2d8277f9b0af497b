//! Process-wide unique identifiers for tensor values.
//!
//! A [`TensorId`] distinguishes one construction event of a tensor from every
//! other one in the process, even when the constructed values are structurally
//! equal. Identifiers are minted only by [`IdentityAllocator::allocate`]; they
//! are freely copyable, and copying never mints. The allocator is a single
//! counter together with a ghost record of every identifier it has handed out,
//! which lets the contracts state — and the lemmas below prove — that no
//! identifier is ever returned twice.

use vstd::prelude::*;

verus! {

/// An opaque identifier wrapping an unsigned integer.
///
/// Two identifiers are equal exactly when their payloads are equal; no other
/// state participates in equality. The payload carries no meaning beyond
/// equality and inequality.
#[derive(Clone, Copy, Debug, PartialEq, Eq, Hash, Structural)]
pub struct TensorId(usize);

impl TensorId {
    /// The integral payload, visible to specifications only.
    pub closed spec fn id(self) -> usize {
        self.0
    }

    /// Mints a fresh identifier: one the given allocator has never returned
    /// before. Each tensor calls this exactly once, at construction.
    pub fn new(allocator: &mut IdentityAllocator) -> (r: TensorId)
        requires
            old(allocator).wf(),
            old(allocator).can_allocate(),
        ensures
            final(allocator).wf(),
            allocate_step(*old(allocator), *final(allocator), r),
            !old(allocator).minted_ids().contains(r.id()),
    {
        allocator.allocate()
    }
}

/// The allocator: one counter, mutated only by [`IdentityAllocator::allocate`],
/// plus a ghost set recording every identifier handed out so far.
pub struct IdentityAllocator {
    next: usize,
    minted: Ghost<Set<usize>>,
}

impl IdentityAllocator {
    /// The counter value: the payload the next allocation will return.
    pub closed spec fn next_id(self) -> usize {
        self.next
    }

    /// Every payload this allocator has returned so far.
    pub closed spec fn minted_ids(self) -> Set<usize> {
        self.minted@
    }

    /// Well-formedness: every identifier handed out so far lies strictly below
    /// the counter, so the counter's next value is fresh.
    pub open spec fn wf(self) -> bool {
        forall|i: usize| self.minted_ids().contains(i) ==> i < self.next_id()
    }

    /// The counter has headroom. Exhaustion of the payload range is a
    /// non-goal: the range is wide enough that no realistic process reaches
    /// its end, and wraparound is deliberately left outside the contracts.
    pub open spec fn can_allocate(self) -> bool {
        self.next_id() < usize::MAX
    }

    /// A fresh allocator that has handed out nothing yet.
    pub fn new() -> (r: IdentityAllocator)
        ensures
            r.wf(),
            r.next_id() == 1,
            r.minted_ids() == Set::<usize>::empty(),
    {
        IdentityAllocator { next: 1, minted: Ghost(Set::empty()) }
    }

    /// Returns the current counter value as an identifier and advances the
    /// counter, so the same payload is never returned twice.
    pub fn allocate(&mut self) -> (r: TensorId)
        requires
            old(self).wf(),
            old(self).can_allocate(),
        ensures
            final(self).wf(),
            allocate_step(*old(self), *final(self), r),
            !old(self).minted_ids().contains(r.id()),
    {
        let id: usize = self.next;
        self.next = self.next + 1;
        self.minted = Ghost(self.minted@.insert(id));
        proof {
            assert(self.minted@ == old(self).minted_ids().insert(id));
            assert forall|i: usize| self.minted@.contains(i) implies i < self.next by {
                assert(old(self).minted_ids().insert(id).contains(i));
                if i != id {
                    assert(old(self).minted_ids().contains(i));
                }
            }
        }
        TensorId(id)
    }

    /// Whether the counter still has headroom; until it is exhausted,
    /// allocation cannot fail.
    pub fn has_capacity(&self) -> (r: bool)
        ensures
            r == self.can_allocate(),
    {
        self.next < usize::MAX
    }
}

/// How one call to [`IdentityAllocator::allocate`] relates the allocator state
/// before the call, the state after it, and the returned identifier.
pub open spec fn allocate_step(pre: IdentityAllocator, post: IdentityAllocator, r: TensorId) -> bool {
    &&& r.id() == pre.next_id()
    &&& post.next_id() == pre.next_id() + 1
    &&& post.minted_ids() == pre.minted_ids().insert(r.id())
}

/// A run of allocations: `states` holds the allocator state before and after
/// each call, and `results[k]` is what the call from `states[k]` returned.
pub open spec fn allocate_trace(states: Seq<IdentityAllocator>, results: Seq<TensorId>) -> bool {
    &&& states.len() == results.len() + 1
    &&& forall|k: int|
        0 <= k < results.len() ==> allocate_step(states[k], states[k + 1], results[k])
}

/// Law (equality and copy semantics): two identifiers compare equal exactly
/// when their payloads compare equal. A copy of an identifier therefore equals
/// the original, and nothing but the payload participates in equality.
pub proof fn lemma_eq_iff_same_payload(a: TensorId, b: TensorId)
    ensures
        a == b <==> a.id() == b.id(),
{
}

/// Along a run of allocations the counter strictly increases.
proof fn lemma_trace_next_increases(
    states: Seq<IdentityAllocator>,
    results: Seq<TensorId>,
    i: int,
    j: int,
)
    requires
        allocate_trace(states, results),
        0 <= i < j <= results.len(),
    ensures
        states[i].next_id() < states[j].next_id(),
    decreases j - i,
{
    assert(allocate_step(states[i], states[i + 1], results[i]));
    if i + 1 < j {
        lemma_trace_next_increases(states, results, i + 1, j);
    }
}

/// Law (uniqueness): in any run of allocations, the identifiers returned at
/// two distinct positions are distinct — no interleaving of callers, once
/// serialized into a run, ever yields a duplicate.
pub proof fn lemma_trace_results_distinct(
    states: Seq<IdentityAllocator>,
    results: Seq<TensorId>,
    i: int,
    j: int,
)
    requires
        allocate_trace(states, results),
        0 <= i < j < results.len(),
    ensures
        results[i].id() != results[j].id(),
        results[i] != results[j],
{
    assert(allocate_step(states[i], states[i + 1], results[i]));
    assert(allocate_step(states[j], states[j + 1], results[j]));
    lemma_trace_next_increases(states, results, i, j);
}

/// Along a run of allocations, well-formedness is preserved.
proof fn lemma_trace_wf(states: Seq<IdentityAllocator>, results: Seq<TensorId>, k: int)
    requires
        allocate_trace(states, results),
        states[0].wf(),
        0 <= k <= results.len(),
    ensures
        states[k].wf(),
    decreases k,
{
    if k > 0 {
        lemma_trace_wf(states, results, k - 1);
        assert(allocate_step(states[k - 1], states[k], results[k - 1]));
    }
}

/// Along a run of allocations, an identifier once minted stays minted.
proof fn lemma_trace_minted_monotonic(
    states: Seq<IdentityAllocator>,
    results: Seq<TensorId>,
    id: usize,
    k: int,
)
    requires
        allocate_trace(states, results),
        states[0].minted_ids().contains(id),
        0 <= k <= results.len(),
    ensures
        states[k].minted_ids().contains(id),
    decreases k,
{
    if k > 0 {
        lemma_trace_minted_monotonic(states, results, id, k - 1);
        assert(allocate_step(states[k - 1], states[k], results[k - 1]));
    }
}

/// Law (non-reuse): an identifier the allocator has already handed out is
/// never returned by any later allocation, however many allocations intervene.
pub proof fn lemma_minted_never_reallocated(
    states: Seq<IdentityAllocator>,
    results: Seq<TensorId>,
    id: usize,
    j: int,
)
    requires
        allocate_trace(states, results),
        states[0].wf(),
        states[0].minted_ids().contains(id),
        0 <= j < results.len(),
    ensures
        results[j].id() != id,
{
    lemma_trace_wf(states, results, j);
    lemma_trace_minted_monotonic(states, results, id, j);
    assert(allocate_step(states[j], states[j + 1], results[j]));
}

} // verus!

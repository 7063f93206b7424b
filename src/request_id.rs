use vstd::prelude::*;

verus! {

/// Hands out the ids that correlate requests with responses: 0, 1, 2, ...
/// Callers that share one allocator serialize on it (a lock, or one owner).
pub struct RequestIdAllocator {
    issued: u64,
}

/// `id` is what `next` hands out when it moves `before` to `after`.
pub open spec fn issues(before: RequestIdAllocator, after: RequestIdAllocator, id: u64) -> bool {
    &&& id as nat == before.issued()
    &&& after.issued() == before.issued() + 1
}

impl RequestIdAllocator {
    /// How many ids have been handed out so far.
    pub closed spec fn issued(&self) -> nat {
        self.issued as nat
    }

    /// Whether `id` has already been handed out by this allocator.
    pub open spec fn has_issued(&self, id: u64) -> bool {
        (id as nat) < self.issued()
    }

    pub fn new() -> (r: Self)
        ensures
            r.issued() == 0,
    {
        RequestIdAllocator { issued: 0 }
    }

    /// The next id, one above the previous; `None` once the id space is spent.
    pub fn next(&mut self) -> (r: Option<u64>)
        ensures
            old(self).issued() < u64::MAX ==> (r matches Some(id) && issues(*old(self), *final(self), id)),
            r matches Some(id) ==> !old(self).has_issued(id) && final(self).has_issued(id),
            r matches Some(id) ==> forall|earlier: u64| #[trigger] old(self).has_issued(earlier) ==> earlier < id,
            old(self).issued() >= u64::MAX ==> r is None && final(self).issued() == old(self).issued(),
    {
        if self.issued == u64::MAX {
            None
        } else {
            let id = self.issued;
            self.issued = self.issued + 1;
            Some(id)
        }
    }
}

/// Along any run of `next` on one allocator, the ids handed out strictly
/// increase, so none repeats.
pub proof fn lemma_ids_strictly_increase(states: Seq<RequestIdAllocator>, ids: Seq<u64>)
    requires
        states.len() == ids.len() + 1,
        forall|i: int| 0 <= i < ids.len() ==> issues(#[trigger] states[i], states[i + 1], ids[i]),
    ensures
        forall|i: int, j: int| 0 <= i < j < ids.len() ==> ids[i] < ids[j],
{
    assert forall|k: int| 0 <= k < ids.len() implies (#[trigger] ids[k]) as nat == states[0].issued() + k by {
        lemma_issued_after(states, ids, k);
    }
    assert forall|i: int, j: int| 0 <= i < j < ids.len() implies ids[i] < ids[j] by {
        assert(ids[i] as nat == states[0].issued() + i);
        assert(ids[j] as nat == states[0].issued() + j);
    }
}

proof fn lemma_issued_after(states: Seq<RequestIdAllocator>, ids: Seq<u64>, k: int)
    requires
        states.len() == ids.len() + 1,
        forall|i: int| 0 <= i < ids.len() ==> issues(#[trigger] states[i], states[i + 1], ids[i]),
        0 <= k < ids.len(),
    ensures
        ids[k] as nat == states[0].issued() + k,
        states[k].issued() == states[0].issued() + k,
    decreases k,
{
    assert(issues(states[k], states[k + 1], ids[k]));
    if k > 0 {
        lemma_issued_after(states, ids, k - 1);
        assert(issues(states[k - 1], states[k], ids[k - 1]));
    }
}

} // verus!

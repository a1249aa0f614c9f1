use vstd::prelude::*;

use crate::types::ErrorCode;

verus! {

/// The shared counter that assigns each new game its identifier.
#[derive(Clone, Copy, Debug)]
pub struct GameCounter {
    pub count: u64,
}

/// One successful issue: the counter moves from `before` to `after` and hands
/// out `id`.
pub open spec fn issue_step(before: u64, after: u64, id: u64) -> bool {
    &&& before < u64::MAX
    &&& after == before + 1
    &&& id == after
}

impl GameCounter {
    /// A counter that has issued nothing.
    pub fn new() -> (r: GameCounter)
        ensures
            r.count == 0,
    {
        GameCounter { count: 0 }
    }

    /// Issues the next identifier: one above the last one issued. Fails with
    /// `CounterOverflow`, leaving the counter as it was, once `u64::MAX` has
    /// been issued.
    pub fn next_id(&mut self) -> (r: Result<u64, ErrorCode>)
        ensures
            old(self).count < u64::MAX ==> r is Ok && issue_step(old(self).count, final(self).count, r->Ok_0),
            old(self).count == u64::MAX ==> r == Err::<u64, ErrorCode>(ErrorCode::CounterOverflow)
                && final(self).count == old(self).count,
    {
        match self.count.checked_add(1) {
            Some(next) => {
                self.count = next;
                Ok(next)
            },
            None => Err(ErrorCode::CounterOverflow),
        }
    }
}

/// Successive issues, by `next_id` or by the Opens that it numbers, hand out
/// `start + 1, start + 2, ...`: distinct, strictly increasing, with no gaps. `counts[i]` is the counter before the
/// i-th issue and `ids[i]` the identifier it handed out.
pub proof fn lemma_issued_ids_consecutive(counts: Seq<u64>, ids: Seq<u64>)
    requires
        counts.len() == ids.len() + 1,
        forall|i: int| 0 <= i < ids.len() ==> issue_step(#[trigger] counts[i], counts[i + 1], ids[i]),
    ensures
        forall|i: int| 0 <= i < ids.len() ==> #[trigger] ids[i] == counts[0] + i + 1,
        forall|i: int, j: int| 0 <= i < j < ids.len() ==> ids[i] < ids[j],
    decreases ids.len(),
{
    if ids.len() > 0 {
        let n = ids.len() - 1;
        lemma_issued_ids_consecutive(counts.subrange(0, n + 1), ids.subrange(0, n));
        assert(issue_step(counts[n], counts[n + 1], ids[n]));
        assert forall|i: int| 0 <= i < n implies ids[i] == counts[0] + i + 1 by {
            assert(ids.subrange(0, n)[i] == ids[i]);
        }
        if n > 0 {
            assert(ids.subrange(0, n)[n - 1] == ids[n - 1]);
            assert(issue_step(counts[n - 1], counts[n], ids[n - 1]));
        }
    }
}

} // verus!

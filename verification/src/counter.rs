//! The source of remote-join placeholder identifiers: a single integer
//! counter, shared by exclusive reference across one whole compilation and
//! never reset mid-compilation, so every identifier it issues is fresh.

use vstd::prelude::*;

verus! {

/// A monotonically increasing source of join identifiers.
///
/// One counter is created per top-level query compilation and threaded by
/// exclusive reference through every recursive planning call, so nested
/// levels draw from the same identifier space.
pub struct MonotonicCounter {
    id: u64,
}

impl MonotonicCounter {
    /// The current value of the counter (the last identifier issued, or 0 if
    /// none was issued yet).
    pub closed spec fn spec_id(&self) -> u64 {
        self.id
    }

    /// A fresh counter, starting below every identifier it will ever issue.
    pub fn new() -> (r: MonotonicCounter)
        ensures
            r.spec_id() == 0,
    {
        MonotonicCounter { id: 0 }
    }

    /// Issue the next identifier: strictly greater than every identifier
    /// issued before by this counter.
    pub fn get_next(&mut self) -> (r: u64)
        requires
            old(self).spec_id() < u64::MAX,
        ensures
            issued(*old(self), *final(self), r),
    {
        self.id = self.id + 1;
        self.id
    }
}

/// `id` was issued by one `get_next` step that took the counter from state
/// `pre` to state `post`.
pub open spec fn issued(pre: MonotonicCounter, post: MonotonicCounter, id: u64) -> bool {
    post.spec_id() == pre.spec_id() + 1 && id == post.spec_id()
}

/// Join identifiers issued during one compilation are strictly increasing and
/// never repeat, across arbitrarily deep nesting: if `id1` was issued first,
/// and the counter then only moved forward (every operation on it does), the
/// later `id2` is strictly greater.
pub proof fn lemma_join_ids_strictly_increase(
    a: MonotonicCounter,
    b: MonotonicCounter,
    c: MonotonicCounter,
    d: MonotonicCounter,
    id1: u64,
    id2: u64,
)
    requires
        issued(a, b, id1),
        b.spec_id() <= c.spec_id(),
        issued(c, d, id2),
    ensures
        id2 > id1,
{
}

} // verus!

//! A bounded counting sequence: 1, 2, 3, 4, 5, then exhausted for good.
use vstd::prelude::*;

verus! {

/// The last value the sequence produces.
pub const LIMIT: u32 = 5;

/// A counter that hands out the next value on each request until it reaches
/// its limit.
pub struct Counter {
    count: u32,
}

impl View for Counter {
    type V = nat;

    /// How many values have been produced so far.
    closed spec fn view(&self) -> nat {
        self.count as nat
    }
}

/// What the `n`-th call of `next` on a fresh counter yields (counting from
/// one): `n` while it is at most the limit, nothing afterwards.
pub open spec fn nth_output(n: nat) -> Option<u32> {
    if 1 <= n <= LIMIT {
        Some(n as u32)
    } else {
        None
    }
}

/// How many values have been produced after one more call of `next`.
pub open spec fn next_count(n: nat) -> nat {
    if n < LIMIT {
        n + 1
    } else {
        n
    }
}

impl Counter {
    /// The count never passes the limit.
    pub closed spec fn wf(&self) -> bool {
        self.count <= LIMIT
    }

    /// A fresh sequence: nothing produced yet.
    pub fn new() -> (r: Counter)
        ensures
            r.wf(),
            r@ == 0,
    {
        Counter { count: 0 }
    }

    /// Produces the next value, or `None` once the limit has been reached.
    pub fn next(&mut self) -> (r: Option<u32>)
        requires
            old(self).wf(),
        ensures
            final(self).wf(),
            final(self)@ == next_count(old(self)@),
            r == nth_output(old(self)@ + 1),
    {
        if self.count < LIMIT {
            self.count = self.count + 1;
            Some(self.count)
        } else {
            None
        }
    }
}

/// A run of calls of `next` from a fresh counter (`counts[i]` values
/// produced before call `i`, which yields `results[i]`) yields 1, 2, ... up to
/// the limit, then nothing, for good.
pub proof fn lemma_run_from_fresh(counts: Seq<nat>, results: Seq<Option<u32>>)
    requires
        counts.len() == results.len() + 1,
        counts[0] == 0,
        forall|i: int|
            0 <= i < results.len() ==> counts[i + 1] == next_count(counts[i])
                && #[trigger] results[i] == nth_output(counts[i] + 1),
    ensures
        forall|i: int| 0 <= i < results.len() ==> #[trigger] results[i] == nth_output((i + 1) as nat),
        forall|i: int, j: int|
            0 <= i <= j < results.len() && (#[trigger] results[i]) is None
                ==> (#[trigger] results[j]) is None,
{
    assert forall|i: int| 0 <= i < results.len() implies #[trigger] results[i] == nth_output(
        (i + 1) as nat,
    ) by {
        lemma_count_after(counts, results, i);
    }
}

proof fn lemma_count_after(counts: Seq<nat>, results: Seq<Option<u32>>, i: int)
    requires
        0 <= i < results.len(),
        counts.len() == results.len() + 1,
        counts[0] == 0,
        forall|k: int|
            0 <= k < results.len() ==> counts[k + 1] == next_count(counts[k])
                && #[trigger] results[k] == nth_output(counts[k] + 1),
    ensures
        counts[i] == if i < LIMIT { i } else { LIMIT as int },
        results[i] == nth_output((i + 1) as nat),
    decreases i,
{
    assert(results[i] == nth_output(counts[i] + 1));
    if i > 0 {
        lemma_count_after(counts, results, i - 1);
        assert(results[i - 1] == nth_output(counts[i - 1] + 1));
    }
}

} // verus!

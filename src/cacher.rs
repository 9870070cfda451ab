//! A single-slot memoizing wrapper: the first computed result is kept and
//! handed back for every later request, whatever its argument.
use vstd::prelude::*;

verus! {

/// Holds a one-argument computation and the result of its first call.
pub struct Cacher<T> where T: Fn(u32) -> u32 {
    calculation: T,
    value: Option<u32>,
}

/// What one call of `Cacher::value` does: with `before` cached, the call with
/// `arg` returns `r` and leaves `after` cached.
pub open spec fn value_step<T: Fn(u32) -> u32>(
    calculation: T,
    before: Option<u32>,
    arg: u32,
    r: u32,
    after: Option<u32>,
) -> bool {
    match before {
        Some(v) => r == v && after == before,
        None => calculation.ensures((arg,), r) && after == Some(r),
    }
}

impl<T> Cacher<T> where T: Fn(u32) -> u32 {
    /// The wrapped computation.
    pub closed spec fn calculation(&self) -> T {
        self.calculation
    }

    /// The stored result, if the computation has run.
    pub closed spec fn cached(&self) -> Option<u32> {
        self.value
    }

    /// Wraps `calculation`; nothing is computed yet.
    pub fn new(calculation: T) -> (r: Cacher<T>)
        ensures
            r.calculation() == calculation,
            r.cached() is None,
    {
        Cacher { calculation, value: None }
    }

    /// Returns the stored result if there is one; otherwise runs the
    /// computation on `arg`, stores its result and returns it.
    pub fn value(&mut self, arg: u32) -> (r: u32)
        requires
            old(self).cached() is None ==> old(self).calculation().requires((arg,)),
        ensures
            final(self).calculation() == old(self).calculation(),
            value_step(old(self).calculation(), old(self).cached(), arg, r, final(self).cached()),
    {
        match self.value {
            Some(v) => v,
            None => {
                let v = (self.calculation)(arg);
                self.value = Some(v);
                v
            },
        }
    }
}

/// From a fresh wrapper, every call of a run returns what the first call
/// returned, and that is a result of the computation on the first argument.
pub proof fn lemma_first_call_wins<T: Fn(u32) -> u32>(
    calculation: T,
    args: Seq<u32>,
    results: Seq<u32>,
    states: Seq<Option<u32>>,
)
    requires
        args.len() > 0,
        results.len() == args.len(),
        states.len() == args.len() + 1,
        states[0] is None,
        forall|i: int|
            0 <= i < args.len() ==> #[trigger] value_step(
                calculation,
                states[i],
                args[i],
                results[i],
                states[i + 1],
            ),
    ensures
        calculation.ensures((args[0],), results[0]),
        forall|i: int| 0 <= i < args.len() ==> #[trigger] results[i] == results[0],
{
    assert(value_step(calculation, states[0], args[0], results[0], states[0int + 1]));
    assert forall|i: int| 0 <= i < args.len() implies #[trigger] results[i] == results[0] by {
        lemma_cached_after(calculation, args, results, states, i);
    }
}

proof fn lemma_cached_after<T: Fn(u32) -> u32>(
    calculation: T,
    args: Seq<u32>,
    results: Seq<u32>,
    states: Seq<Option<u32>>,
    i: int,
)
    requires
        0 <= i < args.len(),
        results.len() == args.len(),
        states.len() == args.len() + 1,
        states[0] is None,
        forall|j: int|
            0 <= j < args.len() ==> #[trigger] value_step(
                calculation,
                states[j],
                args[j],
                results[j],
                states[j + 1],
            ),
    ensures
        results[i] == results[0],
        states[i + 1] == Some(results[0]),
    decreases i,
{
    assert(value_step(calculation, states[i], args[i], results[i], states[i + 1]));
    if i > 0 {
        lemma_cached_after(calculation, args, results, states, i - 1);
    }
}

} // verus!

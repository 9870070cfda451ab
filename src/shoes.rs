//! Picking the shoes of one size out of a collection.
use vstd::prelude::*;

verus! {

/// A shoe: its size and its style.
#[derive(PartialEq, Debug)]
pub struct Shoe {
    pub size: u32,
    pub style: String,
}

/// Whether `s` has size `shoe_size`.
pub open spec fn has_size(shoe_size: u32) -> spec_fn(Shoe) -> bool {
    |s: Shoe| s.size == shoe_size
}

/// The shoes of size `shoe_size`, in the order in which they came.
pub fn shoes_in_my_size(shoes: Vec<Shoe>, shoe_size: u32) -> (r: Vec<Shoe>)
    ensures
        r@ == shoes@.filter(has_size(shoe_size)),
{
    let ghost all = shoes@;
    let mut rest = shoes;
    let mut r: Vec<Shoe> = Vec::new();
    let ghost mut taken: int = 0;
    while rest.len() > 0
        invariant
            0 <= taken <= all.len(),
            rest@ == all.skip(taken),
            r@ == all.take(taken).filter(has_size(shoe_size)),
        decreases rest.len(),
    {
        let s = rest.remove(0);
        proof {
            assert(all.take(taken + 1) == all.take(taken).push(s));
            all.take(taken).lemma_filter_push(s, has_size(shoe_size));
            assert(rest@ == all.skip(taken + 1));
            taken = taken + 1;
        }
        if s.size == shoe_size {
            r.push(s);
        }
    }
    assert(all.take(taken) == all);
    r
}

} // verus!

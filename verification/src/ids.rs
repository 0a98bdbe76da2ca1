//! Identifiers that are handed out one after the other and may be reused once
//! they are free.

use std::collections::BTreeMap;
use vstd::prelude::*;

verus! {

broadcast use vstd::laws_cmp::group_laws_cmp;

/// The identifier `steps` after `start`: they count up and begin again at one.
pub open spec fn id_after(start: u64, steps: int) -> int {
    if start + steps <= u64::MAX {
        start + steps
    } else {
        start + steps - u64::MAX
    }
}

/// Whether `id` is the first identifier from `start` on that is not in use.
pub open spec fn first_free(used: Set<u64>, start: u64, id: u64) -> bool {
    &&& !used.contains(id)
    &&& exists|steps: int|
        {
            &&& 0 <= steps < u64::MAX
            &&& id == #[trigger] id_after(start, steps)
            &&& forall|earlier: int|
                0 <= earlier < steps ==> used.contains(#[trigger] id_after(start, earlier) as u64)
        }
}

/// The identifier after another one.
pub open spec fn spec_next_id(id: u64) -> u64 {
    if id == u64::MAX {
        1
    } else {
        (id + 1) as u64
    }
}

/// The identifier after another one: never zero.
pub fn next_id(id: u64) -> (next: u64)
    ensures
        next == spec_next_id(id),
        next > 0,
{
    if id == u64::MAX {
        1
    } else {
        id + 1
    }
}

/// The first identifier from `start` on that is not in use.
pub fn free_id<V>(used: &BTreeMap<u64, V>, start: u64) -> (id: u64)
    requires
        start > 0,
        used@.dom().len() < u64::MAX,
    ensures
        id > 0,
        first_free(used@.dom(), start, id),
{
    let mut id: u64 = start;
    let ghost mut steps: int = 0;
    let ghost mut passed: Set<u64> = Set::empty();
    proof {
        assert(id == id_after(start, 0));
    }
    while used.contains_key(&id)
        invariant
            start > 0,
            id > 0,
            used@.dom().finite(),
            used@.dom().len() < u64::MAX,
            0 <= steps <= used@.dom().len(),
            id == id_after(start, steps),
            passed.finite(),
            passed.len() == steps,
            passed.subset_of(used@.dom()),
            forall|other: u64| #[trigger]
                passed.contains(other) ==> exists|earlier: int|
                    0 <= earlier < steps && other == #[trigger] id_after(start, earlier),
            forall|earlier: int|
                0 <= earlier < steps ==> used@.dom().contains(#[trigger] id_after(start, earlier) as u64),
        decreases used@.dom().len() - steps,
    {
        proof {
            assert(!passed.contains(id)) by {
                if passed.contains(id) {
                    let earlier = choose|earlier: int|
                        0 <= earlier < steps && id == #[trigger] id_after(start, earlier);
                    assert(id_after(start, earlier) != id_after(start, steps));
                }
            }
            let before = passed;
            passed = passed.insert(id);
            assert(passed.subset_of(used@.dom()));
            vstd::set_lib::lemma_len_subset(passed, used@.dom());
            assert forall|other: u64| #[trigger] passed.contains(other) implies exists|earlier: int|
                0 <= earlier < steps + 1 && other == #[trigger] id_after(start, earlier) by {
                if other == id {
                    assert(other == id_after(start, steps));
                } else {
                    assert(before.contains(other));
                    let earlier = choose|earlier: int|
                        0 <= earlier < steps && other == #[trigger] id_after(start, earlier);
                    assert(other == id_after(start, earlier));
                }
            }
            steps = steps + 1;
        }
        id = next_id(id);
    }
    id
}

} // verus!

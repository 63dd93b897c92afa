//! Code that works for every type that can be compared.

use vstd::prelude::*;
use vstd::std_specs::cmp::{PartialOrdIs, PartialOrdSpec};

verus! {

/// The item that a scan from the left settles on when it keeps what it has
/// unless the next item is greater. For a total order this is the maximum,
/// and among equal maxima the first.
pub open spec fn largest_spec<T: PartialOrd>(list: Seq<T>) -> T
    recommends
        list.len() > 0,
    decreases list.len(),
{
    if list.len() <= 1 {
        list[0]
    } else {
        let best = largest_spec(list.drop_last());
        if list.last().is_gt(&best) {
            list.last()
        } else {
            best
        }
    }
}

/// The largest item of a non-empty list: the one a scan from the left
/// settles on. Where the type's comparison is not specified, the result is
/// still an item of the list.
pub fn largest<T: PartialOrd + Copy>(list: &[T]) -> (best: T)
    requires
        list@.len() > 0,
    ensures
        list@.contains(best),
        T::obeys_partial_cmp_spec() ==> best == largest_spec(list@),
{
    let mut largest = list[0];
    let mut i: usize = 1;
    let ghost mut seen: Seq<T> = seq![list@[0]];
    while i < list.len()
        invariant
            1 <= i <= list@.len(),
            seen.len() == i,
            forall|k: int| 0 <= k < seen.len() ==> seen[k] == list@[k],
            list@.contains(largest),
            T::obeys_partial_cmp_spec() ==> largest == largest_spec(seen),
        decreases list@.len() - i,
    {
        let item = list[i];
        proof {
            assert(seen.push(item).drop_last() == seen);
            seen = seen.push(item);
        }
        if item > largest {
            largest = item;
        }
        i += 1;
    }
    assert(seen == list@);
    largest
}

/// Over the integers the scan finds the maximum: an item of the list that
/// none exceeds.
pub proof fn law_largest_is_maximum(list: Seq<i32>)
    requires
        list.len() > 0,
    ensures
        list.contains(largest_spec(list)),
        forall|k: int| 0 <= k < list.len() ==> list[k] <= largest_spec(list),
    decreases list.len(),
{
    if list.len() <= 1 {
        assert(list[0] == largest_spec(list));
    } else {
        let front = list.drop_last();
        law_largest_is_maximum(front);
        let best = largest_spec(front);
        let at = choose|k: int| 0 <= k < front.len() && front[k] == best;
        assert(list[at] == best);
        assert(list[list.len() - 1] == list.last());
        assert forall|k: int| 0 <= k < list.len() implies list[k] <= largest_spec(list) by {
            if k < front.len() {
                assert(front[k] == list[k]);
            }
        }
    }
}

} // verus!

//! Arrangements: the positions that a draw selects among the items of a
//! list, and what holds of the items that stand there.

use vstd::prelude::*;

verus! {

/// Whether `positions` names `count` different places among `len`.
pub open spec fn distinct_positions(positions: Seq<int>, len: nat, count: nat) -> bool {
    &&& positions.len() == count
    &&& forall|i: int| 0 <= i < positions.len() ==> 0 <= #[trigger] positions[i] < len
    &&& forall|i: int, j: int|
        0 <= i < j < positions.len() ==> #[trigger] positions[i] != #[trigger] positions[j]
}

/// The items of `items` that stand at `positions`, in the order of `positions`.
pub open spec fn picked<A>(items: Seq<A>, positions: Seq<int>) -> Seq<A> {
    Seq::new(positions.len(), |i: int| items[positions[i]])
}

/// Items taken from different positions of a list that holds no item twice
/// are different items.
pub proof fn lemma_distinct_positions_distinct_items<A>(
    items: Seq<A>,
    positions: Seq<int>,
    count: nat,
)
    requires
        items.no_duplicates(),
        distinct_positions(positions, items.len(), count),
    ensures
        picked(items, positions).no_duplicates(),
{
    let taken = picked(items, positions);
    assert forall|i: int, j: int|
        0 <= i < taken.len() && 0 <= j < taken.len() && i != j implies taken[i] != taken[j] by {
        if i < j {
            assert(positions[i] != positions[j]);
        } else {
            assert(positions[j] != positions[i]);
        }
    }
}

/// `order` without its last entry, renumbered for a list from which the
/// item at that entry's position was removed.
spec fn without_last(order: Seq<int>) -> Seq<int> {
    Seq::new(
        (order.len() - 1) as nat,
        |i: int|
            if order[i] < order.last() {
                order[i]
            } else {
                order[i] - 1
            },
    )
}

/// Putting items into an order that names every position once keeps each
/// item as often as it was there.
pub proof fn lemma_rearranged_same_items<A>(items: Seq<A>, order: Seq<int>)
    requires
        distinct_positions(order, items.len(), items.len()),
    ensures
        picked(items, order).to_multiset() == items.to_multiset(),
    decreases items.len(),
{
    let moved = picked(items, order);
    if items.len() == 0 {
        assert(moved =~= items);
    } else {
        let n = items.len() as int;
        let j = order.last();
        assert(order[n - 1] == j);
        let rest = items.remove(j);
        let shorter = without_last(order);
        assert forall|i: int| 0 <= i < shorter.len() implies 0 <= #[trigger] shorter[i]
            < rest.len() by {
            assert(order[i] != order[n - 1]);
        }
        assert forall|a: int, b: int| 0 <= a < b < shorter.len() implies #[trigger] shorter[a]
            != #[trigger] shorter[b] by {
            assert(order[a] != order[b]);
            assert(order[a] != order[n - 1]);
            assert(order[b] != order[n - 1]);
        }
        assert(picked(rest, shorter) =~= moved.drop_last()) by {
            assert forall|i: int| 0 <= i < shorter.len() implies picked(rest, shorter)[i]
                == moved.drop_last()[i] by {
                assert(order[i] != order[n - 1]);
            }
        }
        lemma_rearranged_same_items(rest, shorter);
        vstd::seq_lib::to_multiset_remove(items, j);
        vstd::seq_lib::to_multiset_build(moved.drop_last(), moved.last());
        assert(moved =~= moved.drop_last().push(moved.last()));
        vstd::seq_lib::to_multiset_contains(items, items[j]);
        assert(items.contains(items[j]));
        assert(moved.to_multiset() =~= items.to_multiset()) by {
            broadcast use vstd::multiset::group_multiset_axioms;

        }
    }
}

} // verus!

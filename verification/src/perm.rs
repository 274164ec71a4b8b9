//! Rearrangements: two runs of items are rearrangements of one another when
//! each item occurs as often in the one as in the other.

use vstd::prelude::*;
use vstd::seq_lib::{
    to_multiset_build, to_multiset_contains, to_multiset_insert, to_multiset_len,
    to_multiset_remove, to_multiset_update,
};

verus! {

/// Whether `a` and `b` hold the same items, each as often.
pub open spec fn same_items<A>(a: Seq<A>, b: Seq<A>) -> bool {
    a.to_multiset() == b.to_multiset()
}

/// Mapping each item of two rearrangements of one another gives two
/// rearrangements of one another.
pub proof fn lemma_map_same_items<A, B>(a: Seq<A>, b: Seq<A>, f: spec_fn(A) -> B)
    requires
        same_items(a, b),
    ensures
        same_items(a.map_values(f), b.map_values(f)),
    decreases a.len(),
{
    broadcast use vstd::multiset::group_multiset_axioms;

    to_multiset_len(a);
    to_multiset_len(b);
    if a.len() == 0 {
        assert(a.map_values(f) =~= b.map_values(f));
    } else {
        let x = a.last();
        let front = a.drop_last();
        assert(a =~= front.push(x));
        to_multiset_build(front, x);
        to_multiset_contains(b, x);
        let j = choose|j: int| 0 <= j < b.len() && b[j] == x;
        let rest = b.remove(j);
        to_multiset_remove(b, j);
        assert(front.to_multiset() =~= a.to_multiset().remove(x));
        lemma_map_same_items(front, rest, f);
        assert(a.map_values(f) =~= front.map_values(f).push(f(x)));
        to_multiset_build(front.map_values(f), f(x));
        assert(b.map_values(f) =~= rest.map_values(f).insert(j, f(x)));
        to_multiset_insert(rest.map_values(f), j, f(x));
    }
}

/// An item that leaves a run and comes back at its end, while the last one
/// takes its place, leaves the run a rearrangement of what it was.
pub proof fn lemma_swap_out_and_back<A>(a: Seq<A>, i: int)
    requires
        0 <= i < a.len(),
    ensures
        same_items(a.update(i, a.last()).drop_last().push(a[i]), a),
        a.update(i, a.last()).drop_last().push(a[i]).len() == a.len(),
{
    broadcast use vstd::multiset::group_multiset_axioms;

    let last = a.len() - 1;
    let moved = a.update(i, a.last()).drop_last().push(a[i]);
    if i == last {
        assert(moved =~= a);
    } else {
        // moved is a with the items at i and at the end exchanged
        let front = a.drop_last();
        assert(a =~= front.push(a.last()));
        to_multiset_build(front, a.last());
        assert(moved =~= front.update(i, a.last()).push(a[i]));
        to_multiset_build(front.update(i, a.last()), a[i]);
        to_multiset_update(front, i, a.last());
        assert(front[i] == a[i]);
        to_multiset_contains(front, a[i]);
        assert(front.contains(a[i]));
        assert(moved.to_multiset() =~= a.to_multiset());
    }
}

} // verus!

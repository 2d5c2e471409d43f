//! Sequences that hold the same items in another order.

use vstd::prelude::*;

verus! {

/// Applying one function to every item of two sequences that hold the same
/// items gives two sequences that again hold the same items.
pub proof fn lemma_map_of_permutation<A, B>(a: Seq<A>, b: Seq<A>, f: spec_fn(A) -> B)
    requires
        a.to_multiset() == b.to_multiset(),
    ensures
        a.map_values(f).to_multiset() == b.map_values(f).to_multiset(),
    decreases a.len(),
{
    broadcast use vstd::seq_lib::group_to_multiset_ensures;

    assert(b.len() == b.to_multiset().len());
    if a.len() > 0 {
        // Take the last item of `a` out of both, wherever it stands in `b`.
        let last = a.last();
        assert(b.to_multiset().count(last) > 0);
        let j = choose|j: int| 0 <= j < b.len() && b[j] == last;
        let a_rest = a.drop_last();
        let b_rest = b.remove(j);
        assert(a_rest =~= a.remove(a.len() - 1));
        lemma_map_of_permutation(a_rest, b_rest, f);
        assert(a.map_values(f) =~= a_rest.map_values(f).push(f(last)));
        assert(b.map_values(f) =~= b_rest.map_values(f).insert(j, f(last)));
    }
}

} // verus!

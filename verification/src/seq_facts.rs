//! Facts about filtered sequences that the store's proofs share.

use vstd::prelude::*;

verus! {

/// A relation that holds between every earlier and later element of a
/// sequence still holds between the elements that a filter keeps.
pub proof fn filter_keeps_pairwise<A>(
    s: Seq<A>,
    keep: spec_fn(A) -> bool,
    related: spec_fn(A, A) -> bool,
)
    requires
        forall|i: int, j: int| 0 <= i < j < s.len() ==> related(s[i], s[j]),
    ensures
        forall|a: int, b: int|
            0 <= a < b < s.filter(keep).len() ==> related(
                #[trigger] s.filter(keep)[a],
                #[trigger] s.filter(keep)[b],
            ),
    decreases s.len(),
{
    reveal(Seq::filter);
    if s.len() > 0 {
        let front = s.drop_last();
        filter_keeps_pairwise(front, keep, related);
        if keep(s.last()) {
            let kept = s.filter(keep);
            assert forall|a: int, b: int| 0 <= a < b < kept.len() implies related(
                #[trigger] kept[a],
                #[trigger] kept[b],
            ) by {
                if b == kept.len() - 1 {
                    let x = front.filter(keep)[a];
                    assert(front.filter(keep).contains(x));
                    front.lemma_filter_contains_rev(keep, x);
                    let i = choose|i: int| 0 <= i < front.len() && front[i] == x;
                    assert(related(s[i], s[s.len() - 1]));
                }
            }
        }
    }
}

/// A filter keeps exactly the elements of the sequence that pass it.
pub proof fn filter_membership<A>(s: Seq<A>, keep: spec_fn(A) -> bool, x: A)
    ensures
        s.filter(keep).contains(x) <==> (s.contains(x) && keep(x)),
{
    if s.filter(keep).contains(x) {
        s.lemma_filter_contains_rev(keep, x);
        let k = choose|k: int| 0 <= k < s.filter(keep).len() && s.filter(keep)[k] == x;
        s.lemma_filter_pred(keep, k);
    }
    if s.contains(x) && keep(x) {
        let i = choose|i: int| 0 <= i < s.len() && s[i] == x;
        s.lemma_filter_contains(keep, i);
    }
}

/// A filter that every element passes keeps the sequence as it is.
pub proof fn filter_of_all_passing<A>(s: Seq<A>, keep: spec_fn(A) -> bool)
    requires
        forall|i: int| 0 <= i < s.len() ==> keep(#[trigger] s[i]),
    ensures
        s.filter(keep) == s,
    decreases s.len(),
{
    reveal(Seq::filter);
    if s.len() > 0 {
        filter_of_all_passing(s.drop_last(), keep);
        assert(s.drop_last().push(s.last()) =~= s);
    } else {
        assert(s.filter(keep) =~= s);
    }
}

/// A filter that no element passes keeps nothing.
pub proof fn filter_of_none_passing<A>(s: Seq<A>, keep: spec_fn(A) -> bool)
    requires
        forall|i: int| 0 <= i < s.len() ==> !keep(#[trigger] s[i]),
    ensures
        s.filter(keep) == Seq::<A>::empty(),
    decreases s.len(),
{
    reveal(Seq::filter);
    if s.len() > 0 {
        filter_of_none_passing(s.drop_last(), keep);
    } else {
        assert(s.filter(keep) =~= Seq::<A>::empty());
    }
}

/// Two filters that agree on every element of the sequence keep the same.
pub proof fn filter_by_agreeing<A>(s: Seq<A>, keep: spec_fn(A) -> bool, other: spec_fn(A) -> bool)
    requires
        forall|i: int| 0 <= i < s.len() ==> keep(#[trigger] s[i]) == other(s[i]),
    ensures
        s.filter(keep) == s.filter(other),
    decreases s.len(),
{
    reveal(Seq::filter);
    if s.len() > 0 {
        filter_by_agreeing(s.drop_last(), keep, other);
    }
}

} // verus!

//! Sequences that keep the order of another sequence.

use vstd::prelude::*;

verus! {

/// Whether `a` can be had from `b` by leaving items out: the items of `a`
/// occur in `b`, in the same order.
pub open spec fn is_subsequence<T>(a: Seq<T>, b: Seq<T>) -> bool
    decreases b.len(),
{
    if a.len() == 0 {
        true
    } else if b.len() == 0 {
        false
    } else {
        ||| a.last() == b.last() && is_subsequence(a.drop_last(), b.drop_last())
        ||| is_subsequence(a, b.drop_last())
    }
}

/// A subsequence stays one when the longer sequence grows, and when both
/// grow by the same item.
pub proof fn lemma_subsequence_push<T>(a: Seq<T>, b: Seq<T>, x: T)
    requires
        is_subsequence(a, b),
    ensures
        is_subsequence(a, b.push(x)),
        is_subsequence(a.push(x), b.push(x)),
{
    assert(b.push(x).drop_last() =~= b);
    assert(a.push(x).drop_last() =~= a);
}

/// A subsequence of a prefix is a subsequence of the whole.
pub proof fn lemma_subsequence_of_prefix<T>(a: Seq<T>, b: Seq<T>, n: int)
    requires
        0 <= n <= b.len(),
        is_subsequence(a, b.take(n)),
    ensures
        is_subsequence(a, b),
    decreases b.len() - n,
{
    if n < b.len() {
        lemma_subsequence_push(a, b.take(n), b[n]);
        assert(b.take(n).push(b[n]) =~= b.take(n + 1));
        lemma_subsequence_of_prefix(a, b, n + 1);
    } else {
        assert(b.take(n) =~= b);
    }
}

/// Every item of a subsequence is an item of the longer sequence.
pub proof fn lemma_subsequence_members<T>(a: Seq<T>, b: Seq<T>, i: int)
    requires
        is_subsequence(a, b),
        0 <= i < a.len(),
    ensures
        exists|j: int| 0 <= j < b.len() && #[trigger] b[j] == a[i],
    decreases b.len(),
{
    if a.last() == b.last() && is_subsequence(a.drop_last(), b.drop_last()) {
        if i == a.len() - 1 {
            assert(b[b.len() - 1] == a[i]);
        } else {
            lemma_subsequence_members(a.drop_last(), b.drop_last(), i);
            let j = choose|j: int|
                0 <= j < b.drop_last().len() && #[trigger] b.drop_last()[j] == a.drop_last()[i];
            assert(b[j] == a[i]);
        }
    } else {
        lemma_subsequence_members(a, b.drop_last(), i);
        let j = choose|j: int| 0 <= j < b.drop_last().len() && #[trigger] b.drop_last()[j] == a[i];
        assert(b[j] == a[i]);
    }
}

} // verus!

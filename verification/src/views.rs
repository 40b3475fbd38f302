//! The mathematical view of a sequence of values that each have a view.

use vstd::prelude::*;

verus! {

/// The views of the items of `s`, in the same order.
pub open spec fn views<T: View>(s: Seq<T>) -> Seq<T::V> {
    Seq::new(s.len(), |i: int| s[i]@)
}

/// The views of the items of an optional sequence.
pub open spec fn optional_views<T: View>(s: Option<Vec<T>>) -> Option<Seq<T::V>> {
    match s {
        Some(v) => Some(views(v@)),
        None => None,
    }
}

/// The view of an optional value.
pub open spec fn optional_view<T: View>(o: Option<T>) -> Option<T::V> {
    match o {
        Some(x) => Some(x@),
        None => None,
    }
}

/// Appending an item appends its view.
pub proof fn lemma_views_push<T: View>(s: Seq<T>, x: T)
    ensures
        views(s.push(x)) == views(s).push(x@),
{
    assert(views(s.push(x)) =~= views(s).push(x@));
}

/// A prefix that is one item longer has the view of that item appended.
pub proof fn lemma_views_take_next<T: View>(s: Seq<T>, i: int)
    requires
        0 <= i < s.len(),
    ensures
        views(s.take(i + 1)) == views(s.take(i)).push(s[i]@),
        views(s).take(i + 1) == views(s).take(i).push(s[i]@),
        views(s.take(i)) == views(s).take(i),
        views(s.take(i + 1)) == views(s).take(i + 1),
{
    assert(views(s.take(i + 1)) =~= views(s.take(i)).push(s[i]@));
    assert(views(s).take(i + 1) =~= views(s).take(i).push(s[i]@));
    assert(views(s.take(i)) =~= views(s).take(i));
    assert(views(s.take(i + 1)) =~= views(s).take(i + 1));
}

/// The whole sequence is its own longest prefix.
pub proof fn lemma_views_take_all<T: View>(s: Seq<T>)
    ensures
        views(s).take(s.len() as int) == views(s),
        s.take(s.len() as int) == s,
{
    assert(views(s).take(s.len() as int) =~= views(s));
    assert(s.take(s.len() as int) =~= s);
}

} // verus!

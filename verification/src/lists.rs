//! Views of lists.
use vstd::prelude::*;

verus! {

/// The views of the elements of a list.
pub open spec fn views<T: View>(list: Seq<T>) -> Seq<T::V> {
    Seq::new(list.len(), |i: int| list[i]@)
}

/// The views of the elements of a list that may be absent.
pub open spec fn optional_views<T: View>(list: Option<Vec<T>>) -> Option<Seq<T::V>> {
    match list {
        Some(v) => Some(views(v@)),
        None => None,
    }
}

/// Taking one more element adds its view.
pub proof fn lemma_views_next<T: View>(list: Seq<T>, i: int)
    requires
        0 <= i < list.len(),
    ensures
        views(list.take(i + 1)) == views(list.take(i)).push(list[i]@),
        views(list.take(i + 1)).drop_last() == views(list.take(i)),
        views(list.take(i + 1)).last() == list[i]@,
        list.take(i + 1) == list.take(i).push(list[i]),
{
    assert(views(list.take(i + 1)) =~= views(list.take(i)).push(list[i]@));
    assert(views(list.take(i + 1)).drop_last() =~= views(list.take(i)));
    assert(list.take(i + 1) =~= list.take(i).push(list[i]));
}

/// Taking all elements changes nothing.
pub proof fn lemma_views_all<T: View>(list: Seq<T>)
    ensures
        views(list.take(list.len() as int)) == views(list),
        list.take(list.len() as int) == list,
{
    assert(list.take(list.len() as int) =~= list);
}

/// Pushing an element adds that element to those contained.
pub proof fn lemma_push_contains<T>(list: Seq<T>, next: T)
    ensures
        forall|other: T|
            #[trigger] list.push(next).contains(other) <==> list.contains(other) || other == next,
{
    assert forall|other: T| #[trigger] list.push(next).contains(other) <==> list.contains(other)
        || other == next by {
        if list.contains(other) {
            let i = list.index_of(other);
            assert(list.push(next)[i] == other);
        }
        assert(list.push(next)[list.len() as int] == next);
        if list.push(next).contains(other) && other != next {
            let i = list.push(next).index_of(other);
            assert(list[i] == other);
        }
    }
}

/// The views of a list are those of its elements, in order.
pub proof fn law_views_of_lists<T: View>(list: Seq<T>, absent: Option<Vec<T>>, i: int)
    ensures
        views(list).len() == list.len(),
        0 <= i < list.len() ==> views(list)[i] == list[i]@,
        absent is None <==> optional_views(absent) is None,
        absent is Some ==> optional_views(absent)->0.len() == absent->0@.len(),
        absent is Some && 0 <= i < absent->0@.len() ==> optional_views(absent)->0[i]
            == absent->0@[i]@,
{
}

} // verus!

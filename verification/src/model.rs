//! How results, options and lists of modelled values are modelled themselves.

use vstd::prelude::*;

verus! {

/// The model of a result whose two sides are modelled.
pub open spec fn outcome<T: View, E: View>(result: Result<T, E>) -> Result<T::V, E::V> {
    match result {
        Ok(value) => Ok(value@),
        Err(error) => Err(error@),
    }
}

/// The model of a result that carries a list.
pub open spec fn list_outcome<T: View, E: View>(result: Result<Vec<T>, E>) -> Result<
    Seq<T::V>,
    E::V,
> {
    match result {
        Ok(list) => Ok(views(list@)),
        Err(error) => Err(error@),
    }
}

/// The model of an option whose value is modelled.
pub open spec fn optional<T: View>(value: Option<T>) -> Option<T::V> {
    match value {
        Some(inner) => Some(inner@),
        None => None,
    }
}

/// The models of a list of values.
pub open spec fn views<T: View>(list: Seq<T>) -> Seq<T::V> {
    Seq::new(list.len(), |i: int| list[i]@)
}

/// Appending a value appends its model.
pub broadcast proof fn lemma_views_push<T: View>(list: Seq<T>, value: T)
    ensures
        #[trigger] views(list.push(value)) == views(list).push(value@),
{
    assert(views(list.push(value)) =~= views(list).push(value@));
}

/// The model of a list that continues with another one.
pub broadcast proof fn lemma_views_add<T: View>(list: Seq<T>, rest: Seq<T>)
    ensures
        #[trigger] views(list + rest) == views(list) + views(rest),
{
    assert(views(list + rest) =~= views(list) + views(rest));
}

/// An empty list has an empty model.
pub broadcast proof fn lemma_views_empty<T: View>()
    ensures
        #[trigger] views(Seq::<T>::empty()) == Seq::<T::V>::empty(),
{
    assert(views(Seq::<T>::empty()) =~= Seq::<T::V>::empty());
}

/// Removing a value removes its model.
pub broadcast proof fn lemma_views_remove<T: View>(list: Seq<T>, at: int)
    requires
        0 <= at < list.len(),
    ensures
        #[trigger] views(list.remove(at)) == views(list).remove(at),
{
    assert(views(list.remove(at)) =~= views(list).remove(at));
}

/// Replacing a value replaces its model.
pub broadcast proof fn lemma_views_update<T: View>(list: Seq<T>, at: int, value: T)
    requires
        0 <= at < list.len(),
    ensures
        #[trigger] views(list.update(at, value)) == views(list).update(at, value@),
{
    assert(views(list.update(at, value)) =~= views(list).update(at, value@));
}

pub broadcast group group_views {
    lemma_views_remove,
    lemma_views_update,
    lemma_views_push,
    lemma_views_add,
    lemma_views_empty,
}

} // verus!

//! Sequences of strings: their views, membership, duplicates and joining.
use vstd::prelude::*;

verus! {

/// The views of the items of a sequence, in order.
pub open spec fn views<T: View>(items: Seq<T>) -> Seq<T::V> {
    items.map_values(|item: T| item@)
}

/// The view of an optional value.
pub open spec fn option_view<T: View>(value: Option<T>) -> Option<T::V> {
    match value {
        Some(inner) => Some(inner@),
        None => None,
    }
}

/// The view of a result.
pub open spec fn result_view<T: View, E: View>(value: Result<T, E>) -> Result<T::V, E::V> {
    match value {
        Ok(inner) => Ok(inner@),
        Err(error) => Err(error@),
    }
}

/// What a filter keeps once one more item comes.
pub proof fn lemma_filter_push<A>(items: Seq<A>, item: A, keep: spec_fn(A) -> bool)
    ensures
        items.push(item).filter(keep) == if keep(item) {
            items.filter(keep).push(item)
        } else {
            items.filter(keep)
        },
{
    reveal(Seq::filter);
    assert(items.push(item).drop_last() =~= items);
}

/// Copies a list of strings.
pub fn copy_strings(items: &Vec<String>) -> (copied: Vec<String>)
    ensures
        views(copied@) == views(items@),
{
    let mut copied: Vec<String> = Vec::new();
    for i in 0..items.len()
        invariant
            copied@.len() == i,
            forall|k: int| 0 <= k < i ==> copied@[k]@ == items@[k]@,
    {
        copied.push(items[i].clone());
    }
    assert(views(copied@) =~= views(items@));
    copied
}

/// Whether `name` is one of `items`.
pub fn contains_string(items: &Vec<String>, name: &String) -> (found: bool)
    ensures
        found == views(items@).contains(name@),
{
    for i in 0..items.len()
        invariant
            forall|k: int| 0 <= k < i ==> items@[k]@ != name@,
    {
        if items[i] == *name {
            assert(views(items@)[i as int] == name@);
            return true;
        }
    }
    false
}

/// The parts one after the other, with the separator between each two.
pub open spec fn joined(parts: Seq<Seq<char>>, separator: Seq<char>) -> Seq<char>
    decreases parts.len(),
{
    if parts.len() == 0 {
        seq![]
    } else if parts.len() == 1 {
        parts[0]
    } else {
        joined(parts.drop_last(), separator) + separator + parts.last()
    }
}

/// Joins strings with a separator between each two.
pub fn join_strings(parts: &Vec<String>, separator: &str) -> (text: String)
    ensures
        text@ == joined(views(parts@), separator@),
{
    let mut text: String = String::new();
    let ghost all = views(parts@);
    assert(all.take(0) =~= seq![]);
    for i in 0..parts.len()
        invariant
            all == views(parts@),
            text@ == joined(all.take(i as int), separator@),
    {
        assert(all.take(i + 1).drop_last() =~= all.take(i as int));
        if i > 0 {
            text.append(separator);
        }
        text.append(parts[i].as_str());
        assert(text@ =~= joined(all.take(i + 1), separator@));
    }
    assert(all.take(parts@.len() as int) =~= all);
    text
}

} // verus!

//! Finding the first item of a sequence that meets a condition.

use vstd::prelude::*;

verus! {

/// Index of the first item of `items` that satisfies `hit`.
pub open spec fn first_index<T>(items: Seq<T>, hit: spec_fn(T) -> bool) -> Option<int>
    decreases items.len(),
{
    if items.len() == 0 {
        None
    } else {
        match first_index(items.drop_last(), hit) {
            Some(i) => Some(i),
            None => if hit(items.last()) {
                Some(items.len() - 1)
            } else {
                None
            },
        }
    }
}

/// `first_index` answers with an item that satisfies the condition and has
/// no such item before it, and with nothing only where no item satisfies it.
pub proof fn lemma_first_index<T>(items: Seq<T>, hit: spec_fn(T) -> bool)
    ensures
        match first_index(items, hit) {
            Some(i) => {
                &&& 0 <= i < items.len()
                &&& hit(items[i])
                &&& forall|j: int| 0 <= j < i ==> !hit(#[trigger] items[j])
            },
            None => forall|j: int| 0 <= j < items.len() ==> !hit(#[trigger] items[j]),
        },
    decreases items.len(),
{
    if items.len() > 0 {
        let front = items.drop_last();
        lemma_first_index(front, hit);
        assert(forall|j: int| 0 <= j < front.len() ==> front[j] == items[j]);
    }
}

/// An item that satisfies the condition, with no such item before it, is the
/// one that `first_index` answers with.
pub proof fn lemma_first_index_is<T>(items: Seq<T>, hit: spec_fn(T) -> bool, i: int)
    requires
        0 <= i < items.len(),
        hit(items[i]),
        forall|j: int| 0 <= j < i ==> !hit(#[trigger] items[j]),
    ensures
        first_index(items, hit) == Some(i),
{
    lemma_first_index(items, hit);
}

} // verus!

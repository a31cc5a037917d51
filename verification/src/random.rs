//! Choices left to chance.

use rand::Rng;
use vstd::prelude::*;

verus! {

/// Calls `rand::Rng::random_range` on the generator of `rand::rng` with the range of the numbers
/// below `bound`; it panics on an empty range.
///
/// Claimed: the number lies in the range. Which one it is, is left to chance.
#[verifier::external_body]
fn random_below(bound: usize) -> (number: usize)
    requires
        0 < bound,
    ensures
        number < bound,
{
    rand::rng().random_range(0..bound)
}

/// Takes the item at an index out of a list.
pub fn nth<T>(items: Vec<T>, index: usize) -> (item: Option<T>)
    ensures
        item == if index < items@.len() {
            Some(items@[index as int])
        } else {
            None
        },
{
    let mut items = items;
    if index < items.len() {
        Some(items.swap_remove(index))
    } else {
        None
    }
}

/// Takes an item out of a list by chance: any item of the list, and none only of an empty list.
pub fn choose_random<T>(items: Vec<T>) -> (item: Option<T>)
    ensures
        item is None <==> items@.len() == 0,
        item matches Some(i) ==> items@.contains(i),
{
    if items.is_empty() {
        return None;
    }
    let index = random_below(items.len());
    nth(items, index)
}

} // verus!

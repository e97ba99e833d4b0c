//! Folders, courses and sets are found by name within their parent, and
//! made where they are missing. A new one goes to the end of its parent's
//! list.

use vstd::prelude::*;

verus! {

/// The place in its parent's list of an entry that is added at the end:
/// one past the highest place taken, or 0 in an empty list.
pub open spec fn place_after(highest: Option<i32>) -> int {
    match highest {
        Some(taken) => taken + 1,
        None => 0,
    }
}

/// The sort order of an entry that is added to a list whose highest sort
/// order so far is `highest`. A list that is full to the last number takes
/// no more.
pub fn next_sort_order(highest: Option<i32>) -> (r: Option<i32>)
    ensures
        match r {
            Some(place) => place == place_after(highest),
            None => highest == Some(i32::MAX),
        },
{
    match highest {
        Some(taken) => taken.checked_add(1),
        None => Some(0),
    }
}

} // verus!

//! The people chosen for a book in the edit popups.

use vstd::prelude::*;

use crate::listing::{first_index, position};

verus! {

/// The people chosen after person `id` is toggled on (`toggle`), which adds
/// them at the end where they are among the search results, or off, which
/// takes out their first place.
pub open spec fn spec_toggle_person(selected: Seq<u64>, search_cache: Seq<u64>, id: u64, toggle: bool) -> Seq<u64> {
    if toggle {
        if search_cache.contains(id) {
            selected.push(id)
        } else {
            selected
        }
    } else if selected.contains(id) {
        selected.remove(first_index(selected, id))
    } else {
        selected
    }
}

/// Toggles person `id` on or off among the people chosen, as the popups
/// that edit books do.
pub fn toggle_person(selected: &mut Vec<u64>, search_cache: &Vec<u64>, id: u64, toggle: bool)
    ensures
        final(selected)@ == spec_toggle_person(old(selected)@, search_cache@, id, toggle),
{
    if toggle {
        if position(search_cache, id).is_some() {
            selected.push(id);
        }
    } else {
        match position(selected, id) {
            Some(i) => {
                selected.remove(i);
            },
            None => {},
        }
    }
}

/// What toggling a person does to the edits of a book.
#[derive(PartialEq, Eq, Structural, Clone, Copy, Debug)]
pub enum PersonEditChange {
    /// The person leaves the edits.
    RemovePerson,
    /// The edits take the person off the book.
    InsertRemovedPerson,
    /// The edits put the person on the book.
    InsertAddedPerson,
}

/// What toggling a person (on: `toggle`) does to the edits of a book, where
/// the book has the person already (`is_current`) or not.
pub fn person_edit_change(is_current: bool, toggle: bool) -> (r: PersonEditChange)
    ensures
        r == (if is_current == toggle {
            PersonEditChange::RemovePerson
        } else if is_current {
            PersonEditChange::InsertRemovedPerson
        } else {
            PersonEditChange::InsertAddedPerson
        }),
{
    match (is_current, toggle) {
        (true, true) => PersonEditChange::RemovePerson,
        (true, false) => PersonEditChange::InsertRemovedPerson,
        (false, true) => PersonEditChange::InsertAddedPerson,
        (false, false) => PersonEditChange::RemovePerson,
    }
}

} // verus!

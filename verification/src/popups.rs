//! The popups over the posters of books and people: which one is open,
//! and asking for the open one again closes it.

use vstd::prelude::*;

verus! {

/// Whether two optional search texts are the same text.
pub open spec fn same_text(a: Option<String>, b: Option<String>) -> bool {
    match (a, b) {
        (Some(x), Some(y)) => x@ == y@,
        (None, None) => true,
        _ => false,
    }
}

fn same_text_exec(a: &Option<String>, b: &Option<String>) -> (r: bool)
    ensures
        r == same_text(*a, *b),
{
    match (a, b) {
        (Some(x), Some(y)) => *x == *y,
        (None, None) => true,
        _ => false,
    }
}

/// A popup over the poster of a book.
#[derive(Clone, Debug)]
pub enum DisplayOverlayItem {
    /// The book's details.
    Info { book_id: u64 },
    /// The form that edits the book.
    Edit { book_id: u64 },
    /// The menu of more actions, where the pointer was.
    More { book_id: u64, mouse_x: i32, mouse_y: i32 },
    /// The search for the book's metadata, with the text searched.
    SearchForBook { book_id: u64, input_value: Option<String> },
}

/// Whether two popups of a book are the same popup.
pub open spec fn same_item_popup(a: DisplayOverlayItem, b: DisplayOverlayItem) -> bool {
    match (a, b) {
        (DisplayOverlayItem::Info { book_id: l }, DisplayOverlayItem::Info { book_id: r }) => l == r,
        (DisplayOverlayItem::More { book_id: l, .. }, DisplayOverlayItem::More { book_id: r, .. }) => l == r,
        (
            DisplayOverlayItem::SearchForBook { book_id: l, input_value: lv },
            DisplayOverlayItem::SearchForBook { book_id: r, input_value: rv },
        ) => l == r && same_text(lv, rv),
        _ => false,
    }
}

/// Two popups of a book are the same popup: the same details, menu or
/// search (with the same text) of the same book. An edit form is never
/// the same as another.
impl PartialEq for DisplayOverlayItem {
    fn eq(&self, other: &Self) -> (r: bool) {
        match (self, other) {
            (DisplayOverlayItem::Info { book_id: l }, DisplayOverlayItem::Info { book_id: r }) => *l == *r,
            (DisplayOverlayItem::More { book_id: l, .. }, DisplayOverlayItem::More { book_id: r, .. }) => *l == *r,
            (
                DisplayOverlayItem::SearchForBook { book_id: l, input_value: lv },
                DisplayOverlayItem::SearchForBook { book_id: r, input_value: rv },
            ) => *l == *r && same_text_exec(lv, rv),
            _ => false,
        }
    }
}

impl vstd::std_specs::cmp::PartialEqSpecImpl for DisplayOverlayItem {
    open spec fn obeys_eq_spec() -> bool {
        true
    }

    open spec fn eq_spec(&self, other: &Self) -> bool {
        same_item_popup(*self, *other)
    }
}

/// A popup over the poster of a person.
#[derive(Clone, Debug)]
pub enum DisplayOverlay {
    /// The person's details.
    Info { person_id: u64 },
    /// The menu of more actions, where the pointer was.
    More { person_id: u64, mouse_x: i32, mouse_y: i32 },
    /// The search for the person's metadata, with the text searched.
    SearchForPerson { person_id: u64, input_value: Option<String> },
    /// The search for a person to combine this one with.
    CombinePersonWith { person_id: u64, input_value: Option<String> },
}

/// Whether two popups of a person are the same popup.
pub open spec fn same_person_popup(a: DisplayOverlay, b: DisplayOverlay) -> bool {
    match (a, b) {
        (DisplayOverlay::Info { person_id: l }, DisplayOverlay::Info { person_id: r }) => l == r,
        (DisplayOverlay::More { person_id: l, .. }, DisplayOverlay::More { person_id: r, .. }) => l == r,
        (
            DisplayOverlay::SearchForPerson { person_id: l, input_value: lv },
            DisplayOverlay::SearchForPerson { person_id: r, input_value: rv },
        ) => l == r && same_text(lv, rv),
        _ => false,
    }
}

/// Two popups of a person are the same popup: the same details, menu or
/// metadata search (with the same text) of the same person. A search to
/// combine people is never the same as another.
impl PartialEq for DisplayOverlay {
    fn eq(&self, other: &Self) -> (r: bool) {
        match (self, other) {
            (DisplayOverlay::Info { person_id: l }, DisplayOverlay::Info { person_id: r }) => *l == *r,
            (DisplayOverlay::More { person_id: l, .. }, DisplayOverlay::More { person_id: r, .. }) => *l == *r,
            (
                DisplayOverlay::SearchForPerson { person_id: l, input_value: lv },
                DisplayOverlay::SearchForPerson { person_id: r, input_value: rv },
            ) => *l == *r && same_text_exec(lv, rv),
            _ => false,
        }
    }
}

impl vstd::std_specs::cmp::PartialEqSpecImpl for DisplayOverlay {
    open spec fn obeys_eq_spec() -> bool {
        true
    }

    open spec fn eq_spec(&self, other: &Self) -> bool {
        same_person_popup(*self, *other)
    }
}

/// The book popup open after asking for `new` while `current` is open:
/// asking for the popup that is open closes it.
pub open spec fn spec_show_item_popup(current: Option<DisplayOverlayItem>, new: DisplayOverlayItem) -> Option<
    DisplayOverlayItem,
> {
    match current {
        Some(old) => if same_item_popup(old, new) {
            None
        } else {
            Some(new)
        },
        None => Some(new),
    }
}

/// The book popup open after asking for `new`.
pub fn show_item_popup(current: Option<DisplayOverlayItem>, new: DisplayOverlayItem) -> (r: Option<
    DisplayOverlayItem,
>)
    ensures
        r == spec_show_item_popup(current, new),
{
    match current {
        Some(old) => if old == new {
            None
        } else {
            Some(new)
        },
        None => Some(new),
    }
}

/// The person popup open after asking for `new` while `current` is open:
/// asking for the popup that is open closes it.
pub open spec fn spec_show_person_popup(current: Option<DisplayOverlay>, new: DisplayOverlay) -> Option<
    DisplayOverlay,
> {
    match current {
        Some(old) => if same_person_popup(old, new) {
            None
        } else {
            Some(new)
        },
        None => Some(new),
    }
}

/// The person popup open after asking for `new`.
pub fn show_person_popup(current: Option<DisplayOverlay>, new: DisplayOverlay) -> (r: Option<DisplayOverlay>)
    ensures
        r == spec_show_person_popup(current, new),
{
    match current {
        Some(old) => if old == new {
            None
        } else {
            Some(new)
        },
        None => Some(new),
    }
}

/// Asking twice for a popup of a book closes it again, except the edit
/// form, which stays open.
pub proof fn law_item_popup_twice_closes(new: DisplayOverlayItem)
    requires
        !(new is Edit),
    ensures
        spec_show_item_popup(spec_show_item_popup(None, new), new) is None,
{
}

/// Asking twice for a popup of a person closes it again, except the search
/// to combine people, which stays open.
pub proof fn law_person_popup_twice_closes(new: DisplayOverlay)
    requires
        !(new is CombinePersonWith),
    ensures
        spec_show_person_popup(spec_show_person_popup(None, new), new) is None,
{
}

/// What opening one of a book's files does.
#[derive(PartialEq, Eq, Structural, Clone, Copy, Debug)]
pub enum FileOpen {
    /// Offer to carry over the progress that another file of the book has.
    UseExistingProgress { file_id: u64 },
    /// Start reading the file.
    Read { file_id: u64 },
}

/// Opening the file `file_id`, the `index`-th of the book, where
/// `has_progress` tells which of the book's files have progress: a file
/// without progress, when another file has some, offers to carry it over.
pub fn open_file(file_id: u64, index: usize, has_progress: &Vec<bool>) -> (r: FileOpen)
    requires
        index < has_progress@.len(),
    ensures
        r == (if !has_progress@[index as int] && has_progress@.contains(true) {
            FileOpen::UseExistingProgress { file_id }
        } else {
            FileOpen::Read { file_id }
        }),
{
    let mut any = false;
    let mut i: usize = 0;
    while i < has_progress.len()
        invariant
            i <= has_progress@.len(),
            any == (exists|j: int| 0 <= j < i && has_progress@[j]),
        decreases has_progress@.len() - i,
    {
        if has_progress[i] {
            any = true;
        }
        i = i + 1;
    }
    proof {
        if any {
            let j = choose|j: int| 0 <= j < has_progress@.len() && has_progress@[j];
            assert(has_progress@[j] == true);
        }
    }
    if !has_progress[index] && any {
        FileOpen::UseExistingProgress { file_id }
    } else {
        FileOpen::Read { file_id }
    }
}

/// The entries of a book poster's menu.
#[derive(PartialEq, Eq, Structural, Clone, Copy, Debug)]
pub struct DropdownItems {
    pub mark_as_read: bool,
    pub mark_as_unread: bool,
    pub unmatch: bool,
    pub refresh_metadata: bool,
    pub remove_from_collection: bool,
    pub add_to_collection: bool,
    pub download: bool,
}

/// The entries of a book poster's menu: marking read unless it is read,
/// unread when it has progress, unmatching a matched book, refreshing the
/// metadata always, removing from the collection shown or else adding to
/// one, and downloading in the web build.
pub fn dropdown_items(progress: Option<crate::progress::Progression>, is_matched: bool, in_collection: bool, web_build: bool) -> (r:
    DropdownItems)
    ensures
        r == (DropdownItems {
            mark_as_read: progress != Some(crate::progress::Progression::Complete),
            mark_as_unread: progress is Some,
            unmatch: is_matched,
            refresh_metadata: true,
            remove_from_collection: in_collection,
            add_to_collection: !in_collection,
            download: web_build,
        }),
{
    let read = match progress {
        Some(crate::progress::Progression::Complete) => true,
        _ => false,
    };
    DropdownItems {
        mark_as_read: !read,
        mark_as_unread: progress.is_some(),
        unmatch: is_matched,
        refresh_metadata: true,
        remove_from_collection: in_collection,
        add_to_collection: !in_collection,
        download: web_build,
    }
}

} // verus!

//! Lists of books that load page by page as they are scrolled, with the
//! books being edited and the books that server tasks are updating.

use vstd::prelude::*;
use std::collections::{HashMap, HashSet};

verus! {

broadcast use vstd::std_specs::hash::group_hash_axioms;

/// How close to the end of a list, in pixels, scrolling asks for more.
pub const LOAD_MORE_DISTANCE: i32 = 600;

/// Whether more items can be asked for: some are loaded, but not all.
pub open spec fn spec_can_request_more(count: usize, total: usize) -> bool {
    count != 0 && count != total
}

/// Whether more items can be asked for, with `count` of `total` loaded.
pub fn can_request_more(count: usize, total: usize) -> (r: bool)
    ensures
        r == spec_can_request_more(count, total),
{
    count != 0 && count != total
}

/// Whether `i` is the first place at which `id` stands in `s`.
pub open spec fn is_first_index(s: Seq<u64>, id: u64, i: int) -> bool {
    &&& 0 <= i < s.len()
    &&& s[i] == id
    &&& forall|j: int| 0 <= j < i ==> s[j] != id
}

/// The first place at which `id` stands in `s` (meaningful when it does).
pub open spec fn first_index(s: Seq<u64>, id: u64) -> int {
    choose|i: int| is_first_index(s, id, i)
}

pub proof fn lemma_first_index_unique(s: Seq<u64>, id: u64, i: int)
    requires
        is_first_index(s, id, i),
    ensures
        first_index(s, id) == i,
{
    let k = first_index(s, id);
    assert(is_first_index(s, id, k));
    if k < i {
        assert(s[k] != id);
    } else if k > i {
        assert(s[i] != id);
    }
}

/// Where `id` first stands in `v`, if it does.
pub fn position(v: &Vec<u64>, id: u64) -> (r: Option<usize>)
    ensures
        match r {
            Some(i) => is_first_index(v@, id, i as int) && first_index(v@, id) == i,
            None => !v@.contains(id),
        },
{
    let mut i: usize = 0;
    while i < v.len()
        invariant
            i <= v@.len(),
            forall|j: int| 0 <= j < i ==> v@[j] != id,
        decreases v@.len() - i,
    {
        if v[i] == id {
            proof {
                lemma_first_index_unique(v@, id, i as int);
            }
            return Some(i);
        }
        i = i + 1;
    }
    None
}

/// The books being edited after book `id` is selected (`value`), once, or
/// deselected, the last book taking its place.
pub open spec fn spec_update_editing(items: Seq<u64>, id: u64, value: bool) -> Seq<u64> {
    if value {
        if items.contains(id) {
            items
        } else {
            items.push(id)
        }
    } else if items.contains(id) {
        items.update(first_index(items, id), items.last()).drop_last()
    } else {
        items
    }
}

/// Adds book `id` to the books being edited (`value`), once, or takes it
/// out (swapping the last one into its place).
pub fn update_editing(items: &mut Vec<u64>, id: u64, value: bool)
    ensures
        final(items)@ == spec_update_editing(old(items)@, id, value),
{
    match position(items, id) {
        Some(i) => {
            if !value {
                items.swap_remove(i);
            }
        },
        None => {
            if value {
                items.push(id);
            }
        },
    }
}

/// A list of books that loads page by page.
pub struct BookListComponent {
    /// The books shown, by id; none until the first page arrives.
    pub media_items: Option<Vec<u64>>,
    /// How many books the list has in all.
    pub total_media_count: usize,
    /// Whether a page has been asked for and not yet received.
    pub is_fetching_media_items: bool,
    /// The books selected for editing.
    pub editing_items: Vec<u64>,
    /// The book each running task is updating.
    pub task_items: HashMap<u64, u64>,
    /// The books that tasks are updating.
    pub task_items_updating: HashSet<u64>,
}

impl BookListComponent {
    /// The number of books shown.
    pub open spec fn count(&self) -> nat {
        match self.media_items {
            Some(v) => v@.len(),
            None => 0,
        }
    }

    /// Whether book `id` is shown.
    pub open spec fn shows(&self, id: u64) -> bool {
        match self.media_items {
            Some(v) => v@.contains(id),
            None => false,
        }
    }

    pub fn new() -> (r: Self)
        ensures
            r.media_items is None,
            r.total_media_count == 0,
            !r.is_fetching_media_items,
            r.editing_items@ == Seq::<u64>::empty(),
            r.task_items@ == Map::<u64, u64>::empty(),
            r.task_items_updating@ == Set::<u64>::empty(),
    {
        BookListComponent {
            media_items: None,
            total_media_count: 0,
            is_fetching_media_items: false,
            editing_items: Vec::new(),
            task_items: HashMap::new(),
            task_items_updating: HashSet::new(),
        }
    }

    fn shown_count(&self) -> (r: usize)
        ensures
            r == self.count(),
    {
        match &self.media_items {
            Some(v) => v.len(),
            None => 0,
        }
    }

    fn shows_exec(&self, id: u64) -> (r: bool)
        ensures
            r == self.shows(id),
    {
        match &self.media_items {
            Some(v) => position(v, id).is_some(),
            None => false,
        }
    }

    /// Whether more books can be asked for: some are shown, not all.
    pub fn can_req_more(&self) -> (r: bool)
        ensures
            r == spec_can_request_more(self.count() as usize, self.total_media_count),
    {
        can_request_more(self.shown_count(), self.total_media_count)
    }

    /// Asks for the next page: `None` while a page is already on its way,
    /// otherwise the offset to ask from (none for the first page).
    pub fn request_media_items(&mut self) -> (r: Option<Option<usize>>)
        ensures
            old(self).is_fetching_media_items ==> r is None && *final(self) == *old(self),
            !old(self).is_fetching_media_items ==> {
                &&& final(self).is_fetching_media_items
                &&& r == Some(if old(self).count() == 0 { None::<usize> } else { Some(old(self).count() as usize) })
                &&& final(self).media_items == old(self).media_items
                &&& final(self).total_media_count == old(self).total_media_count
                &&& final(self).editing_items == old(self).editing_items
                &&& final(self).task_items == old(self).task_items
                &&& final(self).task_items_updating == old(self).task_items_updating
            },
    {
        if self.is_fetching_media_items {
            return None;
        }
        self.is_fetching_media_items = true;
        let count = self.shown_count();
        Some(if count != 0 { Some(count) } else { None })
    }

    /// A page arrived (`Some` with its books and the total) or failed.
    pub fn media_list_results(&mut self, resp: Option<(Vec<u64>, usize)>)
        ensures
            !final(self).is_fetching_media_items,
            final(self).editing_items == old(self).editing_items,
            final(self).task_items == old(self).task_items,
            final(self).task_items_updating == old(self).task_items_updating,
            match resp {
                Some((items, count)) => {
                    &&& final(self).total_media_count == count
                    &&& final(self).media_items matches Some(v) && v@ == match old(self).media_items {
                        Some(w) => w@ + items@,
                        None => items@,
                    }
                },
                None => final(self).media_items == old(self).media_items
                    && final(self).total_media_count == old(self).total_media_count,
            },
    {
        self.is_fetching_media_items = false;
        match resp {
            Some((items, count)) => {
                self.total_media_count = count;
                let mut items = items;
                match &mut self.media_items {
                    Some(v) => {
                        v.append(&mut items);
                    },
                    None => {
                        self.media_items = Some(items);
                    },
                }
            },
            None => {},
        }
    }

    /// Whether a scroll `scroll_pos` down a list `scroll_height` high asks
    /// for more books: near the end, when there are more.
    pub fn on_scroll(&self, scroll_height: i32, scroll_pos: i32) -> (r: bool)
        requires
            i32::MIN <= scroll_height - scroll_pos <= i32::MAX,
        ensures
            r == (scroll_height - scroll_pos < LOAD_MORE_DISTANCE && spec_can_request_more(
                self.count() as usize,
                self.total_media_count,
            )),
    {
        scroll_height - scroll_pos < LOAD_MORE_DISTANCE && self.can_req_more()
    }

    /// Book `book_id` left the collection shown: it is removed from the
    /// list, which shrinks by one.
    pub fn remove_book_from_collection(&mut self, book_id: u64)
        requires
            old(self).media_items is Some,
            old(self).shows(book_id) ==> old(self).total_media_count > 0,
        ensures
            final(self).editing_items == old(self).editing_items,
            final(self).task_items == old(self).task_items,
            final(self).task_items_updating == old(self).task_items_updating,
            final(self).is_fetching_media_items == old(self).is_fetching_media_items,
            old(self).shows(book_id) ==> ({
                let w = old(self).media_items->0@;
                &&& final(self).media_items matches Some(v) && v@ == w.remove(first_index(w, book_id))
                &&& final(self).total_media_count == old(self).total_media_count - 1
            }),
            !old(self).shows(book_id) ==> final(self).media_items == old(self).media_items
                && final(self).total_media_count == old(self).total_media_count,
    {
        let pos = match &self.media_items {
            Some(v) => position(v, book_id),
            None => None,
        };
        if let Some(i) = pos {
            match &mut self.media_items {
                Some(v) => {
                    v.remove(i);
                },
                None => {},
            }
            self.total_media_count = self.total_media_count - 1;
        }
    }

    /// Clears the books selected for editing.
    pub fn deselect_all_editing(&mut self)
        ensures
            final(self).editing_items@ == Seq::<u64>::empty(),
            final(self).media_items == old(self).media_items,
            final(self).total_media_count == old(self).total_media_count,
            final(self).is_fetching_media_items == old(self).is_fetching_media_items,
            final(self).task_items == old(self).task_items,
            final(self).task_items_updating == old(self).task_items_updating,
    {
        self.editing_items.clear();
    }

    /// Task `task_id` is updating book `book_id` (`inserting`) or stopped.
    /// Returns whether the book is shown, so that it is to be fetched again.
    pub fn task_update(&mut self, task_id: u64, book_id: u64, inserting: bool) -> (r: bool)
        ensures
            r == old(self).shows(book_id),
            inserting ==> final(self).task_items@ == old(self).task_items@.insert(task_id, book_id)
                && final(self).task_items_updating@ == old(self).task_items_updating@.insert(book_id),
            !inserting ==> final(self).task_items@ == old(self).task_items@.remove(task_id)
                && final(self).task_items_updating@ == old(self).task_items_updating@.remove(book_id),
            final(self).media_items == old(self).media_items,
            final(self).total_media_count == old(self).total_media_count,
            final(self).is_fetching_media_items == old(self).is_fetching_media_items,
            final(self).editing_items == old(self).editing_items,
    {
        if inserting {
            self.task_items.insert(task_id, book_id);
            self.task_items_updating.insert(book_id);
        } else {
            self.task_items_updating.remove(&book_id);
            self.task_items.remove(&task_id);
        }
        self.shows_exec(book_id)
    }

    /// Task `task_id` ended. Returns the book it updated when that book is
    /// shown, so that it is to be fetched again.
    pub fn task_end(&mut self, task_id: u64) -> (r: Option<u64>)
        ensures
            old(self).task_items@.contains_key(task_id) ==> ({
                let b = old(self).task_items@[task_id];
                &&& final(self).task_items@ == old(self).task_items@.remove(task_id)
                &&& final(self).task_items_updating@ == old(self).task_items_updating@.remove(b)
                &&& r == if old(self).shows(b) { Some(b) } else { None::<u64> }
            }),
            !old(self).task_items@.contains_key(task_id) ==> r is None && final(self).task_items@ == old(
                self,
            ).task_items@ && final(self).task_items_updating@ == old(self).task_items_updating@,
            final(self).media_items == old(self).media_items,
            final(self).total_media_count == old(self).total_media_count,
            final(self).is_fetching_media_items == old(self).is_fetching_media_items,
            final(self).editing_items == old(self).editing_items,
    {
        match self.task_items.get(&task_id) {
            Some(b) => {
                let book_id = *b;
                self.task_items_updating.remove(&book_id);
                self.task_items.remove(&task_id);
                if self.shows_exec(book_id) { Some(book_id) } else { None }
            },
            None => None,
        }
    }

    /// The book fetched again for task `task_id` arrived: the task is
    /// forgotten and its book is no longer shown as updating.
    pub fn book_item_results(&mut self, task_id: u64)
        ensures
            old(self).task_items@.contains_key(task_id) ==> final(self).task_items@ == old(self).task_items@.remove(
                task_id,
            ) && final(self).task_items_updating@ == old(self).task_items_updating@.remove(
                old(self).task_items@[task_id],
            ),
            !old(self).task_items@.contains_key(task_id) ==> final(self).task_items@ == old(self).task_items@
                && final(self).task_items_updating@ == old(self).task_items_updating@,
            final(self).media_items == old(self).media_items,
            final(self).total_media_count == old(self).total_media_count,
            final(self).is_fetching_media_items == old(self).is_fetching_media_items,
            final(self).editing_items == old(self).editing_items,
    {
        match self.task_items.remove(&task_id) {
            Some(book_id) => {
                self.task_items_updating.remove(&book_id);
            },
            None => {},
        }
    }

    /// Whether a task is updating book `book_id`.
    pub fn is_updating(&self, book_id: u64) -> (r: bool)
        ensures
            r == self.task_items_updating@.contains(book_id),
    {
        self.task_items_updating.contains(&book_id)
    }
}

} // verus!

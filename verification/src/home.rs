//! The dashboard: the recently added books of each library, asked for one
//! library at a time.

use vstd::prelude::*;
use std::collections::HashMap;

verus! {

broadcast use vstd::std_specs::hash::group_hash_axioms;

/// The first library of `libraries` whose books have not arrived, if any.
pub open spec fn first_unloaded(libraries: Seq<u64>, loaded: Map<u64, Vec<u64>>) -> Option<int> {
    if exists|i: int| 0 <= i < libraries.len() && !loaded.contains_key(libraries[i]) {
        Some(
            choose|i: int|
                0 <= i < libraries.len() && !loaded.contains_key(libraries[i]) && forall|j: int|
                    0 <= j < i ==> loaded.contains_key(libraries[j]),
        )
    } else {
        None
    }
}

proof fn lemma_first_unloaded(libraries: Seq<u64>, loaded: Map<u64, Vec<u64>>, i: int)
    requires
        0 <= i < libraries.len(),
        !loaded.contains_key(libraries[i]),
        forall|j: int| 0 <= j < i ==> loaded.contains_key(libraries[j]),
    ensures
        first_unloaded(libraries, loaded) == Some(i),
{
    let k = choose|k: int|
        0 <= k < libraries.len() && !loaded.contains_key(libraries[k]) && forall|j: int|
            0 <= j < k ==> loaded.contains_key(libraries[j]);
    assert(0 <= k < libraries.len() && !loaded.contains_key(libraries[k]) && forall|j: int|
        0 <= j < k ==> loaded.contains_key(libraries[j]));
    if k < i {
        assert(loaded.contains_key(libraries[k]));
    } else if k > i {
        assert(loaded.contains_key(libraries[i]));
    }
}

/// The libraries of the dashboard and the books that arrived for each.
pub struct HomeLibraries {
    /// The libraries, in the order they are shown.
    pub libraries: Vec<u64>,
    /// The recently added books of each library whose answer arrived.
    pub library_items: HashMap<u64, Vec<u64>>,
    /// Whether the books of a library have been asked for and not arrived.
    pub is_requesting: bool,
}

impl HomeLibraries {
    pub fn new(libraries: Vec<u64>) -> (r: Self)
        ensures
            r.libraries@ == libraries@,
            r.library_items@ == Map::<u64, Vec<u64>>::empty(),
            !r.is_requesting,
    {
        HomeLibraries { libraries, library_items: HashMap::new(), is_requesting: false }
    }

    /// Picks the library whose books are asked for next: none while an
    /// answer is awaited, else the first one shown whose books have not
    /// arrived, which is then awaited.
    pub fn load_next_library(&mut self) -> (r: Option<u64>)
        ensures
            final(self).libraries == old(self).libraries,
            final(self).library_items == old(self).library_items,
            old(self).is_requesting ==> r is None && final(self).is_requesting,
            !old(self).is_requesting ==> match first_unloaded(old(self).libraries@, old(self).library_items@) {
                Some(i) => r == Some(old(self).libraries@[i]) && final(self).is_requesting,
                None => r is None && !final(self).is_requesting,
            },
    {
        if self.is_requesting {
            return None;
        }
        let mut i: usize = 0;
        while i < self.libraries.len()
            invariant
                i <= self.libraries@.len(),
                !self.is_requesting,
                forall|j: int| 0 <= j < i ==> self.library_items@.contains_key(self.libraries@[j]),
                *self == *old(self),
            decreases self.libraries@.len() - i,
        {
            let lib_id = self.libraries[i];
            if !self.library_items.contains_key(&lib_id) {
                proof {
                    lemma_first_unloaded(self.libraries@, self.library_items@, i as int);
                }
                self.is_requesting = true;
                return Some(lib_id);
            }
            i = i + 1;
        }
        None
    }

    /// The answer for library `library_id` arrived, with its books
    /// (`Some`) or an error; then the next library is picked.
    pub fn library_recent_response(&mut self, library_id: u64, items: Option<Vec<u64>>) -> (r: Option<u64>)
        ensures
            final(self).libraries == old(self).libraries,
            ({
                let loaded = match items {
                    Some(v) => old(self).library_items@.insert(library_id, v),
                    None => old(self).library_items@,
                };
                &&& final(self).library_items@ == loaded
                &&& match first_unloaded(old(self).libraries@, loaded) {
                    Some(i) => r == Some(old(self).libraries@[i]) && final(self).is_requesting,
                    None => r is None && !final(self).is_requesting,
                }
            }),
    {
        self.is_requesting = false;
        match items {
            Some(v) => {
                self.library_items.insert(library_id, v);
            },
            None => {},
        }
        self.load_next_library()
    }

    /// The libraries changed: the next library is picked among them.
    pub fn context_changed(&mut self, libraries: Vec<u64>) -> (r: Option<u64>)
        ensures
            final(self).libraries@ == libraries@,
            final(self).library_items == old(self).library_items,
            old(self).is_requesting ==> r is None && final(self).is_requesting,
            !old(self).is_requesting ==> match first_unloaded(libraries@, old(self).library_items@) {
                Some(i) => r == Some(libraries@[i]) && final(self).is_requesting,
                None => r is None && !final(self).is_requesting,
            },
    {
        self.libraries = libraries;
        self.load_next_library()
    }
}

} // verus!

//! The search of the navigation bar: one request per library, each
//! answer filling that library's place.

use vstd::prelude::*;

verus! {

/// The results of a search, one place per library: `None` while its
/// answer is awaited.
pub struct NavbarSearch {
    pub search_results: Vec<Option<Vec<u64>>>,
}

/// Whether every library's answer has arrived.
pub open spec fn all_answered(results: Seq<Option<Vec<u64>>>) -> bool {
    forall|i: int| 0 <= i < results.len() ==> #[trigger] results[i] is Some
}

impl NavbarSearch {
    pub fn new() -> (r: Self)
        ensures
            r.search_results@.len() == 0,
    {
        NavbarSearch { search_results: Vec::new() }
    }

    /// The results are closed.
    pub fn close(&mut self)
        ensures
            final(self).search_results@.len() == 0,
    {
        self.search_results.clear();
    }

    /// The search text changed: unless answers are still awaited, a search
    /// starts with one empty place per library, and the number of books to
    /// ask of each library is returned (fewer when there are several).
    pub fn search_input(&mut self, library_count: usize) -> (r: Option<usize>)
        ensures
            all_answered(old(self).search_results@) ==> {
                &&& r == Some(if library_count > 1 { 5usize } else { 10usize })
                &&& final(self).search_results@.len() == library_count
                &&& forall|i: int| 0 <= i < library_count ==> #[trigger] final(self).search_results@[i] is None
            },
            !all_answered(old(self).search_results@) ==> r is None && final(self).search_results@ == old(
                self,
            ).search_results@,
    {
        let mut i: usize = 0;
        while i < self.search_results.len()
            invariant
                i <= self.search_results@.len(),
                forall|j: int| 0 <= j < i ==> #[trigger] self.search_results@[j] is Some,
            decreases self.search_results@.len() - i,
        {
            if self.search_results[i].is_none() {
                return None;
            }
            i = i + 1;
        }
        let mut places: Vec<Option<Vec<u64>>> = Vec::new();
        let mut k: usize = 0;
        while k < library_count
            invariant
                k <= library_count,
                places@.len() == k,
                forall|j: int| 0 <= j < k ==> #[trigger] places@[j] is None,
            decreases library_count - k,
        {
            places.push(None);
            k = k + 1;
        }
        self.search_results = places;
        Some(if library_count > 1 { 5 } else { 10 })
    }

    /// The answer for library `index` arrived, with its books or an error.
    pub fn search_results_arrived(&mut self, index: usize, books: Option<Vec<u64>>)
        requires
            index < old(self).search_results@.len(),
        ensures
            final(self).search_results@ == match books {
                Some(b) => old(self).search_results@.update(index as int, Some(b)),
                None => old(self).search_results@,
            },
    {
        match books {
            Some(b) => {
                self.search_results.set(index, Some(b));
            },
            None => {},
        }
    }
}

} // verus!

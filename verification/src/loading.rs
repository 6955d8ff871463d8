//! Which chapters of a book to ask the server for next.

use vstd::prelude::*;

use crate::progress::Progression;

verus! {

/// How the chapters of a book are loaded.
#[derive(Clone, Copy, Debug, PartialEq, Eq, Structural)]
pub enum PageLoadType {
    /// Load every chapter, a few at a time.
    All,
    /// Load the chapters around the one being read.
    Select,
}

/// The order chapters are sorted in.
pub open spec fn ascending(a: usize, b: usize) -> bool {
    a <= b
}

/// `slice::sort_unstable` on numbers: the documentation says it sorts the
/// slice in ascending order; the result then holds the same numbers.
#[verifier::external_body]
fn sort_values(v: &mut Vec<usize>)
    ensures
        vstd::relations::sorted_by(final(v)@, |a: usize, b: usize| ascending(a, b)),
        final(v)@.to_multiset() == old(v)@.to_multiset(),
{
    v.sort_unstable();
}

/// The range of chapters to load when every chapter is to be loaded, read
/// off the sorted chapters already loaded, from position `i` on, with the
/// range found so far being `start..end` (`end` 0 while no gap has been
/// found). A gap starts at the first chapter number missing from the
/// front; the range then grows until it reaches a loaded chapter or spans
/// four chapters. When nothing is missing before the last chapter of the
/// book, there is nothing to load.
pub open spec fn all_scan(sorted: Seq<usize>, total: usize, i: int, start: int, end: int) -> (int, int)
    decreases sorted.len() - i,
{
    if i < 0 || i >= sorted.len() {
        if start != 0 && end == 0 { (start, start + 3) } else { (start, end) }
    } else {
        let section = sorted[i] as int;
        if end == 0 {
            if start == section {
                if start + 1 == total { (0, 0) } else { all_scan(sorted, total, i + 1, start + 1, 0) }
            } else {
                all_scan(sorted, total, i + 1, start, start + 1)
            }
        } else if end == section || end - start == 4 {
            (start, end)
        } else {
            all_scan(sorted, total, i + 1, start, end + 1)
        }
    }
}

pub proof fn lemma_all_scan_bounds(sorted: Seq<usize>, total: usize, i: int, start: int, end: int)
    requires
        0 <= i <= sorted.len(),
        0 <= start <= i,
        end == 0 || start < end <= start + 4,
    ensures
        ({
            let (a, b) = all_scan(sorted, total, i, start, end);
            0 <= a <= sorted.len() && 0 <= b <= sorted.len() + 4
        }),
    decreases sorted.len() - i,
{
    if i < sorted.len() {
        let section = sorted[i] as int;
        if end == 0 {
            if start == section {
                if start + 1 != total {
                    lemma_all_scan_bounds(sorted, total, i + 1, start + 1, 0);
                }
            } else {
                lemma_all_scan_bounds(sorted, total, i + 1, start, start + 1);
            }
        } else if !(end == section || end - start == 4) {
            lemma_all_scan_bounds(sorted, total, i + 1, start, end + 1);
        }
    }
}

/// The chapter the stored progress is in, 0 without a reading position.
pub open spec fn progress_chapter(progress: Option<Progression>) -> int {
    match progress {
        Some(Progression::Ebook { chapter, .. }) => chapter as usize as int,
        _ => 0,
    }
}

/// The range `start..end` of chapters to ask for next (`(0, 0)` when there
/// is none): see `all_scan` for loading every chapter; when loading around
/// the chapter being read, the one before it, else the one after it, when
/// missing. With nothing loaded yet, the chapters around the one being
/// read are asked for.
pub open spec fn spec_next_pages_to_load(
    progress: Option<Progression>,
    loaded: Seq<usize>,
    total_sections: usize,
    type_of: PageLoadType,
) -> (int, int) {
    let curr = progress_chapter(progress);
    if loaded.len() == 0 {
        (if curr == 0 { 0 } else { curr - 1 }, curr + 2)
    } else {
        match type_of {
            PageLoadType::All => all_scan(loaded.sort_by(|a: usize, b: usize| ascending(a, b)), total_sections, 0, 0, 0),
            PageLoadType::Select => {
                let found_previous = curr != 0 && loaded.contains((curr - 1) as usize);
                let found_next = curr + 1 != total_sections && loaded.contains((curr + 1) as usize);
                if !found_previous {
                    (if curr == 0 { 0 } else { curr - 1 }, curr)
                } else if !found_next {
                    (curr + 1, curr + 2)
                } else {
                    (0, 0)
                }
            },
        }
    }
}

/// The chapters to ask for next, given the stored progress, the numbers of
/// the chapters already loaded and the number of chapters of the book.
pub fn get_next_pages_to_load(
    progress: Option<Progression>,
    loaded: &Vec<usize>,
    total_sections: usize,
    type_of: PageLoadType,
) -> (r: (usize, usize))
    requires
        loaded@.len() == 0 ==> progress_chapter(progress) + 2 <= usize::MAX,
        loaded@.len() > 0 && type_of == PageLoadType::Select ==> progress_chapter(progress) + 1 <= usize::MAX,
        ({
            let curr = progress_chapter(progress);
            loaded@.len() > 0 && type_of == PageLoadType::Select && curr != 0 && loaded@.contains((curr - 1) as usize)
                && !(curr + 1 != total_sections && loaded@.contains((curr + 1) as usize)) ==> curr + 2 <= usize::MAX
        }),
        loaded@.len() + 4 <= usize::MAX,
    ensures
        (r.0 as int, r.1 as int) == spec_next_pages_to_load(progress, loaded@, total_sections, type_of),
{
    let curr: usize = match progress {
        Some(Progression::Ebook { chapter, .. }) => #[verifier::truncate] (chapter as usize),
        _ => 0,
    };
    if loaded.len() == 0 {
        return (curr.saturating_sub(1), curr + 2);
    }
    match type_of {
        PageLoadType::Select => {
            let found_previous = curr != 0 && contains(loaded, curr - 1);
            let found_next = curr + 1 != total_sections && contains(loaded, curr + 1);
            if !found_previous {
                (curr.saturating_sub(1), curr)
            } else if !found_next {
                (curr + 1, curr + 2)
            } else {
                (0, 0)
            }
        },
        PageLoadType::All => {
            let mut chapters = loaded.clone();
            sort_values(&mut chapters);
            let ghost leq = |a: usize, b: usize| ascending(a, b);
            proof {
                let srt = loaded@.sort_by(leq);
                assert(vstd::relations::total_ordering(leq));
                loaded@.lemma_sort_by_ensures(leq);
                vstd::seq_lib::lemma_sorted_unique(chapters@, srt, leq);
                assert(chapters@.len() == loaded@.len()) by {
                    broadcast use vstd::seq_lib::group_to_multiset_ensures;
                    assert(chapters@.to_multiset().len() == loaded@.to_multiset().len());
                }
            }
            let ghost srt = chapters@;
            let mut start: usize = 0;
            let mut end: usize = 0;
            let mut i: usize = 0;
            proof {
                lemma_all_scan_bounds(srt, total_sections, 0, 0, 0);
            }
            while i < chapters.len()
                invariant
                    srt == chapters@,
                    srt == loaded@.sort_by(|a: usize, b: usize| ascending(a, b)),
                    loaded@.len() != 0,
                    type_of == PageLoadType::All,
                    srt.len() + 4 <= usize::MAX,
                    i <= srt.len(),
                    start <= i,
                    end == 0 || start < end <= start + 4,
                    all_scan(srt, total_sections, 0, 0, 0) == all_scan(srt, total_sections, i as int, start as int, end as int),
                decreases srt.len() - i,
            {
                let section = chapters[i];
                if end == 0 {
                    if start == section {
                        start = start + 1;
                        if start == total_sections {
                            return (0, 0);
                        }
                    } else {
                        end = start + 1;
                    }
                } else if end == section || end - start == 4 {
                    return (start, end);
                } else {
                    end = end + 1;
                }
                i = i + 1;
            }
            if start != 0 && end == 0 {
                end = start + 3;
            }
            (start, end)
        },
    }
}

/// Whether `v` holds `x`.
fn contains(v: &Vec<usize>, x: usize) -> (r: bool)
    ensures
        r == v@.contains(x),
{
    let mut i: usize = 0;
    while i < v.len()
        invariant
            i <= v@.len(),
            forall|j: int| 0 <= j < i ==> v@[j] != x,
        decreases v@.len() - i,
    {
        if v[i] == x {
            return true;
        }
        i = i + 1;
    }
    false
}

} // verus!

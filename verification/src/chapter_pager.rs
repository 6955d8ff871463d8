//! The simpler reader that shows one chapter per frame and counts pages
//! across the chapters received, turned by keys and by touch swipes.

use vstd::prelude::*;
use std::collections::HashMap;

use crate::overlay::abs;

verus! {

broadcast use vstd::std_specs::hash::group_hash_axioms;

/// The chapter and the page in it that global page `find` is, looking from
/// chapter `k` on, with `curr` pages before chapter `k`: chapters are
/// counted in order until one is missing or `count` is reached.
pub open spec fn find_chapter_page(chapters: Map<usize, usize>, find: int, count: int, k: int, curr: int) -> Option<
    (usize, usize),
>
    decreases count - k,
{
    if k < 0 || k >= count || !chapters.contains_key(k as usize) {
        None
    } else if find - curr < chapters[k as usize] {
        Some((k as usize, (find - curr) as usize))
    } else {
        find_chapter_page(chapters, find, count, k + 1, curr + chapters[k as usize])
    }
}

/// The chapter and its page that global page `find_page` is, among the
/// first `chapter_count` chapters, given each received chapter's page
/// count; none when a chapter before it has not been received.
pub fn get_page(find_page: usize, chapter_count: usize, chapters: &HashMap<usize, usize>) -> (r: Option<(usize, usize)>)
    ensures
        r == find_chapter_page(chapters@, find_page as int, chapter_count as int, 0, 0),
{
    let mut curr: usize = 0;
    let mut k: usize = 0;
    while k < chapter_count
        invariant
            k <= chapter_count,
            curr <= find_page,
            find_chapter_page(chapters@, find_page as int, chapter_count as int, 0, 0) == find_chapter_page(
                chapters@,
                find_page as int,
                chapter_count as int,
                k as int,
                curr as int,
            ),
        decreases chapter_count - k,
    {
        let count = match chapters.get(&k) {
            Some(c) => *c,
            None => {
                return None;
            },
        };
        let local_page = find_page - curr;
        if local_page < count {
            return Some((k, local_page));
        }
        curr = curr + count;
        k = k + 1;
    }
    None
}

/// How many chapters, from the first, have been received without a gap.
pub open spec fn received_prefix(chapters: Map<usize, usize>, count: int, k: int) -> int
    decreases count - k,
{
    if k < 0 || k >= count || !chapters.contains_key(k as usize) {
        if k < 0 { 0 } else { k }
    } else {
        received_prefix(chapters, count, k + 1)
    }
}

/// The number of frames shown: the chapters received from the first on,
/// among the first `chapter_count`, up to the first one missing.
pub fn get_frames(chapter_count: usize, chapters: &HashMap<usize, usize>) -> (r: usize)
    ensures
        r == received_prefix(chapters@, chapter_count as int, 0),
{
    let mut k: usize = 0;
    while k < chapter_count
        invariant
            k <= chapter_count,
            received_prefix(chapters@, chapter_count as int, 0) == received_prefix(
                chapters@,
                chapter_count as int,
                k as int,
            ),
        decreases chapter_count - k,
    {
        if !chapters.contains_key(&k) {
            return k;
        }
        k = k + 1;
    }
    k
}

/// What a step to the next or previous page asks of the frames.
#[derive(PartialEq, Eq, Structural, Clone, Copy, Debug)]
pub enum PagerStep {
    /// There is no page that way.
    Blocked,
    /// The new page is in the same chapter: show its `page` in `chapter`.
    SameChapter { chapter: usize, page: usize },
    /// The new page is in another chapter, now the one viewed.
    OtherChapter { chapter: usize },
    /// The page changed, with a chapter not received.
    Moved,
}

/// Which way a swipe turns the page.
#[derive(PartialEq, Eq, Structural, Clone, Copy, Debug)]
pub enum SwipeTurn {
    Next,
    Previous,
}

/// The page and chapter viewed, and where a touch started.
pub struct ChapterPager {
    pub viewing_page: usize,
    pub viewing_chapter: usize,
    pub touch_start: Option<(i32, i32)>,
}

/// The step between pages `from` and `to`, and the chapter viewed after.
pub open spec fn step_between(chapters: Map<usize, usize>, count: usize, from: usize, to: usize, viewing: usize) -> (
    PagerStep,
    usize,
) {
    let c1 = find_chapter_page(chapters, from as int, count as int, 0, 0);
    let c2 = find_chapter_page(chapters, to as int, count as int, 0, 0);
    match (c1, c2) {
        (Some(p1), Some(p2)) => if p1.0 == p2.0 {
            (PagerStep::SameChapter { chapter: p2.0, page: p2.1 }, viewing)
        } else {
            (PagerStep::OtherChapter { chapter: p2.0 }, p2.0)
        },
        _ => (PagerStep::Moved, viewing),
    }
}

impl ChapterPager {
    pub fn new() -> (r: Self)
        ensures
            r.viewing_page == 0,
            r.viewing_chapter == 0,
            r.touch_start is None,
    {
        ChapterPager { viewing_page: 0, viewing_chapter: 0, touch_start: None }
    }

    fn step(&mut self, to: usize, chapter_count: usize, chapters: &HashMap<usize, usize>) -> (r: PagerStep)
        ensures
            (r, final(self).viewing_chapter) == step_between(
                chapters@,
                chapter_count,
                old(self).viewing_page,
                to,
                old(self).viewing_chapter,
            ),
            final(self).viewing_page == to,
            final(self).touch_start == old(self).touch_start,
    {
        let c1 = get_page(self.viewing_page, chapter_count, chapters);
        let c2 = get_page(to, chapter_count, chapters);
        self.viewing_page = to;
        match (c1, c2) {
            (Some((ch1, _)), Some((ch2, local))) => {
                if ch1 == ch2 {
                    PagerStep::SameChapter { chapter: ch2, page: local }
                } else {
                    self.viewing_chapter = ch2;
                    PagerStep::OtherChapter { chapter: ch2 }
                }
            },
            _ => PagerStep::Moved,
        }
    }

    /// One page on, unless the page viewed is the last of `page_count`.
    pub fn next_page(&mut self, page_count: usize, chapter_count: usize, chapters: &HashMap<usize, usize>) -> (r:
        PagerStep)
        requires
            old(self).viewing_page < usize::MAX,
        ensures
            old(self).viewing_page + 1 == page_count ==> r == PagerStep::Blocked && *final(self) == *old(self),
            old(self).viewing_page + 1 != page_count ==> {
                &&& (r, final(self).viewing_chapter) == step_between(
                    chapters@,
                    chapter_count,
                    old(self).viewing_page,
                    (old(self).viewing_page + 1) as usize,
                    old(self).viewing_chapter,
                )
                &&& final(self).viewing_page == old(self).viewing_page + 1
                &&& final(self).touch_start == old(self).touch_start
            },
    {
        if self.viewing_page + 1 == page_count {
            return PagerStep::Blocked;
        }
        let to = self.viewing_page + 1;
        self.step(to, chapter_count, chapters)
    }

    /// One page back, unless the page viewed is the first.
    pub fn previous_page(&mut self, chapter_count: usize, chapters: &HashMap<usize, usize>) -> (r: PagerStep)
        ensures
            old(self).viewing_page == 0 ==> r == PagerStep::Blocked && *final(self) == *old(self),
            old(self).viewing_page != 0 ==> {
                &&& (r, final(self).viewing_chapter) == step_between(
                    chapters@,
                    chapter_count,
                    old(self).viewing_page,
                    (old(self).viewing_page - 1) as usize,
                    old(self).viewing_chapter,
                )
                &&& final(self).viewing_page == old(self).viewing_page - 1
                &&& final(self).touch_start == old(self).touch_start
            },
    {
        if self.viewing_page == 0 {
            return PagerStep::Blocked;
        }
        let to = self.viewing_page - 1;
        self.step(to, chapter_count, chapters)
    }

    /// A touch started at (`x`, `y`).
    pub fn touch_start(&mut self, x: i32, y: i32)
        ensures
            final(self).touch_start == Some((x, y)),
            final(self).viewing_page == old(self).viewing_page,
            final(self).viewing_chapter == old(self).viewing_chapter,
    {
        self.touch_start = Some((x, y));
    }

    /// A touch ended at (`x`, `y`): a mostly horizontal swipe of more than
    /// 100 pixels turns the page, towards the side it came from.
    pub fn touch_end(&mut self, x: i32, y: i32) -> (r: Option<SwipeTurn>)
        requires
            old(self).touch_start matches Some(s) ==> i32::MIN < s.0 - x <= i32::MAX && i32::MIN < s.1 - y
                <= i32::MAX,
        ensures
            final(self).touch_start is None,
            final(self).viewing_page == old(self).viewing_page,
            final(self).viewing_chapter == old(self).viewing_chapter,
            r == match old(self).touch_start {
                Some(s) => {
                    let dx = s.0 - x;
                    let dy = s.1 - y;
                    if abs(dx) > abs(dy) && abs(dx) > 100 {
                        Some(if dx > 0 { SwipeTurn::Next } else { SwipeTurn::Previous })
                    } else {
                        None
                    }
                },
                None => None,
            },
    {
        match self.touch_start {
            Some((sx, sy)) => {
                let dx = sx - x;
                let dy = sy - y;
                let ax = if dx < 0 { -dx } else { dx };
                let ay = if dy < 0 { -dy } else { dy };
                self.touch_start = None;
                if ax > ay && ax > 100 {
                    Some(if dx > 0 { SwipeTurn::Next } else { SwipeTurn::Previous })
                } else {
                    None
                }
            },
            None => None,
        }
    }

    /// The touch was cancelled.
    pub fn touch_cancel(&mut self)
        ensures
            final(self).touch_start is None,
            final(self).viewing_page == old(self).viewing_page,
            final(self).viewing_chapter == old(self).viewing_chapter,
    {
        self.touch_start = None;
    }
}

} // verus!

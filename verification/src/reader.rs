//! The page and section state of the book reader: which chapters exist,
//! which frames (sections) have been generated, which chapter is viewed
//! and where every page lives. The frames themselves are drawn by the
//! caller, which applies the actions recorded here.

use vstd::prelude::*;

use crate::layout::{moved_to, LayoutDisplay, LayoutType, PageMovement};
use crate::section::{CachedPage, FrameView, SectionContents, SectionLoadProgress, SectionView};

verus! {

/// A chapter of the book as the reader knows it.
pub struct Chapter {
    /// Position of the chapter in the book.
    pub value: usize,
    /// Chapters that share a header hash are shown in one frame.
    pub header_hash: String,
    /// Where the chapter's file lies in the book.
    pub file_path: String,
}

/// Something the caller has to do to the frames after a reader call.
#[derive(Clone, Copy, Debug, PartialEq, Eq, Structural)]
pub enum ReaderAction {
    /// Create the element of a new frame.
    CreateFrame { frame: usize },
    /// Put the frame on its current page (scrolled frames: scroll to the
    /// start).
    ShowPage { frame: usize },
    /// Scrolled frames: scroll to the end; others: put the frame on its
    /// current page.
    ShowLastPage { frame: usize },
    /// Put the frame on its current page dragged by `amount` pixels.
    Transition { frame: usize, amount: isize },
    /// The frame is no longer the one viewed.
    StopViewing { frame: usize },
    /// The frame is now the one viewed.
    StartViewing { frame: usize },
    /// The reading progress should be measured and uploaded.
    UploadProgress,
    /// Scroll the frame to the text at byte `position`.
    ScrollToByte { frame: usize, position: usize },
    /// Find the page of the frame that holds the text at byte `position`
    /// and show it (see `Reader::show_frame_page`).
    ShowPageOfByte { frame: usize, position: usize },
    /// The frame has loaded: fill it with its chapters.
    FillFrame { frame: usize },
    /// Collect the links visible on the current page.
    RefreshLinks,
    /// Reset the scroll drag after a second without scrolling.
    ScheduleDragReset,
}

/// Index of the first frame from `i` on that is a chapter frame with
/// header hash `h`, or `frames.len()` when there is none.
pub open spec fn first_frame_with(frames: Seq<FrameView>, h: Seq<char>, i: int) -> int
    decreases frames.len() - i,
{
    if i < 0 || i >= frames.len() {
        frames.len() as int
    } else if frames[i].is_chapter() && frames[i].contents().header_hash == h {
        i
    } else {
        first_frame_with(frames, h, i + 1)
    }
}

/// Index of the first chapter from `i` on with header hash `h`, or
/// `sections.len()` when there is none.
pub open spec fn first_chapter_with(sections: Seq<Seq<char>>, h: Seq<char>, i: int) -> int
    decreases sections.len() - i,
{
    if i < 0 || i >= sections.len() {
        sections.len() as int
    } else if sections[i] == h {
        i
    } else {
        first_chapter_with(sections, h, i + 1)
    }
}

/// Index of the first chapter after `i` whose header hash is not `h`, or
/// `sections.len()` when there is none.
pub open spec fn first_chapter_without(sections: Seq<Seq<char>>, h: Seq<char>, i: int) -> int
    decreases sections.len() - i,
{
    if i < 0 || i >= sections.len() {
        sections.len() as int
    } else if sections[i] != h {
        i
    } else {
        first_chapter_without(sections, h, i + 1)
    }
}

/// Index of the last loaded frame below `n`, if any.
pub open spec fn last_loaded_below(frames: Seq<FrameView>, n: int) -> Option<int>
    decreases n,
{
    if n <= 0 {
        None
    } else if n - 1 < frames.len() && frames[n - 1] is Loaded {
        Some(n - 1)
    } else {
        last_loaded_below(frames, n - 1)
    }
}

pub proof fn lemma_first_frame_with(frames: Seq<FrameView>, h: Seq<char>, i: int)
    requires
        0 <= i <= frames.len(),
    ensures
        i <= first_frame_with(frames, h, i) <= frames.len(),
        first_frame_with(frames, h, i) < frames.len() ==> frames[first_frame_with(frames, h, i)].is_chapter()
            && frames[first_frame_with(frames, h, i)].contents().header_hash == h,
        forall|j: int| i <= j < first_frame_with(frames, h, i) ==>
            !(#[trigger] frames[j].is_chapter() && frames[j].contents().header_hash == h),
    decreases frames.len() - i,
{
    if i < frames.len() {
        lemma_first_frame_with(frames, h, i + 1);
    }
}

pub proof fn lemma_first_chapter_with(sections: Seq<Seq<char>>, h: Seq<char>, i: int)
    requires
        0 <= i <= sections.len(),
    ensures
        i <= first_chapter_with(sections, h, i) <= sections.len(),
        first_chapter_with(sections, h, i) < sections.len() ==> sections[first_chapter_with(sections, h, i)] == h,
        forall|j: int| i <= j < first_chapter_with(sections, h, i) ==> #[trigger] sections[j] != h,
    decreases sections.len() - i,
{
    if i < sections.len() {
        lemma_first_chapter_with(sections, h, i + 1);
    }
}

pub proof fn lemma_first_chapter_without(sections: Seq<Seq<char>>, h: Seq<char>, i: int)
    requires
        0 <= i <= sections.len(),
    ensures
        i <= first_chapter_without(sections, h, i) <= sections.len(),
        first_chapter_without(sections, h, i) < sections.len() ==> sections[first_chapter_without(sections, h, i)] != h,
        forall|j: int| i <= j < first_chapter_without(sections, h, i) ==> #[trigger] sections[j] == h,
    decreases sections.len() - i,
{
    if i < sections.len() {
        lemma_first_chapter_without(sections, h, i + 1);
    }
}

pub proof fn lemma_last_loaded_below(frames: Seq<FrameView>, n: int)
    ensures
        last_loaded_below(frames, n) matches Some(k) ==> 0 <= k < n && k < frames.len() && frames[k] is Loaded
            && forall|j: int| k < j < n && j < frames.len() ==> !(#[trigger] frames[j] is Loaded),
        last_loaded_below(frames, n) is None ==> forall|j: int| 0 <= j < n && j < frames.len() ==> !(#[trigger] frames[j] is Loaded),
    decreases n,
{
    if n > 0 {
        lemma_last_loaded_below(frames, n - 1);
    }
}

/// The loaded frame that global page `p` falls in, looking from frame `i`
/// on. The search gives up at the first loaded frame that starts after `p`.
pub open spec fn page_frame_from(frames: Seq<FrameView>, p: int, i: int) -> Option<int>
    decreases frames.len() - i,
{
    if i < 0 || i >= frames.len() {
        None
    } else if frames[i] is Loaded {
        let c = frames[i].contents();
        if p < c.gpi {
            None
        } else if p - c.gpi < c.page_count() {
            Some(i)
        } else {
            page_frame_from(frames, p, i + 1)
        }
    } else {
        page_frame_from(frames, p, i + 1)
    }
}

pub proof fn lemma_page_frame_from(frames: Seq<FrameView>, p: int, i: int)
    requires
        0 <= i,
    ensures
        page_frame_from(frames, p, i) matches Some(k) ==> i <= k < frames.len() && frames[k] is Loaded
            && frames[k].contents().gpi <= p < frames[k].contents().page_count_until(),
    decreases frames.len() - i,
{
    if i < frames.len() {
        lemma_page_frame_from(frames, p, i + 1);
    }
}

/// The mathematical value of the reader.
pub struct ReaderView {
    pub display: LayoutDisplay,
    /// `(value, header hash)` of every chapter.
    pub chapters: Seq<(usize, Seq<char>)>,
    pub frames: Seq<FrameView>,
    pub viewing_section: usize,
    pub drag_distance: isize,
    pub is_transitioning: bool,
    pub initial_progression_set: bool,
    pub on_held_toggle: bool,
    pub actions: Seq<ReaderAction>,
}

impl ReaderView {
    /// The header hashes of the chapters, in order.
    pub open spec fn hashes(self) -> Seq<Seq<char>> {
        Seq::new(self.chapters.len(), |i: int| self.chapters[i].1)
    }

    /// The header hash of the viewed chapter, if that chapter exists.
    pub open spec fn viewing_hash(self) -> Option<Seq<char>> {
        if self.viewing_section < self.chapters.len() {
            Some(self.chapters[self.viewing_section as int].1)
        } else {
            None
        }
    }

    /// The frame that shows the viewed chapter: the first frame with its
    /// header hash.
    pub open spec fn current_frame(self) -> Option<int> {
        match self.viewing_hash() {
            Some(h) => {
                let k = first_frame_with(self.frames, h, 0);
                if k < self.frames.len() { Some(k) } else { None }
            },
            None => None,
        }
    }

    /// The index of the current frame, 0 when there is none.
    pub open spec fn current_frame_index(self) -> int {
        match self.current_frame() {
            Some(k) => k,
            None => 0,
        }
    }

    /// The global position of the page being viewed, 0 when no frame is.
    pub open spec fn page_pos(self) -> int {
        match self.current_frame() {
            Some(k) => self.frames[k].contents().gpi + self.frames[k].contents().page_offset,
            None => 0,
        }
    }

    /// The number of pages of the book: the end of the last loaded frame
    /// among the first `chapter_count` frames, 0 when none is loaded.
    pub open spec fn page_count_of(self, chapter_count: usize) -> int {
        match last_loaded_below(self.frames, chapter_count as int) {
            Some(k) => self.frames[k].contents().page_count_until(),
            None => 0,
        }
    }

    /// The first and last chapter of the run of chapters that frame
    /// `index` shows: from the first chapter with the frame's header hash
    /// to the chapter before the next one with another hash.
    pub open spec fn frame_chapters(self, index: int) -> Option<(usize, usize)> {
        if 0 <= index < self.frames.len() && self.frames[index].is_chapter() {
            let h = self.frames[index].contents().header_hash;
            let start = first_chapter_with(self.hashes(), h, 0);
            if start < self.hashes().len() {
                let after = first_chapter_without(self.hashes(), h, start + 1);
                Some((start as usize, (after - 1) as usize))
            } else {
                None
            }
        } else {
            None
        }
    }

    /// Every frame is a chapter frame whose header hash some chapter has,
    /// and no frame is at the last possible page offset.
    pub open spec fn wf(self) -> bool {
        forall|i: int| 0 <= i < self.frames.len() ==> {
            &&& #[trigger] self.frames[i].is_chapter()
            &&& self.frame_chapters(i) is Some
            &&& self.frames[i].contents().page_offset < usize::MAX
        }
    }

    /// Whether every frame is loaded.
    pub open spec fn all_loaded(self) -> bool {
        forall|i: int| 0 <= i < self.frames.len() ==> #[trigger] self.frames[i] is Loaded
    }

    /// The same reader with frame `i` now showing `v`.
    pub open spec fn with_frame(self, i: int, v: SectionView) -> ReaderView {
        ReaderView { frames: self.frames.update(i, self.frames[i].with_contents(v)), ..self }
    }

    /// The same reader with one more action to do.
    pub open spec fn with_action(self, a: ReaderAction) -> ReaderView {
        ReaderView { actions: self.actions.push(a), ..self }
    }

    /// The same reader viewing chapter `n`.
    pub open spec fn with_viewing(self, n: usize) -> ReaderView {
        ReaderView { viewing_section: n, ..self }
    }

    /// The reader after going to global page `p`.
    pub open spec fn set_page_spec(self, p: usize) -> (bool, ReaderView) {
        match page_frame_from(self.frames, p as int, 0) {
            Some(i) => {
                let c = self.frames[i].contents();
                (
                    true,
                    self.with_viewing(i as usize).with_frame(
                        i,
                        moved_to(c, self.display.set_offset(c, (p - c.gpi) as usize)),
                    ).with_action(ReaderAction::ShowPage { frame: i as usize }),
                )
            },
            None => (false, self),
        }
    }

    /// The reader after putting the current frame, which is now frame `j`
    /// if there is one, on its first page.
    pub open spec fn start_frame(self) -> ReaderView {
        match self.current_frame() {
            Some(j) => {
                let c = self.frames[j].contents();
                let s = self.with_frame(j, moved_to(c, self.display.set_offset(c, 0)));
                let s = if self.display.set_page_succeeds(c, 0) {
                    s.with_action(ReaderAction::ShowPage { frame: j as usize })
                } else {
                    s
                };
                s.with_action(ReaderAction::StartViewing { frame: j as usize })
            },
            None => self,
        }
    }

    /// The reader after putting the current frame on its last page.
    pub open spec fn end_frame(self) -> ReaderView {
        match self.current_frame() {
            Some(j) => {
                let c = self.frames[j].contents();
                let s = self.with_frame(j, moved_to(c, self.display.last_page_offset(c)));
                let s = if self.display is VerticalScroll || c.page_count() > 0 {
                    s.with_action(ReaderAction::ShowLastPage { frame: j as usize })
                } else {
                    s
                };
                s.with_action(ReaderAction::StartViewing { frame: j as usize })
            },
            None => self,
        }
    }

    /// The reader after a step forward: within the current frame if it has
    /// a next page, otherwise onto the first page of the next frame.
    pub open spec fn next_page_spec(self) -> (bool, ReaderView) {
        match self.current_frame() {
            None => (false, self),
            Some(i) => {
                let c = self.frames[i].contents();
                match self.display.next_offset(c) {
                    Some(o) => (
                        true,
                        self.with_frame(i, c.with_offset(o)).with_action(ReaderAction::ShowPage { frame: i as usize }),
                    ),
                    None => {
                        let s = self.with_action(ReaderAction::Transition { frame: i as usize, amount: 0 });
                        if i + 1 == self.frames.len() {
                            (false, s)
                        } else {
                            let s = s.with_action(ReaderAction::StopViewing { frame: i as usize });
                            let run = self.frame_chapters(i + 1)->0;
                            let start = run.0;
                            (true, s.with_viewing(start).start_frame())
                        }
                    },
                }
            },
        }
    }

    /// The reader after a step back: within the current frame if it has a
    /// previous page, otherwise onto the last page of the previous frame.
    pub open spec fn previous_page_spec(self) -> (bool, ReaderView) {
        match self.current_frame() {
            None => (false, self),
            Some(i) => {
                let c = self.frames[i].contents();
                match self.display.previous_offset(c) {
                    Some(o) => (
                        true,
                        self.with_frame(i, c.with_offset(o)).with_action(ReaderAction::ShowPage { frame: i as usize }),
                    ),
                    None => {
                        let s = self.with_action(ReaderAction::Transition { frame: i as usize, amount: 0 });
                        if i == 0 {
                            (false, s)
                        } else {
                            let s = s.with_action(ReaderAction::StopViewing { frame: i as usize });
                            let run = self.frame_chapters(i - 1)->0;
                            let end = run.1;
                            (true, s.with_viewing(end).end_frame())
                        }
                    },
                }
            },
        }
    }
}

/// The state of the reader.
pub struct Reader {
    /// How sections are shown.
    pub display: LayoutDisplay,
    /// Every chapter of the book that has been received.
    pub cached_sections: Vec<Chapter>,
    /// The frames, each showing a run of chapters with one header hash.
    pub section_frames: Vec<SectionLoadProgress>,
    /// The chapter being viewed.
    pub viewing_section: usize,
    /// How far the current page is dragged, in pixels.
    pub drag_distance: isize,
    /// Whether a page transition is running.
    pub is_transitioning: bool,
    /// Whether the stored progress has been applied once.
    pub initial_progression_set: bool,
    /// Whether a press is being held.
    pub on_held_toggle: bool,
    /// What the caller still has to do to the frames.
    pub actions: Vec<ReaderAction>,
}

impl View for Reader {
    type V = ReaderView;

    open spec fn view(&self) -> ReaderView {
        ReaderView {
            display: self.display,
            chapters: self.cached_sections@.map_values(|c: Chapter| (c.value, c.header_hash@)),
            frames: self.section_frames@.map_values(|f: SectionLoadProgress| f@),
            viewing_section: self.viewing_section,
            drag_distance: self.drag_distance,
            is_transitioning: self.is_transitioning,
            initial_progression_set: self.initial_progression_set,
            on_held_toggle: self.on_held_toggle,
            actions: self.actions@,
        }
    }
}

impl Reader {
    /// The index of the frame that shows the viewed chapter, 0 when none.
    pub fn get_current_frame_index(&self) -> (r: usize)
        ensures
            r == self@.current_frame_index(),
    {
        if self.viewing_section >= self.cached_sections.len() {
            return 0;
        }
        let hash = &self.cached_sections[self.viewing_section].header_hash;
        let ghost frames = self@.frames;
        let mut i: usize = 0;
        while i < self.section_frames.len()
            invariant
                i <= self.section_frames@.len(),
                frames == self@.frames,
                self@.viewing_hash() == Some(hash@),
                first_frame_with(frames, hash@, 0) == first_frame_with(frames, hash@, i as int),
            decreases self.section_frames@.len() - i,
        {
            match self.section_frames[i].as_chapter() {
                Some(chap) => {
                    if chap.header_hash == *hash {
                        return i;
                    }
                },
                None => {},
            }
            i = i + 1;
        }
        0
    }

    /// The frame that shows the viewed chapter.
    pub fn get_current_frame(&self) -> (r: Option<&SectionContents>)
        ensures
            match self@.current_frame() {
                Some(k) => r is Some && r->0@ == self@.frames[k].contents(),
                None => r is None,
            },
    {
        if self.viewing_section >= self.cached_sections.len() {
            return None;
        }
        let i = self.get_current_frame_index();
        proof {
            lemma_first_frame_with(self@.frames, self@.viewing_hash()->0, 0);
        }
        if i < self.section_frames.len() {
            match self.section_frames[i].as_chapter() {
                Some(chap) => {
                    if chap.header_hash == self.cached_sections[self.viewing_section].header_hash {
                        return Some(chap);
                    }
                },
                None => {},
            }
        }
        None
    }

    /// The global position of the page being viewed, 0 when no frame is.
    pub fn current_page_pos(&self) -> (r: usize)
        requires
            self@.page_pos() <= usize::MAX,
        ensures
            r == self@.page_pos(),
    {
        match self.get_current_frame() {
            Some(s) => s.gpi + s.page_offset,
            None => 0,
        }
    }

    /// The number of pages of the book, counted up to the end of the last
    /// loaded frame among the first `chapter_count` frames.
    pub fn page_count(&self, chapter_count: usize) -> (r: usize)
        requires
            0 <= self@.page_count_of(chapter_count) <= usize::MAX,
        ensures
            r == self@.page_count_of(chapter_count),
    {
        let mut n: usize = chapter_count;
        while n > 0
            invariant
                n <= chapter_count,
                last_loaded_below(self@.frames, chapter_count as int) == last_loaded_below(self@.frames, n as int),
                0 <= self@.page_count_of(chapter_count) <= usize::MAX,
            decreases n,
        {
            if n - 1 < self.section_frames.len() {
                match self.section_frames[n - 1].as_loaded() {
                    Some(s) => {
                        return s.get_page_count_until();
                    },
                    None => {},
                }
            }
            n = n - 1;
        }
        0
    }

    /// The first and last chapter shown by frame `index`.
    pub fn get_frame_start_and_end_sections(&self, index: usize) -> (r: Option<(usize, usize)>)
        ensures
            r == self@.frame_chapters(index as int),
    {
        if index >= self.section_frames.len() {
            return None;
        }
        let frame = match self.section_frames[index].as_chapter() {
            Some(f) => f,
            None => {
                return None;
            },
        };
        let ghost h = frame.header_hash@;
        let ghost hs = self@.hashes();
        proof {
            lemma_first_chapter_with(hs, h, 0);
        }
        let mut start: usize = 0;
        while start < self.cached_sections.len() && self.cached_sections[start].header_hash != frame.header_hash
            invariant
                start <= self.cached_sections@.len(),
                hs == self@.hashes(),
                first_chapter_with(hs, h, 0) == first_chapter_with(hs, h, start as int),
                h == frame.header_hash@,
            decreases self.cached_sections@.len() - start,
        {
            start = start + 1;
        }
        if start >= self.cached_sections.len() {
            return None;
        }
        assert(hs[start as int] == h);
        assert(start == first_chapter_with(hs, h, 0));
        let mut j: usize = start + 1;
        while j < self.cached_sections.len()
            invariant
                start < j <= self.cached_sections@.len(),
                start == first_chapter_with(hs, h, 0),
                start < hs.len(),
                index < self@.frames.len(),
                self@.frames[index as int].is_chapter(),
                self@.frames[index as int].contents().header_hash == h,
                hs == self@.hashes(),
                first_chapter_without(hs, h, start + 1) == first_chapter_without(hs, h, j as int),
                h == frame.header_hash@,
            decreases self.cached_sections@.len() - j,
        {
            if self.cached_sections[j].header_hash != frame.header_hash {
                assert(hs[j as int] != h);
                return Some((start, j - 1));
            }
            j = j + 1;
        }
        Some((start, self.cached_sections.len() - 1))
    }

    /// How many frames are loaded.
    pub fn loaded_count(&self) -> (r: usize)
        ensures
            r == self@.frames.filter(|f: FrameView| f is Loaded).len(),
    {
        let ghost frames = self@.frames;
        let mut count: usize = 0;
        let mut i: usize = 0;
        while i < self.section_frames.len()
            invariant
                i <= self.section_frames@.len(),
                frames == self@.frames,
                count == frames.take(i as int).filter(|f: FrameView| f is Loaded).len(),
                count <= i,
            decreases self.section_frames@.len() - i,
        {
            proof {
                reveal_with_fuel(Seq::filter, 1);
                assert(frames.take(i + 1).drop_last() =~= frames.take(i as int));
            }
            if self.section_frames[i].is_loaded() {
                count = count + 1;
            }
            i = i + 1;
        }
        assert(frames.take(i as int) =~= frames);
        count
    }

    /// Whether every frame is loaded.
    pub fn are_all_sections_generated(&self) -> (r: bool)
        ensures
            r == self@.all_loaded(),
    {
        let mut i: usize = 0;
        while i < self.section_frames.len()
            invariant
                i <= self.section_frames@.len(),
                forall|j: int| 0 <= j < i ==> #[trigger] self@.frames[j] is Loaded,
            decreases self.section_frames@.len() - i,
        {
            if !self.section_frames[i].is_loaded() {
                assert(!(self@.frames[i as int] is Loaded));
                return false;
            }
            i = i + 1;
        }
        true
    }

    /// Whether every frame shows chapters whose header hash a chapter of
    /// the book has, below the last possible page offset.
    #[verifier::spinoff_prover]
    pub fn is_well_formed(&self) -> (r: bool)
        ensures
            r == self@.wf(),
    {
        let ghost hs = self@.hashes();
        let mut i: usize = 0;
        while i < self.section_frames.len()
            invariant
                i <= self.section_frames@.len(),
                hs == self@.hashes(),
                forall|j: int| 0 <= j < i ==> {
                    &&& #[trigger] self@.frames[j].is_chapter()
                    &&& self@.frame_chapters(j) is Some
                    &&& self@.frames[j].contents().page_offset < usize::MAX
                },
            decreases self.section_frames@.len() - i,
        {
            match self.section_frames[i].as_chapter() {
                Some(sec) => {
                    if sec.page_offset == usize::MAX {
                        assert(!(self@.frames[i as int].contents().page_offset < usize::MAX));
                        return false;
                    }
                    let ghost h = sec.header_hash@;
                    proof {
                        lemma_first_chapter_with(hs, h, 0);
                    }
                    let mut k: usize = 0;
                    while k < self.cached_sections.len() && self.cached_sections[k].header_hash != sec.header_hash
                        invariant
                            k <= self.cached_sections@.len(),
                            hs == self@.hashes(),
                            h == sec.header_hash@,
                            first_chapter_with(hs, h, 0) == first_chapter_with(hs, h, k as int),
                        decreases self.cached_sections@.len() - k,
                    {
                        k = k + 1;
                    }
                    if k == self.cached_sections.len() {
                        assert(self@.frame_chapters(i as int) is None);
                        return false;
                    }
                    proof {
                        assert(hs[k as int] == h);
                        assert(first_chapter_with(hs, h, k as int) == k as int);
                        assert(self@.frames[i as int].contents().header_hash == h);
                        assert(self@.frame_chapters(i as int) is Some);
                    }
                },
                None => {
                    assert(!self@.frames[i as int].is_chapter());
                    return false;
                },
            }
            i = i + 1;
        }
        true
    }

    /// Asks the display for page `index` of frame `i`.
    pub(crate) fn set_frame_page(&mut self, i: usize, index: usize) -> (r: bool)
        requires
            i < old(self)@.frames.len(),
            old(self)@.frames[i as int].is_chapter(),
        ensures
            ({
                let c = old(self)@.frames[i as int].contents();
                &&& r == old(self)@.display.set_page_succeeds(c, index)
                &&& final(self)@ == old(self)@.with_frame(i as int, moved_to(c, old(self)@.display.set_offset(c, index)))
            }),
    {
        let ghost old_frames = self@.frames;
        let r = match &mut self.section_frames[i] {
            SectionLoadProgress::Loading(s) => self.display.set_page(index, s),
            SectionLoadProgress::Loaded(s) => self.display.set_page(index, s),
            SectionLoadProgress::Waiting => false,
        };
        proof {
            let c = old_frames[i as int].contents();
            assert(self@.frames =~= old_frames.update(
                i as int,
                old_frames[i as int].with_contents(moved_to(c, self.display.set_offset(c, index))),
            ));
        }
        r
    }

    /// Frame `i` one page on within the frame, if the display can.
    fn frame_next_page(&mut self, i: usize) -> (r: bool)
        requires
            i < old(self)@.frames.len(),
            old(self)@.frames[i as int].is_chapter(),
            old(self)@.frames[i as int].contents().page_offset < usize::MAX,
        ensures
            ({
                let c = old(self)@.frames[i as int].contents();
                &&& r == (old(self)@.display.next_offset(c) is Some)
                &&& final(self)@ == old(self)@.with_frame(i as int, moved_to(c, old(self)@.display.next_offset(c)))
            }),
    {
        let ghost old_frames = self@.frames;
        let r = match &mut self.section_frames[i] {
            SectionLoadProgress::Loading(s) => self.display.next_page(s),
            SectionLoadProgress::Loaded(s) => self.display.next_page(s),
            SectionLoadProgress::Waiting => false,
        };
        proof {
            let c = old_frames[i as int].contents();
            assert(self@.frames =~= old_frames.update(
                i as int,
                old_frames[i as int].with_contents(moved_to(c, self.display.next_offset(c))),
            ));
        }
        r
    }

    /// Frame `i` one page back within the frame, if the display can.
    fn frame_previous_page(&mut self, i: usize) -> (r: bool)
        requires
            i < old(self)@.frames.len(),
            old(self)@.frames[i as int].is_chapter(),
            old(self)@.frames[i as int].contents().page_offset < usize::MAX,
        ensures
            ({
                let c = old(self)@.frames[i as int].contents();
                &&& r == (old(self)@.display.previous_offset(c) is Some)
                &&& final(self)@ == old(self)@.with_frame(i as int, moved_to(c, old(self)@.display.previous_offset(c)))
            }),
    {
        let ghost old_frames = self@.frames;
        let r = match &mut self.section_frames[i] {
            SectionLoadProgress::Loading(s) => self.display.previous_page(s),
            SectionLoadProgress::Loaded(s) => self.display.previous_page(s),
            SectionLoadProgress::Waiting => false,
        };
        proof {
            let c = old_frames[i as int].contents();
            assert(self@.frames =~= old_frames.update(
                i as int,
                old_frames[i as int].with_contents(moved_to(c, self.display.previous_offset(c))),
            ));
        }
        r
    }

    /// Frame `i` on its last page.
    pub(crate) fn frame_last_page(&mut self, i: usize)
        requires
            i < old(self)@.frames.len(),
            old(self)@.frames[i as int].is_chapter(),
        ensures
            ({
                let c = old(self)@.frames[i as int].contents();
                final(self)@ == old(self)@.with_frame(i as int, moved_to(c, old(self)@.display.last_page_offset(c)))
            }),
    {
        let ghost old_frames = self@.frames;
        match &mut self.section_frames[i] {
            SectionLoadProgress::Loading(s) => self.display.set_last_page(s),
            SectionLoadProgress::Loaded(s) => self.display.set_last_page(s),
            SectionLoadProgress::Waiting => {},
        }
        proof {
            let c = old_frames[i as int].contents();
            assert(self@.frames =~= old_frames.update(
                i as int,
                old_frames[i as int].with_contents(moved_to(c, self.display.last_page_offset(c))),
            ));
        }
    }

    /// Goes to global page `new_total_page`: the viewed chapter becomes the
    /// index of the loaded frame that holds the page, and that frame is put
    /// on the page. Nothing changes when no frame holds it.
    pub fn set_page(&mut self, new_total_page: usize) -> (r: bool)
        ensures
            (r, final(self)@) == old(self)@.set_page_spec(new_total_page),
    {
        let ghost frames = self@.frames;
        let mut i: usize = 0;
        while i < self.section_frames.len()
            invariant
                i <= self.section_frames@.len(),
                self@ == old(self)@,
                frames == self@.frames,
                page_frame_from(frames, new_total_page as int, 0) == page_frame_from(frames, new_total_page as int, i as int),
            decreases self.section_frames@.len() - i,
        {
            match self.section_frames[i].as_loaded() {
                Some(section) => {
                    if new_total_page < section.gpi {
                        return false;
                    }
                    let local_page = new_total_page - section.gpi;
                    if local_page < section.page_count() {
                        self.viewing_section = i;
                        self.set_frame_page(i, local_page);
                        self.actions.push(ReaderAction::ShowPage { frame: i });
                        return true;
                    }
                },
                None => {},
            }
            i = i + 1;
        }
        false
    }
}


pub proof fn lemma_with_same_contents(v: ReaderView, i: int)
    requires
        0 <= i < v.frames.len(),
        v.frames[i].is_chapter(),
    ensures
        v.with_frame(i, v.frames[i].contents()) == v,
{
    assert(v.frames[i].with_contents(v.frames[i].contents()) == v.frames[i]);
    assert(v.frames.update(i, v.frames[i]) =~= v.frames);
}

impl Reader {
    /// Puts the current frame, if any, on its first page and starts
    /// viewing it.
    fn start_current_frame(&mut self)
        ensures
            final(self)@ == old(self)@.start_frame(),
    {
        if self.get_current_frame().is_some() {
            let j = self.get_current_frame_index();
            proof {
                lemma_first_frame_with(self@.frames, self@.viewing_hash()->0, 0);
            }
            let ok = self.set_frame_page(j, 0);
            if ok {
                self.actions.push(ReaderAction::ShowPage { frame: j });
            }
            self.actions.push(ReaderAction::StartViewing { frame: j });
        }
    }

    /// Puts the current frame, if any, on its last page and starts viewing
    /// it.
    fn end_current_frame(&mut self)
        ensures
            final(self)@ == old(self)@.end_frame(),
    {
        let count = match self.get_current_frame() {
            Some(f) => f.page_count(),
            None => {
                return;
            },
        };
        let j = self.get_current_frame_index();
        proof {
            lemma_first_frame_with(self@.frames, self@.viewing_hash()->0, 0);
        }
        self.frame_last_page(j);
        if self.display.is_scroll() || count > 0 {
            self.actions.push(ReaderAction::ShowLastPage { frame: j });
        }
        self.actions.push(ReaderAction::StartViewing { frame: j });
    }

    /// One page forward: within the current frame when it has a next page,
    /// otherwise onto the first page of the next frame. Returns whether the
    /// page changed.
    pub fn next_page(&mut self) -> (r: bool)
        requires
            old(self)@.wf(),
        ensures
            (r, final(self)@) == old(self)@.next_page_spec(),
    {
        let section_count = self.section_frames.len();
        if self.get_current_frame().is_none() {
            return false;
        }
        let frame_index = self.get_current_frame_index();
        let ghost v0 = self@;
        proof {
            lemma_first_frame_with(v0.frames, v0.viewing_hash()->0, 0);
        }
        if self.frame_next_page(frame_index) {
            self.actions.push(ReaderAction::ShowPage { frame: frame_index });
            return true;
        }
        proof {
            lemma_with_same_contents(v0, frame_index as int);
        }
        self.actions.push(ReaderAction::Transition { frame: frame_index, amount: 0 });
        if frame_index + 1 != section_count {
            self.actions.push(ReaderAction::StopViewing { frame: frame_index });
            match self.get_frame_start_and_end_sections(frame_index + 1) {
                Some((start, _)) => {
                    self.viewing_section = start;
                    self.start_current_frame();
                    return true;
                },
                None => {
                    return false;
                },
            }
        }
        false
    }

    /// One page back: within the current frame when it has a previous
    /// page, otherwise onto the last page of the previous frame. Returns
    /// whether the page changed.
    pub fn previous_page(&mut self) -> (r: bool)
        requires
            old(self)@.wf(),
        ensures
            (r, final(self)@) == old(self)@.previous_page_spec(),
    {
        if self.get_current_frame().is_none() {
            return false;
        }
        let frame_index = self.get_current_frame_index();
        let ghost v0 = self@;
        proof {
            lemma_first_frame_with(v0.frames, v0.viewing_hash()->0, 0);
        }
        if self.frame_previous_page(frame_index) {
            self.actions.push(ReaderAction::ShowPage { frame: frame_index });
            return true;
        }
        proof {
            lemma_with_same_contents(v0, frame_index as int);
        }
        self.actions.push(ReaderAction::Transition { frame: frame_index, amount: 0 });
        if frame_index != 0 {
            self.actions.push(ReaderAction::StopViewing { frame: frame_index });
            match self.get_frame_start_and_end_sections(frame_index - 1) {
                Some((_, end)) => {
                    self.viewing_section = end;
                    self.end_current_frame();
                    return true;
                },
                None => {
                    return false;
                },
            }
        }
        false
    }
}


/// The number of pages a loaded frame gets: as many as the book has
/// chapters for books of images, otherwise the count measured for the
/// frame, and at least one.
pub open spec fn frame_page_count(counts: Seq<usize>, is_comic_book: bool, chapter_count: nat, k: int) -> nat {
    if is_comic_book {
        chapter_count
    } else if counts[k] == 0 {
        1
    } else {
        counts[k] as nat
    }
}

/// The number of pages of the loaded frames before frame `i`.
pub open spec fn pages_before(
    frames: Seq<FrameView>,
    counts: Seq<usize>,
    is_comic_book: bool,
    chapter_count: nat,
    i: int,
) -> nat
    decreases i,
{
    if i <= 0 {
        0
    } else if frames[i - 1] is Loaded {
        pages_before(frames, counts, is_comic_book, chapter_count, i - 1) + frame_page_count(
            counts,
            is_comic_book,
            chapter_count,
            i - 1,
        )
    } else {
        pages_before(frames, counts, is_comic_book, chapter_count, i - 1)
    }
}

pub proof fn lemma_pages_before_monotone(
    frames: Seq<FrameView>,
    counts: Seq<usize>,
    is_comic_book: bool,
    chapter_count: nat,
    i: int,
    j: int,
)
    requires
        i <= j,
    ensures
        pages_before(frames, counts, is_comic_book, chapter_count, i) <= pages_before(
            frames,
            counts,
            is_comic_book,
            chapter_count,
            j,
        ),
    decreases j - i,
{
    if i < j {
        lemma_pages_before_monotone(frames, counts, is_comic_book, chapter_count, i, j - 1);
    }
}

/// The pages of frame `k` when it has `n` of them.
pub open spec fn frame_pages(k: int, n: nat) -> Seq<CachedPage> {
    Seq::new(n, |p: int| CachedPage { chapter: k as usize, chapter_local_page: p as usize })
}

impl ReaderView {
    /// The reader after viewing chapter `n`: when the first frame with the
    /// chapter's header hash is loaded, the viewed frame stops being viewed
    /// and that frame is started on its first page.
    pub open spec fn set_section_spec(self, n: usize) -> (bool, ReaderView) {
        if n < self.chapters.len() {
            let i = first_frame_with(self.frames, self.chapters[n as int].1, 0);
            if i < self.frames.len() {
                let s = match self.current_frame() {
                    Some(k) => self.with_action(ReaderAction::StopViewing { frame: k as usize }),
                    None => self,
                };
                if self.frames[i] is Loaded {
                    (true, s.with_viewing(n).start_frame())
                } else {
                    (false, s)
                }
            } else {
                (false, self)
            }
        } else {
            (false, self)
        }
    }

    /// Whether some frame already shows chapter `value`.
    pub open spec fn shows_chapter(self, value: usize) -> bool {
        exists|k: int| 0 <= k < self.frames.len() && #[trigger] self.frames[k].is_chapter()
            && self.frames[k].contents().chapters.contains(value)
    }

    /// The reader after asking for chapter `chapter` to be loaded: a chapter
    /// that no frame shows yet joins the last frame when that frame has its
    /// header hash and is still loading; when the last frame has another
    /// hash a new frame is made for it.
    pub open spec fn load_section_spec(self, chapter: usize) -> ReaderView {
        if chapter >= self.chapters.len() {
            self
        } else {
            let value = self.chapters[chapter as int].0;
            let h = self.chapters[chapter as int].1;
            if self.shows_chapter(value) {
                self
            } else {
                let use_last = self.frames.len() > 0 && self.frames.last().is_chapter()
                    && self.frames.last().contents().header_hash == h;
                let s = if use_last {
                    self
                } else {
                    ReaderView {
                        frames: self.frames.push(
                            FrameView::Loading(
                                SectionView {
                                    chapters: Seq::empty(),
                                    pages: Seq::empty(),
                                    gpi: 0,
                                    page_offset: 0,
                                    header_hash: h,
                                },
                            ),
                        ),
                        ..self
                    }.with_action(ReaderAction::CreateFrame { frame: self.frames.len() as usize })
                };
                let last = s.frames.last();
                if last is Loading {
                    s.with_frame(
                        s.frames.len() - 1,
                        SectionView { chapters: last.contents().chapters.push(value), ..last.contents() },
                    )
                } else {
                    s
                }
            }
        }
    }

    /// The reader after its loaded frames are given their pages: each
    /// starts where the loaded frames before it end, and has
    /// `frame_page_count` pages.
    pub open spec fn cached_pages_spec(self, counts: Seq<usize>, is_comic_book: bool) -> ReaderView {
        ReaderView {
            frames: Seq::new(
                self.frames.len(),
                |k: int|
                    if self.frames[k] is Loaded {
                        FrameView::Loaded(
                            SectionView {
                                pages: frame_pages(k, frame_page_count(counts, is_comic_book, self.chapters.len(), k)),
                                gpi: pages_before(self.frames, counts, is_comic_book, self.chapters.len(), k) as usize,
                                ..self.frames[k].contents()
                            },
                        )
                    } else {
                        self.frames[k]
                    },
            ),
            ..self
        }
    }
}

impl Reader {
    /// Whether frame `i` is a chapter frame with header hash `hash`.
    fn frame_has_hash(&self, i: usize, hash: &String) -> (r: bool)
        requires
            i < self@.frames.len(),
        ensures
            r == (self@.frames[i as int].is_chapter() && self@.frames[i as int].contents().header_hash == hash@),
    {
        match self.section_frames[i].as_chapter() {
            Some(chap) => chap.header_hash == *hash,
            None => false,
        }
    }

    /// Views chapter `next_section`, when the first frame with its header
    /// hash is loaded. Returns whether the chapter is now viewed.
    pub fn set_section(&mut self, next_section: usize) -> (r: bool)
        ensures
            (r, final(self)@) == old(self)@.set_section_spec(next_section),
    {
        if next_section >= self.cached_sections.len() {
            return false;
        }
        let ghost v0 = self@;
        let hash = &self.cached_sections[next_section].header_hash;
        let mut i: usize = 0;
        while i < self.section_frames.len() && !self.frame_has_hash(i, hash)
            invariant
                i <= self.section_frames@.len(),
                self@ == v0,
                next_section < self.cached_sections@.len(),
                hash@ == v0.chapters[next_section as int].1,
                first_frame_with(v0.frames, v0.chapters[next_section as int].1, 0) == first_frame_with(
                    v0.frames,
                    v0.chapters[next_section as int].1,
                    i as int,
                ),
            decreases self.section_frames@.len() - i,
        {
            i = i + 1;
        }
        proof {
            lemma_first_frame_with(v0.frames, v0.chapters[next_section as int].1, 0);
        }
        if i >= self.section_frames.len() {
            return false;
        }
        if self.get_current_frame().is_some() {
            let k = self.get_current_frame_index();
            self.actions.push(ReaderAction::StopViewing { frame: k });
        }
        if self.section_frames[i].is_loaded() {
            self.viewing_section = next_section;
            self.start_current_frame();
            true
        } else {
            false
        }
    }

    /// Makes sure chapter `chapter` is in a frame: see `load_section_spec`.
    pub fn load_section(&mut self, chapter: usize)
        ensures
            final(self)@ == old(self)@.load_section_spec(chapter),
    {
        if self.cached_sections.len() <= chapter {
            return;
        }
        let value = self.cached_sections[chapter].value;
        let ghost v0 = self@;
        let mut k: usize = 0;
        while k < self.section_frames.len()
            invariant
                k <= self.section_frames@.len(),
                self@ == v0,
                chapter < v0.chapters.len(),
                value == v0.chapters[chapter as int].0,
                forall|j: int| 0 <= j < k ==> !(#[trigger] v0.frames[j].is_chapter()
                    && v0.frames[j].contents().chapters.contains(value)),
            decreases self.section_frames@.len() - k,
        {
            let shows = match self.section_frames[k].as_chapter() {
                Some(sec) => sec.has_chapter(value),
                None => false,
            };
            if shows {
                assert(v0.frames[k as int].is_chapter() && v0.frames[k as int].contents().chapters.contains(value));
                return;
            }
            k = k + 1;
        }
        let section_index = self.section_frames.len();
        let use_last = if section_index > 0 {
            match self.section_frames[section_index - 1].as_chapter() {
                Some(last) => last.header_hash == self.cached_sections[chapter].header_hash,
                None => false,
            }
        } else {
            false
        };
        if !use_last {
            let hash = self.cached_sections[chapter].header_hash.clone();
            self.section_frames.push(SectionLoadProgress::Loading(SectionContents::new(hash)));
            self.actions.push(ReaderAction::CreateFrame { frame: section_index });
            proof {
                assert(self@.frames =~= v0.frames.push(self.section_frames@.last()@));
            }
        }
        let ghost v1 = self@;
        let last = self.section_frames.len() - 1;
        match &mut self.section_frames[last] {
            SectionLoadProgress::Loading(contents) => {
                contents.append_chapter(value);
            },
            _ => {},
        }
        proof {
            let lf = v1.frames.last();
            if lf is Loading {
                assert(self@.frames =~= v1.frames.update(
                    last as int,
                    lf.with_contents(SectionView { chapters: lf.contents().chapters.push(value), ..lf.contents() }),
                ));
            } else {
                assert(self@.frames =~= v1.frames);
            }
        }
    }

    /// Gives every loaded frame its pages: `page_counts[k]` is the page
    /// count measured for frame `k` (unused for books of images, whose
    /// frames get one page per chapter).
    pub fn update_cached_pages(&mut self, page_counts: &Vec<usize>, is_comic_book: bool)
        requires
            page_counts@.len() == old(self)@.frames.len(),
            pages_before(
                old(self)@.frames,
                page_counts@,
                is_comic_book,
                old(self)@.chapters.len(),
                old(self)@.frames.len() as int,
            ) <= usize::MAX,
        ensures
            final(self)@ == old(self)@.cached_pages_spec(page_counts@, is_comic_book),
    {
        let ghost v0 = self@;
        let ghost n = v0.chapters.len();
        let mut total: usize = 0;
        let mut chapter: usize = 0;
        while chapter < self.section_frames.len()
            invariant
                chapter <= self.section_frames@.len(),
                self.section_frames@.len() == v0.frames.len(),
                page_counts@.len() == v0.frames.len(),
                n == self.cached_sections@.len(),
                total == pages_before(v0.frames, page_counts@, is_comic_book, n, chapter as int),
                pages_before(v0.frames, page_counts@, is_comic_book, n, v0.frames.len() as int) <= usize::MAX,
                self@ == (ReaderView { frames: self@.frames, ..v0 }),
                forall|k: int| 0 <= k < chapter ==> #[trigger] self@.frames[k]
                    == v0.cached_pages_spec(page_counts@, is_comic_book).frames[k],
                forall|k: int| chapter <= k < v0.frames.len() ==> #[trigger] self@.frames[k] == v0.frames[k],
            decreases self.section_frames@.len() - chapter,
        {
            proof {
                lemma_pages_before_monotone(v0.frames, page_counts@, is_comic_book, n, chapter + 1, v0.frames.len() as int);
            }
            assert(self@.frames[chapter as int] == v0.frames[chapter as int]);
            if self.section_frames[chapter].is_loaded() {
                let count = if is_comic_book {
                    self.cached_sections.len()
                } else if page_counts[chapter] == 0 {
                    1
                } else {
                    page_counts[chapter]
                };
                let mut items: Vec<CachedPage> = Vec::new();
                let mut p: usize = 0;
                while p < count
                    invariant
                        p <= count,
                        items@ == frame_pages(chapter as int, count as nat).take(p as int),
                    decreases count - p,
                {
                    items.push(CachedPage { chapter, chapter_local_page: p });
                    p = p + 1;
                    proof {
                        assert(items@ =~= frame_pages(chapter as int, count as nat).take(p as int));
                    }
                }
                assert(items@ =~= frame_pages(chapter as int, count as nat));
                let ghost before = self@.frames;
                assert(count == frame_page_count(page_counts@, is_comic_book, n, chapter as int));
                assert(pages_before(v0.frames, page_counts@, is_comic_book, n, chapter + 1) == total + count);
                match &mut self.section_frames[chapter] {
                    SectionLoadProgress::Loaded(ele) => {
                        ele.gpi = total;
                        ele.set_cached_pages(items);
                    },
                    _ => {},
                }
                proof {
                    assert(self@.frames =~= before.update(
                        chapter as int,
                        v0.cached_pages_spec(page_counts@, is_comic_book).frames[chapter as int],
                    ));
                }
                total = total + count;
            } else {
                assert(pages_before(v0.frames, page_counts@, is_comic_book, n, chapter + 1) == total);
            }
            chapter = chapter + 1;
        }
        proof {
            assert(self@.frames =~= v0.cached_pages_spec(page_counts@, is_comic_book).frames);
        }
    }
}

} // verus!

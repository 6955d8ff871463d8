//! What the reader does for each message it gets: page and section
//! changes asked for by keys, clicks, drags and scrolls.

use vstd::prelude::*;

use crate::layout::{moved_to, LayoutDisplay, LayoutType, PageMovement};
use crate::overlay::{abs, DragType};
use crate::progress::{Progression, ProgressUpload, ReaderLoadType};
use crate::reader::{
    Chapter,
    first_chapter_with, first_frame_with, lemma_first_chapter_with, lemma_first_frame_with, Reader,
    ReaderAction, ReaderView,
};

verus! {

/// Index of the last chapter below `n` with header hash `h`, if any.
pub open spec fn last_chapter_with(sections: Seq<Seq<char>>, h: Seq<char>, n: int) -> Option<int>
    decreases n,
{
    if n <= 0 || n > sections.len() {
        None
    } else if sections[n - 1] == h {
        Some(n - 1)
    } else {
        last_chapter_with(sections, h, n - 1)
    }
}

impl ReaderView {
    /// The same reader with its drag reset.
    pub open spec fn undragged(self) -> ReaderView {
        ReaderView { drag_distance: 0, ..self }
    }

    /// The reader after asking for the next frame's chapters.
    pub open spec fn next_section_spec(self) -> (bool, ReaderView) {
        let new_index = self.current_frame_index() + 1;
        if new_index == self.frames.len() {
            (false, self)
        } else {
            let target = if self.frames[new_index].is_chapter() {
                let k = first_chapter_with(self.hashes(), self.frames[new_index].contents().header_hash, 0);
                if k < self.hashes().len() { k as usize } else { new_index as usize }
            } else {
                new_index as usize
            };
            (true, self.set_section_spec(target).1.with_action(ReaderAction::UploadProgress).undragged())
        }
    }

    /// The reader after asking for the previous frame's chapters.
    pub open spec fn previous_section_spec(self) -> (bool, ReaderView) {
        if self.current_frame_index() == 0 {
            (false, self)
        } else {
            let new_index = self.current_frame_index() - 1;
            let target = if self.frames[new_index].is_chapter() {
                match last_chapter_with(self.hashes(), self.frames[new_index].contents().header_hash, self.hashes().len() as int) {
                    Some(k) => k as usize,
                    None => new_index as usize,
                }
            } else {
                new_index as usize
            };
            (true, self.set_section_spec(target).1.with_action(ReaderAction::UploadProgress).undragged())
        }
    }

    /// The reader after asking for chapter `new_section` (kept below
    /// `chapter_count`). It always redraws.
    pub open spec fn on_set_section_spec(self, new_section: usize, chapter_count: usize) -> (bool, ReaderView) {
        let target = if new_section < chapter_count { new_section } else if chapter_count == 0 { 0 } else { (chapter_count - 1) as usize };
        let (ok, s) = self.set_section_spec(target);
        (true, if ok { s.with_action(ReaderAction::UploadProgress) } else { s })
    }

    /// The reader after asking for global page `new_page` (kept below the
    /// page count); scrolled books go to chapter `new_page` instead.
    pub open spec fn on_set_page_spec(self, new_page: usize, chapter_count: usize) -> (bool, ReaderView) {
        if self.display is VerticalScroll {
            self.on_set_section_spec(new_page, chapter_count)
        } else {
            let count = self.page_count_of(chapter_count);
            let last = if count == 0 { 0 } else { count - 1 };
            let target = if new_page < last { new_page } else { last as usize };
            self.set_page_spec(target)
        }
    }

    /// Whether a step forward is blocked by being at the end (or, for
    /// right-to-left images, the start) of the book.
    pub open spec fn next_blocked(self, chapter_count: usize) -> bool {
        match self.display {
            LayoutDisplay::Image(v) => match v.movement {
                PageMovement::LeftToRight => self.page_pos() + 1 == self.page_count_of(chapter_count),
                PageMovement::RightToLeft => self.page_pos() == 0,
            },
            _ => self.page_pos() + 1 == self.page_count_of(chapter_count),
        }
    }

    /// Whether a step back is blocked.
    pub open spec fn previous_blocked(self, chapter_count: usize) -> bool {
        match self.display {
            LayoutDisplay::Image(v) => match v.movement {
                PageMovement::LeftToRight => self.page_pos() == 0,
                PageMovement::RightToLeft => self.page_pos() + 1 == self.page_count_of(chapter_count),
            },
            _ => self.page_pos() == 0,
        }
    }

    /// The reader after the "next page" message.
    pub open spec fn on_next_page_spec(self, chapter_count: usize) -> (bool, ReaderView) {
        if self.display is VerticalScroll {
            self.next_section_spec()
        } else if self.next_blocked(chapter_count) {
            (false, self)
        } else {
            (true, self.next_page_spec().1.undragged())
        }
    }

    /// The reader after the "previous page" message.
    pub open spec fn on_previous_page_spec(self, chapter_count: usize) -> (bool, ReaderView) {
        if self.display is VerticalScroll {
            self.previous_section_spec()
        } else if self.previous_blocked(chapter_count) {
            (false, self)
        } else {
            (true, self.previous_page_spec().1.undragged())
        }
    }
}

impl Reader {
    /// Goes to the chapters of the next frame. Returns whether there is a
    /// next frame.
    pub fn on_next_section(&mut self) -> (r: bool)
        requires
            old(self)@.frames.len() > 0,
        ensures
            (r, final(self)@) == old(self)@.next_section_spec(),
    {
        proof {
            lemma_first_frame_with(self@.frames, self@.viewing_hash()->0, 0);
        }
        let index = self.get_current_frame_index();
        let len = self.section_frames.len();
        assert(index < len);
        let new_index = index + 1;
        if new_index == self.section_frames.len() {
            return false;
        }
        let ghost hs = self@.hashes();
        let target = match self.section_frames[new_index].as_chapter() {
            Some(sec) => {
                let ghost h = sec.header_hash@;
                proof {
                    lemma_first_chapter_with(hs, h, 0);
                }
                let mut k: usize = 0;
                while k < self.cached_sections.len() && self.cached_sections[k].header_hash != sec.header_hash
                    invariant
                        k <= self.cached_sections@.len(),
                        hs == self@.hashes(),
                        h == sec.header_hash@,
                        first_chapter_with(hs, h, 0) == first_chapter_with(hs, h, k as int),
                    decreases self.cached_sections@.len() - k,
                {
                    k = k + 1;
                }
                if k < self.cached_sections.len() {
                    k
                } else {
                    new_index
                }
            },
            None => new_index,
        };
        self.set_section(target);
        self.actions.push(ReaderAction::UploadProgress);
        self.drag_distance = 0;
        true
    }

    /// Goes to the chapters of the previous frame. Returns whether there is
    /// a previous frame.
    pub fn on_previous_section(&mut self) -> (r: bool)
        ensures
            (r, final(self)@) == old(self)@.previous_section_spec(),
    {
        let index = self.get_current_frame_index();
        if index == 0 {
            return false;
        }
        let new_index = index - 1;
        proof {
            lemma_first_frame_with(self@.frames, self@.viewing_hash()->0, 0);
        }
        let ghost hs = self@.hashes();
        let target = match self.section_frames[new_index].as_chapter() {
            Some(sec) => {
                let ghost h = sec.header_hash@;
                let mut n: usize = self.cached_sections.len();
                while n > 0 && self.cached_sections[n - 1].header_hash != sec.header_hash
                    invariant
                        n <= self.cached_sections@.len(),
                        hs == self@.hashes(),
                        h == sec.header_hash@,
                        last_chapter_with(hs, h, hs.len() as int) == last_chapter_with(hs, h, n as int),
                    decreases n,
                {
                    n = n - 1;
                }
                if n > 0 {
                    n - 1
                } else {
                    new_index
                }
            },
            None => new_index,
        };
        self.set_section(target);
        self.actions.push(ReaderAction::UploadProgress);
        self.drag_distance = 0;
        true
    }

    /// Asks for chapter `new_section`, kept below `chapter_count`.
    pub fn on_set_section(&mut self, new_section: usize, chapter_count: usize) -> (r: bool)
        ensures
            (r, final(self)@) == old(self)@.on_set_section_spec(new_section, chapter_count),
    {
        let target = if new_section < chapter_count { new_section } else { chapter_count.saturating_sub(1) };
        if self.set_section(target) {
            self.actions.push(ReaderAction::UploadProgress);
        }
        true
    }

    /// Asks for global page `new_page`, kept below the page count.
    pub fn on_set_page(&mut self, new_page: usize, chapter_count: usize) -> (r: bool)
        requires
            0 <= old(self)@.page_count_of(chapter_count) <= usize::MAX,
        ensures
            (r, final(self)@) == old(self)@.on_set_page_spec(new_page, chapter_count),
    {
        match self.display.as_type() {
            LayoutType::Scroll => self.on_set_section(new_page, chapter_count),
            _ => {
                let last = self.page_count(chapter_count).saturating_sub(1);
                let target = if new_page < last { new_page } else { last };
                self.set_page(target)
            },
        }
    }

    /// The "next page" message: a step forward unless the book is at its
    /// end; scrolled books go to the next frame instead (a scrolled book
    /// needs a frame). Without frames nothing but the drag changes.
    pub fn on_next_page(&mut self, chapter_count: usize) -> (r: bool)
        requires
            old(self)@.wf(),
            old(self)@.display is VerticalScroll ==> old(self)@.frames.len() > 0,
            old(self)@.page_pos() < usize::MAX,
            0 <= old(self)@.page_count_of(chapter_count) <= usize::MAX,
        ensures
            (r, final(self)@) == old(self)@.on_next_page_spec(chapter_count),
            old(self)@.frames.len() == 0 ==> final(self)@ == old(self)@.undragged() || final(self)@ == old(self)@,
    {
        if self.display.is_scroll() {
            return self.on_next_section();
        }
        let pos = self.current_page_pos();
        let count = self.page_count(chapter_count);
        let blocked = match self.display.get_movement() {
            PageMovement::RightToLeft => match self.display.as_type() {
                LayoutType::Image => pos == 0,
                _ => pos + 1 == count,
            },
            PageMovement::LeftToRight => pos + 1 == count,
        };
        if blocked {
            return false;
        }
        self.next_page();
        self.drag_distance = 0;
        true
    }

    /// The "previous page" message: a step back unless the book is at its
    /// start; scrolled books go to the previous frame instead.
    pub fn on_previous_page(&mut self, chapter_count: usize) -> (r: bool)
        requires
            old(self)@.wf(),
            old(self)@.page_pos() < usize::MAX,
            0 <= old(self)@.page_count_of(chapter_count) <= usize::MAX,
        ensures
            (r, final(self)@) == old(self)@.on_previous_page_spec(chapter_count),
    {
        if self.display.is_scroll() {
            return self.on_previous_section();
        }
        let pos = self.current_page_pos();
        let count = self.page_count(chapter_count);
        let blocked = match self.display.get_movement() {
            PageMovement::RightToLeft => match self.display.as_type() {
                LayoutType::Image => pos + 1 == count,
                _ => pos == 0,
            },
            PageMovement::LeftToRight => pos == 0,
        };
        if blocked {
            return false;
        }
        self.previous_page();
        self.drag_distance = 0;
        true
    }
}


/// Integer division that rounds toward zero, as Rust's `/` does.
pub open spec fn trunc_div(a: int, b: int) -> int {
    let q = abs(a) / abs(b);
    if (a < 0) != (b < 0) { -q } else { q }
}

fn magnitude(a: isize) -> (r: usize)
    ensures
        r == abs(a as int),
{
    if a < 0 {
        ((-(a + 1)) as usize) + 1
    } else {
        a as usize
    }
}

/// `a / b` rounded toward zero.
pub fn div_trunc(a: isize, b: isize) -> (r: isize)
    requires
        b != 0,
        !(a == isize::MIN && b == -1),
    ensures
        r == trunc_div(a as int, b as int),
{
    let ua = magnitude(a);
    let ub = magnitude(b);
    let q = ua / ub;
    assert(q <= ua) by (nonlinear_arith)
        requires
            q == ua / ub,
            ub >= 1,
    ;
    if (a < 0) != (b < 0) {
        if q == 0 {
            0
        } else {
            -((q - 1) as isize) - 1
        }
    } else {
        assert(q <= isize::MAX) by (nonlinear_arith)
            requires
                q == ua / ub,
                ub >= 1,
                (a < 0) == (b < 0),
                ua == abs(a as int),
                ub == abs(b as int),
                !(a == isize::MIN && b == -1),
        {
            if a == isize::MIN {
                assert(ub >= 2);
                vstd::arithmetic::div_mod::lemma_div_is_ordered_by_denominator(ua as int, 2, ub as int);
            }
        }
        q as isize
    }
}

/// What a released press asks of the reader.
#[derive(Clone, Copy, Debug, PartialEq, Eq, Structural)]
pub enum ReleaseOutcome {
    /// The press had been held: nothing happens and nothing is redrawn.
    Ignored,
    /// Go one page back (as the "previous page" message).
    PreviousPage,
    /// Go one page on (as the "next page" message).
    NextPage,
    /// Click the link under the press, if there is one; if there is none,
    /// pass the release on to the page.
    ClickLink,
    /// Pass the release on to the page.
    Emit,
    /// Nothing more to do.
    Done,
}

/// A drag of more than this many pixels turns the page.
pub const PAGE_CHANGE_DRAG_AMOUNT: usize = 200;

impl ReaderView {
    /// The reader after dragging stops: the current frame, if any, goes
    /// back to its page and the drag is reset.
    pub open spec fn drag_reset(self) -> ReaderView {
        match self.current_frame() {
            Some(k) => self.with_action(ReaderAction::Transition { frame: k as usize, amount: 0 }).undragged(),
            None => self,
        }
    }

    /// What releasing a press does, and the reader after it.
    /// `clickable_size` is the width of the strips at the sides of the
    /// pages that turn the page; `instant` is how long the press lasted in
    /// milliseconds; `pointer` tells whether the pointer is over a link.
    pub open spec fn release_spec(self, x: i32, width: i32, clickable_size: i32, instant: Option<u64>, pointer: bool) -> (
        ReleaseOutcome,
        ReaderView,
    ) {
        if self.on_held_toggle {
            (ReleaseOutcome::Ignored, ReaderView { on_held_toggle: false, ..self })
        } else {
            let d = self.drag_distance;
            if d != 0 {
                if abs(d as int) > PAGE_CHANGE_DRAG_AMOUNT {
                    (if d > 0 { ReleaseOutcome::PreviousPage } else { ReleaseOutcome::NextPage }, self)
                } else {
                    (ReleaseOutcome::Done, self.drag_reset())
                }
            } else {
                match instant {
                    Some(ms) => if !(self.display is VerticalScroll) && ms < 800 {
                        if pointer {
                            if ms < 500 && self.current_frame() is Some {
                                (ReleaseOutcome::ClickLink, self)
                            } else {
                                (ReleaseOutcome::Emit, self)
                            }
                        } else if x <= clickable_size {
                            (ReleaseOutcome::PreviousPage, self)
                        } else if (x as i64) >= (width as i64) - (clickable_size as i64) {
                            (ReleaseOutcome::NextPage, self)
                        } else {
                            (ReleaseOutcome::Emit, self)
                        }
                    } else {
                        (ReleaseOutcome::Emit, self)
                    },
                    None => (ReleaseOutcome::Emit, self),
                }
            }
        }
    }

    /// The reader while the pages are dragged: right drags pull the
    /// previous page in, left drags the next one.
    pub open spec fn drag_spec(self, type_of: DragType) -> ReaderView {
        let d = match type_of {
            DragType::Right(v) => Some(v as isize),
            DragType::Left(v) => Some(-(v as isize) as isize),
            _ => None,
        };
        match d {
            Some(d) => {
                let s = ReaderView { drag_distance: d, ..self };
                match s.current_frame() {
                    Some(k) => s.with_action(ReaderAction::Transition { frame: k as usize, amount: d }),
                    None => s,
                }
            },
            None => self,
        }
    }

    /// The reader after a scroll that goes past the start (`up`) or the
    /// end of a scrolled frame: five such scrolls of a fifth of the height
    /// go back a page at the start and on a page at the end; fewer are
    /// reset after a pause.
    pub open spec fn scroll_change_spec(self, up: bool, height: i32) -> ReaderView {
        let h = trunc_div(height as int, 5);
        if up {
            if self.viewing_section != 0 {
                let d = self.drag_distance + h;
                if trunc_div(d, h) == 5 {
                    self.undragged().previous_page_spec().1
                } else {
                    ReaderView { drag_distance: d as isize, ..self }.with_action(ReaderAction::ScheduleDragReset)
                }
            } else {
                self
            }
        } else {
            if self.viewing_section + 1 != self.chapters.len() {
                let d = self.drag_distance - h;
                if trunc_div(abs(d), h) == 5 {
                    self.undragged().next_page_spec().1
                } else {
                    ReaderView { drag_distance: d as isize, ..self }.with_action(ReaderAction::ScheduleDragReset)
                }
            } else {
                self
            }
        }
    }

    /// The reader after a pause in scrolling: three or more fifths of the
    /// height scrolled change the page, less is dropped.
    pub open spec fn drag_pause_spec(self, height: i32) -> ReaderView {
        let h = trunc_div(height as int, 5);
        if trunc_div(abs(self.drag_distance as int), h) >= 3 {
            if self.drag_distance > 0 {
                self.undragged().previous_page_spec().1
            } else {
                self.undragged().next_page_spec().1
            }
        } else {
            self.undragged()
        }
    }
}

/// Whether the frames and chapters of two readers agree.
pub open spec fn same_book(a: ReaderView, b: ReaderView) -> bool {
    a.frames == b.frames && a.chapters == b.chapters
}

pub proof fn lemma_wf_same_book(a: ReaderView, b: ReaderView)
    requires
        same_book(a, b),
    ensures
        a.wf() == b.wf(),
{
    assert(a.hashes() =~= b.hashes());
    assert forall|i: int| #[trigger] a.frame_chapters(i) == b.frame_chapters(i) by {}
}

impl Reader {
    /// A page transition started. Returns whether anything changed: a
    /// transition already running is not started twice.
    pub fn on_transition_start(&mut self) -> (r: bool)
        ensures
            r == !old(self)@.is_transitioning,
            final(self)@ == (ReaderView { is_transitioning: true, ..old(self)@ }),
    {
        if self.is_transitioning {
            return false;
        }
        self.is_transitioning = true;
        true
    }

    /// A page transition ended. When one was running, the links on the new
    /// page are collected and, once the stored progress has been applied,
    /// the progress is uploaded; returns whether that upload was asked for.
    pub fn on_transition_end(&mut self) -> (r: bool)
        ensures
            !old(self)@.is_transitioning ==> !r && final(self)@ == old(self)@,
            old(self)@.is_transitioning ==> ({
                let s = (ReaderView { is_transitioning: false, ..old(self)@ }).with_action(ReaderAction::RefreshLinks);
                &&& r == old(self)@.initial_progression_set
                &&& final(self)@ == (if r { s.with_action(ReaderAction::UploadProgress) } else { s })
            }),
    {
        if !self.is_transitioning {
            return false;
        }
        self.is_transitioning = false;
        self.actions.push(ReaderAction::RefreshLinks);
        if self.initial_progression_set {
            self.actions.push(ReaderAction::UploadProgress);
            true
        } else {
            false
        }
    }

    /// A press was released: see `release_spec`.
    pub fn handle_release(&mut self, x: i32, width: i32, clickable_size: i32, instant: Option<u64>, pointer: bool) -> (r:
        ReleaseOutcome)
        ensures
            (r, final(self)@) == old(self)@.release_spec(x, width, clickable_size, instant, pointer),
    {
        if self.on_held_toggle {
            self.on_held_toggle = false;
            return ReleaseOutcome::Ignored;
        }
        if self.drag_distance != 0 {
            if magnitude(self.drag_distance) > PAGE_CHANGE_DRAG_AMOUNT {
                return if self.drag_distance > 0 { ReleaseOutcome::PreviousPage } else { ReleaseOutcome::NextPage };
            }
            if self.get_current_frame().is_some() {
                let k = self.get_current_frame_index();
                self.actions.push(ReaderAction::Transition { frame: k, amount: 0 });
                self.drag_distance = 0;
            }
            return ReleaseOutcome::Done;
        }
        match instant {
            Some(ms) => {
                if !self.display.is_scroll() && ms < 800 {
                    if pointer {
                        if ms < 500 && self.get_current_frame().is_some() {
                            return ReleaseOutcome::ClickLink;
                        }
                    } else if x <= clickable_size {
                        return ReleaseOutcome::PreviousPage;
                    } else if (x as i64) >= (width as i64) - (clickable_size as i64) {
                        return ReleaseOutcome::NextPage;
                    }
                }
            },
            None => {},
        }
        ReleaseOutcome::Emit
    }

    /// The pages are being dragged: see `drag_spec`.
    pub fn handle_drag(&mut self, type_of: DragType)
        requires
            type_of.spec_distance() <= isize::MAX,
        ensures
            final(self)@ == old(self)@.drag_spec(type_of),
    {
        let d = match type_of {
            DragType::Right(v) => v as isize,
            DragType::Left(v) => -(v as isize),
            _ => {
                return;
            },
        };
        self.drag_distance = d;
        if self.get_current_frame().is_some() {
            let k = self.get_current_frame_index();
            self.actions.push(ReaderAction::Transition { frame: k, amount: d });
        }
    }

    /// The press has been held for `since` milliseconds: after a second it
    /// counts as held.
    pub fn handle_hold(&mut self, since: i64)
        ensures
            final(self)@ == (if !old(self)@.on_held_toggle && since >= 1000 {
                ReaderView { on_held_toggle: true, ..old(self)@ }
            } else {
                old(self)@
            }),
    {
        if !self.on_held_toggle && since >= 1000 {
            self.on_held_toggle = true;
        }
    }

    /// A scroll went past the start (`Up`) or end (`Down`) of a scrolled
    /// frame: see `scroll_change_spec`.
    pub fn handle_scroll_change_page(&mut self, type_of: DragType, height: i32)
        requires
            type_of is Up || type_of is Down,
            old(self)@.wf(),
            ({
                let v = old(self)@;
                let h = trunc_div(height as int, 5);
                &&& type_of is Up && v.viewing_section != 0 ==> h != 0 && isize::MIN <= v.drag_distance + h <= isize::MAX
                    && !(v.drag_distance + h == isize::MIN && h == -1)
                &&& type_of is Down ==> v.viewing_section < usize::MAX
                &&& type_of is Down && v.viewing_section + 1 != v.chapters.len() ==> h != 0 && isize::MIN
                    < v.drag_distance - h <= isize::MAX
            }),
        ensures
            final(self)@ == old(self)@.scroll_change_spec(type_of is Up, height),
    {
        let h = div_trunc(height as isize, 5);
        match type_of {
            DragType::Up(_) => {
                if self.viewing_section != 0 {
                    let ghost v0 = self@;
                    self.drag_distance = self.drag_distance + h;
                    if div_trunc(self.drag_distance, h) == 5 {
                        self.drag_distance = 0;
                        proof {
                            lemma_wf_same_book(v0, self@);
                        }
                        self.previous_page();
                    } else {
                        self.actions.push(ReaderAction::ScheduleDragReset);
                    }
                }
            },
            _ => {
                if self.viewing_section + 1 != self.cached_sections.len() {
                    let ghost v0 = self@;
                    self.drag_distance = self.drag_distance - h;
                    let m = magnitude(self.drag_distance);
                    if div_trunc(m as isize, h) == 5 {
                        self.drag_distance = 0;
                        proof {
                            lemma_wf_same_book(v0, self@);
                        }
                        self.next_page();
                    } else {
                        self.actions.push(ReaderAction::ScheduleDragReset);
                    }
                }
            },
        }
    }

    /// Scrolling paused: see `drag_pause_spec`.
    pub fn update_drag_distance(&mut self, height: i32)
        requires
            old(self)@.wf(),
            trunc_div(height as int, 5) != 0,
            old(self)@.drag_distance != isize::MIN,
        ensures
            final(self)@ == old(self)@.drag_pause_spec(height),
    {
        let h = div_trunc(height as isize, 5);
        let m = magnitude(self.drag_distance);
        let ghost v0 = self@;
        if div_trunc(m as isize, h) >= 3 {
            proof {
                lemma_wf_same_book(v0, v0.undragged());
            }
            if self.drag_distance > 0 {
                self.drag_distance = 0;
                self.previous_page();
            } else {
                self.drag_distance = 0;
                self.next_page();
            }
        } else {
            self.drag_distance = 0;
        }
    }
}


/// The reader after applying a stored position to frame `k`, when that
/// frame is loaded and shows `chapter`: a known byte position is looked up
/// (scrolled to, or its page found), otherwise a known page is shown.
pub open spec fn progression_step(s: ReaderView, chapter: usize, char_pos: i64, page: i64, k: int) -> ReaderView {
    if s.frames[k] is Loaded && s.frames[k].contents().chapters.contains(chapter) {
        if char_pos != -1 {
            let s = ReaderView { initial_progression_set: true, ..s };
            if s.display is VerticalScroll {
                s.with_action(ReaderAction::ScrollToByte { frame: k as usize, position: char_pos as usize })
            } else {
                s.with_action(ReaderAction::ShowPageOfByte { frame: k as usize, position: char_pos as usize })
            }
        } else if page != -1 {
            let s = ReaderView { initial_progression_set: true, ..s };
            let c = s.frames[k].contents();
            let s2 = s.with_frame(k, moved_to(c, s.display.set_offset(c, page as usize)));
            if s.display.set_page_succeeds(c, page as usize) {
                s2.with_action(ReaderAction::ShowPage { frame: k as usize })
            } else {
                s2
            }
        } else {
            s
        }
    } else {
        s
    }
}

/// The reader after applying a stored position to frames `k` to `n`.
pub open spec fn progression_from(s: ReaderView, n: int, chapter: usize, char_pos: i64, page: i64, k: int) -> ReaderView
    decreases n - k,
{
    if k >= n {
        s
    } else {
        progression_from(progression_step(s, chapter, char_pos, page, k), n, chapter, char_pos, page, k + 1)
    }
}

impl ReaderView {
    /// The reader after applying stored progress: the stored chapter is
    /// viewed, and its loaded frames are put where the progress says. No
    /// progress at all counts as applied; nothing is done during a page
    /// transition.
    pub open spec fn use_progression_spec(self, prog: Option<Progression>) -> ReaderView {
        if self.is_transitioning {
            self
        } else {
            match prog {
                Some(Progression::Ebook { chapter, char_pos, page }) => {
                    let ch = chapter as usize;
                    let s = if self.viewing_section != ch { self.set_section_spec(ch).1 } else { self };
                    if char_pos != -1 || page != -1 {
                        progression_from(s, s.frames.len() as int, ch, char_pos, page, 0)
                    } else {
                        s
                    }
                },
                Some(Progression::Complete) => self,
                None => ReaderView { initial_progression_set: true, ..self },
            }
        }
    }

    /// What to upload about the progress, the reader, and the stored
    /// progress afterwards. `byte_pos` is the byte position found on the
    /// current page and the chapter it is in, if one was found.
    pub open spec fn upload_progress_spec(self, byte_pos: Option<(usize, usize)>, chapter_count: usize, stored: Option<
        Progression,
    >) -> (ProgressUpload, ReaderView, Option<Progression>) {
        let (char_pos, viewing) = match byte_pos {
            Some(v) => (v.0 as i64, v.1),
            None => (-1i64, self.viewing_section),
        };
        let s = self.with_viewing(viewing);
        let page: i64 = match s.current_frame() {
            Some(k) => s.frames[k].contents().page_offset as i64,
            None => 0,
        };
        let count = s.page_count_of(chapter_count);
        let last = if count == 0 { 0 } else { count - 1 };
        let last_frame = if self.frames.len() == 0 { 0 } else { self.frames.len() - 1 };
        if count == 0 && viewing == 0 {
            (ProgressUpload::Remove, s, None)
        } else if count == last && viewing == last_frame {
            (ProgressUpload::Update(Progression::Complete), s, Some(Progression::Complete))
        } else {
            let value = Progression::Ebook { char_pos, chapter: viewing as i64, page };
            if stored == Some(value) {
                (ProgressUpload::Unchanged, s, stored)
            } else {
                (ProgressUpload::Update(value), s, Some(value))
            }
        }
    }

    /// The reader after the previous frame of the current one, if it is a
    /// chapter frame, is put on its last page.
    pub open spec fn previous_on_last_spec(self) -> ReaderView {
        let idx = self.current_frame_index();
        if idx >= 1 && self.frames[idx - 1].is_chapter() {
            let c = self.frames[idx - 1].contents();
            let s = self.with_frame(idx - 1, moved_to(c, self.display.last_page_offset(c)));
            if self.display is VerticalScroll || c.page_count() > 0 {
                s.with_action(ReaderAction::ShowLastPage { frame: (idx - 1) as usize })
            } else {
                s
            }
        } else {
            self
        }
    }

    /// The reader after a loaded frame was filled: the frames get their
    /// pages; once every frame is loaded the book starts at page 0 and the
    /// stored progress is applied; then the frame before the current one
    /// is put on its last page.
    pub open spec fn after_frame_loaded_spec(self, counts: Seq<usize>, is_comic_book: bool, prog: Option<Progression>) -> ReaderView {
        let s = self.cached_pages_spec(counts, is_comic_book);
        let s = if self.all_loaded() { s.set_page_spec(0).1.use_progression_spec(prog) } else { s };
        s.previous_on_last_spec()
    }
}

impl Reader {
    /// Whether the progress can be measured: the current frame is loaded.
    pub fn can_upload_progress(&self) -> (r: bool)
        ensures
            r == (self@.current_frame() matches Some(k) && self@.frames[k] is Loaded),
    {
        if self.get_current_frame().is_none() {
            return false;
        }
        let k = self.get_current_frame_index();
        proof {
            lemma_first_frame_with(self@.frames, self@.viewing_hash()->0, 0);
        }
        self.section_frames[k].is_loaded()
    }

    /// Works out what to upload about the reading progress and updates the
    /// stored progress: see `upload_progress_spec`.
    pub fn upload_progress(
        &mut self,
        byte_pos: Option<(usize, usize)>,
        chapter_count: usize,
        stored: &mut Option<Progression>,
    ) -> (r: ProgressUpload)
        requires
            0 <= old(self)@.page_count_of(chapter_count) <= usize::MAX,
        ensures
            (r, final(self)@, *final(stored)) == old(self)@.upload_progress_spec(byte_pos, chapter_count, *old(stored)),
    {
        let (char_pos, viewing): (i64, usize) = match byte_pos {
            Some(v) => (#[verifier::truncate] (v.0 as i64), v.1),
            None => (-1, self.viewing_section),
        };
        self.viewing_section = viewing;
        let page: i64 = match self.get_current_frame() {
            Some(f) => #[verifier::truncate] (f.page_offset as i64),
            None => 0,
        };
        let count = self.page_count(chapter_count);
        let last = count.saturating_sub(1);
        let last_frame = self.section_frames.len().saturating_sub(1);
        if count == 0 && viewing == 0 {
            *stored = None;
            ProgressUpload::Remove
        } else if count == last && viewing == last_frame {
            *stored = Some(Progression::Complete);
            ProgressUpload::Update(Progression::Complete)
        } else {
            let value = Progression::Ebook { char_pos, chapter: #[verifier::truncate] (viewing as i64), page };
            let same = match *stored {
                Some(p) => p == value,
                None => false,
            };
            if same {
                ProgressUpload::Unchanged
            } else {
                *stored = Some(value);
                ProgressUpload::Update(value)
            }
        }
    }

    /// Applies stored progress: see `use_progression_spec`.
    pub fn use_progression(&mut self, prog: Option<Progression>)
        ensures
            final(self)@ == old(self)@.use_progression_spec(prog),
    {
        if self.is_transitioning {
            return;
        }
        match prog {
            Some(Progression::Ebook { chapter, char_pos, page }) => {
                let chapter = #[verifier::truncate] (chapter as usize);
                if self.viewing_section != chapter {
                    self.set_section(chapter);
                }
                if char_pos != -1 || page != -1 {
                    let ghost s0 = self@;
                    let ghost n = s0.frames.len() as int;
                    let mut k: usize = 0;
                    while k < self.section_frames.len()
                        invariant
                            k <= n,
                            self@.frames.len() == n,
                            char_pos != -1 || page != -1,
                            progression_from(s0, n, chapter, char_pos, page, 0) == progression_from(
                                self@,
                                n,
                                chapter,
                                char_pos,
                                page,
                                k as int,
                            ),
                        decreases n - k,
                    {
                        let shows = match self.section_frames[k].as_loaded() {
                            Some(sec) => sec.has_chapter(chapter),
                            None => false,
                        };
                        if shows {
                            if char_pos != -1 {
                                self.initial_progression_set = true;
                                if self.display.is_scroll() {
                                    self.actions.push(ReaderAction::ScrollToByte { frame: k, position: #[verifier::truncate] (char_pos as usize) });
                                } else {
                                    self.actions.push(ReaderAction::ShowPageOfByte { frame: k, position: #[verifier::truncate] (char_pos as usize) });
                                }
                            } else {
                                self.initial_progression_set = true;
                                if self.set_frame_page(k, #[verifier::truncate] (page as usize)) {
                                    self.actions.push(ReaderAction::ShowPage { frame: k });
                                }
                            }
                        }
                        k = k + 1;
                    }
                }
            },
            Some(Progression::Complete) => {},
            None => {
                self.initial_progression_set = true;
            },
        }
    }

    /// Frame `section_index` has loaded: it is marked loaded and is to be
    /// filled with its chapters.
    pub fn on_frame_loaded(&mut self, section_index: usize)
        requires
            section_index < old(self)@.frames.len(),
            !(old(self)@.frames[section_index as int] is Waiting),
        ensures
            final(self)@ == (ReaderView {
                frames: old(self)@.frames.update(
                    section_index as int,
                    crate::section::FrameView::Loaded(old(self)@.frames[section_index as int].contents()),
                ),
                ..old(self)@
            }).with_action(ReaderAction::FillFrame { frame: section_index }),
    {
        let ghost f0 = self@.frames;
        self.section_frames[section_index].convert_to_loaded();
        proof {
            assert(self@.frames =~= f0.update(
                section_index as int,
                crate::section::FrameView::Loaded(f0[section_index as int].contents()),
            ));
        }
        self.actions.push(ReaderAction::FillFrame { frame: section_index });
    }

    /// Puts the frame before the current one on its last page.
    fn previous_on_last(&mut self)
        ensures
            final(self)@ == old(self)@.previous_on_last_spec(),
    {
        let idx = self.get_current_frame_index();
        proof {
            lemma_first_frame_with(self@.frames, self@.viewing_hash()->0, 0);
        }
        if idx >= 1 {
            let count = match self.section_frames[idx - 1].as_chapter() {
                Some(f) => f.page_count(),
                None => {
                    return;
                },
            };
            self.frame_last_page(idx - 1);
            if self.display.is_scroll() || count > 0 {
                self.actions.push(ReaderAction::ShowLastPage { frame: idx - 1 });
            }
        }
    }

    /// A filled frame has been measured: see `after_frame_loaded_spec`.
    /// `page_counts[k]` is the page count measured for frame `k`.
    pub fn after_frame_loaded(&mut self, page_counts: &Vec<usize>, is_comic_book: bool, prog: Option<Progression>)
        requires
            page_counts@.len() == old(self)@.frames.len(),
            crate::reader::pages_before(
                old(self)@.frames,
                page_counts@,
                is_comic_book,
                old(self)@.chapters.len(),
                old(self)@.frames.len() as int,
            ) <= usize::MAX,
        ensures
            final(self)@ == old(self)@.after_frame_loaded_spec(page_counts@, is_comic_book, prog),
    {
        let all = self.are_all_sections_generated();
        self.update_cached_pages(page_counts, is_comic_book);
        if all {
            self.set_page(0);
            self.use_progression(prog);
        }
        self.previous_on_last();
    }

    /// Shows page `page` of frame `frame`, as found for a byte position.
    pub fn show_frame_page(&mut self, frame: usize, page: usize)
        requires
            frame < old(self)@.frames.len(),
            old(self)@.frames[frame as int].is_chapter(),
        ensures
            ({
                let c = old(self)@.frames[frame as int].contents();
                let s = old(self)@.with_frame(frame as int, moved_to(c, old(self)@.display.set_offset(c, page)));
                final(self)@ == (if old(self)@.display.set_page_succeeds(c, page) {
                    s.with_action(ReaderAction::ShowPage { frame })
                } else {
                    s
                })
            }),
    {
        if self.set_frame_page(frame, page) {
            self.actions.push(ReaderAction::ShowPage { frame });
        }
    }
}


/// The reader after asking for chapters `k` up to `n` to be loaded.
pub open spec fn load_all_from(s: ReaderView, n: int, k: int) -> ReaderView
    decreases n - k,
{
    if k >= n {
        s
    } else {
        load_all_from(s.load_section_spec(k as usize), n, k + 1)
    }
}

/// Where the strip of frames is moved to show the viewed frame: along the
/// top for scrolled books (`top: calc(-{offset_percent}% + {offset_px}px)`),
/// otherwise along the left; `transition` tells whether the move is
/// animated.
#[derive(Clone, Copy, Debug, PartialEq, Eq, Structural)]
pub struct FrameStyle {
    pub horizontal: bool,
    pub offset_percent: usize,
    pub offset_px: isize,
    pub transition: bool,
}

impl FrameStyle {
    /// The class of the strip of frames.
    pub fn class_name(&self) -> (r: &'static str)
        ensures
            r == (if self.horizontal { "frames horizontal" } else { "frames" }),
    {
        if self.horizontal { "frames horizontal" } else { "frames" }
    }
}

impl ReaderView {
    /// How far the strip of frames follows the drag, and whether the move
    /// keeps its animation. A drag only pulls in the neighbouring frame
    /// when the current frame is at its first or last page (by the page
    /// movement); otherwise the strip stays put without animation.
    pub open spec fn frame_drag(self) -> (isize, bool) {
        let d = self.drag_distance;
        let (at_first, at_last) = match self.current_frame() {
            Some(k) => {
                let c = self.frames[k].contents();
                (c.page_offset == 0, c.page_offset == (if c.page_count() == 0 { 0 } else { c.page_count() - 1 }))
            },
            None => (false, false),
        };
        let rtl = self.display.movement() == PageMovement::RightToLeft;
        if rtl && d < 0 {
            if at_first && self.frames.len() > self.viewing_section + 1 { (d, true) } else { (0, false) }
        } else if !rtl && d > 0 {
            if at_first { (d, true) } else { (0, false) }
        } else if rtl && d > 0 {
            if at_last { (d, true) } else { (0, false) }
        } else if !rtl && d < 0 {
            if at_last { (d, true) } else { (0, false) }
        } else {
            (0, true)
        }
    }

    /// Where the strip of frames goes: see `FrameStyle`.
    pub open spec fn frame_style(self, animate: bool) -> FrameStyle {
        let viewing = self.current_frame_index();
        if self.display is VerticalScroll {
            FrameStyle {
                horizontal: false,
                offset_percent: (viewing * 100) as usize,
                offset_px: self.drag_distance,
                transition: animate,
            }
        } else {
            let (amount, keep) = self.frame_drag();
            FrameStyle {
                horizontal: true,
                offset_percent: (viewing * 100) as usize,
                offset_px: amount,
                transition: animate && keep,
            }
        }
    }

    /// The reader after it gets the book's chapters and stored progress:
    /// the stored chapter is viewed, every chapter is asked for, and when
    /// every frame is then loaded and chapters load on selection, the
    /// stored progress is applied.
    pub open spec fn changed_spec(
        self,
        chapters: Seq<(usize, Seq<char>)>,
        prog: Option<Progression>,
        chapter_count: usize,
        load_type: ReaderLoadType,
    ) -> ReaderView {
        let s = ReaderView { chapters, ..self };
        let s = match prog {
            Some(Progression::Ebook { chapter, .. }) => s.with_viewing(chapter as usize),
            _ => s,
        };
        let s = load_all_from(s, chapter_count as int, 0);
        if s.all_loaded() && load_type == ReaderLoadType::Select {
            s.use_progression_spec(prog)
        } else {
            s
        }
    }
}

impl Reader {
    /// A reader that shows no book yet.
    pub fn new(display: LayoutDisplay) -> (r: Self)
        ensures
            r@ == (ReaderView {
                display,
                chapters: Seq::empty(),
                frames: Seq::empty(),
                viewing_section: 0,
                drag_distance: 0,
                is_transitioning: false,
                initial_progression_set: false,
                on_held_toggle: false,
                actions: Seq::empty(),
            }),
    {
        let r = Reader {
            display,
            cached_sections: Vec::new(),
            section_frames: Vec::new(),
            viewing_section: 0,
            drag_distance: 0,
            is_transitioning: false,
            initial_progression_set: false,
            on_held_toggle: false,
            actions: Vec::new(),
        };
        assert(r@.chapters =~= Seq::empty());
        assert(r@.frames =~= Seq::empty());
        r
    }

    /// Hands over the actions recorded so far.
    pub fn take_actions(&mut self) -> (r: Vec<ReaderAction>)
        ensures
            r@ == old(self)@.actions,
            final(self)@ == (ReaderView { actions: Seq::empty(), ..old(self)@ }),
    {
        let mut r = Vec::new();
        std::mem::swap(&mut r, &mut self.actions);
        r
    }

    /// Changes how sections are shown.
    pub fn set_display(&mut self, display: LayoutDisplay)
        ensures
            final(self)@ == (ReaderView { display, ..old(self)@ }),
    {
        self.display = display;
    }

    /// Asks for chapters 0 up to `chapter_count` to be loaded.
    pub fn load_surrounding_sections(&mut self, chapter_count: usize)
        ensures
            final(self)@ == load_all_from(old(self)@, chapter_count as int, 0),
    {
        let ghost s0 = self@;
        let mut k: usize = 0;
        while k < chapter_count
            invariant
                k <= chapter_count,
                load_all_from(s0, chapter_count as int, 0) == load_all_from(self@, chapter_count as int, k as int),
            decreases chapter_count - k,
        {
            self.load_section(k);
            k = k + 1;
        }
    }

    /// The book's chapters or stored progress changed: see `changed_spec`.
    pub fn changed(
        &mut self,
        chapters: Vec<Chapter>,
        prog: Option<Progression>,
        chapter_count: usize,
        load_type: ReaderLoadType,
    )
        ensures
            final(self)@ == old(self)@.changed_spec(
                chapters@.map_values(|c: Chapter| (c.value, c.header_hash@)),
                prog,
                chapter_count,
                load_type,
            ),
    {
        self.cached_sections = chapters;
        match prog {
            Some(Progression::Ebook { chapter, .. }) => {
                self.viewing_section = #[verifier::truncate] (chapter as usize);
            },
            _ => {},
        }
        self.load_surrounding_sections(chapter_count);
        if self.are_all_sections_generated() {
            match load_type {
                ReaderLoadType::Select => self.use_progression(prog),
                ReaderLoadType::All => {},
            }
        }
    }

    /// Where the strip of frames goes: see `frame_style`.
    pub fn get_frame_class_and_style(&self, animate_page_transitions: bool) -> (r: FrameStyle)
        requires
            self@.frames.len() * 100 <= usize::MAX,
            self@.viewing_section < usize::MAX,
        ensures
            r == self@.frame_style(animate_page_transitions),
    {
        proof {
            lemma_first_frame_with(self@.frames, self@.viewing_hash()->0, 0);
        }
        let viewing = self.get_current_frame_index();
        let len = self.section_frames.len();
        assert(viewing == 0 || viewing < len);
        let offset_percent = viewing * 100;
        if self.display.is_scroll() {
            return FrameStyle {
                horizontal: false,
                offset_percent,
                offset_px: self.drag_distance,
                transition: animate_page_transitions,
            };
        }
        let d = self.drag_distance;
        let (at_first, at_last) = match self.get_current_frame() {
            Some(c) => (c.page_offset == 0, c.page_offset == c.page_count().saturating_sub(1)),
            None => (false, false),
        };
        let rtl = match self.display.get_movement() {
            PageMovement::RightToLeft => true,
            PageMovement::LeftToRight => false,
        };
        let (amount, keep) = if rtl && d < 0 {
            if at_first && len > self.viewing_section + 1 { (d, true) } else { (0, false) }
        } else if !rtl && d > 0 {
            if at_first { (d, true) } else { (0, false) }
        } else if rtl && d > 0 {
            if at_last { (d, true) } else { (0, false) }
        } else if !rtl && d < 0 {
            if at_last { (d, true) } else { (0, false) }
        } else {
            (0, true)
        };
        FrameStyle { horizontal: true, offset_percent, offset_px: amount, transition: animate_page_transitions && keep }
    }
}

/// Whether `child` ends `path`, whole path components matching.
pub uninterp spec fn path_ends_with(path: Seq<char>, child: Seq<char>) -> bool;

/// `Path::ends_with`: the documentation says it tells whether `child` is a
/// suffix of the path, considering whole path components only. The
/// result, which depends on the two texts alone (split into components as
/// the target's paths are), is named and nothing more is said of it.
#[verifier::external_body]
fn path_ends_with_exec(path: &str, child: &str) -> (r: bool)
    ensures
        r == path_ends_with(path@, child@),
{
    std::path::Path::new(path).ends_with(child)
}

/// The file paths of the chapters, in order.
pub open spec fn chapter_paths(chapters: Seq<Chapter>) -> Seq<Seq<char>> {
    chapters.map_values(|c: Chapter| c.file_path@)
}

/// The first chapter from `i` on whose path ends with `file`, or the
/// number of chapters when none does.
pub open spec fn first_chapter_at(paths: Seq<Seq<char>>, file: Seq<char>, i: int) -> int
    decreases paths.len() - i,
{
    if i < 0 || i >= paths.len() {
        paths.len() as int
    } else if path_ends_with(paths[i], file) {
        i
    } else {
        first_chapter_at(paths, file, i + 1)
    }
}

proof fn lemma_first_chapter_at(paths: Seq<Seq<char>>, file: Seq<char>, i: int)
    requires
        0 <= i <= paths.len(),
    ensures
        i <= first_chapter_at(paths, file, i) <= paths.len(),
    decreases paths.len() - i,
{
    if i < paths.len() {
        lemma_first_chapter_at(paths, file, i + 1);
    }
}

/// The first chapter whose file path ends with `file_path`, if any.
pub fn find_chapter_by_path(chapters: &Vec<Chapter>, file_path: &str) -> (r: Option<usize>)
    ensures
        ({
            let k = first_chapter_at(chapter_paths(chapters@), file_path@, 0);
            r == (if k < chapters@.len() { Some(k as usize) } else { None::<usize> })
        }),
        r matches Some(i) ==> i < chapters@.len(),
{
    let ghost paths = chapter_paths(chapters@);
    proof {
        lemma_first_chapter_at(paths, file_path@, 0);
    }
    let mut i: usize = 0;
    while i < chapters.len()
        invariant
            i <= chapters@.len(),
            paths == chapter_paths(chapters@),
            first_chapter_at(paths, file_path@, 0) == first_chapter_at(paths, file_path@, i as int),
        decreases chapters@.len() - i,
    {
        if path_ends_with_exec(chapters[i].file_path.as_str(), file_path) {
            return Some(i);
        }
        i = i + 1;
    }
    None
}

impl Reader {
    /// A link inside the book to `file_path` was followed: the first
    /// chapter whose file path ends with it is found, and the section of
    /// that chapter's number is viewed. Returns the chapter found.
    pub fn handle_redirect(&mut self, file_path: &str) -> (r: Option<usize>)
        ensures
            r == find_chapter_spec(old(self).cached_sections@, file_path@),
            final(self)@ == match r {
                Some(i) => old(self)@.set_section_spec(old(self).cached_sections@[i as int].value).1,
                None => old(self)@,
            },
    {
        let found = find_chapter_by_path(&self.cached_sections, file_path);
        match found {
            Some(i) => {
                let value = self.cached_sections[i].value;
                self.set_section(value);
                Some(i)
            },
            None => None,
        }
    }
}

/// The first chapter whose file path ends with `file`, if any.
pub open spec fn find_chapter_spec(chapters: Seq<Chapter>, file: Seq<char>) -> Option<usize> {
    let k = first_chapter_at(chapter_paths(chapters), file, 0);
    if k < chapters.len() {
        Some(k as usize)
    } else {
        None
    }
}

} // verus!

//! A section is a run of chapters that share one header and are shown in
//! a single frame. This module holds the plain state of a section: the
//! chapters it shows, its pages and which of them is on screen.

use vstd::prelude::*;

verus! {

/// One page of a section: the section it lives in and its index there.
#[derive(Clone, Copy, Debug, PartialEq, Eq, Structural)]
pub struct CachedPage {
    pub chapter: usize,
    pub chapter_local_page: usize,
}

/// The state of one section: its chapters, its pages, the global index of
/// its first page and the page that is currently shown.
pub struct SectionContents {
    /// The `value` of every chapter shown in this section, in order.
    pub chapters: Vec<usize>,
    /// One entry per page of the section.
    pub cached_pages: Vec<CachedPage>,
    /// Global page index of the first page of this section.
    pub gpi: usize,
    /// The page of this section that is shown (before any mirroring for
    /// right-to-left reading).
    pub page_offset: usize,
    /// The header hash that every chapter of this section shares.
    pub header_hash: String,
}

/// The mathematical value of a section.
pub struct SectionView {
    pub chapters: Seq<usize>,
    pub pages: Seq<CachedPage>,
    pub gpi: usize,
    pub page_offset: usize,
    pub header_hash: Seq<char>,
}

impl SectionView {
    pub open spec fn page_count(self) -> nat {
        self.pages.len()
    }

    /// The same section showing page `offset`.
    pub open spec fn with_offset(self, offset: usize) -> SectionView {
        SectionView { page_offset: offset, ..self }
    }

    /// Global index one past the last page of this section.
    pub open spec fn page_count_until(self) -> int {
        self.gpi + self.page_count()
    }
}

impl View for SectionContents {
    type V = SectionView;

    open spec fn view(&self) -> SectionView {
        SectionView {
            chapters: self.chapters@,
            pages: self.cached_pages@,
            gpi: self.gpi,
            page_offset: self.page_offset,
            header_hash: self.header_hash@,
        }
    }
}

impl SectionContents {
    /// A section for `header_hash` with no chapters and no pages yet.
    pub fn new(header_hash: String) -> (s: Self)
        ensures
            s@ == (SectionView {
                chapters: Seq::empty(),
                pages: Seq::empty(),
                gpi: 0,
                page_offset: 0,
                header_hash: header_hash@,
            }),
    {
        SectionContents {
            chapters: Vec::new(),
            cached_pages: Vec::new(),
            gpi: 0,
            page_offset: 0,
            header_hash,
        }
    }

    /// Adds a chapter at the end of this section.
    pub fn append_chapter(&mut self, value: usize)
        ensures
            final(self)@ == (SectionView { chapters: old(self)@.chapters.push(value), ..old(self)@ }),
    {
        self.chapters.push(value);
    }

    /// The chapters shown in this section.
    pub fn get_chapters(&self) -> (r: &[usize])
        ensures
            r@ == self@.chapters,
    {
        self.chapters.as_slice()
    }

    /// Whether chapter `value` is shown in this section.
    pub fn has_chapter(&self, value: usize) -> (r: bool)
        ensures
            r == self@.chapters.contains(value),
    {
        let mut i: usize = 0;
        while i < self.chapters.len()
            invariant
                i <= self.chapters@.len(),
                forall|j: int| 0 <= j < i ==> self.chapters@[j] != value,
            decreases self.chapters@.len() - i,
        {
            if self.chapters[i] == value {
                return true;
            }
            i = i + 1;
        }
        false
    }

    /// Replaces the pages of this section.
    pub fn set_cached_pages(&mut self, value: Vec<CachedPage>)
        ensures
            final(self)@ == (SectionView { pages: value@, ..old(self)@ }),
    {
        self.cached_pages = value;
    }

    /// Number of pages of this section.
    pub fn page_count(&self) -> (n: usize)
        ensures
            n == self@.page_count(),
    {
        self.cached_pages.len()
    }

    /// Global index one past the last page of this section.
    pub fn get_page_count_until(&self) -> (n: usize)
        requires
            self@.page_count_until() <= usize::MAX,
        ensures
            n == self@.page_count_until(),
    {
        self.gpi + self.cached_pages.len()
    }
}

/// Two sections are the same section when they share a header hash.
impl PartialEq for SectionContents {
    fn eq(&self, other: &Self) -> (r: bool) {
        self.header_hash == other.header_hash
    }
}

impl vstd::std_specs::cmp::PartialEqSpecImpl for SectionContents {
    open spec fn obeys_eq_spec() -> bool {
        true
    }

    open spec fn eq_spec(&self, other: &Self) -> bool {
        self.header_hash@ == other.header_hash@
    }
}

/// How far a section has come: not started, being generated, or ready.
pub enum SectionLoadProgress {
    Waiting,
    Loading(SectionContents),
    Loaded(SectionContents),
}

/// The mathematical value of a section's progress.
pub enum FrameView {
    Waiting,
    Loading(SectionView),
    Loaded(SectionView),
}

impl FrameView {
    /// Whether the frame is a chapter frame (loading or loaded).
    pub open spec fn is_chapter(self) -> bool {
        !(self is Waiting)
    }

    /// The contents of a loading or loaded frame.
    pub open spec fn contents(self) -> SectionView
        recommends
            self.is_chapter(),
    {
        match self {
            FrameView::Loading(v) => v,
            FrameView::Loaded(v) => v,
            FrameView::Waiting => arbitrary(),
        }
    }

    /// The same kind of frame showing `v`.
    pub open spec fn with_contents(self, v: SectionView) -> FrameView {
        match self {
            FrameView::Loading(_) => FrameView::Loading(v),
            FrameView::Loaded(_) => FrameView::Loaded(v),
            FrameView::Waiting => FrameView::Waiting,
        }
    }
}

impl View for SectionLoadProgress {
    type V = FrameView;

    open spec fn view(&self) -> FrameView {
        match self {
            SectionLoadProgress::Waiting => FrameView::Waiting,
            SectionLoadProgress::Loading(v) => FrameView::Loading(v@),
            SectionLoadProgress::Loaded(v) => FrameView::Loaded(v@),
        }
    }
}

impl SectionLoadProgress {
    pub fn is_waiting(&self) -> (r: bool)
        ensures
            r == (self@ is Waiting),
    {
        matches!(self, SectionLoadProgress::Waiting)
    }

    pub fn is_loaded(&self) -> (r: bool)
        ensures
            r == (self@ is Loaded),
    {
        matches!(self, SectionLoadProgress::Loaded(_))
    }

    /// Marks a loading section as loaded. A waiting section has nothing to
    /// mark, so it is not accepted.
    pub fn convert_to_loaded(&mut self)
        requires
            !(old(self)@ is Waiting),
        ensures
            final(self)@ == FrameView::Loaded(old(self)@.contents()),
    {
        let mut prev = SectionLoadProgress::Waiting;
        std::mem::swap(&mut prev, self);
        match prev {
            SectionLoadProgress::Loading(v) => {
                *self = SectionLoadProgress::Loaded(v);
            },
            SectionLoadProgress::Loaded(v) => {
                *self = SectionLoadProgress::Loaded(v);
            },
            SectionLoadProgress::Waiting => {
                *self = SectionLoadProgress::Waiting;
            },
        }
    }

    pub fn as_loaded(&self) -> (r: Option<&SectionContents>)
        ensures
            r is Some <==> (self@ is Loaded),
            r matches Some(c) ==> c@ == self@.contents(),
    {
        match self {
            SectionLoadProgress::Loaded(v) => Some(v),
            _ => None,
        }
    }

    pub fn as_chapter(&self) -> (r: Option<&SectionContents>)
        ensures
            r is Some <==> self@.is_chapter(),
            r matches Some(c) ==> c@ == self@.contents(),
    {
        match self {
            SectionLoadProgress::Loading(v) => Some(v),
            SectionLoadProgress::Loaded(v) => Some(v),
            SectionLoadProgress::Waiting => None,
        }
    }
}

} // verus!

//! Properties of the reader and the book lists that hold across their
//! operations.

use vstd::prelude::*;

use crate::layout::{mirrored_page, moved_to, ImageDisplay, LayoutDisplay, PageMovement};
use crate::progress::{Progression, ProgressUpload};
use crate::reader_events::{last_chapter_with, progression_from, progression_step};
use crate::reader::ReaderAction;
use crate::reader::{
    first_chapter_with, first_frame_with, frame_page_count, lemma_first_chapter_with, lemma_first_chapter_without, lemma_first_frame_with, first_chapter_without, lemma_page_frame_from, lemma_pages_before_monotone,
    page_frame_from, pages_before, ReaderView,
};
use crate::listing::{lemma_first_index_unique, spec_update_editing};
use crate::people::spec_toggle_person;
use crate::section::SectionView;

verus! {

/// In every layout that has pages, a step forward and then a step back
/// come back to the page one started on.
pub proof fn law_next_then_previous(d: LayoutDisplay, s: SectionView)
    requires
        !(d is VerticalScroll),
        s.page_offset < s.page_count(),
        s.page_count() <= usize::MAX,
        d.next_offset(s) is Some,
    ensures
        d.previous_offset(s.with_offset(d.next_offset(s)->0)) == Some(s.page_offset),
{
}

/// In every layout that has pages, a step back and then a step forward
/// come back to the page one started on.
pub proof fn law_previous_then_next(d: LayoutDisplay, s: SectionView)
    requires
        !(d is VerticalScroll),
        s.page_offset < s.page_count(),
        s.page_count() <= usize::MAX,
        d.previous_offset(s) is Some,
    ensures
        d.next_offset(s.with_offset(d.previous_offset(s)->0)) == Some(s.page_offset),
{
}

/// Whichever way a book of images is read, a step forward shows the next
/// page in reading order and a step back the previous one.
pub proof fn law_image_steps_follow_reading_order(v: ImageDisplay, s: SectionView)
    requires
        s.page_offset < s.page_count(),
        s.page_count() <= usize::MAX,
    ensures
        v.next_offset(s) matches Some(o) ==> mirrored_page(v.movement, s.with_offset(o)) == mirrored_page(v.movement, s) + 1,
        v.previous_offset(s) matches Some(o) ==> mirrored_page(v.movement, s.with_offset(o)) == mirrored_page(v.movement, s) - 1,
{
}

/// Mirroring the page for right-to-left reading, twice, gives the page
/// back.
pub proof fn law_mirror_twice(s: SectionView)
    requires
        s.page_offset < s.page_count(),
        s.page_count() <= usize::MAX,
    ensures
        mirrored_page(PageMovement::RightToLeft, s.with_offset(mirrored_page(PageMovement::RightToLeft, s) as usize))
            == s.page_offset,
{
}

/// Progress is only sent when it changed: right after an upload of a
/// reading position, the same measurement asks for nothing to be sent.
pub proof fn law_upload_once(v: ReaderView, byte_pos: Option<(usize, usize)>, chapter_count: usize, stored: Option<crate::progress::Progression>)
    requires
        v.upload_progress_spec(byte_pos, chapter_count, stored).0 matches ProgressUpload::Update(p)
            && p is Ebook,
    ensures
        ({
            let (_, v1, s1) = v.upload_progress_spec(byte_pos, chapter_count, stored);
            v1.upload_progress_spec(byte_pos, chapter_count, s1).0 == ProgressUpload::Unchanged
        }),
{
}

/// Asking for a chapter to be loaded a second time changes nothing.
pub proof fn law_load_section_idempotent(v: ReaderView, chapter: usize)
    ensures
        v.load_section_spec(chapter).load_section_spec(chapter) == v.load_section_spec(chapter),
{
    let v1 = v.load_section_spec(chapter);
    if chapter < v.chapters.len() && !v.shows_chapter(v.chapters[chapter as int].0) {
        let value = v.chapters[chapter as int].0;
        let last = v1.frames.last();
        if v1 != v {
            assert(last is Loading);
            assert(last.contents().chapters.contains(value)) by {
                assert(last.contents().chapters.last() == value);
            }
            assert(v1.frames[v1.frames.len() - 1] == last);
            assert(v1.shows_chapter(value));
        }
    }
}

/// With one frame per chapter (frame `k` has the header hash of chapter
/// `k`, and no two frames share one), going to a page that a loaded frame
/// holds makes it the page being read, in every layout that has pages.
pub proof fn law_set_page_reaches_page(v: ReaderView, p: usize)
    requires
        !(v.display is VerticalScroll),
        v.frames.len() <= v.chapters.len(),
        v.frames.len() <= usize::MAX,
        forall|k: int| 0 <= k < v.frames.len() ==> #[trigger] v.frames[k].is_chapter()
            && v.frames[k].contents().header_hash == v.chapters[k].1,
        forall|j: int, k: int| 0 <= j < k < v.frames.len() ==> #[trigger] v.frames[j].contents().header_hash
            != #[trigger] v.frames[k].contents().header_hash,
        page_frame_from(v.frames, p as int, 0) is Some,
    ensures
        v.set_page_spec(p).0,
        v.set_page_spec(p).1.page_pos() == p,
{
    lemma_page_frame_from(v.frames, p as int, 0);
    let i = page_frame_from(v.frames, p as int, 0)->0;
    let v1 = v.set_page_spec(p).1;
    let h = v.frames[i].contents().header_hash;
    assert(v.frames[i].is_chapter());
    assert(v1.viewing_hash() == Some(h));
    assert(v1.frames[i].is_chapter() && v1.frames[i].contents().header_hash == h);
    lemma_first_frame_with(v1.frames, h, 0);
    let k = first_frame_with(v1.frames, h, 0);
    assert(k == i) by {
        if k < i {
            assert(v1.frames[k] == v.frames[k]);
        }
    }
}


proof fn lemma_reachable_from(v: ReaderView, counts: Seq<usize>, comic: bool, p: int, i: int)
    requires
        counts.len() == v.frames.len(),
        0 <= i <= v.frames.len(),
        pages_before(v.frames, counts, comic, v.chapters.len(), i) <= p,
        p < pages_before(v.frames, counts, comic, v.chapters.len(), v.frames.len() as int),
        pages_before(v.frames, counts, comic, v.chapters.len(), v.frames.len() as int) <= usize::MAX,
    ensures
        page_frame_from(v.cached_pages_spec(counts, comic).frames, p, i) is Some,
    decreases v.frames.len() - i,
{
    let n = v.chapters.len();
    let f2 = v.cached_pages_spec(counts, comic).frames;
    if i == v.frames.len() {
        assert(false);
    } else {
        lemma_pages_before_monotone(v.frames, counts, comic, n, i + 1, v.frames.len() as int);
        lemma_pages_before_monotone(v.frames, counts, comic, n, i, v.frames.len() as int);
        if v.frames[i] is Loaded {
            let c = f2[i].contents();
            assert(c.gpi == pages_before(v.frames, counts, comic, n, i));
            assert(c.page_count() == frame_page_count(counts, comic, n, i));
            if p - c.gpi >= c.page_count() {
                lemma_reachable_from(v, counts, comic, p, i + 1);
            }
        } else {
            lemma_reachable_from(v, counts, comic, p, i + 1);
        }
    }
}

/// Once the frames have their pages, every page of the book is held by a
/// loaded frame, so every page can be gone to.
pub proof fn law_every_page_reachable(v: ReaderView, counts: Seq<usize>, is_comic_book: bool, p: int)
    requires
        counts.len() == v.frames.len(),
        0 <= p < pages_before(v.frames, counts, is_comic_book, v.chapters.len(), v.frames.len() as int),
        pages_before(v.frames, counts, is_comic_book, v.chapters.len(), v.frames.len() as int) <= usize::MAX,
    ensures
        page_frame_from(v.cached_pages_spec(counts, is_comic_book).frames, p, 0) matches Some(k)
            && v.cached_pages_spec(counts, is_comic_book).frames[k].contents().gpi <= p
            < v.cached_pages_spec(counts, is_comic_book).frames[k].contents().page_count_until(),
{
    lemma_reachable_from(v, counts, is_comic_book, p, 0);
    lemma_page_frame_from(v.cached_pages_spec(counts, is_comic_book).frames, p, 0);
}

/// Selecting a book for editing a second time changes nothing.
pub proof fn law_editing_select_twice(items: Seq<u64>, id: u64)
    ensures
        spec_update_editing(spec_update_editing(items, id, true), id, true) == spec_update_editing(items, id, true),
{
    if !items.contains(id) {
        assert(items.push(id)[items.len() as int] == id);
    }
}

/// Selecting a book that was not selected and then deselecting it leaves
/// the selection as it was.
pub proof fn law_editing_select_then_deselect(items: Seq<u64>, id: u64)
    requires
        !items.contains(id),
    ensures
        spec_update_editing(spec_update_editing(items, id, true), id, false) == items,
{
    let t = items.push(id);
    assert(t[items.len() as int] == id);
    assert forall|j: int| 0 <= j < items.len() implies t[j] != id by {
        assert(t[j] == items[j]);
    }
    lemma_first_index_unique(t, id, items.len() as int);
    assert(t.update(items.len() as int, t.last()).drop_last() =~= items);
}

/// Choosing a person found by the search who was not chosen, and then
/// leaving them out again, gives back the people chosen before.
pub proof fn law_toggle_person_on_then_off(selected: Seq<u64>, search_cache: Seq<u64>, id: u64)
    requires
        search_cache.contains(id),
        !selected.contains(id),
    ensures
        spec_toggle_person(spec_toggle_person(selected, search_cache, id, true), search_cache, id, false) == selected,
{
    let t = selected.push(id);
    assert(t[selected.len() as int] == id);
    assert forall|j: int| 0 <= j < selected.len() implies t[j] != id by {
        assert(t[j] == selected[j]);
    }
    lemma_first_index_unique(t, id, selected.len() as int);
    assert(t.remove(selected.len() as int) =~= selected);
}

/// Every frame's page count fits in a `usize`, as that of a frame held in
/// memory does.
pub open spec fn page_counts_fit(v: ReaderView) -> bool {
    forall|i: int| 0 <= i < v.frames.len() ==> #[trigger] v.frames[i].contents().page_count() <= usize::MAX
}

/// The frames are well formed and their page counts fit.
pub open spec fn frames_sound(v: ReaderView) -> bool {
    v.wf() && page_counts_fit(v)
}

proof fn lemma_sound_same_frames(a: ReaderView, b: ReaderView)
    requires
        frames_sound(a),
        a.frames == b.frames,
        a.chapters == b.chapters,
    ensures
        frames_sound(b),
{
    crate::reader_events::lemma_wf_same_book(a, b);
}

proof fn lemma_sound_with_frame(v: ReaderView, i: int, c: SectionView)
    requires
        frames_sound(v),
        0 <= i < v.frames.len(),
        c.header_hash == v.frames[i].contents().header_hash,
        c.page_offset < usize::MAX,
        c.page_count() <= usize::MAX,
    ensures
        frames_sound(v.with_frame(i, c)),
{
    let w = v.with_frame(i, c);
    assert(v.frames[i].is_chapter());
    assert(w.hashes() =~= v.hashes());
    assert forall|j: int| 0 <= j < w.frames.len() implies {
        &&& #[trigger] w.frames[j].is_chapter()
        &&& w.frame_chapters(j) is Some
        &&& w.frames[j].contents().page_offset < usize::MAX
    } by {
        assert(v.frames[j].is_chapter());
        if j != i {
            assert(w.frames[j] == v.frames[j]);
        }
        assert(w.frames[j].contents().header_hash == v.frames[j].contents().header_hash);
        assert(w.frame_chapters(j) == v.frame_chapters(j));
    }
    assert forall|j: int| 0 <= j < w.frames.len() implies #[trigger] w.frames[j].contents().page_count()
        <= usize::MAX by {
        if j != i {
            assert(w.frames[j] == v.frames[j]);
        }
    }
}

proof fn lemma_sound_moved(v: ReaderView, i: int, target: Option<usize>)
    requires
        frames_sound(v),
        0 <= i < v.frames.len(),
        target matches Some(o) ==> o < usize::MAX,
    ensures
        frames_sound(v.with_frame(i, moved_to(v.frames[i].contents(), target))),
{
    assert(v.frames[i].is_chapter());
    assert(v.frames[i].contents().page_count() <= usize::MAX);
    lemma_sound_with_frame(v, i, moved_to(v.frames[i].contents(), target));
}

proof fn lemma_sound_start_frame(v: ReaderView)
    requires
        frames_sound(v),
    ensures
        frames_sound(v.start_frame()),
{
    match v.current_frame() {
        Some(j) => {
            lemma_first_frame_with(v.frames, v.viewing_hash()->0, 0);
            let c = v.frames[j].contents();
            lemma_sound_moved(v, j, v.display.set_offset(c, 0));
            let s = v.with_frame(j, moved_to(c, v.display.set_offset(c, 0)));
            let s2 = if v.display.set_page_succeeds(c, 0) {
                s.with_action(ReaderAction::ShowPage { frame: j as usize })
            } else {
                s
            };
            lemma_sound_same_frames(s, s2);
            lemma_sound_same_frames(s2, s2.with_action(ReaderAction::StartViewing { frame: j as usize }));
        },
        None => {},
    }
}

proof fn lemma_sound_end_frame(v: ReaderView)
    requires
        frames_sound(v),
    ensures
        frames_sound(v.end_frame()),
{
    match v.current_frame() {
        Some(j) => {
            lemma_first_frame_with(v.frames, v.viewing_hash()->0, 0);
            let c = v.frames[j].contents();
            assert(c.page_count() <= usize::MAX);
            lemma_sound_moved(v, j, v.display.last_page_offset(c));
            let s = v.with_frame(j, moved_to(c, v.display.last_page_offset(c)));
            let s2 = if v.display is VerticalScroll || c.page_count() > 0 {
                s.with_action(ReaderAction::ShowLastPage { frame: j as usize })
            } else {
                s
            };
            lemma_sound_same_frames(s, s2);
            lemma_sound_same_frames(s2, s2.with_action(ReaderAction::StartViewing { frame: j as usize }));
        },
        None => {},
    }
}

/// A step forward keeps every frame matched to a chapter of the book and
/// below its last possible page.
pub proof fn law_next_page_keeps_frames(v: ReaderView)
    requires
        frames_sound(v),
    ensures
        frames_sound(v.next_page_spec().1),
{
    match v.current_frame() {
        None => {},
        Some(i) => {
            lemma_first_frame_with(v.frames, v.viewing_hash()->0, 0);
            let c = v.frames[i].contents();
            assert(c.page_count() <= usize::MAX);
            match v.display.next_offset(c) {
                Some(o) => {
                    lemma_sound_moved(v, i, Some(o));
                    let s = v.with_frame(i, c.with_offset(o));
                    lemma_sound_same_frames(s, s.with_action(ReaderAction::ShowPage { frame: i as usize }));
                },
                None => {
                    let s = v.with_action(ReaderAction::Transition { frame: i as usize, amount: 0 });
                    lemma_sound_same_frames(v, s);
                    if i + 1 != v.frames.len() {
                        let s = s.with_action(ReaderAction::StopViewing { frame: i as usize });
                        let run = v.frame_chapters(i + 1)->0;
                        lemma_sound_same_frames(v, s.with_viewing(run.0));
                        lemma_sound_start_frame(s.with_viewing(run.0));
                    }
                },
            }
        },
    }
}

/// A step back keeps every frame matched to a chapter of the book and
/// below its last possible page.
pub proof fn law_previous_page_keeps_frames(v: ReaderView)
    requires
        frames_sound(v),
    ensures
        frames_sound(v.previous_page_spec().1),
{
    match v.current_frame() {
        None => {},
        Some(i) => {
            lemma_first_frame_with(v.frames, v.viewing_hash()->0, 0);
            let c = v.frames[i].contents();
            assert(c.page_count() <= usize::MAX);
            match v.display.previous_offset(c) {
                Some(o) => {
                    lemma_sound_moved(v, i, Some(o));
                    let s = v.with_frame(i, c.with_offset(o));
                    lemma_sound_same_frames(s, s.with_action(ReaderAction::ShowPage { frame: i as usize }));
                },
                None => {
                    let s = v.with_action(ReaderAction::Transition { frame: i as usize, amount: 0 });
                    lemma_sound_same_frames(v, s);
                    if i != 0 {
                        let s = s.with_action(ReaderAction::StopViewing { frame: i as usize });
                        let run = v.frame_chapters(i - 1)->0;
                        lemma_sound_same_frames(v, s.with_viewing(run.1));
                        lemma_sound_end_frame(s.with_viewing(run.1));
                    }
                },
            }
        },
    }
}

/// Going to a page keeps every frame matched to a chapter of the book and
/// below its last possible page.
pub proof fn law_set_page_keeps_frames(v: ReaderView, p: usize)
    requires
        frames_sound(v),
    ensures
        frames_sound(v.set_page_spec(p).1),
{
    lemma_page_frame_from(v.frames, p as int, 0);
    match page_frame_from(v.frames, p as int, 0) {
        Some(i) => {
            let c = v.frames[i].contents();
            assert(c.page_count() <= usize::MAX);
            let s = v.with_viewing(i as usize);
            lemma_sound_same_frames(v, s);
            lemma_sound_moved(s, i, v.display.set_offset(c, (p - c.gpi) as usize));
            let s2 = s.with_frame(i, moved_to(c, v.display.set_offset(c, (p - c.gpi) as usize)));
            lemma_sound_same_frames(s2, s2.with_action(ReaderAction::ShowPage { frame: i as usize }));
        },
        None => {},
    }
}

proof fn lemma_sound_push(v: ReaderView, chapter: int, f: crate::section::FrameView)
    requires
        frames_sound(v),
        0 <= chapter < v.chapters.len(),
        f.is_chapter(),
        f.contents().header_hash == v.chapters[chapter].1,
        f.contents().page_offset < usize::MAX,
        f.contents().page_count() <= usize::MAX,
    ensures
        frames_sound(ReaderView { frames: v.frames.push(f), ..v }),
{
    let w = ReaderView { frames: v.frames.push(f), ..v };
    let h = f.contents().header_hash;
    assert(w.hashes() =~= v.hashes());
    lemma_first_chapter_with(v.hashes(), h, 0);
    assert(v.hashes()[chapter] == h);
    assert forall|j: int| 0 <= j < w.frames.len() implies {
        &&& #[trigger] w.frames[j].is_chapter()
        &&& w.frame_chapters(j) is Some
        &&& w.frames[j].contents().page_offset < usize::MAX
    } by {
        if j < v.frames.len() {
            assert(w.frames[j] == v.frames[j]);
            assert(v.frames[j].is_chapter());
            assert(w.frame_chapters(j) == v.frame_chapters(j));
        } else {
            assert(w.frames[j] == f);
        }
    }
    assert forall|j: int| 0 <= j < w.frames.len() implies #[trigger] w.frames[j].contents().page_count()
        <= usize::MAX by {
        if j < v.frames.len() {
            assert(w.frames[j] == v.frames[j]);
        }
    }
}

/// Asking for a chapter to be loaded keeps every frame matched to a chapter
/// of the book and below its last possible page.
pub proof fn law_load_section_keeps_frames(v: ReaderView, chapter: usize)
    requires
        frames_sound(v),
    ensures
        frames_sound(v.load_section_spec(chapter)),
{
    if chapter < v.chapters.len() {
        let value = v.chapters[chapter as int].0;
        let h = v.chapters[chapter as int].1;
        if !v.shows_chapter(value) {
            let use_last = v.frames.len() > 0 && v.frames.last().is_chapter() && v.frames.last().contents().header_hash
                == h;
            let s = if use_last {
                v
            } else {
                let f = crate::section::FrameView::Loading(
                    SectionView {
                        chapters: Seq::empty(),
                        pages: Seq::empty(),
                        gpi: 0,
                        page_offset: 0,
                        header_hash: h,
                    },
                );
                lemma_sound_push(v, chapter as int, f);
                let pushed = ReaderView { frames: v.frames.push(f), ..v };
                lemma_sound_same_frames(
                    pushed,
                    pushed.with_action(ReaderAction::CreateFrame { frame: v.frames.len() as usize }),
                );
                pushed.with_action(ReaderAction::CreateFrame { frame: v.frames.len() as usize })
            };
            let last = s.frames.last();
            if last is Loading {
                assert(s.frames.len() > 0);
                assert(last.contents().page_count() <= usize::MAX);
                lemma_sound_with_frame(
                    s,
                    s.frames.len() - 1,
                    SectionView { chapters: last.contents().chapters.push(value), ..last.contents() },
                );
            }
        }
    }
}

/// Giving the loaded frames their pages keeps every frame matched to a
/// chapter of the book and below its last possible page, when the book's
/// pages fit in a `usize`.
pub proof fn law_cached_pages_keep_frames(v: ReaderView, counts: Seq<usize>, is_comic_book: bool)
    requires
        frames_sound(v),
        counts.len() == v.frames.len(),
        pages_before(v.frames, counts, is_comic_book, v.chapters.len(), v.frames.len() as int) <= usize::MAX,
    ensures
        frames_sound(v.cached_pages_spec(counts, is_comic_book)),
{
    let w = v.cached_pages_spec(counts, is_comic_book);
    let n = v.chapters.len();
    assert(w.hashes() =~= v.hashes());
    assert forall|j: int| 0 <= j < w.frames.len() implies {
        &&& #[trigger] w.frames[j].is_chapter()
        &&& w.frame_chapters(j) is Some
        &&& w.frames[j].contents().page_offset < usize::MAX
        &&& w.frames[j].contents().page_count() <= usize::MAX
    } by {
        assert(v.frames[j].is_chapter());
        assert(v.frames[j].contents().page_count() <= usize::MAX);
        if v.frames[j] is Loaded {
            lemma_pages_before_monotone(v.frames, counts, is_comic_book, n, j + 1, v.frames.len() as int);
            assert(w.frames[j].contents().page_count() == frame_page_count(counts, is_comic_book, n, j));
        }
        assert(w.frame_chapters(j) == v.frame_chapters(j));
    }
    assert forall|j: int| 0 <= j < w.frames.len() implies #[trigger] w.frames[j].contents().page_count()
        <= usize::MAX by {
        assert(w.frames[j].is_chapter());
    }
}

/// The `i`-th chapter shown by frame `k` is a chapter of the book with the
/// frame's header hash.
pub open spec fn chapter_has_frame_hash(v: ReaderView, k: int, i: int) -> bool {
    exists|j: int|
        0 <= j < v.chapters.len() && v.chapters[j].0 == v.frames[k].contents().chapters[i] && v.chapters[j].1
            == v.frames[k].contents().header_hash
}

/// Every chapter that a frame shows is a chapter of the book with the
/// frame's header hash, and no chapter is shown twice, in one frame or in
/// two.
pub open spec fn frames_consistent(v: ReaderView) -> bool {
    &&& forall|k: int, i: int|
        0 <= k < v.frames.len() && v.frames[k].is_chapter() && 0 <= i < v.frames[k].contents().chapters.len()
            ==> #[trigger] chapter_has_frame_hash(v, k, i)
    &&& forall|k1: int, i1: int, k2: int, i2: int|
        0 <= k1 < v.frames.len() && v.frames[k1].is_chapter() && 0 <= i1 < v.frames[k1].contents().chapters.len()
            && 0 <= k2 < v.frames.len() && v.frames[k2].is_chapter() && 0 <= i2
            < v.frames[k2].contents().chapters.len() && (k1 != k2 || i1 != i2) ==> #[trigger] v.frames[k1].contents().chapters[i1]
            != #[trigger] v.frames[k2].contents().chapters[i2]
}

proof fn lemma_consistent_same(a: ReaderView, b: ReaderView)
    requires
        frames_consistent(a),
        a.frames == b.frames,
        a.chapters == b.chapters,
    ensures
        frames_consistent(b),
{
    assert forall|k: int, i: int|
        0 <= k < b.frames.len() && b.frames[k].is_chapter() && 0 <= i < b.frames[k].contents().chapters.len()
            implies #[trigger] chapter_has_frame_hash(b, k, i) by {
        assert(chapter_has_frame_hash(a, k, i));
    }
}

proof fn lemma_consistent_push_empty(v: ReaderView, f: crate::section::FrameView)
    requires
        frames_consistent(v),
        f.is_chapter() ==> f.contents().chapters.len() == 0,
    ensures
        frames_consistent(ReaderView { frames: v.frames.push(f), ..v }),
{
    let w = ReaderView { frames: v.frames.push(f), ..v };
    assert forall|k: int, i: int|
        0 <= k < w.frames.len() && w.frames[k].is_chapter() && 0 <= i < w.frames[k].contents().chapters.len()
            implies #[trigger] chapter_has_frame_hash(w, k, i) by {
        assert(k < v.frames.len());
        assert(w.frames[k] == v.frames[k]);
        assert(v.frames[k].contents().chapters[i] == w.frames[k].contents().chapters[i]);
        assert(chapter_has_frame_hash(v, k, i));
        let j = choose|j: int|
            0 <= j < v.chapters.len() && v.chapters[j].0 == v.frames[k].contents().chapters[i] && v.chapters[j].1
                == v.frames[k].contents().header_hash;
        assert(w.chapters[j].0 == w.frames[k].contents().chapters[i]);
    }
    assert forall|k1: int, i1: int, k2: int, i2: int|
        0 <= k1 < w.frames.len() && w.frames[k1].is_chapter() && 0 <= i1 < w.frames[k1].contents().chapters.len()
            && 0 <= k2 < w.frames.len() && w.frames[k2].is_chapter() && 0 <= i2
            < w.frames[k2].contents().chapters.len() && (k1 != k2 || i1 != i2) implies #[trigger] w.frames[k1].contents().chapters[i1]
            != #[trigger] w.frames[k2].contents().chapters[i2] by {
        assert(k1 < v.frames.len() && k2 < v.frames.len());
        assert(w.frames[k1] == v.frames[k1] && w.frames[k2] == v.frames[k2]);
        assert(v.frames[k1].contents().chapters[i1] != v.frames[k2].contents().chapters[i2]);
    }
}

proof fn lemma_consistent_extend_last(v: ReaderView, chapter: int)
    requires
        frames_consistent(v),
        v.frames.len() > 0,
        v.frames.last().is_chapter(),
        0 <= chapter < v.chapters.len(),
        v.chapters[chapter].1 == v.frames.last().contents().header_hash,
        !v.shows_chapter(v.chapters[chapter].0),
    ensures
        ({
            let last = v.frames.last();
            let value = v.chapters[chapter].0;
            frames_consistent(
                v.with_frame(
                    v.frames.len() - 1,
                    SectionView { chapters: last.contents().chapters.push(value), ..last.contents() },
                ),
            )
        }),
{
    let n = v.frames.len() - 1;
    let last = v.frames.last();
    let value = v.chapters[chapter].0;
    let old_chapters = last.contents().chapters;
    let w = v.with_frame(n, SectionView { chapters: old_chapters.push(value), ..last.contents() });
    assert(w.frames[n].contents().chapters == old_chapters.push(value));
    assert forall|k: int| 0 <= k < w.frames.len() && k != n implies w.frames[k] == v.frames[k] by {}
    assert forall|k: int, i: int|
        0 <= k < w.frames.len() && w.frames[k].is_chapter() && 0 <= i < w.frames[k].contents().chapters.len()
            implies #[trigger] chapter_has_frame_hash(w, k, i) by {
        if k == n {
            if i == old_chapters.len() {
                assert(w.chapters[chapter].0 == w.frames[k].contents().chapters[i]);
            } else {
                assert(w.frames[k].contents().chapters[i] == v.frames[k].contents().chapters[i]);
                assert(w.frames[k].contents().header_hash == v.frames[k].contents().header_hash);
                assert(chapter_has_frame_hash(v, k, i));
                let j = choose|j: int|
                    0 <= j < v.chapters.len() && v.chapters[j].0 == v.frames[k].contents().chapters[i]
                        && v.chapters[j].1 == v.frames[k].contents().header_hash;
                assert(w.chapters[j].0 == w.frames[k].contents().chapters[i]);
            }
        } else {
            assert(w.frames[k].contents().chapters[i] == v.frames[k].contents().chapters[i]);
            assert(w.frames[k] == v.frames[k]);
            assert(chapter_has_frame_hash(v, k, i));
            let j = choose|j: int|
                0 <= j < v.chapters.len() && v.chapters[j].0 == v.frames[k].contents().chapters[i] && v.chapters[j].1
                    == v.frames[k].contents().header_hash;
            assert(w.chapters[j].0 == w.frames[k].contents().chapters[i]);
        }
    }
    assert forall|k1: int, i1: int, k2: int, i2: int|
        0 <= k1 < w.frames.len() && w.frames[k1].is_chapter() && 0 <= i1 < w.frames[k1].contents().chapters.len()
            && 0 <= k2 < w.frames.len() && w.frames[k2].is_chapter() && 0 <= i2
            < w.frames[k2].contents().chapters.len() && (k1 != k2 || i1 != i2) implies #[trigger] w.frames[k1].contents().chapters[i1]
            != #[trigger] w.frames[k2].contents().chapters[i2] by {
        let new1 = k1 == n && i1 == old_chapters.len();
        let new2 = k2 == n && i2 == old_chapters.len();
        if !new1 {
            assert(w.frames[k1].contents().chapters[i1] == v.frames[k1].contents().chapters[i1]);
            assert(v.frames[k1].is_chapter());
        }
        if !new2 {
            assert(w.frames[k2].contents().chapters[i2] == v.frames[k2].contents().chapters[i2]);
            assert(v.frames[k2].is_chapter());
        }
        if new1 && !new2 {
            assert(!(v.frames[k2].is_chapter() && v.frames[k2].contents().chapters.contains(value)));
            assert(v.frames[k2].contents().chapters[i2] != value);
        } else if new2 && !new1 {
            assert(!(v.frames[k1].is_chapter() && v.frames[k1].contents().chapters.contains(value)));
            assert(v.frames[k1].contents().chapters[i1] != value);
        } else if !new1 && !new2 {
            assert(v.frames[k1].contents().chapters[i1] != v.frames[k2].contents().chapters[i2]);
        }
    }
}

/// Asking for a chapter to be loaded keeps every frame's chapters those of
/// its header hash, each chapter shown once.
pub proof fn law_load_section_keeps_chapters_consistent(v: ReaderView, chapter: usize)
    requires
        frames_consistent(v),
    ensures
        frames_consistent(v.load_section_spec(chapter)),
{
    if chapter < v.chapters.len() {
        let value = v.chapters[chapter as int].0;
        let h = v.chapters[chapter as int].1;
        if !v.shows_chapter(value) {
            let use_last = v.frames.len() > 0 && v.frames.last().is_chapter() && v.frames.last().contents().header_hash
                == h;
            let s = if use_last {
                v
            } else {
                let f = crate::section::FrameView::Loading(
                    SectionView { chapters: Seq::empty(), pages: Seq::empty(), gpi: 0, page_offset: 0, header_hash: h },
                );
                lemma_consistent_push_empty(v, f);
                let pushed = ReaderView { frames: v.frames.push(f), ..v };
                assert(!pushed.shows_chapter(value)) by {
                    if pushed.shows_chapter(value) {
                        let k = choose|k: int| 0 <= k < pushed.frames.len() && #[trigger] pushed.frames[k].is_chapter()
                            && pushed.frames[k].contents().chapters.contains(value);
                        if k < v.frames.len() {
                            assert(pushed.frames[k] == v.frames[k]);
                        }
                    }
                }
                lemma_consistent_same(
                    pushed,
                    pushed.with_action(ReaderAction::CreateFrame { frame: v.frames.len() as usize }),
                );
                pushed.with_action(ReaderAction::CreateFrame { frame: v.frames.len() as usize })
            };
            let last = s.frames.last();
            if last is Loading {
                lemma_consistent_extend_last(s, chapter as int);
            }
        }
    }
}

/// Releasing a drag longer than the page-change distance, when no hold is
/// pending, asks for the previous page (a drag to the right) or the next
/// one (to the left) and leaves the reader as it was.
pub proof fn law_long_drag_release_turns_page(
    v: ReaderView,
    x: i32,
    width: i32,
    clickable_size: i32,
    instant: Option<u64>,
    pointer: bool,
)
    requires
        !v.on_held_toggle,
        crate::overlay::abs(v.drag_distance as int) > crate::reader_events::PAGE_CHANGE_DRAG_AMOUNT,
    ensures
        v.release_spec(x, width, clickable_size, instant, pointer) == (
            if v.drag_distance > 0 {
                crate::reader_events::ReleaseOutcome::PreviousPage
            } else {
                crate::reader_events::ReleaseOutcome::NextPage
            },
            v,
        ),
{
}


/// Whether two runs of frames have the same length and agree on which
/// frames are chapter frames and on their header hashes.
pub open spec fn same_heads(a: Seq<crate::section::FrameView>, b: Seq<crate::section::FrameView>) -> bool {
    &&& a.len() == b.len()
    &&& forall|i: int| 0 <= i < a.len() ==> {
        &&& #[trigger] a[i].is_chapter() == b[i].is_chapter()
        &&& a[i].is_chapter() ==> a[i].contents().header_hash == b[i].contents().header_hash
    }
}

proof fn lemma_first_frame_with_same_heads(
    a: Seq<crate::section::FrameView>,
    b: Seq<crate::section::FrameView>,
    h: Seq<char>,
    i: int,
)
    requires
        same_heads(a, b),
        0 <= i,
    ensures
        first_frame_with(a, h, i) == first_frame_with(b, h, i),
    decreases a.len() - i,
{
    if i < a.len() {
        assert(a[i].is_chapter() == b[i].is_chapter());
        lemma_first_frame_with_same_heads(a, b, h, i + 1);
    }
}

proof fn lemma_current_frame_same_heads(a: ReaderView, b: ReaderView)
    requires
        same_heads(a.frames, b.frames),
        a.chapters == b.chapters,
        a.viewing_section == b.viewing_section,
    ensures
        a.current_frame() == b.current_frame(),
{
    if a.viewing_hash() is Some {
        lemma_first_frame_with_same_heads(a.frames, b.frames, a.viewing_hash()->0, 0);
    }
}

proof fn lemma_with_frame_same_heads(v: ReaderView, i: int, c: SectionView)
    requires
        0 <= i < v.frames.len(),
        v.frames[i].is_chapter(),
        c.header_hash == v.frames[i].contents().header_hash,
    ensures
        same_heads(v.frames, v.with_frame(i, c).frames),
{
    let w = v.with_frame(i, c);
    assert forall|j: int| 0 <= j < v.frames.len() implies {
        &&& #[trigger] v.frames[j].is_chapter() == w.frames[j].is_chapter()
        &&& v.frames[j].is_chapter() ==> v.frames[j].contents().header_hash == w.frames[j].contents().header_hash
    } by {
        if j != i {
            assert(w.frames[j] == v.frames[j]);
        }
    }
}

/// What starting the current frame changes: the frame it puts on its first
/// page keeps its header hash and its place in the book, and nothing else
/// about the frames, chapters or viewed chapter changes.
proof fn lemma_start_frame_heads(t: ReaderView)
    ensures
        same_heads(t.frames, t.start_frame().frames),
        t.start_frame().chapters == t.chapters,
        t.start_frame().viewing_section == t.viewing_section,
        t.start_frame().display == t.display,
        t.start_frame().current_frame() == t.current_frame(),
        t.current_frame() matches Some(j) ==> t.start_frame().frames[j].contents().gpi == t.frames[j].contents().gpi,
{
    match t.current_frame() {
        Some(j) => {
            lemma_first_frame_with(t.frames, t.viewing_hash()->0, 0);
            let c = t.frames[j].contents();
            lemma_with_frame_same_heads(t, j, moved_to(c, t.display.set_offset(c, 0)));
        },
        None => {
            assert forall|i: int| 0 <= i < t.frames.len() implies #[trigger] t.frames[i].is_chapter()
                == t.start_frame().frames[i].is_chapter() by {}
        },
    }
    lemma_current_frame_same_heads(t, t.start_frame());
}

/// Starting the current frame in a layout with pages, when that frame has
/// pages, shows its first page.
proof fn lemma_start_frame_first_page(t: ReaderView, j: int)
    requires
        !(t.display is VerticalScroll),
        t.current_frame() == Some(j),
        t.frames[j].contents().page_count() > 0,
    ensures
        t.start_frame().current_frame() == Some(j),
        t.start_frame().viewing_section == t.viewing_section,
        t.start_frame().frames[j].contents().page_offset == 0,
        t.start_frame().frames[j].contents().gpi == t.frames[j].contents().gpi,
        t.start_frame().page_pos() == t.frames[j].contents().gpi,
{
    lemma_first_frame_with(t.frames, t.viewing_hash()->0, 0);
    lemma_start_frame_heads(t);
}

proof fn lemma_only_frame_with(frames: Seq<crate::section::FrameView>, h: Seq<char>, i: int)
    requires
        0 <= i < frames.len(),
        frames[i].is_chapter(),
        frames[i].contents().header_hash == h,
        forall|k: int| 0 <= k < i ==> !(#[trigger] frames[k].is_chapter() && frames[k].contents().header_hash == h),
    ensures
        first_frame_with(frames, h, 0) == i,
{
    lemma_first_frame_with(frames, h, 0);
    let r = first_frame_with(frames, h, 0);
    if r < i {
        assert(frames[r].is_chapter());
    }
}

/// Going to a chapter shows it from the first page of its frame: when
/// viewing chapter `n` succeeds in a layout with pages, and the frame `j`
/// that shows the chapter has pages, that frame is now the one viewed, it
/// is on its first page, and the page viewed is the frame's first page of
/// the book.
pub proof fn law_set_section_shows_first_page(v: ReaderView, n: usize, j: int)
    requires
        !(v.display is VerticalScroll),
        v.set_section_spec(n).0,
        v.with_viewing(n).current_frame() == Some(j),
        v.frames[j].contents().page_count() > 0,
    ensures
        v.set_section_spec(n).1.viewing_section == n,
        v.set_section_spec(n).1.current_frame() == Some(j),
        v.set_section_spec(n).1.frames[j].contents().page_offset == 0,
        v.set_section_spec(n).1.page_pos() == v.frames[j].contents().gpi,
{
    let s = match v.current_frame() {
        Some(k) => v.with_action(ReaderAction::StopViewing { frame: k as usize }),
        None => v,
    };
    let t = s.with_viewing(n);
    assert(t.current_frame() == v.with_viewing(n).current_frame());
    lemma_start_frame_first_page(t, j);
}

/// A step forward past the last page of the current frame `i`, in a
/// layout with pages, shows the first page of the next frame, when that
/// frame has pages and no frame before it has its header hash.
pub proof fn law_next_page_enters_next_frame_at_start(v: ReaderView, i: int)
    requires
        v.wf(),
        v.chapters.len() <= usize::MAX,
        !(v.display is VerticalScroll),
        v.current_frame() == Some(i),
        v.display.next_offset(v.frames[i].contents()) is None,
        i + 1 < v.frames.len(),
        v.frames[i + 1].contents().page_count() > 0,
        forall|k: int| 0 <= k <= i ==> !(#[trigger] v.frames[k].is_chapter()
            && v.frames[k].contents().header_hash == v.frames[i + 1].contents().header_hash),
    ensures
        v.next_page_spec().0,
        v.next_page_spec().1.current_frame() == Some(i + 1),
        v.next_page_spec().1.frames[i + 1].contents().page_offset == 0,
        v.next_page_spec().1.page_pos() == v.frames[i + 1].contents().gpi,
{
    lemma_first_frame_with(v.frames, v.viewing_hash()->0, 0);
    let h = v.frames[i + 1].contents().header_hash;
    assert(v.frames[i + 1].is_chapter());
    assert(v.frame_chapters(i + 1) is Some);
    lemma_first_chapter_with(v.hashes(), h, 0);
    let start = first_chapter_with(v.hashes(), h, 0);
    assert(start < v.hashes().len());
    assert(v.hashes()[start] == h);
    lemma_only_frame_with(v.frames, h, i + 1);
    let s = v.with_action(ReaderAction::Transition { frame: i as usize, amount: 0 }).with_action(
        ReaderAction::StopViewing { frame: i as usize },
    );
    let t = s.with_viewing(start as usize);
    assert(t.viewing_hash() == Some(h));
    assert(t.current_frame() == Some(i + 1));
    lemma_start_frame_first_page(t, i + 1);
}

/// Going to the next section moves exactly one frame on: when the frame
/// after the current one is loaded and no frame before it has its header
/// hash, the reader goes on and that frame becomes the current one.
pub proof fn law_next_section_moves_one_frame(v: ReaderView)
    requires
        v.wf(),
        v.chapters.len() <= usize::MAX,
        v.current_frame_index() + 1 < v.frames.len(),
        v.frames[v.current_frame_index() + 1] is Loaded,
        forall|k: int| 0 <= k <= v.current_frame_index() ==> !(#[trigger] v.frames[k].is_chapter()
            && v.frames[k].contents().header_hash == v.frames[v.current_frame_index() + 1].contents().header_hash),
    ensures
        v.next_section_spec().0,
        v.next_section_spec().1.current_frame() == Some(v.current_frame_index() + 1),
        v.next_section_spec().1.current_frame_index() == v.current_frame_index() + 1,
{
    if v.viewing_hash() is Some {
        lemma_first_frame_with(v.frames, v.viewing_hash()->0, 0);
    }
    let i = v.current_frame_index() + 1;
    let h = v.frames[i].contents().header_hash;
    assert(v.frames[i].is_chapter());
    assert(v.frame_chapters(i) is Some);
    lemma_first_chapter_with(v.hashes(), h, 0);
    let target = first_chapter_with(v.hashes(), h, 0);
    assert(target < v.hashes().len());
    assert(v.hashes()[target] == h);
    assert(v.chapters[target].1 == h);
    lemma_only_frame_with(v.frames, h, i);
    let s = match v.current_frame() {
        Some(k) => v.with_action(ReaderAction::StopViewing { frame: k as usize }),
        None => v,
    };
    let t = s.with_viewing(target as usize);
    assert(t.viewing_hash() == Some(h));
    assert(t.current_frame() == Some(i));
    lemma_start_frame_heads(t);
}


proof fn lemma_same_heads_trans(
    a: Seq<crate::section::FrameView>,
    b: Seq<crate::section::FrameView>,
    c: Seq<crate::section::FrameView>,
)
    requires
        same_heads(a, b),
        same_heads(b, c),
    ensures
        same_heads(a, c),
{
    assert forall|i: int| 0 <= i < a.len() implies {
        &&& #[trigger] a[i].is_chapter() == c[i].is_chapter()
        &&& a[i].is_chapter() ==> a[i].contents().header_hash == c[i].contents().header_hash
    } by {
        assert(a[i].is_chapter() == b[i].is_chapter());
        assert(b[i].is_chapter() == c[i].is_chapter());
    }
}

proof fn lemma_progression_step(s: ReaderView, chapter: usize, char_pos: i64, page: i64, k: int)
    requires
        0 <= k < s.frames.len(),
    ensures
        same_heads(s.frames, progression_step(s, chapter, char_pos, page, k).frames),
        progression_step(s, chapter, char_pos, page, k).chapters == s.chapters,
        progression_step(s, chapter, char_pos, page, k).viewing_section == s.viewing_section,
        progression_step(s, chapter, char_pos, page, k).display == s.display,
        forall|i: int| 0 <= i < s.frames.len() && i != k ==> progression_step(s, chapter, char_pos, page, k).frames[i]
            == #[trigger] s.frames[i],
{
    let t = progression_step(s, chapter, char_pos, page, k);
    if s.frames[k] is Loaded && s.frames[k].contents().chapters.contains(chapter) && char_pos == -1 && page != -1 {
        let s1 = ReaderView { initial_progression_set: true, ..s };
        let c = s1.frames[k].contents();
        lemma_with_frame_same_heads(s1, k, moved_to(c, s1.display.set_offset(c, page as usize)));
    } else {
        assert forall|i: int| 0 <= i < s.frames.len() implies #[trigger] s.frames[i].is_chapter()
            == t.frames[i].is_chapter() by {}
    }
}

proof fn lemma_progression_from(s: ReaderView, n: int, chapter: usize, char_pos: i64, page: i64, j: int, k: int)
    requires
        0 <= j,
        n == s.frames.len(),
        0 <= k < n,
    ensures
        same_heads(s.frames, progression_from(s, n, chapter, char_pos, page, j).frames),
        progression_from(s, n, chapter, char_pos, page, j).chapters == s.chapters,
        progression_from(s, n, chapter, char_pos, page, j).viewing_section == s.viewing_section,
        progression_from(s, n, chapter, char_pos, page, j).frames[k] == (if k < j {
            s.frames[k]
        } else {
            progression_step(s, chapter, char_pos, page, k).frames[k]
        }),
    decreases n - j,
{
    if j >= n {
        assert forall|i: int| 0 <= i < s.frames.len() implies #[trigger] s.frames[i].is_chapter()
            == s.frames[i].is_chapter() by {}
    } else {
        let s1 = progression_step(s, chapter, char_pos, page, j);
        lemma_progression_step(s, chapter, char_pos, page, j);
        lemma_progression_from(s1, n, chapter, char_pos, page, j + 1, k);
        lemma_same_heads_trans(s.frames, s1.frames, progression_from(s1, n, chapter, char_pos, page, j + 1).frames);
        if k > j {
            assert(s1.frames[k] == s.frames[k]);
            lemma_progression_step(s1, chapter, char_pos, page, k);
            lemma_progression_step(s, chapter, char_pos, page, k);
        } else if k < j {
            assert(s1.frames[k] == s.frames[k]);
        }
    }
}

/// What is uploaded of an open book is where the reader is in the viewed
/// chapter: an uploaded reading position names the chapter now viewed and,
/// as its page, the page offset within the frame that shows that chapter
/// (not the page's place in the whole book).
pub proof fn law_upload_names_page_in_frame(
    v: ReaderView,
    byte_pos: Option<(usize, usize)>,
    chapter_count: usize,
    stored: Option<Progression>,
)
    ensures
        v.upload_progress_spec(byte_pos, chapter_count, stored).0 matches ProgressUpload::Update(
            Progression::Ebook { char_pos, page, chapter },
        ) ==> {
            &&& chapter == v.upload_progress_spec(byte_pos, chapter_count, stored).1.viewing_section as i64
            &&& page == (match v.upload_progress_spec(byte_pos, chapter_count, stored).1.current_frame() {
                Some(k) => v.frames[k].contents().page_offset as i64,
                None => 0,
            })
        },
{
}

/// Uploading the position and applying it again puts the reader back on
/// the same page: when the byte position on the page is not known and a
/// reading position is uploaded for the viewed chapter of a loaded frame
/// in a layout with pages, a reader that has since moved to any other
/// offset of that frame returns to the uploaded page when the uploaded
/// progress is applied.
pub proof fn law_uploaded_page_restores_position(
    v: ReaderView,
    chapter_count: usize,
    stored: Option<Progression>,
    k: int,
    o: usize,
)
    requires
        !v.is_transitioning,
        !(v.display is VerticalScroll),
        v.upload_progress_spec(None, chapter_count, stored).0 matches ProgressUpload::Update(Progression::Ebook { .. }),
        v.current_frame() == Some(k),
        v.frames[k] is Loaded,
        v.frames[k].contents().chapters.contains(v.viewing_section),
        v.frames[k].contents().page_offset < v.frames[k].contents().page_count(),
        v.frames[k].contents().page_count() <= i64::MAX,
        v.viewing_section <= i64::MAX,
    ensures
        v.upload_progress_spec(None, chapter_count, stored).0 matches ProgressUpload::Update(p) ==> {
            let w = v.upload_progress_spec(None, chapter_count, stored).1;
            w.with_frame(k, w.frames[k].contents().with_offset(o)).use_progression_spec(Some(p)).page_pos()
                == v.page_pos()
        },
{
    lemma_first_frame_with(v.frames, v.viewing_hash()->0, 0);
    let w = v.upload_progress_spec(None, chapter_count, stored).1;
    assert(w == v);
    let c = v.frames[k].contents();
    let m = v.with_frame(k, c.with_offset(o));
    lemma_with_frame_same_heads(v, k, c.with_offset(o));
    lemma_current_frame_same_heads(v, m);
    let page = c.page_offset as i64;
    let n = m.frames.len() as int;
    lemma_progression_from(m, n, v.viewing_section, -1i64, page, 0, k);
    let r = progression_from(m, n, v.viewing_section, -1i64, page, 0);
    lemma_current_frame_same_heads(m, r);
    assert(r.frames[k].contents().page_offset == c.page_offset);
    assert(r.frames[k].contents().gpi == c.gpi);
}


/// What ending on the current frame changes: the frame it puts on its last
/// page keeps its header hash and its place in the book, and nothing else
/// about the frames, chapters or viewed chapter changes.
proof fn lemma_end_frame_heads(t: ReaderView)
    ensures
        same_heads(t.frames, t.end_frame().frames),
        t.end_frame().chapters == t.chapters,
        t.end_frame().viewing_section == t.viewing_section,
        t.end_frame().current_frame() == t.current_frame(),
        t.current_frame() matches Some(j) ==> t.end_frame().frames[j].contents().gpi == t.frames[j].contents().gpi,
{
    match t.current_frame() {
        Some(j) => {
            lemma_first_frame_with(t.frames, t.viewing_hash()->0, 0);
            let c = t.frames[j].contents();
            lemma_with_frame_same_heads(t, j, moved_to(c, t.display.last_page_offset(c)));
        },
        None => {
            assert forall|i: int| 0 <= i < t.frames.len() implies #[trigger] t.frames[i].is_chapter()
                == t.end_frame().frames[i].is_chapter() by {}
        },
    }
    lemma_current_frame_same_heads(t, t.end_frame());
}

/// A step back before the first page of the current frame `i`, in a
/// layout with pages, shows the last page of the previous frame, when
/// that frame has pages and no frame before it has its header hash.
pub proof fn law_previous_page_enters_previous_frame_at_end(v: ReaderView, i: int)
    requires
        v.wf(),
        v.chapters.len() <= usize::MAX,
        !(v.display is VerticalScroll),
        v.current_frame() == Some(i),
        v.display.previous_offset(v.frames[i].contents()) is None,
        i >= 1,
        0 < v.frames[i - 1].contents().page_count() <= usize::MAX,
        forall|k: int| 0 <= k < i - 1 ==> !(#[trigger] v.frames[k].is_chapter()
            && v.frames[k].contents().header_hash == v.frames[i - 1].contents().header_hash),
    ensures
        v.previous_page_spec().0,
        v.previous_page_spec().1.current_frame() == Some(i - 1),
        v.previous_page_spec().1.frames[i - 1].contents().page_offset + 1 == v.frames[i - 1].contents().page_count(),
        v.previous_page_spec().1.page_pos() + 1 == v.frames[i - 1].contents().page_count_until(),
{
    lemma_first_frame_with(v.frames, v.viewing_hash()->0, 0);
    let h = v.frames[i - 1].contents().header_hash;
    assert(v.frames[i - 1].is_chapter());
    assert(v.frame_chapters(i - 1) is Some);
    lemma_first_chapter_with(v.hashes(), h, 0);
    let start = first_chapter_with(v.hashes(), h, 0);
    assert(start < v.hashes().len());
    lemma_first_chapter_without(v.hashes(), h, start + 1);
    let end = first_chapter_without(v.hashes(), h, start + 1) - 1;
    assert(start <= end < v.hashes().len());
    assert(v.hashes()[end] == h);
    lemma_only_frame_with(v.frames, h, i - 1);
    let s = v.with_action(ReaderAction::Transition { frame: i as usize, amount: 0 }).with_action(
        ReaderAction::StopViewing { frame: i as usize },
    );
    let t = s.with_viewing(end as usize);
    assert(t.viewing_hash() == Some(h));
    assert(t.current_frame() == Some(i - 1));
    lemma_end_frame_heads(t);
}

proof fn lemma_last_chapter_with(sections: Seq<Seq<char>>, h: Seq<char>, n: int, j: int)
    requires
        0 <= j < n <= sections.len(),
        sections[j] == h,
    ensures
        last_chapter_with(sections, h, n) matches Some(k) && 0 <= k < n && sections[k] == h,
    decreases n,
{
    if sections[n - 1] != h {
        lemma_last_chapter_with(sections, h, n - 1, j);
    }
}

/// Going to the previous section moves exactly one frame back: when the
/// frame before the current one is loaded and no frame before it has its
/// header hash, the reader goes back and that frame becomes the current
/// one.
pub proof fn law_previous_section_moves_one_frame(v: ReaderView)
    requires
        v.wf(),
        v.chapters.len() <= usize::MAX,
        v.current_frame_index() >= 1,
        v.frames[v.current_frame_index() - 1] is Loaded,
        forall|k: int| 0 <= k < v.current_frame_index() - 1 ==> !(#[trigger] v.frames[k].is_chapter()
            && v.frames[k].contents().header_hash == v.frames[v.current_frame_index() - 1].contents().header_hash),
    ensures
        v.previous_section_spec().0,
        v.previous_section_spec().1.current_frame() == Some(v.current_frame_index() - 1),
        v.previous_section_spec().1.current_frame_index() == v.current_frame_index() - 1,
{
    if v.viewing_hash() is Some {
        lemma_first_frame_with(v.frames, v.viewing_hash()->0, 0);
    }
    let i = v.current_frame_index() - 1;
    let h = v.frames[i].contents().header_hash;
    assert(v.frames[i].is_chapter());
    assert(v.frame_chapters(i) is Some);
    lemma_first_chapter_with(v.hashes(), h, 0);
    let first = first_chapter_with(v.hashes(), h, 0);
    assert(first < v.hashes().len());
    lemma_last_chapter_with(v.hashes(), h, v.hashes().len() as int, first);
    let target = last_chapter_with(v.hashes(), h, v.hashes().len() as int)->0;
    assert(v.hashes()[target] == h);
    lemma_only_frame_with(v.frames, h, i);
    let s = match v.current_frame() {
        Some(k) => v.with_action(ReaderAction::StopViewing { frame: k as usize }),
        None => v,
    };
    let t = s.with_viewing(target as usize);
    assert(t.viewing_hash() == Some(h));
    assert(t.current_frame() == Some(i));
    lemma_start_frame_heads(t);
}

} // verus!

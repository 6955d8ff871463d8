use frontend::layout::LayoutDisplay;
use frontend::overlay::DragType;
use frontend::progress::{ProgressUpload, Progression, ReaderLoadType};
use frontend::reader::{Chapter, Reader, ReaderAction};
use frontend::reader_events::ReleaseOutcome;

fn chapters(hashes: &[&str]) -> Vec<Chapter> {
    hashes
        .iter()
        .enumerate()
        .map(|(i, h)| Chapter { value: i, header_hash: String::from(*h), file_path: format!("OEBPS/text/ch{}.xhtml", i) })
        .collect()
}

/// A reader of two chapters in two frames, with 3 and 2 pages.
fn loaded_reader(display: LayoutDisplay) -> Reader {
    let mut r = Reader::new(display);
    r.changed(chapters(&["a", "b"]), None, 2, ReaderLoadType::All);
    r.on_frame_loaded(0);
    r.on_frame_loaded(1);
    r.after_frame_loaded(&vec![3, 2], false, None);
    r
}

#[test]
fn changed_creates_one_frame_per_header_hash() {
    let mut r = Reader::new(LayoutDisplay::new_single());
    r.changed(chapters(&["a", "a", "b"]), None, 3, ReaderLoadType::All);
    assert_eq!(r.section_frames.len(), 2);
    assert_eq!(r.section_frames[0].as_chapter().unwrap().get_chapters(), &[0, 1]);
    assert_eq!(r.section_frames[1].as_chapter().unwrap().get_chapters(), &[2]);
    assert_eq!(
        r.take_actions(),
        vec![ReaderAction::CreateFrame { frame: 0 }, ReaderAction::CreateFrame { frame: 1 }]
    );
    assert!(r.actions.is_empty());
    assert!(!r.are_all_sections_generated());
    assert_eq!(r.loaded_count(), 0);
}

#[test]
fn frames_get_their_pages_once_loaded() {
    let r = loaded_reader(LayoutDisplay::new_single());
    assert!(r.are_all_sections_generated());
    assert_eq!(r.loaded_count(), 2);
    assert_eq!(r.page_count(2), 5);
    let f1 = r.section_frames[1].as_loaded().unwrap();
    assert_eq!(f1.gpi, 3);
    assert_eq!(f1.page_count(), 2);
    assert_eq!(r.get_frame_start_and_end_sections(0), Some((0, 0)));
    assert_eq!(r.get_frame_start_and_end_sections(1), Some((1, 1)));
    assert!(r.initial_progression_set);
    assert_eq!(r.current_page_pos(), 0);
}

#[test]
fn comic_book_frames_get_one_page_per_chapter() {
    let mut r = Reader::new(LayoutDisplay::new_single());
    r.changed(chapters(&["a", "a", "a"]), None, 3, ReaderLoadType::All);
    r.on_frame_loaded(0);
    r.after_frame_loaded(&vec![0], true, None);
    assert_eq!(r.page_count(3), 3);
}

#[test]
fn empty_measured_frame_gets_one_page() {
    let mut r = Reader::new(LayoutDisplay::new_single());
    r.changed(chapters(&["a"]), None, 1, ReaderLoadType::All);
    r.on_frame_loaded(0);
    r.after_frame_loaded(&vec![0], false, None);
    assert_eq!(r.page_count(1), 1);
}

#[test]
fn set_page_reaches_every_page() {
    let mut r = loaded_reader(LayoutDisplay::new_single());
    for p in 0..5 {
        assert!(r.set_page(p));
        assert_eq!(r.current_page_pos(), p);
    }
    assert!(!r.set_page(5));
    assert_eq!(r.current_page_pos(), 4);
    assert_eq!(r.viewing_section, 1);
    assert_eq!(r.get_current_frame_index(), 1);
}

#[test]
fn next_and_previous_page_cross_frames() {
    let mut r = loaded_reader(LayoutDisplay::new_single());
    assert!(r.set_page(2));
    assert!(r.next_page());
    assert_eq!(r.current_page_pos(), 3);
    assert_eq!(r.viewing_section, 1);
    assert!(r.next_page());
    assert_eq!(r.current_page_pos(), 4);
    assert!(!r.next_page());
    assert_eq!(r.current_page_pos(), 4);
    assert!(r.previous_page());
    assert!(r.previous_page());
    assert_eq!(r.viewing_section, 0);
    assert_eq!(r.current_page_pos(), 2);
}

#[test]
fn next_then_previous_on_the_reader() {
    let mut r = loaded_reader(LayoutDisplay::new_double());
    assert!(r.set_page(1));
    assert!(r.next_page());
    assert!(r.previous_page());
    assert_eq!(r.current_page_pos(), 1);
}

#[test]
fn load_section_twice_changes_nothing() {
    let mut r = loaded_reader(LayoutDisplay::new_single());
    r.take_actions();
    let frames = r.section_frames.len();
    r.load_section(1);
    r.load_section(1);
    assert_eq!(r.section_frames.len(), frames);
    assert!(r.actions.is_empty());
}

#[test]
fn set_section_views_loaded_chapter() {
    let mut r = loaded_reader(LayoutDisplay::new_single());
    r.take_actions();
    assert!(r.set_section(1));
    assert_eq!(r.viewing_section, 1);
    assert!(!r.set_section(7));
    assert_eq!(r.viewing_section, 1);
    assert!(r.actions.contains(&ReaderAction::StopViewing { frame: 0 }));
    assert!(r.actions.contains(&ReaderAction::StartViewing { frame: 1 }));
}

#[test]
fn upload_progress_sends_only_changes() {
    let mut r = loaded_reader(LayoutDisplay::new_single());
    assert!(r.set_page(1));
    let mut stored = None;
    let first = r.upload_progress(Some((120, 0)), 2, &mut stored);
    let expected = Progression::Ebook { char_pos: 120, page: 1, chapter: 0 };
    assert_eq!(first, ProgressUpload::Update(expected));
    assert_eq!(stored, Some(expected));
    let second = r.upload_progress(Some((120, 0)), 2, &mut stored);
    assert_eq!(second, ProgressUpload::Unchanged);
    assert_eq!(stored, Some(expected));
}

#[test]
fn upload_progress_without_pages_removes_progress() {
    let mut r = Reader::new(LayoutDisplay::new_single());
    let mut stored = Some(Progression::Complete);
    assert_eq!(r.upload_progress(None, 0, &mut stored), ProgressUpload::Remove);
    assert_eq!(stored, None);
}

#[test]
fn can_upload_progress_needs_loaded_frame() {
    let r = loaded_reader(LayoutDisplay::new_single());
    assert!(r.can_upload_progress());
    let mut fresh = Reader::new(LayoutDisplay::new_single());
    fresh.changed(chapters(&["a"]), None, 1, ReaderLoadType::All);
    assert!(!fresh.can_upload_progress());
}

#[test]
fn stored_progress_page_is_applied() {
    let mut r = Reader::new(LayoutDisplay::new_single());
    let prog = Some(Progression::Ebook { char_pos: -1, page: 1, chapter: 1 });
    r.changed(chapters(&["a", "b"]), prog, 2, ReaderLoadType::All);
    assert_eq!(r.viewing_section, 1);
    r.on_frame_loaded(0);
    r.on_frame_loaded(1);
    r.after_frame_loaded(&vec![3, 2], false, prog);
    assert!(r.initial_progression_set);
    assert_eq!(r.section_frames[1].as_loaded().unwrap().page_offset, 1);
}

#[test]
fn stored_byte_position_asks_for_its_page() {
    let mut r = Reader::new(LayoutDisplay::new_single());
    let prog = Some(Progression::Ebook { char_pos: 77, page: 0, chapter: 0 });
    r.changed(chapters(&["a"]), prog, 1, ReaderLoadType::All);
    r.on_frame_loaded(0);
    r.after_frame_loaded(&vec![4], false, prog);
    assert!(r.actions.contains(&ReaderAction::ShowPageOfByte { frame: 0, position: 77 }));
    r.show_frame_page(0, 3);
    assert_eq!(r.current_page_pos(), 3);
}

#[test]
fn release_at_the_sides_turns_pages() {
    let mut r = loaded_reader(LayoutDisplay::new_single());
    assert_eq!(r.handle_release(10, 1000, 150, Some(100), false), ReleaseOutcome::PreviousPage);
    assert_eq!(r.handle_release(900, 1000, 150, Some(100), false), ReleaseOutcome::NextPage);
    assert_eq!(r.handle_release(500, 1000, 150, Some(100), false), ReleaseOutcome::Emit);
    assert_eq!(r.handle_release(10, 1000, 150, Some(900), false), ReleaseOutcome::Emit);
    assert_eq!(r.handle_release(10, 1000, 150, Some(100), true), ReleaseOutcome::ClickLink);
    assert_eq!(r.handle_release(10, 1000, 150, Some(600), true), ReleaseOutcome::Emit);
    assert_eq!(r.handle_release(10, 1000, 150, None, false), ReleaseOutcome::Emit);
}

#[test]
fn release_after_hold_is_ignored() {
    let mut r = loaded_reader(LayoutDisplay::new_single());
    r.handle_hold(500);
    assert!(!r.on_held_toggle);
    r.handle_hold(1000);
    assert!(r.on_held_toggle);
    assert_eq!(r.handle_release(10, 1000, 150, Some(100), false), ReleaseOutcome::Ignored);
    assert!(!r.on_held_toggle);
}

#[test]
fn long_drag_turns_page_short_drag_resets() {
    let mut r = loaded_reader(LayoutDisplay::new_single());
    r.take_actions();
    r.handle_drag(DragType::Right(300));
    assert_eq!(r.drag_distance, 300);
    assert_eq!(r.actions, vec![ReaderAction::Transition { frame: 0, amount: 300 }]);
    assert_eq!(r.handle_release(500, 1000, 150, Some(100), false), ReleaseOutcome::PreviousPage);
    r.handle_drag(DragType::Left(100));
    assert_eq!(r.drag_distance, -100);
    assert_eq!(r.handle_release(500, 1000, 150, Some(100), false), ReleaseOutcome::Done);
    assert_eq!(r.drag_distance, 0);
    assert_eq!(r.actions.last(), Some(&ReaderAction::Transition { frame: 0, amount: 0 }));
    r.handle_drag(DragType::Up(40));
    assert_eq!(r.drag_distance, 0);
}

#[test]
fn transitions_start_once_and_end_with_upload() {
    let mut r = loaded_reader(LayoutDisplay::new_single());
    r.take_actions();
    assert!(r.on_transition_start());
    assert!(!r.on_transition_start());
    assert!(r.on_transition_end());
    assert_eq!(r.take_actions(), vec![ReaderAction::RefreshLinks, ReaderAction::UploadProgress]);
    assert!(!r.on_transition_end());
}

#[test]
fn scroll_past_the_start_five_times_goes_back_a_page() {
    let mut r = Reader::new(LayoutDisplay::new_scroll());
    r.changed(chapters(&["a", "b"]), None, 2, ReaderLoadType::All);
    r.on_frame_loaded(0);
    r.on_frame_loaded(1);
    r.after_frame_loaded(&vec![1, 1], false, None);
    assert!(r.set_section(1));
    for _ in 0..4 {
        r.handle_scroll_change_page(DragType::Up(0), 500);
    }
    assert_eq!(r.drag_distance, 400);
    assert_eq!(r.viewing_section, 1);
    r.handle_scroll_change_page(DragType::Up(0), 500);
    assert_eq!(r.drag_distance, 0);
    assert_eq!(r.viewing_section, 0);
}

#[test]
fn scroll_pause_keeps_or_drops_drag() {
    let mut r = Reader::new(LayoutDisplay::new_scroll());
    r.changed(chapters(&["a", "b"]), None, 2, ReaderLoadType::All);
    r.on_frame_loaded(0);
    r.on_frame_loaded(1);
    r.after_frame_loaded(&vec![1, 1], false, None);
    r.drag_distance = -200;
    r.update_drag_distance(500);
    assert_eq!(r.drag_distance, 0);
    assert_eq!(r.viewing_section, 0);
    r.drag_distance = -300;
    r.update_drag_distance(500);
    assert_eq!(r.drag_distance, 0);
    assert_eq!(r.viewing_section, 1);
}

#[test]
fn frame_style_follows_viewed_frame() {
    let mut r = loaded_reader(LayoutDisplay::new_single());
    assert!(r.set_page(3));
    let style = r.get_frame_class_and_style(true);
    assert!(style.horizontal);
    assert_eq!(style.offset_percent, 100);
    assert_eq!(style.offset_px, 0);
    assert!(style.transition);
    assert_eq!(style.class_name(), "frames horizontal");
    r.drag_distance = 50;
    let style = r.get_frame_class_and_style(true);
    assert_eq!(style.offset_px, 50);
    assert!(style.transition);
    r.drag_distance = -50;
    let style = r.get_frame_class_and_style(true);
    assert_eq!(style.offset_px, 0);
    assert!(!style.transition);
    let mut s = Reader::new(LayoutDisplay::new_scroll());
    s.drag_distance = 7;
    let style = s.get_frame_class_and_style(false);
    assert!(!style.horizontal);
    assert_eq!(style.offset_px, 7);
    assert_eq!(style.class_name(), "frames");
}

#[test]
fn set_display_and_section_changes() {
    let mut r = loaded_reader(LayoutDisplay::new_single());
    r.set_display(LayoutDisplay::new_double());
    assert!(r.display.is_double());
    assert!(r.on_next_section());
    assert_eq!(r.viewing_section, 1);
    assert!(!r.on_next_section());
    assert!(r.on_previous_section());
    assert_eq!(r.viewing_section, 0);
    assert!(!r.on_previous_section());
}

#[test]
fn page_messages_move_pages() {
    let mut r = loaded_reader(LayoutDisplay::new_single());
    assert!(r.on_set_page(4, 2));
    assert_eq!(r.current_page_pos(), 4);
    assert!(r.on_previous_page(2));
    assert_eq!(r.current_page_pos(), 3);
    assert!(r.on_next_page(2));
    assert_eq!(r.current_page_pos(), 4);
    assert!(r.on_set_section(0, 2));
    assert_eq!(r.viewing_section, 0);
}

#[test]
fn div_trunc_rounds_toward_zero() {
    assert_eq!(frontend::reader_events::div_trunc(-7, 2), -3);
    assert_eq!(frontend::reader_events::div_trunc(7, 2), 3);
    assert_eq!(frontend::reader_events::div_trunc(7, -2), -3);
}

#[test]
fn frames_must_match_the_chapters() {
    let mut r = loaded_reader(LayoutDisplay::new_single());
    assert!(r.is_well_formed());
    r.changed(chapters(&["z"]), None, 0, ReaderLoadType::All);
    assert!(!r.is_well_formed());
}

#[test]
fn page_operations_keep_frames_matched() {
    let mut r = Reader::new(LayoutDisplay::new_single());
    r.changed(chapters(&["a", "a", "b", "c"]), None, 4, ReaderLoadType::All);
    assert!(r.is_well_formed());
    r.on_frame_loaded(0);
    r.on_frame_loaded(1);
    r.on_frame_loaded(2);
    r.after_frame_loaded(&vec![2, 3, 1], false, None);
    assert!(r.is_well_formed());
    for _ in 0..7 {
        r.next_page();
        assert!(r.is_well_formed());
    }
    for p in [5, 0, 3] {
        r.set_page(p);
        assert!(r.is_well_formed());
    }
    for _ in 0..7 {
        r.previous_page();
        assert!(r.is_well_formed());
    }
    r.load_section(3);
    r.load_section(0);
    assert!(r.is_well_formed());
}

#[test]
fn scroll_past_the_end_five_times_goes_on_a_page() {
    let mut r = Reader::new(LayoutDisplay::new_scroll());
    r.changed(chapters(&["a", "b"]), None, 2, ReaderLoadType::All);
    r.on_frame_loaded(0);
    r.on_frame_loaded(1);
    r.after_frame_loaded(&vec![1, 1], false, None);
    assert_eq!(r.viewing_section, 0);
    for _ in 0..4 {
        r.handle_scroll_change_page(DragType::Down(0), 500);
    }
    assert_eq!(r.drag_distance, -400);
    assert_eq!(r.viewing_section, 0);
    r.handle_scroll_change_page(DragType::Down(0), 500);
    assert_eq!(r.drag_distance, 0);
    assert_eq!(r.viewing_section, 1);
}

#[test]
fn next_page_without_frames_changes_no_page() {
    let mut r = Reader::new(LayoutDisplay::new_single());
    r.drag_distance = 30;
    assert!(r.on_next_page(0));
    assert_eq!(r.drag_distance, 0);
    assert!(r.section_frames.is_empty() && r.actions.is_empty());
    let mut rtl = Reader::new(LayoutDisplay::new_image(frontend::layout::PageMovement::RightToLeft));
    assert!(!rtl.on_next_page(0));
}

#[test]
fn loading_chapters_keeps_each_shown_once_under_its_hash() {
    let mut r = Reader::new(LayoutDisplay::new_single());
    r.changed(chapters(&["a", "a", "b", "a"]), None, 4, ReaderLoadType::All);
    for k in [3, 0, 2, 1, 3] {
        r.load_section(k);
    }
    let mut seen = Vec::new();
    for f in &r.section_frames {
        let c = f.as_chapter().unwrap();
        for v in c.get_chapters() {
            assert!(!seen.contains(v));
            seen.push(*v);
            assert_eq!(r.cached_sections[*v].header_hash, c.header_hash);
        }
    }
    assert_eq!(seen.len(), 4);
}

#[test]
fn internal_links_go_to_the_chapter_of_their_file() {
    let mut r = loaded_reader(LayoutDisplay::new_single());
    assert_eq!(r.handle_redirect("text/ch1.xhtml"), Some(1));
    assert_eq!(r.viewing_section, 1);
    assert_eq!(r.handle_redirect("ch0.xhtml"), Some(0));
    assert_eq!(r.viewing_section, 0);
    assert_eq!(r.handle_redirect("h1.xhtml"), None);
    assert_eq!(r.handle_redirect("missing.xhtml"), None);
    assert_eq!(r.viewing_section, 0);
    assert_eq!(frontend::reader_events::find_chapter_by_path(&r.cached_sections, "OEBPS/text/ch1.xhtml"), Some(1));
}

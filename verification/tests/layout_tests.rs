use frontend::layout::{
    ImageDisplay, LayoutDisplay, LayoutType, PageDisplay, PageMovement, PageTransition, ScrollDisplay,
};
use frontend::section::{CachedPage, SectionContents, SectionLoadProgress};
use frontend::section_display::{SectionDisplay, SectionDisplayType};

fn section_with_pages(count: usize) -> SectionContents {
    let mut s = SectionContents::new(String::from("hash"));
    let mut pages = Vec::new();
    for p in 0..count {
        pages.push(CachedPage { chapter: 0, chapter_local_page: p });
    }
    s.set_cached_pages(pages);
    s
}

#[test]
fn next_then_previous_returns_to_start() {
    for display in [LayoutDisplay::new_single(), LayoutDisplay::new_double()] {
        let mut d = display;
        let mut s = section_with_pages(3);
        assert!(d.set_page(1, &mut s));
        assert!(d.next_page(&mut s));
        assert_eq!(s.page_offset, 2);
        assert!(d.previous_page(&mut s));
        assert_eq!(s.page_offset, 1);
    }
}

#[test]
fn previous_then_next_returns_to_start() {
    let mut d = LayoutDisplay::new_single();
    let mut s = section_with_pages(4);
    assert!(d.set_page(2, &mut s));
    assert!(d.previous_page(&mut s));
    assert_eq!(s.page_offset, 1);
    assert!(d.next_page(&mut s));
    assert_eq!(s.page_offset, 2);
}

#[test]
fn page_steps_stop_at_the_edges() {
    let mut d = PageDisplay::new(1, "single-page");
    let mut s = section_with_pages(2);
    assert!(!d.previous_page(&mut s));
    assert_eq!(s.page_offset, 0);
    assert!(d.next_page(&mut s));
    assert!(!d.next_page(&mut s));
    assert_eq!(s.page_offset, 1);
    assert!(!d.set_page(2, &mut s));
    assert_eq!(s.page_offset, 1);
}

#[test]
fn set_last_page_goes_to_last_and_keeps_empty_sections() {
    let mut d = PageDisplay::new(2, "double-page");
    let mut s = section_with_pages(5);
    d.set_last_page(&mut s);
    assert_eq!(s.page_offset, 4);
    let mut empty = section_with_pages(0);
    d.set_last_page(&mut empty);
    assert_eq!(empty.page_offset, 0);
}

#[test]
fn page_position_formula() {
    let d = PageDisplay::new(1, "single-page");
    let mut s = section_with_pages(5);
    s.page_offset = 3;
    let p = d.page_position(&s);
    assert_eq!(p.left_percent, 300);
    assert_eq!(p.left_px, 30);
    assert!(p.width.is_none());
    assert_eq!(p.transition, Some(PageTransition::Left));
}

#[test]
fn scroll_display_never_steps() {
    let mut d = ScrollDisplay::new("scrolling");
    assert!(!d.next_page());
    assert!(!d.previous_page());
    let mut s = section_with_pages(3);
    assert!(d.set_page(2, &mut s));
}

#[test]
fn image_steps_follow_reading_order() {
    let mut ltr = ImageDisplay::new("single-page", PageMovement::LeftToRight);
    let mut s = section_with_pages(3);
    assert!(ltr.next_page(&mut s));
    assert_eq!(s.page_offset, 1);

    let mut rtl = ImageDisplay::new("single-page", PageMovement::RightToLeft);
    let mut s = section_with_pages(3);
    s.page_offset = 2;
    assert!(rtl.next_page(&mut s));
    assert_eq!(s.page_offset, 1);
    assert!(rtl.previous_page(&mut s));
    assert_eq!(s.page_offset, 2);
    assert!(!rtl.previous_page(&mut s));
}

#[test]
fn image_viewing_page_is_mirrored_right_to_left() {
    let rtl = ImageDisplay::new("single-page", PageMovement::RightToLeft);
    let mut s = section_with_pages(4);
    s.page_offset = 1;
    assert_eq!(rtl.viewing_page(&s), 2);
    let mut mirrored = section_with_pages(4);
    mirrored.page_offset = rtl.viewing_page(&s);
    assert_eq!(rtl.viewing_page(&mirrored), 1);
    let ltr = ImageDisplay::new("single-page", PageMovement::LeftToRight);
    assert_eq!(ltr.viewing_page(&s), 1);
}

#[test]
fn image_page_position_has_width_right_to_left() {
    let rtl = ImageDisplay::new("single-page", PageMovement::RightToLeft);
    let mut s = section_with_pages(4);
    s.page_offset = 0;
    let p = rtl.page_position(&s);
    assert_eq!(p.left_percent, 300);
    assert_eq!(p.left_px, 30);
    assert_eq!(p.width, Some((400, 30)));
    assert_eq!(p.transition, Some(PageTransition::All));
}

#[test]
fn dragging_past_the_first_page_is_dropped() {
    let ltr = ImageDisplay::new("single-page", PageMovement::LeftToRight);
    let s = section_with_pages(3);
    let p = ltr.transitioning_page(50, &s);
    assert_eq!(p.left_px, 0);
    assert_eq!(p.transition, Some(PageTransition::All));
    let p = ltr.transitioning_page(-50, &s);
    assert_eq!(p.left_px, 50);
    assert!(p.transition.is_none());
}

#[test]
fn layout_display_types_and_movement() {
    assert_eq!(LayoutDisplay::new_single().as_type(), LayoutType::Single);
    assert_eq!(LayoutDisplay::new_double().as_type(), LayoutType::Double);
    assert_eq!(LayoutDisplay::new_scroll().as_type(), LayoutType::Scroll);
    assert_eq!(LayoutDisplay::new_image(PageMovement::RightToLeft).as_type(), LayoutType::Image);
    assert!(LayoutDisplay::new_single().is_single());
    assert!(LayoutDisplay::new_double().is_double());
    assert!(LayoutDisplay::new_scroll().is_scroll());
    assert!(!LayoutDisplay::new_single().is_scroll());
    assert_eq!(LayoutDisplay::new_image(PageMovement::RightToLeft).get_movement(), PageMovement::RightToLeft);
    assert_eq!(LayoutDisplay::new_single().get_movement(), PageMovement::LeftToRight);
    assert!(LayoutDisplay::from(LayoutType::Double).is_double());
    assert!(LayoutDisplay::default().is_double());
    assert!(LayoutDisplay::new_single() == LayoutDisplay::new_single());
    assert!(LayoutDisplay::new_single() != LayoutDisplay::new_double());
}

#[test]
fn layout_page_position_of_scroll_is_none() {
    let s = section_with_pages(2);
    assert!(LayoutDisplay::new_scroll().page_position(&s).is_none());
    let p = LayoutDisplay::new_double().page_position(&s).unwrap();
    assert_eq!(p.left_percent, 0);
}

#[test]
fn section_display_types() {
    assert_eq!(SectionDisplay::new_single().as_type(), SectionDisplayType::Single);
    assert_eq!(SectionDisplay::new_double().as_type(), SectionDisplayType::Double);
    assert_eq!(SectionDisplay::new_scroll().as_type(), SectionDisplayType::Scroll);
    assert_eq!(SectionDisplay::new_image(PageMovement::LeftToRight).as_type(), SectionDisplayType::Image);
    assert!(SectionDisplay::from(0).is_single());
    assert!(SectionDisplay::from(1).is_double());
    assert!(SectionDisplay::from(2).is_scroll());
    assert!(SectionDisplay::default().is_double());
    assert!(SectionDisplay::new_scroll() == SectionDisplay::new_scroll());
    assert!(SectionDisplay::new_image(PageMovement::LeftToRight) != SectionDisplay::new_image(PageMovement::LeftToRight));
    assert_eq!(SectionDisplay::new_image(PageMovement::RightToLeft).get_movement(), PageMovement::RightToLeft);
}

#[test]
fn section_display_steps() {
    let mut d = SectionDisplay::new_single();
    let mut s = section_with_pages(3);
    assert!(d.next_page(&mut s));
    assert_eq!(d.viewing_page(&s), 1);
    assert!(d.previous_page(&mut s));
    assert!(!d.previous_page(&mut s));
    d.set_last_page(&mut s);
    assert_eq!(s.page_offset, 2);
}

#[test]
fn section_contents_queries() {
    let mut s = SectionContents::new(String::from("h1"));
    s.append_chapter(3);
    s.append_chapter(4);
    assert_eq!(s.get_chapters(), &[3, 4]);
    assert!(s.has_chapter(4));
    assert!(!s.has_chapter(5));
    s.gpi = 10;
    s.set_cached_pages(vec![
        CachedPage { chapter: 0, chapter_local_page: 0 },
        CachedPage { chapter: 0, chapter_local_page: 1 },
    ]);
    assert_eq!(s.page_count(), 2);
    assert_eq!(s.get_page_count_until(), 12);
    let other = SectionContents::new(String::from("h1"));
    assert!(s == other);
    assert!(s != SectionContents::new(String::from("h2")));
}

#[test]
fn section_load_progress_conversion() {
    let mut p = SectionLoadProgress::Loading(SectionContents::new(String::from("h")));
    assert!(!p.is_waiting());
    assert!(!p.is_loaded());
    assert!(p.as_loaded().is_none());
    assert!(p.as_chapter().is_some());
    p.convert_to_loaded();
    assert!(p.is_loaded());
    assert!(p.as_loaded().is_some());
    let w = SectionLoadProgress::Waiting;
    assert!(w.is_waiting());
    assert!(w.as_chapter().is_none());
}

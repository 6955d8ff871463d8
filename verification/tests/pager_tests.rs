use std::collections::HashMap;

use frontend::chapter_pager::{get_frames, get_page, ChapterPager, PagerStep, SwipeTurn};

fn counts(pairs: &[(usize, usize)]) -> HashMap<usize, usize> {
    pairs.iter().copied().collect()
}

#[test]
fn global_pages_map_to_chapter_pages() {
    let chapters = counts(&[(0, 3), (1, 2), (2, 4)]);
    assert_eq!(get_page(0, 3, &chapters), Some((0, 0)));
    assert_eq!(get_page(2, 3, &chapters), Some((0, 2)));
    assert_eq!(get_page(3, 3, &chapters), Some((1, 0)));
    assert_eq!(get_page(5, 3, &chapters), Some((2, 0)));
    assert_eq!(get_page(8, 3, &chapters), Some((2, 3)));
    assert_eq!(get_page(9, 3, &chapters), None);
    assert_eq!(get_page(4, 1, &chapters), None);
}

#[test]
fn missing_chapter_stops_the_count() {
    let chapters = counts(&[(0, 2), (2, 5)]);
    assert_eq!(get_page(1, 3, &chapters), Some((0, 1)));
    assert_eq!(get_page(3, 3, &chapters), None);
    assert_eq!(get_frames(3, &chapters), 1);
    assert_eq!(get_frames(3, &counts(&[(0, 1), (1, 1), (2, 1)])), 3);
    assert_eq!(get_frames(3, &counts(&[])), 0);
}

#[test]
fn pager_steps_within_and_across_chapters() {
    let chapters = counts(&[(0, 2), (1, 2)]);
    let mut pager = ChapterPager::new();
    assert_eq!(pager.previous_page(2, &chapters), PagerStep::Blocked);
    assert_eq!(pager.next_page(4, 2, &chapters), PagerStep::SameChapter { chapter: 0, page: 1 });
    assert_eq!(pager.next_page(4, 2, &chapters), PagerStep::OtherChapter { chapter: 1 });
    assert_eq!(pager.viewing_chapter, 1);
    assert_eq!(pager.next_page(4, 2, &chapters), PagerStep::SameChapter { chapter: 1, page: 1 });
    assert_eq!(pager.next_page(4, 2, &chapters), PagerStep::Blocked);
    assert_eq!(pager.viewing_page, 3);
    assert_eq!(pager.previous_page(2, &chapters), PagerStep::SameChapter { chapter: 1, page: 0 });
    assert_eq!(pager.previous_page(2, &chapters), PagerStep::OtherChapter { chapter: 0 });
    assert_eq!(pager.viewing_chapter, 0);
    assert_eq!(pager.next_page(9, 5, &counts(&[])), PagerStep::Moved);
}

#[test]
fn swipes_turn_pages() {
    let mut pager = ChapterPager::new();
    assert_eq!(pager.touch_end(0, 0), None);
    pager.touch_start(300, 100);
    assert_eq!(pager.touch_end(150, 120), Some(SwipeTurn::Next));
    assert!(pager.touch_start.is_none());
    pager.touch_start(100, 100);
    assert_eq!(pager.touch_end(250, 90), Some(SwipeTurn::Previous));
    pager.touch_start(100, 100);
    assert_eq!(pager.touch_end(150, 100), None);
    pager.touch_start(100, 100);
    assert_eq!(pager.touch_end(250, 300), None);
    pager.touch_start(1, 1);
    pager.touch_cancel();
    assert!(pager.touch_start.is_none());
}

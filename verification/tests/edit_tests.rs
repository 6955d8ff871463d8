use frontend::layout::{ImageDisplay, LayoutDisplay, PageMovement};
use frontend::library_edit::{name_from_trimmed, LibraryUpdate};
use frontend::popups::{dropdown_items, open_file, FileOpen};
use frontend::progress::Progression;
use frontend::section::{CachedPage, SectionContents};
use frontend::urls::{get_search_path, SearchType};

fn texts(v: &[String]) -> Vec<&str> {
    v.iter().map(|s| s.as_str()).collect()
}

#[test]
fn library_name_is_trimmed_and_dropped_when_empty() {
    let mut update = LibraryUpdate::new();
    update.on_change_name("  Comics \t");
    assert_eq!(update.name.as_deref(), Some("Comics"));
    update.on_change_name("   ");
    assert_eq!(update.name, None);
    assert_eq!(name_from_trimmed(String::new()), None);
    assert_eq!(name_from_trimmed(String::from("x")), Some(String::from("x")));
}

#[test]
fn directories_added_and_removed_before_the_library_arrives() {
    let mut update = LibraryUpdate::new();
    update.on_add_directory(String::from("/a"), None);
    update.on_add_directory(String::from("/b"), None);
    update.on_add_directory(String::from("/a"), None);
    assert_eq!(texts(&update.add_directories), vec!["/a", "/b"]);
    update.on_remove_directory(String::from("/a"));
    assert_eq!(texts(&update.add_directories), vec!["/b"]);
    assert!(update.remove_directories.is_empty());
    update.on_remove_directory(String::from("/c"));
    assert_eq!(texts(&update.remove_directories), vec!["/c"]);
    update.on_add_directory(String::from("/c"), None);
    assert!(update.remove_directories.is_empty());
    assert_eq!(texts(&update.add_directories), vec!["/b"]);
}

#[test]
fn directories_are_not_added_once_the_library_arrived() {
    let existing = vec![String::from("/lib")];
    let mut update = LibraryUpdate::new();
    update.on_add_directory(String::from("/new"), Some(&existing));
    update.on_add_directory(String::from("/lib"), Some(&existing));
    assert!(update.add_directories.is_empty());
    update.on_remove_directory(String::from("/x"));
    update.on_remove_directory(String::from("/y"));
    update.on_remove_directory(String::from("/z"));
    update.on_add_directory(String::from("/x"), Some(&existing));
    assert_eq!(texts(&update.remove_directories), vec!["/z", "/y"]);
}

#[test]
fn search_path_encodes_text_and_names_type() {
    assert_eq!(get_search_path("dune 2", SearchType::Book), "/api/book/search?query=dune%202&search_type=Book");
    assert_eq!(get_search_path("Ann-Marie", SearchType::Person), "/api/book/search?query=Ann-Marie&search_type=Person");
}

#[test]
fn left_to_right_viewing_page_is_the_offset_whatever_it_is() {
    let d = ImageDisplay::new("image-page", PageMovement::LeftToRight);
    let mut s = SectionContents::new(String::from("h"));
    s.set_cached_pages(vec![CachedPage { chapter: 0, chapter_local_page: 0 }]);
    s.page_offset = 7;
    assert_eq!(d.viewing_page(&s), 7);
    let p = LayoutDisplay::new_single().transitioning_page(0, &s);
    assert_eq!(p.left_percent, 700);
    assert_eq!(p.left_px, 70);
}

#[test]
fn opening_a_file_offers_progress_of_another_file() {
    assert_eq!(open_file(5, 0, &vec![false, true]), FileOpen::UseExistingProgress { file_id: 5 });
    assert_eq!(open_file(6, 1, &vec![false, true]), FileOpen::Read { file_id: 6 });
    assert_eq!(open_file(5, 0, &vec![false, false]), FileOpen::Read { file_id: 5 });
}

#[test]
fn poster_menu_entries() {
    let done = dropdown_items(Some(Progression::Complete), true, false, true);
    assert!(!done.mark_as_read && done.mark_as_unread && done.unmatch && done.refresh_metadata);
    assert!(done.add_to_collection && !done.remove_from_collection && done.download);
    let fresh = dropdown_items(None, false, true, false);
    assert!(fresh.mark_as_read && !fresh.mark_as_unread && !fresh.unmatch);
    assert!(fresh.remove_from_collection && !fresh.add_to_collection && !fresh.download);
}

#[test]
fn names_lose_unicode_white_space_at_both_ends() {
    let mut update = LibraryUpdate::new();
    update.on_change_name("\u{3000}\u{85}Manga Shelf\u{2003}\n");
    assert_eq!(update.name.as_deref(), Some("Manga Shelf"));
    update.on_change_name("\u{a0}\u{2028}");
    assert_eq!(update.name, None);
}

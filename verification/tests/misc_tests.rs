use frontend::loading::{get_next_pages_to_load, PageLoadType};
use frontend::overlay::{drag_type, mouse_direction, DragType, SwipeDirection};
use frontend::popups::{show_item_popup, show_person_popup, DisplayOverlay, DisplayOverlayItem};
use frontend::progress::{Progression, ReaderLoadType};
use frontend::layout::{LayoutDisplay, LayoutType};
use frontend::reading::{
    book_dimensions_after_resize, book_display, container_dimensions, dimensions_after_resize,
    dimensions_after_settings, nav_visibility_after_release, preference_group, show_popup, LocalPopupType,
    PreferenceGroup, ReaderPreferences, ReaderSettings,
};
use frontend::routes::{switch_base, switch_settings, BaseRoute, SettingsRoute, SettingsShown, Shown, Viewing};
use frontend::text::split_offset;
use frontend::urls::{
    collection_book_path, file_progress_path, get_book_pages_path, get_download_path, get_people_path,
    DownloadItem,
};

#[test]
fn settings_admin_pages() {
    assert!(SettingsRoute::AdminLibraries.is_admin());
    assert!(SettingsRoute::AdminMembers.is_admin());
    assert!(SettingsRoute::AdminMyServer.is_admin());
    assert!(SettingsRoute::AdminTasks.is_admin());
    assert!(!SettingsRoute::MemberGeneral.is_admin());
}

#[test]
fn signed_out_visitors_see_login_except_for_setup() {
    assert_eq!(switch_base(BaseRoute::People, None), Shown::LoginPage);
    assert_eq!(switch_base(BaseRoute::ViewBook { book_id: 3 }, None), Shown::LoginPage);
    assert_eq!(switch_base(BaseRoute::Setup, None), Shown::Page(BaseRoute::Setup));
    assert_eq!(switch_base(BaseRoute::People, Some(false)), Shown::Page(BaseRoute::People));
}

#[test]
fn admin_settings_are_for_the_owner() {
    assert_eq!(switch_settings(SettingsRoute::AdminTasks, false), SettingsShown::NoPermissions);
    assert_eq!(switch_settings(SettingsRoute::AdminTasks, true), SettingsShown::Page(SettingsRoute::AdminTasks));
    assert_eq!(
        switch_settings(SettingsRoute::MemberGeneral, false),
        SettingsShown::Page(SettingsRoute::MemberGeneral)
    );
}

#[test]
fn sidebar_shows_settings_on_settings_pages() {
    assert_eq!(Viewing::get_from_route(&BaseRoute::Settings), Viewing::Settings);
    assert_eq!(Viewing::get_from_route(&BaseRoute::Dashboard), Viewing::Main);
}

#[test]
fn split_after_last_period_before_the_limit() {
    let mut text = String::new();
    text.push_str(&"a".repeat(99));
    text.push('.');
    text.push_str(&"b".repeat(400));
    text.push('.');
    assert_eq!(split_offset(501, &text), 100);
}

#[test]
fn split_in_half_without_early_period() {
    let mut text = "c".repeat(450);
    text.push('.');
    assert_eq!(split_offset(451, &text), 225);
    let mut text = String::from(".");
    text.push_str(&"d".repeat(500));
    text.push('.');
    assert_eq!(split_offset(502, &text), 251);
}

#[test]
fn split_without_late_period_is_at_most_the_limit() {
    let text = "e".repeat(1000);
    assert_eq!(split_offset(1000, &text), 400);
    let text = "f".repeat(500);
    assert_eq!(split_offset(500, &text), 250);
}

#[test]
fn people_path_encodes_the_query() {
    assert_eq!(get_people_path(None, None, None), "/api/people?");
    assert_eq!(get_people_path(None, Some(30), None), "/api/people?offset=30&");
    assert_eq!(get_people_path(Some("a b/é"), Some(0), Some(25)), "/api/people?offset=0&limit=25&query=a%20b%2F%C3%A9");
    assert_eq!(get_people_path(Some("Tolkien-J.R_R~"), None, None), "/api/people?query=Tolkien-J.R_R~");
}

#[test]
fn api_paths() {
    assert_eq!(
        get_download_path("https://books.example", DownloadItem::Book(12)),
        "https://books.example/api/book/12/download"
    );
    assert_eq!(get_download_path("", DownloadItem::File(0)), "/api/file/0/download");
    assert_eq!(get_book_pages_path(5, 1, 12), "/api/file/5/pages/1-12");
    assert_eq!(collection_book_path(9, 1234567890), "/api/collection/9/book/1234567890");
    assert_eq!(file_progress_path(u64::MAX), "/api/file/18446744073709551615/progress");
}

#[test]
fn popup_toggles() {
    assert_eq!(show_popup(None, LocalPopupType::Notes), Some(LocalPopupType::Notes));
    assert_eq!(show_popup(Some(LocalPopupType::Notes), LocalPopupType::Notes), None);
    assert_eq!(show_popup(Some(LocalPopupType::Notes), LocalPopupType::Settings), Some(LocalPopupType::Settings));
    assert_eq!(show_popup(show_popup(None, LocalPopupType::Settings), LocalPopupType::Settings), None);
}

#[test]
fn book_dimensions() {
    assert_eq!(container_dimensions(-3, 40), (0, 40));
    assert_eq!(dimensions_after_resize(true, 800, -1), Some((800, 0)));
    assert_eq!(dimensions_after_resize(false, 800, 600), None);
    assert_eq!(dimensions_after_settings(false, true, (100, 100), (800, 600)), (800, 600));
    assert_eq!(dimensions_after_settings(false, false, (1000, 0), (800, 600)), (500, 300));
    assert_eq!(dimensions_after_settings(false, false, (0, -5), (-8, 601)), (0, 300));
    assert_eq!(dimensions_after_settings(true, true, (100, 100), (800, 600)), (100, 100));
    assert_eq!(dimensions_after_settings(true, false, (100, 100), (800, 600)), (100, 100));
}

#[test]
fn drag_distance_per_kind() {
    assert_eq!(DragType::Up(3).distance(), 3);
    assert_eq!(DragType::Left(9).distance(), 9);
    assert_eq!(DragType::Unmoved.distance(), 0);
}

#[test]
fn pointer_movement_direction() {
    assert_eq!(mouse_direction((100, 100), None), (SwipeDirection::Unmoved, 0, 0));
    assert_eq!(mouse_direction((100, 100), Some((97, 102))), (SwipeDirection::Unmoved, 3, -2));
    assert_eq!(mouse_direction((100, 100), Some((50, 90))), (SwipeDirection::Left, 50, 10));
    assert_eq!(mouse_direction((100, 100), Some((150, 90))), (SwipeDirection::Right, -50, 10));
    assert_eq!(mouse_direction((100, 100), Some((90, 90))), (SwipeDirection::Up, 10, 10));
    assert_eq!(mouse_direction((100, 100), Some((100, 130))), (SwipeDirection::Down, 0, -30));
    assert_eq!(drag_type(SwipeDirection::Right, -50, 10), DragType::Right(50));
    assert_eq!(drag_type(SwipeDirection::Down, 0, -30), DragType::Down(30));
    assert_eq!(drag_type(SwipeDirection::Unmoved, 1, 1), DragType::Unmoved);
}

#[test]
fn chapters_around_progress_when_nothing_is_loaded() {
    let prog = Some(Progression::Ebook { char_pos: 0, page: 0, chapter: 4 });
    assert_eq!(get_next_pages_to_load(prog, &vec![], 10, PageLoadType::All), (3, 6));
    assert_eq!(get_next_pages_to_load(None, &vec![], 10, PageLoadType::Select), (0, 2));
}

#[test]
fn load_all_fills_the_first_gap() {
    assert_eq!(get_next_pages_to_load(None, &vec![2, 0, 1], 10, PageLoadType::All), (3, 6));
    assert_eq!(get_next_pages_to_load(None, &vec![0, 5, 1], 10, PageLoadType::All), (2, 3));
    assert_eq!(get_next_pages_to_load(None, &vec![11, 0, 7, 9, 8, 10], 20, PageLoadType::All), (1, 5));
    assert_eq!(get_next_pages_to_load(None, &vec![0, 1, 3], 10, PageLoadType::All), (2, 3));
    assert_eq!(get_next_pages_to_load(None, &vec![1, 0], 2, PageLoadType::All), (0, 0));
}

#[test]
fn load_select_asks_for_neighbours() {
    let prog = Some(Progression::Ebook { char_pos: 0, page: 0, chapter: 3 });
    assert_eq!(get_next_pages_to_load(prog, &vec![3], 10, PageLoadType::Select), (2, 3));
    assert_eq!(get_next_pages_to_load(prog, &vec![2, 3], 10, PageLoadType::Select), (4, 5));
    assert_eq!(get_next_pages_to_load(prog, &vec![2, 3, 4], 10, PageLoadType::Select), (0, 0));
}

#[test]
fn reading_page_in_full_screen() {
    assert_eq!(book_dimensions_after_resize(true, false, 640, -2), Some((640, 0)));
    assert_eq!(book_dimensions_after_resize(true, true, 640, 480), None);
    assert_eq!(book_dimensions_after_resize(false, false, 640, 480), None);
    assert_eq!(nav_visibility_after_release(true, Some(501)), Some(true));
    assert_eq!(nav_visibility_after_release(true, Some(500)), Some(false));
    assert_eq!(nav_visibility_after_release(false, Some(900)), None);
    assert_eq!(nav_visibility_after_release(true, None), None);
}

#[test]
fn reading_preferences_by_book_and_device() {
    assert_eq!(preference_group(true, true), PreferenceGroup::ImageMobile);
    assert_eq!(preference_group(true, false), PreferenceGroup::ImageDesktop);
    assert_eq!(preference_group(false, true), PreferenceGroup::TextMobile);
    assert_eq!(preference_group(false, false), PreferenceGroup::TextDesktop);
    assert!(book_display(false, LayoutDisplay::new_scroll()).is_scroll());
    let comic = book_display(true, LayoutDisplay::new_scroll());
    assert_eq!(comic.get_movement(), frontend::layout::PageMovement::RightToLeft);
    assert!(!comic.is_scroll());
}

#[test]
fn splitting_long_text_ends_with_short_pieces() {
    let mut text = String::new();
    for i in 0..300 {
        text.push_str(if i % 7 == 0 { "word. " } else { "word " });
    }
    let mut pieces = Vec::new();
    let mut rest = text.clone();
    while rest.len() > 400 {
        let offset = split_offset(rest.len() as u32, &rest) as usize;
        assert!(offset > 0 && offset < rest.len());
        let tail = rest.split_off(offset);
        pieces.push(rest);
        rest = tail;
    }
    pieces.push(rest);
    assert_eq!(pieces.concat(), text);
    assert!(pieces.len() > 3);
}

#[test]
fn book_popups_toggle_except_the_edit_form() {
    let info = DisplayOverlayItem::Info { book_id: 3 };
    let open = show_item_popup(None, info.clone());
    assert!(open == Some(info.clone()));
    assert!(show_item_popup(open, info.clone()).is_none());
    let menu = DisplayOverlayItem::More { book_id: 3, mouse_x: 1, mouse_y: 2 };
    let moved = DisplayOverlayItem::More { book_id: 3, mouse_x: 50, mouse_y: 60 };
    assert!(show_item_popup(Some(menu), moved).is_none());
    let edit = DisplayOverlayItem::Edit { book_id: 3 };
    assert!(show_item_popup(Some(edit.clone()), edit.clone()).is_some());
    let search_a = DisplayOverlayItem::SearchForBook { book_id: 3, input_value: Some(String::from("dune")) };
    let search_b = DisplayOverlayItem::SearchForBook { book_id: 3, input_value: Some(String::from("dune 2")) };
    assert!(show_item_popup(Some(search_a.clone()), search_a.clone()).is_none());
    assert!(show_item_popup(Some(search_a), search_b.clone()) == Some(search_b));
    assert!(show_item_popup(Some(info), DisplayOverlayItem::Info { book_id: 4 }).is_some());
}

#[test]
fn person_popups_toggle_except_combining() {
    let info = DisplayOverlay::Info { person_id: 8 };
    assert!(show_person_popup(Some(info.clone()), info.clone()).is_none());
    let combine = DisplayOverlay::CombinePersonWith { person_id: 8, input_value: None };
    assert!(show_person_popup(Some(combine.clone()), combine).is_some());
    let search = DisplayOverlay::SearchForPerson { person_id: 8, input_value: None };
    assert!(show_person_popup(Some(search.clone()), search).is_none());
    assert!(show_person_popup(None, info).is_some());
}

#[test]
fn reader_settings_follow_preferences() {
    let prefs = ReaderPreferences {
        load_type: ReaderLoadType::Select,
        animate_page_transitions: true,
        default_full_screen: false,
        auto_full_screen: true,
        display_type: LayoutType::Double,
        always_show_progress: true,
        width: 1280,
        height: u32::MAX,
    };
    let s = ReaderSettings::from_preferences(prefs);
    assert_eq!(s.type_of, ReaderLoadType::Select);
    assert!(s.animate_page_transitions && !s.default_full_screen && s.auto_full_screen && s.show_progress);
    assert!(s.display.is_double());
    assert_eq!(s.dimensions, (1280, -1));
}

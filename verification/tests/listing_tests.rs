use frontend::home::HomeLibraries;
use frontend::listing::{can_request_more, update_editing, BookListComponent};
use frontend::navbar::NavbarSearch;
use frontend::people::{person_edit_change, toggle_person, PersonEditChange};

#[test]
fn more_can_be_asked_only_when_some_but_not_all_are_shown() {
    assert!(!can_request_more(0, 10));
    assert!(can_request_more(5, 10));
    assert!(!can_request_more(10, 10));
}

#[test]
fn first_request_has_no_offset_and_is_not_repeated() {
    let mut list = BookListComponent::new();
    assert_eq!(list.request_media_items(), Some(None));
    assert!(list.is_fetching_media_items);
    assert_eq!(list.request_media_items(), None);
}

#[test]
fn pages_are_appended_and_next_request_starts_after_them() {
    let mut list = BookListComponent::new();
    list.request_media_items();
    list.media_list_results(Some((vec![1, 2, 3], 5)));
    assert!(!list.is_fetching_media_items);
    assert_eq!(list.media_items, Some(vec![1, 2, 3]));
    assert_eq!(list.total_media_count, 5);
    assert!(list.can_req_more());
    assert_eq!(list.request_media_items(), Some(Some(3)));
    list.media_list_results(Some((vec![4, 5], 5)));
    assert_eq!(list.media_items, Some(vec![1, 2, 3, 4, 5]));
    assert!(!list.can_req_more());
}

#[test]
fn failed_page_only_ends_the_request() {
    let mut list = BookListComponent::new();
    list.request_media_items();
    list.media_list_results(None);
    assert!(!list.is_fetching_media_items);
    assert_eq!(list.media_items, None);
    assert_eq!(list.total_media_count, 0);
}

#[test]
fn scrolling_near_the_end_asks_for_more() {
    let mut list = BookListComponent::new();
    list.media_list_results(Some((vec![1, 2], 4)));
    assert!(list.on_scroll(1000, 500));
    assert!(!list.on_scroll(2000, 500));
    list.media_list_results(Some((vec![3, 4], 4)));
    assert!(!list.on_scroll(1000, 500));
}

#[test]
fn removing_a_book_shrinks_the_list() {
    let mut list = BookListComponent::new();
    list.media_list_results(Some((vec![7, 8, 9, 8], 4)));
    list.remove_book_from_collection(8);
    assert_eq!(list.media_items, Some(vec![7, 9, 8]));
    assert_eq!(list.total_media_count, 3);
    list.remove_book_from_collection(42);
    assert_eq!(list.media_items, Some(vec![7, 9, 8]));
    assert_eq!(list.total_media_count, 3);
}

#[test]
fn editing_selection_adds_once_and_removes_by_swapping() {
    let mut items = vec![];
    update_editing(&mut items, 4, true);
    update_editing(&mut items, 4, true);
    assert_eq!(items, vec![4]);
    update_editing(&mut items, 5, true);
    update_editing(&mut items, 6, true);
    update_editing(&mut items, 4, false);
    assert_eq!(items, vec![6, 5]);
    update_editing(&mut items, 9, false);
    assert_eq!(items, vec![6, 5]);
}

#[test]
fn deselect_all_clears_the_selection() {
    let mut list = BookListComponent::new();
    update_editing(&mut list.editing_items, 1, true);
    list.deselect_all_editing();
    assert!(list.editing_items.is_empty());
}

#[test]
fn tasks_mark_books_as_updating() {
    let mut list = BookListComponent::new();
    list.media_list_results(Some((vec![10, 11], 2)));
    assert!(list.task_update(1, 10, true));
    assert!(list.is_updating(10));
    assert!(!list.task_update(2, 99, true));
    assert!(list.is_updating(99));
    assert_eq!(list.task_end(1), Some(10));
    assert!(!list.is_updating(10));
    assert_eq!(list.task_end(1), None);
    assert_eq!(list.task_end(2), None);
    assert!(!list.is_updating(99));
    list.task_update(3, 11, true);
    list.book_item_results(3);
    assert!(!list.is_updating(11));
    list.task_update(4, 11, true);
    assert!(list.task_update(4, 11, false));
    assert!(!list.is_updating(11));
}

#[test]
fn libraries_are_asked_for_one_at_a_time_in_order() {
    let mut home = HomeLibraries::new(vec![3, 1, 2]);
    assert_eq!(home.load_next_library(), Some(3));
    assert_eq!(home.load_next_library(), None);
    assert_eq!(home.library_recent_response(3, Some(vec![30])), Some(1));
    assert_eq!(home.library_recent_response(1, Some(vec![])), Some(2));
    assert_eq!(home.library_recent_response(2, Some(vec![20, 21])), None);
    assert!(!home.is_requesting);
    assert_eq!(home.library_items.len(), 3);
}

#[test]
fn failed_library_is_asked_for_again() {
    let mut home = HomeLibraries::new(vec![5]);
    assert_eq!(home.load_next_library(), Some(5));
    assert_eq!(home.library_recent_response(5, None), Some(5));
    assert!(home.is_requesting);
}

#[test]
fn new_libraries_are_picked_up() {
    let mut home = HomeLibraries::new(vec![]);
    assert_eq!(home.load_next_library(), None);
    assert_eq!(home.context_changed(vec![8]), Some(8));
    assert_eq!(home.context_changed(vec![8, 9]), None);
}

#[test]
fn selecting_then_deselecting_restores_the_selection() {
    let mut items = vec![1, 2];
    update_editing(&mut items, 3, true);
    assert_eq!(items, vec![1, 2, 3]);
    update_editing(&mut items, 3, false);
    assert_eq!(items, vec![1, 2]);
}

#[test]
fn toggling_people_on_and_off() {
    let cache = vec![4, 5, 6];
    let mut selected = vec![1, 5];
    toggle_person(&mut selected, &cache, 6, true);
    assert_eq!(selected, vec![1, 5, 6]);
    toggle_person(&mut selected, &cache, 9, true);
    assert_eq!(selected, vec![1, 5, 6]);
    toggle_person(&mut selected, &cache, 6, false);
    assert_eq!(selected, vec![1, 5]);
    toggle_person(&mut selected, &cache, 1, false);
    assert_eq!(selected, vec![5]);
    toggle_person(&mut selected, &cache, 7, false);
    assert_eq!(selected, vec![5]);
    assert_eq!(person_edit_change(true, true), PersonEditChange::RemovePerson);
    assert_eq!(person_edit_change(true, false), PersonEditChange::InsertRemovedPerson);
    assert_eq!(person_edit_change(false, true), PersonEditChange::InsertAddedPerson);
    assert_eq!(person_edit_change(false, false), PersonEditChange::RemovePerson);
}

#[test]
fn navbar_search_waits_for_every_library() {
    let mut search = NavbarSearch::new();
    assert_eq!(search.search_input(3), Some(5));
    assert_eq!(search.search_results.len(), 3);
    assert_eq!(search.search_input(3), None);
    search.search_results_arrived(0, Some(vec![1]));
    search.search_results_arrived(1, None);
    search.search_results_arrived(2, Some(vec![]));
    assert_eq!(search.search_input(3), None);
    search.search_results_arrived(1, Some(vec![2, 3]));
    assert_eq!(search.search_input(1), Some(10));
    assert_eq!(search.search_results, vec![None]);
    search.close();
    assert!(search.search_results.is_empty());
}

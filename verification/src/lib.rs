//! The logic of a book server's web frontend: the book reader's layouts,
//! frames, pages and reading progress, the gestures over its pages, the
//! plan of which chapters to fetch, the paged book lists, the dashboard,
//! the navigation search, the edits of a library, who sees which page,
//! and the paths of the server's API.

pub mod chapter_pager;
pub mod home;
pub mod laws;
pub mod layout;
pub mod library_edit;
pub mod listing;
pub mod loading;
pub mod navbar;
pub mod overlay;
pub mod people;
pub mod popups;
pub mod progress;
pub mod reader;
pub mod reader_events;
pub mod reading;
pub mod routes;
pub mod section;
pub mod section_display;
pub mod text;
pub mod urls;

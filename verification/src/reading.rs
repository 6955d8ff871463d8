//! The reading page around the reader: its side popups and the size that
//! the book is given.

use vstd::prelude::*;

use crate::layout::{ImageDisplay, LayoutDisplay, LayoutType, PageMovement};
use crate::progress::ReaderLoadType;

verus! {

/// The popups beside the book.
#[derive(PartialEq, Eq, Structural, Clone, Copy, Debug)]
pub enum LocalPopupType {
    Notes,
    Settings,
}

/// The popup shown after asking for `type_of` while `current` is shown:
/// asking for the popup that is shown closes it.
pub open spec fn spec_show_popup(current: Option<LocalPopupType>, type_of: LocalPopupType) -> Option<
    LocalPopupType,
> {
    if current == Some(type_of) {
        None
    } else {
        Some(type_of)
    }
}

/// The popup shown after asking for `type_of` while `current` is shown.
pub fn show_popup(current: Option<LocalPopupType>, type_of: LocalPopupType) -> (r: Option<LocalPopupType>)
    ensures
        r == spec_show_popup(current, type_of),
{
    match current {
        Some(v) => if v == type_of {
            None
        } else {
            Some(type_of)
        },
        None => Some(type_of),
    }
}

/// Asking for the same popup twice leaves what was shown before, where no
/// popup or that one was shown.
pub proof fn law_show_popup_twice(current: Option<LocalPopupType>, type_of: LocalPopupType)
    requires
        current is None || current == Some(type_of),
    ensures
        spec_show_popup(spec_show_popup(current, type_of), type_of) == current,
{
}

/// A size of the container, never below zero.
pub open spec fn clamp_size(v: i32) -> i32 {
    if v < 0 {
        0
    } else {
        v
    }
}

/// The container's size, each side at least zero.
pub fn container_dimensions(width: i32, height: i32) -> (r: (i32, i32))
    ensures
        r == (clamp_size(width), clamp_size(height)),
{
    (if width < 0 {
        0
    } else {
        width
    }, if height < 0 {
        0
    } else {
        height
    })
}

/// The size of the book after the window was resized, where it changes: in
/// full screen the book takes the container (`width` by `height`); else
/// nothing changes.
pub fn dimensions_after_resize(is_fullscreen: bool, width: i32, height: i32) -> (r: Option<(i32, i32)>)
    ensures
        r == (if is_fullscreen {
            Some((clamp_size(width), clamp_size(height)))
        } else {
            None
        }),
{
    if is_fullscreen {
        Some(container_dimensions(width, height))
    } else {
        None
    }
}

/// A side of the book out of full screen: the one asked for where it is
/// above zero, else the container's; half of it either way.
pub open spec fn windowed_side(asked: i32, container: i32) -> i32 {
    ((if asked > 0 {
        asked
    } else {
        clamp_size(container)
    }) / 2) as i32
}

/// The size of the book after the reader settings changed from full screen
/// or not (`was_fullscreen`) to `is_fullscreen`, with the size `asked` by
/// the new settings, in a container `container`.
pub open spec fn spec_dimensions_after_settings(
    was_fullscreen: bool,
    is_fullscreen: bool,
    asked: (i32, i32),
    container: (i32, i32),
) -> (i32, i32) {
    if is_fullscreen && was_fullscreen != is_fullscreen {
        (clamp_size(container.0), clamp_size(container.1))
    } else if !was_fullscreen {
        (windowed_side(asked.0, container.0), windowed_side(asked.1, container.1))
    } else {
        asked
    }
}

/// The size of the book after the reader settings changed: entering full
/// screen takes the container; out of full screen before, each side is
/// halved, that asked where above zero, else the container's; else the
/// size asked stays.
pub fn dimensions_after_settings(
    was_fullscreen: bool,
    is_fullscreen: bool,
    asked: (i32, i32),
    container: (i32, i32),
) -> (r: (i32, i32))
    ensures
        r == spec_dimensions_after_settings(was_fullscreen, is_fullscreen, asked, container),
{
    if is_fullscreen && was_fullscreen != is_fullscreen {
        container_dimensions(container.0, container.1)
    } else if !was_fullscreen {
        let (cw, ch) = container_dimensions(container.0, container.1);
        let w = if asked.0 > 0 {
            asked.0
        } else {
            cw
        };
        let h = if asked.1 > 0 {
            asked.1
        } else {
            ch
        };
        (((w as u32) / 2) as i32, ((h as u32) / 2) as i32)
    } else {
        asked
    }
}

/// The size of the book after the window was resized, on the reading page
/// that hides its navigation bar in full screen: only in full screen with
/// the bar hidden does the book take the container.
pub fn book_dimensions_after_resize(
    is_full_screen: bool,
    is_navbar_visible: bool,
    width: i32,
    height: i32,
) -> (r: Option<(i32, i32)>)
    ensures
        r == (if is_full_screen && !is_navbar_visible {
            Some((clamp_size(width), clamp_size(height)))
        } else {
            None
        }),
{
    if is_full_screen && !is_navbar_visible {
        Some(container_dimensions(width, height))
    } else {
        None
    }
}

/// Whether the navigation bar is to be shown after a press of `held`
/// milliseconds is released, in full screen: a long press shows it, a
/// short one hides it; out of full screen, or without a duration, it is
/// left as it is (`None`).
pub fn nav_visibility_after_release(is_full_screen: bool, held: Option<i64>) -> (r: Option<bool>)
    ensures
        r == (match held {
            Some(ms) => if is_full_screen {
                Some(ms > 500)
            } else {
                None
            },
            None => None,
        }),
{
    match held {
        Some(ms) => if is_full_screen {
            Some(ms > 500)
        } else {
            None
        },
        None => None,
    }
}

/// Which of the stored reader preferences a book is read with.
#[derive(PartialEq, Eq, Structural, Clone, Copy, Debug)]
pub enum PreferenceGroup {
    ImageMobile,
    ImageDesktop,
    TextMobile,
    TextDesktop,
}

/// The preferences for a book of images or of text, on a phone or tablet
/// or not.
pub fn preference_group(is_comic_book: bool, is_mobile: bool) -> (r: PreferenceGroup)
    ensures
        r == (if is_comic_book {
            if is_mobile { PreferenceGroup::ImageMobile } else { PreferenceGroup::ImageDesktop }
        } else {
            if is_mobile { PreferenceGroup::TextMobile } else { PreferenceGroup::TextDesktop }
        }),
{
    match (is_comic_book, is_mobile) {
        (true, true) => PreferenceGroup::ImageMobile,
        (true, false) => PreferenceGroup::ImageDesktop,
        (false, true) => PreferenceGroup::TextMobile,
        (false, false) => PreferenceGroup::TextDesktop,
    }
}

/// The layout a book is read in: books of images are read right to left,
/// whatever the preferences say; other books keep the preferred layout.
pub fn book_display(is_comic_book: bool, preferred: LayoutDisplay) -> (r: LayoutDisplay)
    ensures
        r == (if is_comic_book {
            LayoutDisplay::Image(ImageDisplay { class_name: "image-page", movement: PageMovement::RightToLeft })
        } else {
            preferred
        }),
{
    if is_comic_book {
        LayoutDisplay::new_image(PageMovement::RightToLeft)
    } else {
        preferred
    }
}

/// A member's stored preferences for the reader.
#[derive(Clone, Copy, Debug)]
pub struct ReaderPreferences {
    pub load_type: ReaderLoadType,
    pub animate_page_transitions: bool,
    pub default_full_screen: bool,
    pub auto_full_screen: bool,
    pub display_type: LayoutType,
    pub always_show_progress: bool,
    pub width: u32,
    pub height: u32,
}

/// The settings the reader runs with.
#[derive(Clone, Copy, Debug)]
pub struct ReaderSettings {
    pub type_of: ReaderLoadType,
    pub animate_page_transitions: bool,
    pub default_full_screen: bool,
    pub auto_full_screen: bool,
    pub display: LayoutDisplay,
    pub show_progress: bool,
    pub dimensions: (i32, i32),
}

impl ReaderSettings {
    /// The settings of a member's preferences: the same choices, the
    /// preferred layout (which is never the one for images), and the
    /// preferred size as signed numbers.
    pub fn from_preferences(value: ReaderPreferences) -> (r: Self)
        requires
            value.display_type != LayoutType::Image,
        ensures
            r.type_of == value.load_type,
            r.animate_page_transitions == value.animate_page_transitions,
            r.default_full_screen == value.default_full_screen,
            r.auto_full_screen == value.auto_full_screen,
            r.display == LayoutDisplay::spec_from(value.display_type),
            r.show_progress == value.always_show_progress,
            r.dimensions == (value.width as i32, value.height as i32),
    {
        ReaderSettings {
            type_of: value.load_type,
            animate_page_transitions: value.animate_page_transitions,
            default_full_screen: value.default_full_screen,
            auto_full_screen: value.auto_full_screen,
            display: LayoutDisplay::from(value.display_type),
            show_progress: value.always_show_progress,
            dimensions: (#[verifier::truncate] (value.width as i32), #[verifier::truncate] (value.height as i32)),
        }
    }
}

} // verus!

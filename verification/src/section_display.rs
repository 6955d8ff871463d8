//! The first form of the section layouts, kept for the callers that still
//! name them by number: 0 single page, 1 double page, 2 scrolling.

use vstd::prelude::*;

use crate::layout::{
    backward_offset, clamped_drag, drag_position, drag_position_exec, forward_offset, last_offset,
    mirrored_page, moved_to, offset_if_exists, ImageDisplay, PageDisplay, PageMovement,
    PagePosition, PageTransition, ScrollDisplay,
};
use crate::section::{SectionContents, SectionView};

verus! {

#[derive(Clone, Copy, Debug, PartialEq, Eq, Structural)]
pub enum SectionDisplayType {
    Single,
    Double,
    Scroll,
    Image,
}

#[derive(Clone, Copy, Debug)]
pub enum SectionDisplay {
    Single(PageDisplay),
    Double(PageDisplay),
    Scroll(ScrollDisplay),
    Image(ImageDisplay),
}

impl SectionDisplay {
    pub open spec fn display_type(self) -> SectionDisplayType {
        match self {
            SectionDisplay::Single(_) => SectionDisplayType::Single,
            SectionDisplay::Double(_) => SectionDisplayType::Double,
            SectionDisplay::Scroll(_) => SectionDisplayType::Scroll,
            SectionDisplay::Image(_) => SectionDisplayType::Image,
        }
    }

    pub open spec fn next_offset(self, s: SectionView) -> Option<usize> {
        match self {
            SectionDisplay::Scroll(_) => None,
            SectionDisplay::Image(v) => v.next_offset(s),
            _ => forward_offset(s),
        }
    }

    pub open spec fn previous_offset(self, s: SectionView) -> Option<usize> {
        match self {
            SectionDisplay::Scroll(_) => None,
            SectionDisplay::Image(v) => v.previous_offset(s),
            _ => backward_offset(s),
        }
    }

    pub open spec fn set_offset(self, s: SectionView, index: usize) -> Option<usize> {
        match self {
            SectionDisplay::Scroll(_) => None,
            _ => offset_if_exists(s, index),
        }
    }

    pub open spec fn last_page_offset(self, s: SectionView) -> Option<usize> {
        match self {
            SectionDisplay::Scroll(_) => None,
            _ => last_offset(s),
        }
    }

    pub fn new_single() -> (r: Self)
        ensures
            r == SectionDisplay::Single(PageDisplay { count: 1, class_name: "single-page" }),
    {
        SectionDisplay::Single(PageDisplay::new(1, "single-page"))
    }

    pub fn new_double() -> (r: Self)
        ensures
            r == SectionDisplay::Double(PageDisplay { count: 2, class_name: "double-page" }),
    {
        SectionDisplay::Double(PageDisplay::new(2, "double-page"))
    }

    pub fn new_scroll() -> (r: Self)
        ensures
            r == SectionDisplay::Scroll(ScrollDisplay { class_name: "scrolling-page" }),
    {
        SectionDisplay::Scroll(ScrollDisplay::new("scrolling-page"))
    }

    pub fn new_image(value: PageMovement) -> (r: Self)
        ensures
            r == SectionDisplay::Image(ImageDisplay { class_name: "image-page", movement: value }),
    {
        SectionDisplay::Image(ImageDisplay::new("image-page", value))
    }

    pub fn as_type(&self) -> (r: SectionDisplayType)
        ensures
            r == self.display_type(),
    {
        match self {
            SectionDisplay::Single(_) => SectionDisplayType::Single,
            SectionDisplay::Double(_) => SectionDisplayType::Double,
            SectionDisplay::Scroll(_) => SectionDisplayType::Scroll,
            SectionDisplay::Image(_) => SectionDisplayType::Image,
        }
    }

    /// The display numbered `value`: 0 single, 1 double, 2 scrolling.
    /// Other numbers name no display.
    pub fn from(value: u8) -> (r: Self)
        requires
            value <= 2,
        ensures
            value == 0 ==> r == SectionDisplay::Single(PageDisplay { count: 1, class_name: "single-page" }),
            value == 1 ==> r == SectionDisplay::Double(PageDisplay { count: 2, class_name: "double-page" }),
            value == 2 ==> r == SectionDisplay::Scroll(ScrollDisplay { class_name: "scrolling-page" }),
    {
        if value == 0 {
            Self::new_single()
        } else if value == 1 {
            Self::new_double()
        } else {
            Self::new_scroll()
        }
    }

    pub fn set_page(&mut self, index: usize, section: &mut SectionContents) -> (r: bool)
        ensures
            r == (*old(self) is Scroll || index < old(section)@.page_count()),
            final(section)@ == moved_to(old(section)@, old(self).set_offset(old(section)@, index)),
            *final(self) == *old(self),
    {
        match self {
            SectionDisplay::Single(v) => v.set_page(index, section),
            SectionDisplay::Double(v) => v.set_page(index, section),
            SectionDisplay::Scroll(v) => v.set_page(index, section),
            SectionDisplay::Image(v) => v.set_page(index, section),
        }
    }

    pub fn next_page(&mut self, section: &mut SectionContents) -> (r: bool)
        requires
            old(section).page_offset < usize::MAX,
        ensures
            r == (old(self).next_offset(old(section)@) is Some),
            final(section)@ == moved_to(old(section)@, old(self).next_offset(old(section)@)),
            *final(self) == *old(self),
    {
        match self {
            SectionDisplay::Single(v) => v.next_page(section),
            SectionDisplay::Double(v) => v.next_page(section),
            SectionDisplay::Scroll(v) => v.next_page(),
            SectionDisplay::Image(v) => v.next_page(section),
        }
    }

    pub fn previous_page(&mut self, section: &mut SectionContents) -> (r: bool)
        requires
            old(section).page_offset < usize::MAX,
        ensures
            r == (old(self).previous_offset(old(section)@) is Some),
            final(section)@ == moved_to(old(section)@, old(self).previous_offset(old(section)@)),
            *final(self) == *old(self),
    {
        match self {
            SectionDisplay::Single(v) => v.previous_page(section),
            SectionDisplay::Double(v) => v.previous_page(section),
            SectionDisplay::Scroll(v) => v.previous_page(),
            SectionDisplay::Image(v) => v.previous_page(section),
        }
    }

    pub fn set_last_page(&mut self, section: &mut SectionContents)
        ensures
            final(section)@ == moved_to(old(section)@, old(self).last_page_offset(old(section)@)),
            *final(self) == *old(self),
    {
        match self {
            SectionDisplay::Single(v) => v.set_last_page(section),
            SectionDisplay::Double(v) => v.set_last_page(section),
            SectionDisplay::Scroll(_) => {},
            SectionDisplay::Image(v) => v.set_last_page(section),
        }
    }

    /// Where the frame body goes while the current page is dragged by
    /// `amount` pixels.
    pub fn transitioning_page(&self, amount: isize, section: &SectionContents) -> (p: PagePosition)
        requires
            ({
                let page = match self {
                    SectionDisplay::Image(v) => mirrored_page(v.movement, section@),
                    _ => section.page_offset as int,
                };
                &&& (self matches SectionDisplay::Image(v) && v.movement == PageMovement::RightToLeft) ==> section.page_offset
                    <= section@.page_count()
                &&& 100 * page <= usize::MAX
                &&& page * 10 <= isize::MAX
            }),
            ({
                let page = match self {
                    SectionDisplay::Image(v) => mirrored_page(v.movement, section@),
                    _ => section.page_offset as int,
                };
                isize::MIN <= page * 10 - clamped_drag(amount, page, section@.page_count()) <= isize::MAX
            }),
        ensures
            ({
                let (page, kind) = match self {
                    SectionDisplay::Image(v) => (mirrored_page(v.movement, section@), PageTransition::All),
                    _ => (section.page_offset as int, PageTransition::Left),
                };
                p == drag_position(page, clamped_drag(amount, page, section@.page_count()), kind)
            }),
    {
        match self {
            SectionDisplay::Image(v) => v.transitioning_page(amount, section),
            _ => drag_position_exec(section.page_offset, amount, PageTransition::Left, section.page_count()),
        }
    }

    /// The page shown: this display does not mirror right-to-left pages.
    pub fn viewing_page(&self, section: &SectionContents) -> (p: usize)
        ensures
            p == section.page_offset,
    {
        section.page_offset
    }

    pub fn get_movement(&self) -> (r: PageMovement)
        ensures
            r == match self {
                SectionDisplay::Image(v) => v.movement,
                _ => PageMovement::LeftToRight,
            },
    {
        match self {
            SectionDisplay::Image(v) => v.movement,
            _ => PageMovement::LeftToRight,
        }
    }

    pub fn is_single(&self) -> (r: bool)
        ensures
            r == (self is Single),
    {
        matches!(self, SectionDisplay::Single(_))
    }

    pub fn is_double(&self) -> (r: bool)
        ensures
            r == (self is Double),
    {
        matches!(self, SectionDisplay::Double(_))
    }

    pub fn is_scroll(&self) -> (r: bool)
        ensures
            r == (self is Scroll),
    {
        matches!(self, SectionDisplay::Scroll(_))
    }
}

impl Default for SectionDisplay {
    fn default() -> (r: Self)
        ensures
            r == SectionDisplay::Double(PageDisplay { count: 2, class_name: "double-page" }),
    {
        SectionDisplay::new_double()
    }
}

impl PartialEq for SectionDisplay {
    fn eq(&self, other: &Self) -> (r: bool) {
        match (self, other) {
            (SectionDisplay::Single(_), SectionDisplay::Single(_)) => true,
            (SectionDisplay::Double(_), SectionDisplay::Double(_)) => true,
            (SectionDisplay::Scroll(_), SectionDisplay::Scroll(_)) => true,
            _ => false,
        }
    }
}

impl vstd::std_specs::cmp::PartialEqSpecImpl for SectionDisplay {
    open spec fn obeys_eq_spec() -> bool {
        true
    }

    /// Two text or scroll displays of one kind are equal; an image display
    /// equals nothing, not even itself.
    open spec fn eq_spec(&self, other: &Self) -> bool {
        ||| (self is Single && other is Single)
        ||| (self is Double && other is Double)
        ||| (self is Scroll && other is Scroll)
    }
}

} // verus!

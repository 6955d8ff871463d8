//! Layouts that show the pages of a section: one page, two pages, a
//! vertical scroll, or images read in either direction.

use vstd::prelude::*;

use crate::section::{SectionContents, SectionView};

verus! {

/// The kind of layout the reader shows.
#[derive(Clone, Copy, Debug, PartialEq, Eq, Structural)]
pub enum LayoutType {
    Single,
    Double,
    Scroll,
    Image,
}

/// Which way the pages of a book advance.
#[derive(Clone, Copy, Debug, PartialEq, Eq, Structural)]
pub enum PageMovement {
    LeftToRight,
    RightToLeft,
}

/// The transition a frame body gets when it is moved to a page.
#[derive(Clone, Copy, Debug, PartialEq, Eq, Structural)]
pub enum PageTransition {
    /// `left 0.5s ease 0s`
    Left,
    /// `all 0.5s ease 0s`
    All,
}

/// Where a frame body is put to show a page: the CSS `left` is
/// `calc(-{left_percent}% - {left_px}px)`, the CSS `width`, when there is
/// one, is `calc({w.0}% + {w.1}px)`, and `transition` is the transition to
/// set (none means the property is removed).
#[derive(Clone, Copy, Debug)]
pub struct PagePosition {
    pub left_percent: usize,
    pub left_px: isize,
    pub width: Option<(usize, usize)>,
    pub transition: Option<PageTransition>,
}

/// The offset one page forward in a section, if there is one.
pub open spec fn forward_offset(s: SectionView) -> Option<usize> {
    if s.page_offset + 1 < s.page_count() {
        Some((s.page_offset + 1) as usize)
    } else {
        None
    }
}

/// The offset one page back in a section, if there is one.
pub open spec fn backward_offset(s: SectionView) -> Option<usize> {
    if s.page_offset != 0 && s.page_offset - 1 < s.page_count() {
        Some((s.page_offset - 1) as usize)
    } else {
        None
    }
}

/// The offset that setting page `index` leads to, if the page exists.
pub open spec fn offset_if_exists(s: SectionView, index: usize) -> Option<usize> {
    if index < s.page_count() {
        Some(index)
    } else {
        None
    }
}

/// The section after an attempt to move to `target`: moved if there was a
/// page to move to, unchanged otherwise.
pub open spec fn moved_to(s: SectionView, target: Option<usize>) -> SectionView {
    match target {
        Some(o) => s.with_offset(o),
        None => s,
    }
}

/// The amount a page is dragged by, with the drag dropped where it would
/// pull in an empty page before the first or after the last page.
pub open spec fn clamped_drag(amount: isize, page: int, page_count: nat) -> isize {
    if (amount > 0 && page == 0) || (amount < 0 && page == (if page_count == 0 { 0 } else { page_count - 1 })) {
        0
    } else {
        amount
    }
}

/// The position of a frame body that shows `page` while it is dragged by
/// `amount` (already clamped).
pub open spec fn drag_position(page: int, amount: isize, kind: PageTransition) -> PagePosition {
    PagePosition {
        left_percent: (100 * page) as usize,
        left_px: (page * 10 - amount) as isize,
        width: None,
        transition: if amount == 0 { Some(kind) } else { None },
    }
}

pub(crate) fn drag_position_exec(page: usize, amount: isize, kind: PageTransition, page_count: usize) -> (p: PagePosition)
    requires
        100 * page <= usize::MAX,
        page * 10 <= isize::MAX,
        isize::MIN <= page * 10 - clamped_drag(amount, page as int, page_count as nat) <= isize::MAX,
    ensures
        p == drag_position(page as int, clamped_drag(amount, page as int, page_count as nat), kind),
{
    let last = page_count.saturating_sub(1);
    let amount = if (amount > 0 && page == 0) || (amount < 0 && page == last) {
        0
    } else {
        amount
    };
    let px: isize = (page as isize) * 10 - amount;
    PagePosition {
        left_percent: 100 * page,
        left_px: px,
        width: None,
        transition: if amount == 0 { Some(kind) } else { None },
    }
}

/// A layout that shows one or two text pages side by side.
#[derive(Clone, Copy, Debug)]
pub struct PageDisplay {
    /// Pages shown at once.
    pub count: usize,
    pub class_name: &'static str,
}

impl PageDisplay {
    pub fn new(count: usize, class_name: &'static str) -> (r: Self)
        ensures
            r.count == count,
            r.class_name == class_name,
    {
        PageDisplay { count, class_name }
    }

    /// Shows page `index` of the section, if the section has that page.
    pub fn set_page(&mut self, index: usize, section: &mut SectionContents) -> (r: bool)
        ensures
            r == (index < old(section)@.page_count()),
            final(section)@ == moved_to(old(section)@, offset_if_exists(old(section)@, index)),
            *final(self) == *old(self),
    {
        if index >= section.page_count() {
            return false;
        }
        section.page_offset = index;
        true
    }

    /// Shows the next page of the section, if there is one.
    pub fn next_page(&mut self, section: &mut SectionContents) -> (r: bool)
        requires
            old(section).page_offset < usize::MAX,
        ensures
            r == (forward_offset(old(section)@) is Some),
            final(section)@ == moved_to(old(section)@, forward_offset(old(section)@)),
            *final(self) == *old(self),
    {
        if section.page_offset + 1 < section.page_count() {
            self.set_page(section.page_offset + 1, section)
        } else {
            false
        }
    }

    /// Shows the previous page of the section, if there is one.
    pub fn previous_page(&mut self, section: &mut SectionContents) -> (r: bool)
        ensures
            r == (backward_offset(old(section)@) is Some),
            final(section)@ == moved_to(old(section)@, backward_offset(old(section)@)),
            *final(self) == *old(self),
    {
        if section.page_offset != 0 {
            self.set_page(section.page_offset - 1, section)
        } else {
            false
        }
    }

    /// Shows the last page of the section (nothing changes when it has none).
    pub fn set_last_page(&mut self, section: &mut SectionContents)
        ensures
            final(section)@ == moved_to(old(section)@, last_offset(old(section)@)),
            *final(self) == *old(self),
    {
        let last = section.page_count().saturating_sub(1);
        self.set_page(last, section);
    }

    /// Where the frame body goes to show the current page.
    pub fn page_position(&self, section: &SectionContents) -> (p: PagePosition)
        requires
            100 * section.page_offset <= usize::MAX,
            section.page_offset * 10 <= isize::MAX,
        ensures
            p == (PagePosition {
                left_percent: (100 * section.page_offset) as usize,
                left_px: (section.page_offset * 10) as isize,
                width: None,
                transition: Some(PageTransition::Left),
            }),
    {
        let px: isize = (section.page_offset as isize) * 10;
        PagePosition {
            left_percent: 100 * section.page_offset,
            left_px: px,
            width: None,
            transition: Some(PageTransition::Left),
        }
    }
}

/// The last page of a section, if it has any.
pub open spec fn last_offset(s: SectionView) -> Option<usize> {
    if s.page_count() == 0 {
        None
    } else {
        Some((s.page_count() - 1) as usize)
    }
}

/// A layout that scrolls through a whole section vertically.
#[derive(Clone, Copy, Debug)]
pub struct ScrollDisplay {
    pub class_name: &'static str,
}

impl ScrollDisplay {
    pub fn new(class_name: &'static str) -> (r: Self)
        ensures
            r.class_name == class_name,
    {
        ScrollDisplay { class_name }
    }

    /// A scrolled section has no pages: it is scrolled back to its start,
    /// whatever page is asked for, and nothing about it changes here.
    pub fn set_page(&mut self, _index: usize, section: &mut SectionContents) -> (r: bool)
        ensures
            r,
            final(section)@ == old(section)@,
            *final(self) == *old(self),
    {
        true
    }

    /// There is no next page within a scrolled section.
    pub fn next_page(&mut self) -> (r: bool)
        ensures
            !r,
            *final(self) == *old(self),
    {
        false
    }

    /// There is no previous page within a scrolled section.
    pub fn previous_page(&mut self) -> (r: bool)
        ensures
            !r,
            *final(self) == *old(self),
    {
        false
    }
}

/// The page shown to the reader when the section is at `page_offset` and
/// pages advance in `movement`: right-to-left reading mirrors the offset.
pub open spec fn mirrored_page(movement: PageMovement, s: SectionView) -> int {
    match movement {
        PageMovement::LeftToRight => s.page_offset as int,
        PageMovement::RightToLeft => if s.page_count() > s.page_offset + 1 {
            s.page_count() - s.page_offset - 1
        } else {
            0
        },
    }
}

/// A layout for books of images, read in either direction.
#[derive(Clone, Copy, Debug)]
pub struct ImageDisplay {
    pub class_name: &'static str,
    pub movement: PageMovement,
}

impl ImageDisplay {
    pub open spec fn next_offset(self, s: SectionView) -> Option<usize> {
        match self.movement {
            PageMovement::LeftToRight => forward_offset(s),
            PageMovement::RightToLeft => backward_offset(s),
        }
    }

    pub open spec fn previous_offset(self, s: SectionView) -> Option<usize> {
        match self.movement {
            PageMovement::LeftToRight => backward_offset(s),
            PageMovement::RightToLeft => forward_offset(s),
        }
    }

    pub fn new(class_name: &'static str, movement: PageMovement) -> (r: Self)
        ensures
            r.class_name == class_name,
            r.movement == movement,
    {
        ImageDisplay { class_name, movement }
    }

    /// The page the reader sees: the offset, mirrored for right-to-left.
    pub fn viewing_page(&self, section: &SectionContents) -> (p: usize)
        requires
            self.movement == PageMovement::RightToLeft ==> section.page_offset <= section@.page_count(),
        ensures
            p == mirrored_page(self.movement, section@),
    {
        match self.movement {
            PageMovement::LeftToRight => section.page_offset,
            PageMovement::RightToLeft => (section.page_count() - section.page_offset).saturating_sub(1),
        }
    }

    /// Shows page `index` of the section, if the section has that page.
    pub fn set_page(&mut self, index: usize, section: &mut SectionContents) -> (r: bool)
        ensures
            r == (index < old(section)@.page_count()),
            final(section)@ == moved_to(old(section)@, offset_if_exists(old(section)@, index)),
            *final(self) == *old(self),
    {
        if index >= section.page_count() {
            return false;
        }
        section.page_offset = index;
        true
    }

    /// One page on in reading order: forward for left-to-right books,
    /// backward for right-to-left ones.
    pub fn next_page(&mut self, section: &mut SectionContents) -> (r: bool)
        requires
            old(section).page_offset < usize::MAX,
        ensures
            r == (old(self).next_offset(old(section)@) is Some),
            final(section)@ == moved_to(old(section)@, old(self).next_offset(old(section)@)),
            *final(self) == *old(self),
    {
        match self.movement {
            PageMovement::LeftToRight => {
                if section.page_offset + 1 < section.page_count() {
                    self.set_page(section.page_offset + 1, section)
                } else {
                    false
                }
            },
            PageMovement::RightToLeft => {
                if section.page_offset != 0 {
                    self.set_page(section.page_offset - 1, section)
                } else {
                    false
                }
            },
        }
    }

    /// One page back in reading order.
    pub fn previous_page(&mut self, section: &mut SectionContents) -> (r: bool)
        requires
            old(section).page_offset < usize::MAX,
        ensures
            r == (old(self).previous_offset(old(section)@) is Some),
            final(section)@ == moved_to(old(section)@, old(self).previous_offset(old(section)@)),
            *final(self) == *old(self),
    {
        match self.movement {
            PageMovement::LeftToRight => {
                if section.page_offset != 0 {
                    self.set_page(section.page_offset - 1, section)
                } else {
                    false
                }
            },
            PageMovement::RightToLeft => {
                if section.page_offset + 1 < section.page_count() {
                    self.set_page(section.page_offset + 1, section)
                } else {
                    false
                }
            },
        }
    }

    /// Shows the last page of the section (nothing changes when it has none).
    pub fn set_last_page(&mut self, section: &mut SectionContents)
        ensures
            final(section)@ == moved_to(old(section)@, last_offset(old(section)@)),
            *final(self) == *old(self),
    {
        let last = section.page_count().saturating_sub(1);
        self.set_page(last, section);
    }

    /// Where the frame body goes to show the current page: right-to-left
    /// books also get a width that spans all their pages.
    pub fn page_position(&self, section: &SectionContents) -> (p: PagePosition)
        requires
            self.movement == PageMovement::RightToLeft ==> section.page_offset <= section@.page_count() && 100
                * section@.page_count() <= usize::MAX,
            100 * mirrored_page(self.movement, section@) <= usize::MAX,
            mirrored_page(self.movement, section@) * 10 <= isize::MAX,
        ensures
            ({
                let actual = mirrored_page(self.movement, section@);
                p == PagePosition {
                    left_percent: (100 * actual) as usize,
                    left_px: (actual * 10) as isize,
                    width: match self.movement {
                        PageMovement::RightToLeft => Some(((100 * section@.page_count()) as usize, (actual * 10) as usize)),
                        PageMovement::LeftToRight => None,
                    },
                    transition: Some(PageTransition::All),
                }
            }),
    {
        let actual = self.viewing_page(section);
        let width = match self.movement {
            PageMovement::RightToLeft => Some((100 * section.page_count(), actual * 10)),
            PageMovement::LeftToRight => None,
        };
        let px: isize = (actual as isize) * 10;
        PagePosition {
            left_percent: 100 * actual,
            left_px: px,
            width,
            transition: Some(PageTransition::All),
        }
    }

    /// Where the frame body goes while the current page is dragged by
    /// `amount` pixels.
    pub fn transitioning_page(&self, amount: isize, section: &SectionContents) -> (p: PagePosition)
        requires
            self.movement == PageMovement::RightToLeft ==> section.page_offset <= section@.page_count(),
            100 * mirrored_page(self.movement, section@) <= usize::MAX,
            mirrored_page(self.movement, section@) * 10 <= isize::MAX,
            isize::MIN <= mirrored_page(self.movement, section@) * 10 - clamped_drag(
                amount,
                mirrored_page(self.movement, section@),
                section@.page_count(),
            ) <= isize::MAX,
        ensures
            ({
                let page = mirrored_page(self.movement, section@);
                p == drag_position(page, clamped_drag(amount, page, section@.page_count()), PageTransition::All)
            }),
    {
        let page = self.viewing_page(section);
        drag_position_exec(page, amount, PageTransition::All, section.page_count())
    }
}

} // verus!

verus! {

/// How the reader shows a section.
#[derive(Clone, Copy, Debug)]
pub enum LayoutDisplay {
    SinglePage(PageDisplay),
    DoublePage(PageDisplay),
    VerticalScroll(ScrollDisplay),
    Image(ImageDisplay),
}

impl LayoutDisplay {
    pub open spec fn layout_type(self) -> LayoutType {
        match self {
            LayoutDisplay::SinglePage(_) => LayoutType::Single,
            LayoutDisplay::DoublePage(_) => LayoutType::Double,
            LayoutDisplay::VerticalScroll(_) => LayoutType::Scroll,
            LayoutDisplay::Image(_) => LayoutType::Image,
        }
    }

    pub open spec fn movement(self) -> PageMovement {
        match self {
            LayoutDisplay::Image(v) => v.movement,
            _ => PageMovement::LeftToRight,
        }
    }

    /// The offset a step forward in reading order leads to, if any.
    pub open spec fn next_offset(self, s: SectionView) -> Option<usize> {
        match self {
            LayoutDisplay::VerticalScroll(_) => None,
            LayoutDisplay::Image(v) => v.next_offset(s),
            _ => forward_offset(s),
        }
    }

    /// The offset a step back in reading order leads to, if any.
    pub open spec fn previous_offset(self, s: SectionView) -> Option<usize> {
        match self {
            LayoutDisplay::VerticalScroll(_) => None,
            LayoutDisplay::Image(v) => v.previous_offset(s),
            _ => backward_offset(s),
        }
    }

    /// The offset that asking for page `index` leads to: a scrolled
    /// section keeps its offset.
    pub open spec fn set_offset(self, s: SectionView, index: usize) -> Option<usize> {
        match self {
            LayoutDisplay::VerticalScroll(_) => None,
            _ => offset_if_exists(s, index),
        }
    }

    /// Whether asking for page `index` succeeds.
    pub open spec fn set_page_succeeds(self, s: SectionView, index: usize) -> bool {
        self is VerticalScroll || index < s.page_count()
    }

    /// The offset that asking for the last page leads to.
    pub open spec fn last_page_offset(self, s: SectionView) -> Option<usize> {
        match self {
            LayoutDisplay::VerticalScroll(_) => None,
            _ => last_offset(s),
        }
    }

    /// The page the reader sees.
    pub open spec fn viewing_page(self, s: SectionView) -> int {
        mirrored_page(self.movement(), s)
    }

    pub fn new_single() -> (r: Self)
        ensures
            r == LayoutDisplay::SinglePage(PageDisplay { count: 1, class_name: "single-page" }),
    {
        LayoutDisplay::SinglePage(PageDisplay::new(1, "single-page"))
    }

    pub fn new_double() -> (r: Self)
        ensures
            r == LayoutDisplay::DoublePage(PageDisplay { count: 2, class_name: "double-page" }),
    {
        LayoutDisplay::DoublePage(PageDisplay::new(2, "double-page"))
    }

    pub fn new_scroll() -> (r: Self)
        ensures
            r == LayoutDisplay::VerticalScroll(ScrollDisplay { class_name: "scrolling-page" }),
    {
        LayoutDisplay::VerticalScroll(ScrollDisplay::new("scrolling-page"))
    }

    pub fn new_image(value: PageMovement) -> (r: Self)
        ensures
            r == LayoutDisplay::Image(ImageDisplay { class_name: "image-page", movement: value }),
    {
        LayoutDisplay::Image(ImageDisplay::new("image-page", value))
    }

    pub fn as_type(&self) -> (r: LayoutType)
        ensures
            r == self.layout_type(),
    {
        match self {
            LayoutDisplay::SinglePage(_) => LayoutType::Single,
            LayoutDisplay::DoublePage(_) => LayoutType::Double,
            LayoutDisplay::VerticalScroll(_) => LayoutType::Scroll,
            LayoutDisplay::Image(_) => LayoutType::Image,
        }
    }

    /// The display for a layout type. Image layouts need a direction, so
    /// they are made with `new_image` instead.
    /// The layout made for a layout type other than images.
    pub open spec fn spec_from(value: LayoutType) -> LayoutDisplay {
        match value {
            LayoutType::Single => LayoutDisplay::SinglePage(PageDisplay { count: 1, class_name: "single-page" }),
            LayoutType::Double => LayoutDisplay::DoublePage(PageDisplay { count: 2, class_name: "double-page" }),
            _ => LayoutDisplay::VerticalScroll(ScrollDisplay { class_name: "scrolling-page" }),
        }
    }

    pub fn from(value: LayoutType) -> (r: Self)
        requires
            value != LayoutType::Image,
        ensures
            r.layout_type() == value,
            r == LayoutDisplay::spec_from(value),
    {
        match value {
            LayoutType::Single => Self::new_single(),
            LayoutType::Double => Self::new_double(),
            _ => Self::new_scroll(),
        }
    }

    /// Shows page `index` of the section. A scrolled section is scrolled to
    /// its start and keeps its offset.
    pub fn set_page(&mut self, index: usize, section: &mut SectionContents) -> (r: bool)
        ensures
            r == old(self).set_page_succeeds(old(section)@, index),
            final(section)@ == moved_to(old(section)@, old(self).set_offset(old(section)@, index)),
            *final(self) == *old(self),
    {
        match self {
            LayoutDisplay::SinglePage(v) => v.set_page(index, section),
            LayoutDisplay::DoublePage(v) => v.set_page(index, section),
            LayoutDisplay::VerticalScroll(v) => v.set_page(index, section),
            LayoutDisplay::Image(v) => v.set_page(index, section),
        }
    }

    /// One page on in reading order, within the section.
    pub fn next_page(&mut self, section: &mut SectionContents) -> (r: bool)
        requires
            old(section).page_offset < usize::MAX,
        ensures
            r == (old(self).next_offset(old(section)@) is Some),
            final(section)@ == moved_to(old(section)@, old(self).next_offset(old(section)@)),
            *final(self) == *old(self),
    {
        match self {
            LayoutDisplay::SinglePage(v) => v.next_page(section),
            LayoutDisplay::DoublePage(v) => v.next_page(section),
            LayoutDisplay::VerticalScroll(v) => v.next_page(),
            LayoutDisplay::Image(v) => v.next_page(section),
        }
    }

    /// One page back in reading order, within the section.
    pub fn previous_page(&mut self, section: &mut SectionContents) -> (r: bool)
        requires
            old(section).page_offset < usize::MAX,
        ensures
            r == (old(self).previous_offset(old(section)@) is Some),
            final(section)@ == moved_to(old(section)@, old(self).previous_offset(old(section)@)),
            *final(self) == *old(self),
    {
        match self {
            LayoutDisplay::SinglePage(v) => v.previous_page(section),
            LayoutDisplay::DoublePage(v) => v.previous_page(section),
            LayoutDisplay::VerticalScroll(v) => v.previous_page(),
            LayoutDisplay::Image(v) => v.previous_page(section),
        }
    }

    /// Shows the last page of the section; a scrolled section is scrolled
    /// to its end and keeps its offset.
    pub fn set_last_page(&mut self, section: &mut SectionContents)
        ensures
            final(section)@ == moved_to(old(section)@, old(self).last_page_offset(old(section)@)),
            *final(self) == *old(self),
    {
        match self {
            LayoutDisplay::SinglePage(v) => v.set_last_page(section),
            LayoutDisplay::DoublePage(v) => v.set_last_page(section),
            LayoutDisplay::VerticalScroll(_) => {},
            LayoutDisplay::Image(v) => v.set_last_page(section),
        }
    }

    /// Where the frame body goes while the current page is dragged by
    /// `amount` pixels. Text layouts use the `left` transition, images
    /// the `all` one.
    pub fn transitioning_page(&self, amount: isize, section: &SectionContents) -> (p: PagePosition)
        requires
            self.movement() == PageMovement::RightToLeft ==> section.page_offset <= section@.page_count(),
            100 * self.viewing_page(section@) <= usize::MAX,
            self.viewing_page(section@) * 10 <= isize::MAX,
            isize::MIN <= self.viewing_page(section@) * 10 - clamped_drag(
                amount,
                self.viewing_page(section@),
                section@.page_count(),
            ) <= isize::MAX,
        ensures
            ({
                let page = self.viewing_page(section@);
                let kind = if self is Image { PageTransition::All } else { PageTransition::Left };
                p == drag_position(page, clamped_drag(amount, page, section@.page_count()), kind)
            }),
    {
        match self {
            LayoutDisplay::Image(v) => v.transitioning_page(amount, section),
            _ => drag_position_exec(section.page_offset, amount, PageTransition::Left, section.page_count()),
        }
    }

    /// Where the frame body goes to show the current page; a scrolled
    /// section has no such position.
    pub fn page_position(&self, section: &SectionContents) -> (p: Option<PagePosition>)
        requires
            self.movement() == PageMovement::RightToLeft ==> section.page_offset <= section@.page_count() && 100
                * section@.page_count() <= usize::MAX,
            100 * self.viewing_page(section@) <= usize::MAX,
            self.viewing_page(section@) * 10 <= isize::MAX,
        ensures
            p is None <==> self is VerticalScroll,
            !(self is VerticalScroll) ==> p->0.left_percent == 100 * self.viewing_page(section@)
                && p->0.left_px == self.viewing_page(section@) * 10,
            self is SinglePage || self is DoublePage ==> p == Some(PagePosition {
                left_percent: (100 * section.page_offset) as usize,
                left_px: (section.page_offset * 10) as isize,
                width: None,
                transition: Some(PageTransition::Left),
            }),
            self is Image ==> p == Some(PagePosition {
                left_percent: (100 * self.viewing_page(section@)) as usize,
                left_px: (self.viewing_page(section@) * 10) as isize,
                width: match self.movement() {
                    PageMovement::RightToLeft => Some(((100 * section@.page_count()) as usize, (self.viewing_page(section@) * 10) as usize)),
                    PageMovement::LeftToRight => None,
                },
                transition: Some(PageTransition::All),
            }),
    {
        match self {
            LayoutDisplay::SinglePage(v) => Some(v.page_position(section)),
            LayoutDisplay::DoublePage(v) => Some(v.page_position(section)),
            LayoutDisplay::VerticalScroll(_) => None,
            LayoutDisplay::Image(v) => Some(v.page_position(section)),
        }
    }

    pub fn get_movement(&self) -> (r: PageMovement)
        ensures
            r == self.movement(),
    {
        match self {
            LayoutDisplay::Image(v) => v.movement,
            _ => PageMovement::LeftToRight,
        }
    }

    pub fn is_single(&self) -> (r: bool)
        ensures
            r == (self is SinglePage),
    {
        matches!(self, LayoutDisplay::SinglePage(_))
    }

    pub fn is_double(&self) -> (r: bool)
        ensures
            r == (self is DoublePage),
    {
        matches!(self, LayoutDisplay::DoublePage(_))
    }

    pub fn is_scroll(&self) -> (r: bool)
        ensures
            r == (self is VerticalScroll),
    {
        matches!(self, LayoutDisplay::VerticalScroll(_))
    }
}

impl Default for LayoutDisplay {
    fn default() -> (r: Self)
        ensures
            r == LayoutDisplay::DoublePage(PageDisplay { count: 2, class_name: "double-page" }),
    {
        LayoutDisplay::new_double()
    }
}

impl PartialEq for LayoutDisplay {
    fn eq(&self, other: &Self) -> (r: bool) {
        let a = self.as_type();
        let b = other.as_type();
        match (a, b) {
            (LayoutType::Single, LayoutType::Single) => true,
            (LayoutType::Double, LayoutType::Double) => true,
            (LayoutType::Scroll, LayoutType::Scroll) => true,
            (LayoutType::Image, LayoutType::Image) => true,
            _ => false,
        }
    }
}

impl vstd::std_specs::cmp::PartialEqSpecImpl for LayoutDisplay {
    open spec fn obeys_eq_spec() -> bool {
        true
    }

    open spec fn eq_spec(&self, other: &Self) -> bool {
        self.layout_type() == other.layout_type()
    }
}

} // verus!

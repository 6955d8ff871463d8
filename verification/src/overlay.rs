//! Input over the reader: presses, drags and holds, and how a pointer
//! movement is read as a direction.

use vstd::prelude::*;

verus! {

/// How far a pointer must move, in pixels along either axis, before the
/// movement counts as a drag.
pub const THRESHOLD: i32 = 5;

/// A drag and the distance it went, in pixels.
#[derive(Clone, Copy, Debug, PartialEq, Eq, Structural)]
pub enum DragType {
    Up(usize),
    Right(usize),
    Down(usize),
    Left(usize),
    Unmoved,
}

impl DragType {
    pub open spec fn spec_distance(self) -> usize {
        match self {
            DragType::Up(v) => v,
            DragType::Right(v) => v,
            DragType::Down(v) => v,
            DragType::Left(v) => v,
            DragType::Unmoved => 0,
        }
    }

    /// The distance of the drag, 0 for no drag.
    pub fn distance(self) -> (r: usize)
        ensures
            r == self.spec_distance(),
    {
        match self {
            DragType::Up(v) => v,
            DragType::Right(v) => v,
            DragType::Down(v) => v,
            DragType::Left(v) => v,
            DragType::Unmoved => 0,
        }
    }
}

/// The direction of a swipe or mouse drag.
#[derive(Clone, Copy, Debug, PartialEq, Eq, Structural)]
pub enum SwipeDirection {
    Up,
    Right,
    Down,
    Left,
    Unmoved,
}

/// Something that happened on the overlay above the pages. Durations are
/// in milliseconds.
#[derive(Clone, Copy, Debug)]
pub enum OverlayEvent {
    /// The pointer was released: how long it was down, where, and the
    /// size of the overlay.
    Release { instant: Option<u64>, x: i32, y: i32, width: i32, height: i32 },
    /// The pointer moved over the overlay.
    Hover { x: i32, y: i32 },
    /// The pointer is being dragged.
    Drag { type_of: DragType, instant: Option<u64>, coords_start: (i32, i32), coords_end: (i32, i32) },
    /// The pointer has been held down for `since` milliseconds.
    Hold { since: i64, x: i32, y: i32 },
}

pub open spec fn abs(v: int) -> int {
    if v < 0 { -v } else { v }
}

/// The direction a pointer moved from `start` to `end`, and how far it
/// moved along each axis (start minus end). Without an end it has not
/// moved. Below the threshold there is no direction; otherwise the larger
/// axis wins, with ties going to the vertical one.
pub open spec fn spec_mouse_direction(start: (i32, i32), end: Option<(i32, i32)>) -> (SwipeDirection, int, int) {
    let (dx, dy) = match end {
        Some(e) => (start.0 - e.0, start.1 - e.1),
        None => (0, 0),
    };
    let dir = if !(abs(dx) >= THRESHOLD || abs(dy) >= THRESHOLD) {
        SwipeDirection::Unmoved
    } else if abs(dx) > abs(dy) {
        if dx > 0 { SwipeDirection::Left } else { SwipeDirection::Right }
    } else if dy > 0 {
        SwipeDirection::Up
    } else {
        SwipeDirection::Down
    };
    (dir, dx, dy)
}

fn abs_i32(v: i32) -> (r: i32)
    requires
        v > i32::MIN,
    ensures
        r == abs(v as int),
{
    if v < 0 { -v } else { v }
}

/// Reads a pointer movement: see `spec_mouse_direction`.
pub fn mouse_direction(start: (i32, i32), end: Option<(i32, i32)>) -> (r: (SwipeDirection, i32, i32))
    requires
        end matches Some(e) ==> i32::MIN < start.0 - e.0 <= i32::MAX && i32::MIN < start.1 - e.1 <= i32::MAX,
    ensures
        (r.0, r.1 as int, r.2 as int) == spec_mouse_direction(start, end),
{
    let (dx, dy) = match end {
        Some(e) => (start.0 - e.0, start.1 - e.1),
        None => (0, 0),
    };
    let ax = abs_i32(dx);
    let ay = abs_i32(dy);
    let exceeded = (if ax > ay { ax } else { ay }) >= THRESHOLD;
    let dir = if !exceeded {
        SwipeDirection::Unmoved
    } else if ax > ay {
        if dx > 0 { SwipeDirection::Left } else { SwipeDirection::Right }
    } else if dy > 0 {
        SwipeDirection::Up
    } else {
        SwipeDirection::Down
    };
    (dir, dx, dy)
}

/// The drag that a movement in `direction` stands for: its distance is
/// the length of the movement along the axis of the direction.
pub open spec fn spec_drag_type(direction: SwipeDirection, length_x: i32, length_y: i32) -> DragType {
    match direction {
        SwipeDirection::Left => DragType::Left(abs(length_x as int) as usize),
        SwipeDirection::Right => DragType::Right(abs(length_x as int) as usize),
        SwipeDirection::Up => DragType::Up(abs(length_y as int) as usize),
        SwipeDirection::Down => DragType::Down(abs(length_y as int) as usize),
        SwipeDirection::Unmoved => DragType::Unmoved,
    }
}

/// The drag that a movement in `direction` stands for.
pub fn drag_type(direction: SwipeDirection, length_x: i32, length_y: i32) -> (r: DragType)
    requires
        length_x > i32::MIN,
        length_y > i32::MIN,
    ensures
        r == spec_drag_type(direction, length_x, length_y),
{
    match direction {
        SwipeDirection::Left => DragType::Left(abs_i32(length_x) as usize),
        SwipeDirection::Right => DragType::Right(abs_i32(length_x) as usize),
        SwipeDirection::Up => DragType::Up(abs_i32(length_y) as usize),
        SwipeDirection::Down => DragType::Down(abs_i32(length_y) as usize),
        SwipeDirection::Unmoved => DragType::Unmoved,
    }
}

/// What the overlay reports after the state of the pointer changed.
#[derive(Clone, Copy, Debug, PartialEq, Eq)]
pub enum GestureReport {
    /// The pointer is pressed and moving (or about to).
    Drag { type_of: DragType, coords_start: (i32, i32), coords_end: (i32, i32) },
    /// The press ended after `held_ms` milliseconds, where it started.
    Release { held_ms: i64, x: i32, y: i32 },
    /// The pointer moves over the overlay without being pressed.
    Hover { x: i32, y: i32 },
    /// Nothing to report.
    Silent,
}

/// The gesture in progress on the overlay: whether a press is being
/// followed, when it started, and whether the press is being timed for a
/// hold (from where).
#[derive(Clone, Copy, Debug)]
pub struct OverlayGesture {
    pub in_event: bool,
    pub time_down: i64,
    pub hold_ticker: Option<(i32, i32)>,
}

impl OverlayGesture {
    pub fn new(now: i64) -> (r: Self)
        ensures
            !r.in_event,
            r.time_down == now,
            r.hold_ticker is None,
    {
        OverlayGesture { in_event: false, time_down: now, hold_ticker: None }
    }

    /// The pointer's state changed at `now` (milliseconds): `pressing`
    /// while it is down, moving in `direction` by `length_x`, `length_y`
    /// from `coords_start`, now at `coords_end`. A new press is timed and
    /// timed for a hold until it moves; each change of a press is reported
    /// as a drag, its end as a release. With `report_hover`, a pointer
    /// that is not pressed is reported as hovering.
    pub fn pointer_changed(
        &mut self,
        pressing: bool,
        direction: SwipeDirection,
        length_x: i32,
        length_y: i32,
        coords_start: (i32, i32),
        coords_end: (i32, i32),
        now: i64,
        report_hover: bool,
    ) -> (r: GestureReport)
        requires
            length_x > i32::MIN,
            length_y > i32::MIN,
            i64::MIN <= now - old(self).time_down <= i64::MAX,
        ensures
            pressing ==> {
                let time_down = if old(self).in_event { old(self).time_down } else { now };
                let started = if !old(self).in_event && old(self).hold_ticker is None {
                    Some(coords_start)
                } else {
                    old(self).hold_ticker
                };
                &&& final(self).in_event
                &&& final(self).time_down == time_down
                &&& final(self).hold_ticker == (if direction != SwipeDirection::Unmoved { None } else { started })
                &&& r == GestureReport::Drag {
                    type_of: spec_drag_type(direction, length_x, length_y),
                    coords_start,
                    coords_end,
                }
            },
            !pressing && old(self).in_event ==> {
                &&& !final(self).in_event
                &&& final(self).hold_ticker is None
                &&& final(self).time_down == old(self).time_down
                &&& r == GestureReport::Release {
                    held_ms: (now - old(self).time_down) as i64,
                    x: coords_start.0,
                    y: coords_start.1,
                }
            },
            !pressing && !old(self).in_event ==> {
                &&& *final(self) == *old(self)
                &&& r == (if report_hover {
                    GestureReport::Hover { x: coords_start.0, y: coords_start.1 }
                } else {
                    GestureReport::Silent
                })
            },
    {
        if pressing {
            if !self.in_event {
                self.time_down = now;
                if self.hold_ticker.is_none() {
                    self.hold_ticker = Some(coords_start);
                }
            }
            self.in_event = true;
            if direction != SwipeDirection::Unmoved {
                self.hold_ticker = None;
            }
            GestureReport::Drag { type_of: drag_type(direction, length_x, length_y), coords_start, coords_end }
        } else if self.in_event {
            self.in_event = false;
            self.hold_ticker = None;
            GestureReport::Release { held_ms: now - self.time_down, x: coords_start.0, y: coords_start.1 }
        } else if report_hover {
            GestureReport::Hover { x: coords_start.0, y: coords_start.1 }
        } else {
            GestureReport::Silent
        }
    }

    /// A tick of the hold timer at `now`: while a press is timed for a
    /// hold, how long it has been held and where.
    pub fn hold_tick(&self, now: i64) -> (r: Option<(i64, i32, i32)>)
        requires
            i64::MIN <= now - self.time_down <= i64::MAX,
        ensures
            r == match self.hold_ticker {
                Some(at) => Some(((now - self.time_down) as i64, at.0, at.1)),
                None => None,
            },
    {
        match self.hold_ticker {
            Some(at) => Some((now - self.time_down, at.0, at.1)),
            None => None,
        }
    }
}

/// The mouse over the overlay: whether its button is down (dragging),
/// whether it moved past the threshold since, where the press started and
/// where the pointer is, and the movement between the two.
#[derive(Clone, Copy, Debug)]
pub struct MouseTracker {
    pub dragging: bool,
    pub moving: bool,
    pub direction: SwipeDirection,
    pub coords_start: (i32, i32),
    pub coords_end: Option<(i32, i32)>,
    pub length_x: i32,
    pub length_y: i32,
}

impl MouseTracker {
    pub fn new() -> (r: Self)
        ensures
            !r.dragging,
            !r.moving,
            r.direction == SwipeDirection::Unmoved,
            r.coords_start == (0i32, 0i32),
            r.coords_end is None,
            r.length_x == 0,
            r.length_y == 0,
    {
        MouseTracker {
            dragging: false,
            moving: false,
            direction: SwipeDirection::Unmoved,
            coords_start: (0, 0),
            coords_end: None,
            length_x: 0,
            length_y: 0,
        }
    }

    /// The button went down.
    pub fn on_down(&mut self)
        ensures
            *final(self) == (MouseTracker { coords_end: None, dragging: true, ..*old(self) }),
    {
        self.coords_end = None;
        self.dragging = true;
    }

    /// The pointer moved to (`x`, `y`) on the overlay: without the button
    /// down this is where a press would start; with it, the new position is
    /// kept, and the movement is measured from the start to the position
    /// the pointer had before this move (none measured while there was
    /// none), so the measure follows one move behind.
    pub fn on_move(&mut self, x: i32, y: i32)
        requires
            old(self).dragging ==> (old(self).coords_end matches Some(e) ==> i32::MIN < old(self).coords_start.0
                - e.0 <= i32::MAX && i32::MIN < old(self).coords_start.1 - e.1 <= i32::MAX),
        ensures
            !old(self).dragging ==> *final(self) == (MouseTracker {
                coords_start: (x, y),
                coords_end: None,
                ..*old(self)
            }),
            old(self).dragging ==> {
                let (dir, dx, dy) = spec_mouse_direction(old(self).coords_start, old(self).coords_end);
                *final(self) == (MouseTracker {
                    coords_end: Some((x, y)),
                    length_x: dx as i32,
                    length_y: dy as i32,
                    moving: old(self).moving || dir != SwipeDirection::Unmoved,
                    direction: dir,
                    ..*old(self)
                })
            },
    {
        if !self.dragging {
            self.coords_start = (x, y);
            self.coords_end = None;
        } else {
            let (dir, dx, dy) = mouse_direction(self.coords_start, self.coords_end);
            self.coords_end = Some((x, y));
            self.length_x = dx;
            self.length_y = dy;
            if !self.moving && dir != SwipeDirection::Unmoved {
                self.moving = true;
            }
            self.direction = dir;
        }
    }

    /// The button went up, or the pointer left the overlay.
    pub fn on_up(&mut self)
        ensures
            *final(self) == (MouseTracker {
                moving: false,
                dragging: false,
                direction: SwipeDirection::Unmoved,
                ..*old(self)
            }),
    {
        self.moving = false;
        self.dragging = false;
        self.direction = SwipeDirection::Unmoved;
    }
}

} // verus!

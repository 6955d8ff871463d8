use frontend::overlay::{DragType, GestureReport, MouseTracker, OverlayGesture, SwipeDirection};

#[test]
fn mouse_tracker_measures_presses_one_move_behind() {
    let mut m = MouseTracker::new();
    m.on_move(10, 20);
    assert_eq!(m.coords_start, (10, 20));
    assert!(m.coords_end.is_none());
    m.on_down();
    assert!(m.dragging);
    m.on_move(12, 21);
    assert_eq!(m.coords_end, Some((12, 21)));
    assert_eq!((m.length_x, m.length_y), (0, 0));
    assert_eq!(m.direction, SwipeDirection::Unmoved);
    m.on_move(60, 25);
    assert_eq!((m.length_x, m.length_y), (-2, -1));
    assert_eq!(m.direction, SwipeDirection::Unmoved);
    assert!(!m.moving);
    m.on_move(12, 21);
    assert_eq!((m.length_x, m.length_y), (-50, -5));
    assert_eq!(m.direction, SwipeDirection::Right);
    assert!(m.moving);
    m.on_move(13, 21);
    assert_eq!(m.direction, SwipeDirection::Unmoved);
    assert!(m.moving);
    m.on_up();
    assert!(!m.dragging && !m.moving);
    assert_eq!(m.direction, SwipeDirection::Unmoved);
    assert_eq!(m.coords_start, (10, 20));
}

#[test]
fn mouse_tracker_lags_one_event_behind() {
    let mut m = MouseTracker::new();
    m.on_move(0, 0);
    m.on_down();
    m.on_move(10, 0);
    m.on_move(20, 0);
    assert_eq!(m.length_x, -10);
    assert_eq!(m.coords_end, Some((20, 0)));
}

#[test]
fn gesture_times_presses_and_reports_release() {
    let mut g = OverlayGesture::new(0);
    assert_eq!(
        g.pointer_changed(false, SwipeDirection::Unmoved, 0, 0, (5, 6), (0, 0), 100, true),
        GestureReport::Hover { x: 5, y: 6 }
    );
    assert_eq!(
        g.pointer_changed(false, SwipeDirection::Unmoved, 0, 0, (5, 6), (0, 0), 100, false),
        GestureReport::Silent
    );
    let r = g.pointer_changed(true, SwipeDirection::Unmoved, 0, 0, (5, 6), (5, 6), 1_000, true);
    assert_eq!(
        r,
        GestureReport::Drag { type_of: DragType::Unmoved, coords_start: (5, 6), coords_end: (5, 6) }
    );
    assert!(g.in_event);
    assert_eq!(g.time_down, 1_000);
    assert_eq!(g.hold_ticker, Some((5, 6)));
    assert_eq!(g.hold_tick(2_500), Some((1_500, 5, 6)));
    let r = g.pointer_changed(true, SwipeDirection::Left, 40, 3, (5, 6), (-35, 3), 2_600, true);
    assert_eq!(r, GestureReport::Drag { type_of: DragType::Left(40), coords_start: (5, 6), coords_end: (-35, 3) });
    assert_eq!(g.time_down, 1_000);
    assert_eq!(g.hold_ticker, None);
    assert_eq!(g.hold_tick(2_700), None);
    let r = g.pointer_changed(false, SwipeDirection::Unmoved, 0, 0, (5, 6), (0, 0), 2_800, true);
    assert_eq!(r, GestureReport::Release { held_ms: 1_800, x: 5, y: 6 });
    assert!(!g.in_event);
}

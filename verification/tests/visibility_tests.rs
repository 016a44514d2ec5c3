use docklett::visibility::{DockBounds, PointerEvent, VisibilityState};

// Screen 1920x1080, dock 200 wide and 52 high at the bottom centre:
// horizontal range [860, 1060], vertical range [1028, ∞).
fn dock() -> DockBounds {
    DockBounds {
        left: 860,
        width: 200,
        top: 1028,
    }
}

#[test]
fn starts_hidden() {
    let v = VisibilityState::new(dock());
    assert!(!v.shown);
}

#[test]
fn motion_shows_then_outside_leave_hides() {
    let mut v = VisibilityState::new(dock());
    v.dispatch(PointerEvent::Motion { x: 900, y: 1050 });
    assert!(v.shown);
    v.dispatch(PointerEvent::Leave { x: 500, y: 600 });
    assert!(!v.shown);
}

#[test]
fn leave_with_position_still_inside_stays_shown() {
    let mut v = VisibilityState::new(dock());
    v.dispatch(PointerEvent::Enter { x: 900, y: 1050 });
    assert!(v.shown);
    // x within range and y still below the threshold: inside the box,
    // as when a leave fires while crossing into a child popup
    v.dispatch(PointerEvent::Leave { x: 900, y: 1050 });
    assert!(v.shown);
}

#[test]
fn leave_outside_on_one_axis_stays_shown() {
    // x within range but y above the dock's top edge: a popup rising
    // over the dock strip still meets it horizontally, so the dock
    // stays shown
    let mut v = VisibilityState::new(dock());
    v.dispatch(PointerEvent::Motion { x: 900, y: 1050 });
    v.dispatch(PointerEvent::Leave { x: 900, y: 1000 });
    assert!(v.shown);
    // y within range but x past the right edge
    let mut w = VisibilityState::new(dock());
    w.dispatch(PointerEvent::Motion { x: 900, y: 1050 });
    w.dispatch(PointerEvent::Leave { x: 1100, y: 1050 });
    assert!(w.shown);
}

#[test]
fn leave_outside_on_both_axes_hides() {
    let mut v = VisibilityState::new(dock());
    v.dispatch(PointerEvent::Motion { x: 900, y: 1050 });
    v.dispatch(PointerEvent::Leave { x: 1100, y: 1000 });
    assert!(!v.shown);
}

#[test]
fn repeated_show_events_do_not_toggle() {
    let mut v = VisibilityState::new(dock());
    v.dispatch(PointerEvent::Enter { x: 900, y: 1050 });
    assert!(v.shown);
    v.dispatch(PointerEvent::Motion { x: 901, y: 1050 });
    assert!(v.shown);
    v.dispatch(PointerEvent::Motion { x: 902, y: 1050 });
    assert!(v.shown);
}

#[test]
fn events_record_last_position_and_keep_bounds() {
    let mut v = VisibilityState::new(dock());
    v.dispatch(PointerEvent::Motion { x: 901, y: 1040 });
    assert_eq!((v.last_x, v.last_y), (901, 1040));
    v.dispatch(PointerEvent::Leave { x: 10, y: 20 });
    assert_eq!((v.last_x, v.last_y), (10, 20));
    assert_eq!(v.bounds, dock());
    v.set_bounds(DockBounds {
        left: 0,
        width: 100,
        top: 500,
    });
    assert_eq!(v.bounds.left, 0);
}

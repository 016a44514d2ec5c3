use vstd::prelude::*;

verus! {

/// The dock's screen-space bounding box: `[left, left + width]`
/// horizontally, `[top, +infinity)` vertically — the dock is anchored
/// to the bottom edge, `top` being the screen height minus the dock
/// height.
#[derive(Clone, Copy, PartialEq, Eq, Structural, Debug)]
pub struct DockBounds {
    pub left: i32,
    pub width: i32,
    pub top: i32,
}

impl DockBounds {
    /// Whether a pointer position lies outside the dock's box on all
    /// axes: beyond the horizontal range and above the top edge.
    pub open spec fn outside_on_all_axes(self, x: int, y: int) -> bool {
        (x < self.left || x > self.left + self.width) && y < self.top
    }

    /// Runtime check of `outside_on_all_axes`.
    pub fn outside_point(&self, x: i32, y: i32) -> (r: bool)
        ensures
            r == self.outside_on_all_axes(x as int, y as int),
    {
        ((x as i64) < (self.left as i64) || (x as i64) > (self.left as i64) + (self.width as i64))
            && (y as i64) < (self.top as i64)
    }
}

/// A pointer notification from the windowing system, carrying the
/// device position it reports.
#[derive(Clone, Copy, PartialEq, Eq, Structural)]
pub enum PointerEvent {
    Enter { x: i32, y: i32 },
    Motion { x: i32, y: i32 },
    Leave { x: i32, y: i32 },
}

/// Whether an event asserts pointer presence over the dock, and so
/// shows it.
pub open spec fn shows(e: PointerEvent) -> bool {
    e is Enter || e is Motion
}

/// The proximity visibility machine: whether the dock is shown
/// (opacity 1 rather than 0), the last reported pointer position, and
/// the dock's current bounding box. One instance lives for the whole
/// dock session; it starts hidden.
pub struct VisibilityState {
    /// True when the dock is visible (opacity 1); false at opacity 0.
    pub shown: bool,
    /// Last reported pointer position.
    pub last_x: i32,
    pub last_y: i32,
    /// The dock's current bounding box.
    pub bounds: DockBounds,
}

/// One transition of the visibility machine: enter and motion show the
/// dock; a leave hides it only when the position it reports falls
/// outside the dock's box on all axes — both beyond the horizontal
/// range and above the top edge. A leave whose position still meets
/// the box on either axis keeps the dock shown: that is the leave
/// fired while crossing from the dock into a child popup or transient
/// overlay. Every event records the position it carried; the bounding
/// box never changes here.
pub open spec fn vis_step(s: VisibilityState, e: PointerEvent) -> VisibilityState {
    match e {
        PointerEvent::Enter { x, y } | PointerEvent::Motion { x, y } => VisibilityState {
            shown: true,
            last_x: x,
            last_y: y,
            ..s
        },
        PointerEvent::Leave { x, y } => VisibilityState {
            shown: s.shown && !s.bounds.outside_on_all_axes(x as int, y as int),
            last_x: x,
            last_y: y,
            ..s
        },
    }
}

impl VisibilityState {
    /// A fresh machine: hidden, pointer at the origin, with the given
    /// dock box.
    pub fn new(bounds: DockBounds) -> (s: Self)
        ensures
            s == (VisibilityState { shown: false, last_x: 0, last_y: 0, bounds }),
    {
        VisibilityState { shown: false, last_x: 0, last_y: 0, bounds }
    }

    /// Feed one pointer notification to the machine.
    pub fn dispatch(&mut self, e: PointerEvent)
        ensures
            *final(self) == vis_step(*old(self), e),
    {
        match e {
            PointerEvent::Enter { x, y } | PointerEvent::Motion { x, y } => {
                self.shown = true;
                self.last_x = x;
                self.last_y = y;
            },
            PointerEvent::Leave { x, y } => {
                if self.bounds.outside_point(x, y) {
                    self.shown = false;
                }
                self.last_x = x;
                self.last_y = y;
            },
        }
    }

    /// The dock moved or resized.
    pub fn set_bounds(&mut self, bounds: DockBounds)
        ensures
            *final(self) == (VisibilityState { bounds, ..*old(self) }),
    {
        self.bounds = bounds;
    }
}

/// Law: two consecutive show-triggering events (enter or motion) leave
/// the dock shown after each of them — the second never toggles the
/// opacity back.
pub proof fn lemma_show_idempotent(s: VisibilityState, e1: PointerEvent, e2: PointerEvent)
    requires
        shows(e1),
        shows(e2),
    ensures
        vis_step(s, e1).shown,
        vis_step(vis_step(s, e1), e2).shown,
        vis_step(vis_step(s, e1), e2).shown == vis_step(s, e1).shown,
{
}

/// Law: re-asserting a state the machine is already in is a no-op on
/// opacity — a show event on a shown dock keeps it shown, and any
/// leave on a hidden dock keeps it hidden.
pub proof fn lemma_reassert_noop(s: VisibilityState, e: PointerEvent)
    ensures
        s.shown && shows(e) ==> vis_step(s, e).shown == s.shown,
        !s.shown && e is Leave ==> !vis_step(s, e).shown,
{
}

} // verus!

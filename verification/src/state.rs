//! The interaction state of a mouse area, and the record of it that the host
//! keeps from frame to frame.
use vstd::prelude::*;
use crate::event::PointerEvent;

verus! {

/// How the pointer currently interacts with a mouse area.
#[derive(Clone, Copy, Debug, PartialEq, Eq, Structural)]
pub struct MouseState {
    /// The pointer is over the area.
    pub hovered: bool,
    /// A press that started over the area has not been released yet.
    pub pressed: bool,
}

impl Default for MouseState {
    /// The state before any event was seen: neither hovered nor pressed.
    fn default() -> (state: MouseState)
        ensures
            state == MouseState::idle(),
    {
        MouseState { hovered: false, pressed: false }
    }
}

impl MouseState {
    /// The state of an area that the pointer does not touch.
    pub open spec fn idle() -> MouseState {
        MouseState { hovered: false, pressed: false }
    }

    /// The state after `event`, seen while the pointer was inside the area's
    /// bounds or not.
    ///
    /// The area is hovered exactly when the pointer is inside. A press starts
    /// only inside; once started it lasts until a release, wherever the
    /// pointer is by then.
    pub open spec fn observed(self, event: PointerEvent, inside: bool) -> MouseState {
        MouseState {
            hovered: inside,
            pressed: if event.is_press() {
                self.pressed || inside
            } else if event.is_release() {
                false
            } else {
                self.pressed
            },
        }
    }
}

/// The state that outlives the widget: the host keeps one tracker for each
/// place in its tree where a mouse area is mounted.
pub struct Tracker {
    mouse_state: MouseState,
}

impl View for Tracker {
    type V = MouseState;

    /// The state that was observed last.
    closed spec fn view(&self) -> MouseState {
        self.mouse_state
    }
}

impl Tracker {
    /// The tracker of an area that was just mounted.
    pub fn new() -> (tracker: Tracker)
        ensures
            tracker@ == MouseState::idle(),
    {
        Tracker { mouse_state: MouseState::default() }
    }

    /// The state that was observed last.
    pub fn mouse_state(&self) -> (state: MouseState)
        ensures
            state == self@,
    {
        self.mouse_state
    }

    /// Takes note of `event`. `inside` tells whether the pointer was within
    /// the bounds that the host gave the area when the event came.
    pub fn observe(&mut self, event: PointerEvent, inside: bool)
        ensures
            final(self)@ == old(self)@.observed(event, inside),
    {
        self.mouse_state.hovered = inside;
        if event.starts_press() {
            if self.mouse_state.hovered {
                self.mouse_state.pressed = true;
            }
        } else if event.ends_press() {
            self.mouse_state.pressed = false;
        }
    }
}

} // verus!

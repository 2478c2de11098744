//! The events that a host hands to a mouse area, and what the area answers.
use vstd::prelude::*;

verus! {

/// A button of the mouse.
#[derive(Clone, Copy, Debug, PartialEq, Eq, Structural)]
pub enum Button {
    /// The primary button.
    Left,
    /// The secondary button.
    Right,
    /// The middle button.
    Middle,
    /// Any other button, by its number.
    Other(u8),
}

/// What the host reports of the pointer, as far as a mouse area reads it.
#[derive(Clone, Copy, Debug, PartialEq, Eq, Structural)]
pub enum PointerEvent {
    /// The cursor moved.
    CursorMoved,
    /// A mouse button went down.
    ButtonPressed(Button),
    /// A mouse button went up.
    ButtonReleased(Button),
    /// A touch began: a finger is on the surface.
    FingerPressed,
    /// A finger moved on the surface.
    FingerMoved,
    /// A touch ended: the finger left the surface.
    FingerLifted,
    /// A touch ended: it was cancelled, the finger is lost to the host.
    FingerLost,
    /// Any other event: a key, the wheel, the window.
    Other,
}

impl PointerEvent {
    /// The event starts a press: the primary button went down, or a touch
    /// began.
    pub open spec fn is_press(self) -> bool {
        self == PointerEvent::ButtonPressed(Button::Left) || self == PointerEvent::FingerPressed
    }

    /// The event ends a press: the primary button went up, or a touch
    /// ended, by a lifted finger or by a lost one.
    pub open spec fn is_release(self) -> bool {
        self == PointerEvent::ButtonReleased(Button::Left) || self == PointerEvent::FingerLifted
            || self == PointerEvent::FingerLost
    }

    /// Tells whether the event starts a press.
    pub fn starts_press(&self) -> (press: bool)
        ensures
            press == self.is_press(),
    {
        match self {
            PointerEvent::ButtonPressed(Button::Left) | PointerEvent::FingerPressed => true,
            _ => false,
        }
    }

    /// Tells whether the event ends a press.
    pub fn ends_press(&self) -> (release: bool)
        ensures
            release == self.is_release(),
    {
        match self {
            PointerEvent::ButtonReleased(Button::Left)
            | PointerEvent::FingerLifted
            | PointerEvent::FingerLost => true,
            _ => false,
        }
    }
}

/// Whether an event was used up.
#[derive(Clone, Copy, Debug, PartialEq, Eq, Structural)]
pub enum Status {
    /// Nobody handled the event: widgets that overlap may still react to it.
    Ignored,
    /// A widget handled the event.
    Captured,
}

impl Status {
    /// What a mouse area reports of an event that it handed on to its child:
    /// the child's own answer. That the event changed the area's state, or
    /// had its content rebuilt, captures nothing.
    pub fn forwarded(child: Status, invalidated: bool) -> (reported: Status)
        ensures
            reported == child,
    {
        child
    }
}

} // verus!

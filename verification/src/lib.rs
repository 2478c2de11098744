//! The core of a widget whose content depends on how the pointer interacts
//! with it.
//!
//! A mouse area shows one child, built on demand from the current
//! [`MouseState`]. The child is cached together with the state it was built
//! for, rebuilt only when that state changes, and every rebuild is reported
//! so that the host can lay the widget out again.
pub mod area;
pub mod content;
pub mod event;
pub mod laws;
pub mod state;

pub use area::MouseArea;
pub use content::{Cache, Content};
pub use event::{Button, PointerEvent, Status};
pub use state::{MouseState, Tracker};

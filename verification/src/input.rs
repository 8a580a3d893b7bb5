//! Addressed click events as the host delivers them.

use vstd::prelude::*;

verus! {

/// The mouse button carried by a click event. Only `Right` is
/// distinguished; every other button takes the primary-action path.
#[derive(Clone, Copy, PartialEq, Eq, Structural, Debug)]
pub enum MouseButton {
    Left,
    Middle,
    Right,
    WheelUp,
    WheelDown,
    Unknown,
}

/// A click event addressed to a widget instance by name.
pub struct I3BarEvent {
    /// The identity of the widget the event targets, if any.
    pub name: Option<String>,
    /// The button that was pressed.
    pub button: MouseButton,
}

} // verus!

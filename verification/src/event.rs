use vstd::prelude::*;
use crate::color::Coordinate;
use crate::geometry::PhysicalSize;

verus! {

/// The key that a keyboard event names, as far as the loop tells keys
/// apart.
#[derive(Clone, Copy, Debug, PartialEq, Eq, Structural)]
pub enum Key {
    Escape,
    Other,
}

/// Something that happened to a window.
#[derive(Clone, Copy, Debug, PartialEq, Eq, Structural)]
pub enum WindowEvent {
    /// The pointer moved to (`x`, `y`), counted from the window's top
    /// left corner.
    CursorMoved { x: Coordinate, y: Coordinate },
    /// The user asked for the window to be closed.
    CloseRequested,
    /// A key went down (`pressed`) or up. `key` is `None` where the
    /// window system could not name the key.
    KeyboardInput { pressed: bool, key: Option<Key> },
    /// The window now has this size.
    Resized(PhysicalSize),
    /// The window moved to a display of another density and now has
    /// this size.
    ScaleFactorChanged { new_inner_size: PhysicalSize },
    /// Any other window event.
    Other,
}

impl WindowEvent {
    /// Whether the event asks the loop to stop: a request to close, or
    /// the Escape key going down, whatever modifiers are held.
    pub open spec fn asks_to_exit(self) -> bool {
        self == WindowEvent::CloseRequested
            || self == (WindowEvent::KeyboardInput { pressed: true, key: Some(Key::Escape) })
    }

    /// The size that the event announces, if it announces one.
    pub open spec fn announced_size(self) -> Option<PhysicalSize> {
        match self {
            WindowEvent::Resized(size) => Some(size),
            WindowEvent::ScaleFactorChanged { new_inner_size } => Some(new_inner_size),
            _ => None,
        }
    }
}

/// One event of the window system's loop. `own_window` says whether the
/// event is addressed to the window that is drawn to.
#[derive(Clone, Copy, Debug, PartialEq, Eq, Structural)]
pub enum Event {
    Window { event: WindowEvent, own_window: bool },
    RedrawRequested { own_window: bool },
    /// All pending events have been handed out.
    MainEventsCleared,
    /// Any other event.
    Other,
}

} // verus!

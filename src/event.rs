//! The event vocabulary shared by the platform boundary, the queue and
//! simulation code.
use vstd::prelude::*;

use crate::window::{WindowPosition, WindowSize};

verus! {

/// Identifier of a physical key, as reported by the platform.
pub type Keycode = u32;

/// Everything the platform can report about a window.
#[derive(Debug, Clone, Copy, PartialEq, Eq, Structural)]
pub enum WindowEvent {
    WindowRedrawRequested,
    WindowClose,
    WindowResize(WindowSize),
    WindowFocused(bool),
    WindowMoved(WindowPosition),
}

/// Everything the platform can report about input devices.
///
/// Cursor coordinates are carried as the IEEE-754 bit patterns of the
/// platform's `f64` values (`f64::to_bits`), so that events stay plain
/// integer data and compare structurally, bit for bit.
#[derive(Debug, Clone, Copy, PartialEq, Eq, Structural)]
pub enum InputEvent {
    KeyPressed { keycode: Keycode },
    KeyReleased { keycode: Keycode },
    MouseButtonPressed { button: u8 },
    MouseButtonReleased { button: u8 },
    MouseMoved { x: u64, y: u64 },
}

/// A platform event: either about the window or about an input device.
#[derive(Debug, Clone, Copy, PartialEq, Eq, Structural)]
pub enum Event {
    WindowEvent(WindowEvent),
    InputEvent(InputEvent),
}

/// Coarse classification of events by their source.
#[derive(Debug, Clone, Copy, PartialEq, Eq, Structural)]
pub enum EventCategory {
    Window,
    Keyboard,
    Mouse,
}

/// The category an event belongs to.
pub open spec fn category_of(e: Event) -> EventCategory {
    match e {
        Event::WindowEvent(_) => EventCategory::Window,
        Event::InputEvent(InputEvent::KeyPressed { .. }) => EventCategory::Keyboard,
        Event::InputEvent(InputEvent::KeyReleased { .. }) => EventCategory::Keyboard,
        Event::InputEvent(_) => EventCategory::Mouse,
    }
}

impl Event {
    /// Whether the event comes from an input device rather than the window.
    pub fn is_input(&self) -> (r: bool)
        ensures
            r <==> self is InputEvent,
    {
        match self {
            Event::InputEvent(_) => true,
            _ => false,
        }
    }

    /// The source category of the event.
    pub fn category(&self) -> (r: EventCategory)
        ensures
            r == category_of(*self),
    {
        match self {
            Event::WindowEvent(_) => EventCategory::Window,
            Event::InputEvent(InputEvent::KeyPressed { .. }) => EventCategory::Keyboard,
            Event::InputEvent(InputEvent::KeyReleased { .. }) => EventCategory::Keyboard,
            Event::InputEvent(_) => EventCategory::Mouse,
        }
    }
}

} // verus!

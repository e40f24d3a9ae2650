//! The platform boundary: native events described as plain values, and their
//! conversion into engine events.
use vstd::prelude::*;

use crate::event::{Event, InputEvent, WindowEvent};
use crate::window::{WindowPosition, WindowSize};

verus! {

/// Whether a key or button went down or up.
#[derive(Debug, Clone, Copy, PartialEq, Eq, Structural)]
pub enum ElementState {
    Pressed,
    Released,
}

/// A mouse button as the platform names it.
#[derive(Debug, Clone, Copy, PartialEq, Eq, Structural)]
pub enum MouseButton {
    Left,
    Right,
    Middle,
    Other(u8),
}

/// A native event of the windowing platform, reduced to what the engine
/// reads. Cursor coordinates are `f64` bit patterns, as in
/// [`InputEvent::MouseMoved`].
#[derive(Debug, Clone, Copy, PartialEq, Eq, Structural)]
pub enum PlatformEvent {
    /// An engine event sent back to the engine through the platform.
    UserEvent(Event),
    /// The platform asks for a frame to be drawn.
    RedrawRequested,
    /// All pending input of this platform tick has been delivered.
    MainEventsCleared,
    CloseRequested,
    Resized(WindowSize),
    Focused(bool),
    Moved(WindowPosition),
    KeyboardInput { scancode: u32, state: ElementState },
    MouseInput { button: MouseButton, state: ElementState },
    CursorMoved { x: u64, y: u64 },
    /// Anything the engine does not use.
    Other,
}

/// The number the engine uses for a mouse button.
pub open spec fn button_number(b: MouseButton) -> u8 {
    match b {
        MouseButton::Left => 0,
        MouseButton::Right => 1,
        MouseButton::Middle => 2,
        MouseButton::Other(n) => n,
    }
}

/// The engine event a platform event stands for, if the engine uses it.
pub open spec fn engine_event_of(e: PlatformEvent) -> Option<Event> {
    match e {
        PlatformEvent::UserEvent(ev) => Some(ev),
        PlatformEvent::RedrawRequested => Some(Event::WindowEvent(WindowEvent::WindowRedrawRequested)),
        PlatformEvent::CloseRequested => Some(Event::WindowEvent(WindowEvent::WindowClose)),
        PlatformEvent::Resized(size) => Some(Event::WindowEvent(WindowEvent::WindowResize(size))),
        PlatformEvent::Focused(f) => Some(Event::WindowEvent(WindowEvent::WindowFocused(f))),
        PlatformEvent::Moved(p) => Some(Event::WindowEvent(WindowEvent::WindowMoved(p))),
        PlatformEvent::KeyboardInput { scancode, state } => Some(
            Event::InputEvent(
                match state {
                    ElementState::Pressed => InputEvent::KeyPressed { keycode: scancode },
                    ElementState::Released => InputEvent::KeyReleased { keycode: scancode },
                },
            ),
        ),
        PlatformEvent::MouseInput { button, state } => Some(
            Event::InputEvent(
                match state {
                    ElementState::Pressed => InputEvent::MouseButtonPressed {
                        button: button_number(button),
                    },
                    ElementState::Released => InputEvent::MouseButtonReleased {
                        button: button_number(button),
                    },
                },
            ),
        ),
        PlatformEvent::CursorMoved { x, y } => Some(Event::InputEvent(InputEvent::MouseMoved { x, y })),
        PlatformEvent::MainEventsCleared => None,
        PlatformEvent::Other => None,
    }
}

/// The number the engine uses for a mouse button.
pub fn mouse_button_number(b: MouseButton) -> (r: u8)
    ensures
        r == button_number(b),
{
    match b {
        MouseButton::Left => 0,
        MouseButton::Right => 1,
        MouseButton::Middle => 2,
        MouseButton::Other(n) => n,
    }
}

/// Converts one platform event into an engine event; `None` means that
/// the engine has no use for it and it is dropped.
pub fn winit_event_parser(event: PlatformEvent) -> (r: Option<Event>)
    ensures
        r == engine_event_of(event),
{
    let event = match event {
        PlatformEvent::UserEvent(ev) => ev,
        PlatformEvent::RedrawRequested => Event::WindowEvent(WindowEvent::WindowRedrawRequested),
        PlatformEvent::CloseRequested => Event::WindowEvent(WindowEvent::WindowClose),
        PlatformEvent::Resized(size) => Event::WindowEvent(WindowEvent::WindowResize(size)),
        PlatformEvent::Focused(focused) => Event::WindowEvent(WindowEvent::WindowFocused(focused)),
        PlatformEvent::Moved(position) => Event::WindowEvent(WindowEvent::WindowMoved(position)),
        PlatformEvent::KeyboardInput { scancode, state } => match state {
            ElementState::Pressed => Event::InputEvent(InputEvent::KeyPressed { keycode: scancode }),
            ElementState::Released => Event::InputEvent(
                InputEvent::KeyReleased { keycode: scancode },
            ),
        },
        PlatformEvent::MouseInput { button, state } => {
            let button = mouse_button_number(button);
            match state {
                ElementState::Pressed => Event::InputEvent(
                    InputEvent::MouseButtonPressed { button },
                ),
                ElementState::Released => Event::InputEvent(
                    InputEvent::MouseButtonReleased { button },
                ),
            }
        },
        PlatformEvent::CursorMoved { x, y } => Event::InputEvent(InputEvent::MouseMoved { x, y }),
        PlatformEvent::MainEventsCleared => return None,
        PlatformEvent::Other => return None,
    };
    Some(event)
}

} // verus!

//! Window geometry and the description of the window to open.
use vstd::prelude::*;

verus! {

/// Inner size of a window, in physical pixels.
#[derive(Debug, Clone, Copy, PartialEq, Eq, Structural)]
pub struct WindowSize {
    pub width: u32,
    pub height: u32,
}

/// Position of a window on the screen, in physical pixels.
#[derive(Debug, Clone, Copy, PartialEq, Eq, Structural)]
pub struct WindowPosition {
    pub x: i32,
    pub y: i32,
}

impl WindowSize {
    pub fn new(width: u32, height: u32) -> (r: Self)
        ensures
            r.width == width,
            r.height == height,
    {
        Self { width, height }
    }
}

impl WindowPosition {
    pub fn new(x: i32, y: i32) -> (r: Self)
        ensures
            r.x == x,
            r.y == y,
    {
        Self { x, y }
    }
}

/// Width of the window opened when none is asked for.
pub const DEFAULT_WIDTH: u32 = 1280;

/// Height of the window opened when none is asked for.
pub const DEFAULT_HEIGHT: u32 = 720;

/// Title of the window opened when none is asked for.
pub open spec fn default_title() -> Seq<char> {
    "Bark Engine"@
}

/// What a window builder has been told so far.
pub struct WindowBuilderModel {
    pub title: Option<Seq<char>>,
    pub size: Option<WindowSize>,
}

/// Everything needed to open a window.
#[derive(Debug, Clone)]
pub struct WindowSettings {
    pub title: String,
    pub size: WindowSize,
}

/// Collects the title and size of the window to open; what is not given
/// falls back to a default.
#[derive(Debug, Clone)]
pub struct WgpuWindowBuilder {
    title: Option<String>,
    size: Option<WindowSize>,
}

impl View for WgpuWindowBuilder {
    type V = WindowBuilderModel;

    closed spec fn view(&self) -> WindowBuilderModel {
        WindowBuilderModel {
            title: match self.title {
                Some(t) => Some(t@),
                None => None,
            },
            size: self.size,
        }
    }
}

impl WgpuWindowBuilder {
    /// A builder that has been told nothing yet.
    pub fn new() -> (r: WgpuWindowBuilder)
        ensures
            r@.title is None,
            r@.size is None,
    {
        WgpuWindowBuilder { title: None, size: None }
    }

    /// Sets the window title.
    pub fn with_title(self, title: &str) -> (r: WgpuWindowBuilder)
        ensures
            r@.title == Some(title@),
            r@.size == self@.size,
    {
        WgpuWindowBuilder { title: Some(title.to_owned()), size: self.size }
    }

    /// Sets the inner size of the window.
    pub fn with_size(self, size: WindowSize) -> (r: WgpuWindowBuilder)
        ensures
            r@.title == self@.title,
            r@.size == Some(size),
    {
        WgpuWindowBuilder { title: self.title, size: Some(size) }
    }

    /// `s` holds what this builder was told, and the defaults for the rest.
    pub open spec fn settings_of(self, s: WindowSettings) -> bool {
        &&& s.title@ == match self@.title {
            Some(t) => t,
            None => default_title(),
        }
        &&& s.size == match self@.size {
            Some(sz) => sz,
            None => WindowSize { width: DEFAULT_WIDTH, height: DEFAULT_HEIGHT },
        }
    }

    /// The settings of the window to open: what was given, and the defaults
    /// for the rest.
    pub fn settings(self) -> (r: WindowSettings)
        ensures
            self.settings_of(r),
    {
        let title = match self.title {
            Some(t) => t,
            None => "Bark Engine".to_owned(),
        };
        let size = match self.size {
            Some(s) => s,
            None => WindowSize::new(DEFAULT_WIDTH, DEFAULT_HEIGHT),
        };
        WindowSettings { title, size }
    }
}

} // verus!

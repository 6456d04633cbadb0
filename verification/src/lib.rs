//! A small real-time engine core: a fixed-timestep frame scheduler, a
//! sample-synchronous multi-channel audio synthesizer in fixed-point
//! arithmetic, edge-triggered input tracking, and letterboxed coordinate
//! mapping. Window creation, OpenGL and the audio device are external
//! collaborators; this crate holds the logic that drives them.
use vstd::prelude::*;

pub mod audio;
pub mod clock;
pub mod engine;
pub mod fixed;
pub mod input;
pub mod key;
pub mod mapper;

verus! {

/// A window icon: RGBA pixel data with its dimensions.
pub struct Icon {
    pub width: u32,
    pub height: u32,
    pub rgba: Vec<u8>,
}

impl Icon {
    /// The pixel buffer must hold exactly four bytes (R, G, B, A) per pixel.
    pub fn new(width: u32, height: u32, rgba: Vec<u8>) -> (r: Self)
        requires
            width * height * 4 == rgba@.len(),
        ensures
            r.width == width,
            r.height == height,
            r.rgba@ == rgba@,
    {
        Self { width, height, rgba }
    }

    pub fn width(&self) -> (r: u32)
        ensures
            r == self.width,
    {
        self.width
    }

    pub fn height(&self) -> (r: u32)
        ensures
            r == self.height,
    {
        self.height
    }

    pub fn rgba(&self) -> (r: &Vec<u8>)
        ensures
            r@ == self.rgba@,
    {
        &self.rgba
    }
}

/// Immutable configuration assembled before any window or audio resource is
/// acquired: logical dimensions, window title, optional icon, and whether the
/// logical framebuffer should adapt to a fullscreen window.
pub struct EngineBuilder {
    pub width: u32,
    pub height: u32,
    pub fullscreen: bool,
    pub title: String,
    pub icon: Option<Icon>,
}

impl EngineBuilder {
    pub fn with_dimensions(width: u32, height: u32) -> (r: Self)
        ensures
            r.width == width,
            r.height == height,
            !r.fullscreen,
            r.title@ == "Game"@,
            r.icon is None,
    {
        Self { width, height, ..Self::default() }
    }

    pub fn fullscreen(target_width: u32, target_height: u32) -> (r: Self)
        ensures
            r.width == target_width,
            r.height == target_height,
            r.fullscreen,
            r.title@ == "Game"@,
            r.icon is None,
    {
        Self { width: target_width, height: target_height, fullscreen: true, ..Self::default() }
    }

    pub fn icon(self, icon: Icon) -> (r: Self)
        ensures
            r.icon == Some(icon),
            r.width == self.width,
            r.height == self.height,
            r.fullscreen == self.fullscreen,
            r.title@ == self.title@,
    {
        Self { icon: Some(icon), ..self }
    }

    pub fn dimensions(self, width: u32, height: u32) -> (r: Self)
        ensures
            r.width == width,
            r.height == height,
            r.fullscreen == self.fullscreen,
            r.title@ == self.title@,
            r.icon == self.icon,
    {
        Self { width, height, ..self }
    }

    pub fn title(self, title: String) -> (r: Self)
        ensures
            r.title@ == title@,
            r.width == self.width,
            r.height == self.height,
            r.fullscreen == self.fullscreen,
            r.icon == self.icon,
    {
        Self { title, ..self }
    }

    pub fn target_width(&self) -> (r: u32)
        ensures
            r == self.width,
    {
        self.width
    }

    pub fn target_height(&self) -> (r: u32)
        ensures
            r == self.height,
    {
        self.height
    }

    pub fn is_fullscreen(&self) -> (r: bool)
        ensures
            r == self.fullscreen,
    {
        self.fullscreen
    }

    pub fn title_str(&self) -> (r: &String)
        ensures
            r@ == self.title@,
    {
        &self.title
    }

    pub fn take_icon(self) -> (r: Option<Icon>)
        ensures
            r == self.icon,
    {
        self.icon
    }
}

impl Default for EngineBuilder {
    fn default() -> (r: Self)
        ensures
            r.width == 0,
            r.height == 0,
            !r.fullscreen,
            r.title@ == "Game"@,
            r.icon is None,
    {
        Self {
            width: 0,
            height: 0,
            fullscreen: false,
            title: "Game".to_owned(),
            icon: None,
        }
    }
}

/// An error carrying a fixed message.
pub struct StrError {
    pub str: &'static str,
}

impl StrError {
    pub fn new(str: &'static str) -> (r: Self)
        ensures
            r.str@ == str@,
    {
        Self { str }
    }

    pub fn message(&self) -> (r: &'static str)
        ensures
            r@ == self.str@,
    {
        self.str
    }
}

#[derive(PartialEq, Eq, Hash, Debug, Clone, Copy, Structural)]
pub enum MouseButton {
    Left,
    Middle,
    Right,
}

} // verus!

//! The part of the configuration that the backend reads.

use vstd::prelude::*;

use crate::host::Host;

verus! {

/// Place and size of the notification window, in pixels.
#[derive(Clone, Copy, Debug, PartialEq, Eq, Structural)]
pub struct Geometry {
    pub x: u32,
    pub y: u32,
    pub width: u32,
    pub height: u32,
}

/// Settings of the window.
#[derive(Debug)]
pub struct GlobalConfig {
    /// Where the window stands and how large it is at first.
    pub geometry: Geometry,
    /// Whether the window takes the size of its content.
    pub wrap_content: bool,
    /// The font of the message, in Pango's notation.
    pub font: String,
    /// The message template, in Tera's notation.
    pub template: String,
}

/// The configuration.
pub struct Config<H: Host> {
    pub global: GlobalConfig,
    pub urgencies: H::Urgencies,
}

} // verus!

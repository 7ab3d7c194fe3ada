//! Draw calls: what a frame asks the rendering backend to do, as plain data.

use vstd::prelude::*;
use crate::screen::OrthoBounds;

verus! {

/// A colour by its three channels. A channel is a whole intensity on the unit
/// scale: 0 is none, 1 is full.
#[derive(Clone, Copy, Debug, PartialEq, Eq, Structural)]
pub struct Color {
    pub red: u8,
    pub green: u8,
    pub blue: u8,
}

impl Color {
    /// No intensity in any channel.
    pub open spec fn black() -> Color {
        Color { red: 0, green: 0, blue: 0 }
    }

    /// Full intensity in every channel.
    pub open spec fn white() -> Color {
        Color { red: 1, green: 1, blue: 1 }
    }
}

/// How a texture is sampled when it is drawn larger than it is.
#[derive(Clone, Copy, Debug, PartialEq, Eq, Structural)]
pub enum Filter {
    Nearest,
    Linear,
}

/// Names a texture that the driver has loaded and keeps.
#[derive(Clone, Copy, Debug, PartialEq, Eq, Structural)]
pub struct TextureHandle(pub u32);

/// Names a font that the driver has loaded and keeps.
#[derive(Clone, Copy, Debug, PartialEq, Eq, Structural)]
pub struct FontHandle(pub u32);

/// One textured quad.
#[derive(Clone, Copy, Debug, PartialEq, Eq, Structural)]
pub struct SpriteDraw {
    pub texture: TextureHandle,
    /// Where the middle of the quad goes, in logical coordinates.
    pub center_x: u32,
    pub center_y: u32,
    pub magnify: Filter,
    /// Whether the quad is blended by its alpha channel.
    pub alpha: bool,
    pub projection: OrthoBounds,
}

/// One line of text.
#[derive(Clone, Copy, Debug, PartialEq, Eq)]
pub struct TextDraw {
    pub text: &'static str,
    pub font: FontHandle,
    pub color: Color,
    /// Font size in pixels.
    pub size: u8,
    /// Horizontal measure that the text renderer takes ahead of the position.
    pub extent: u32,
    pub x: u32,
    pub y: u32,
    pub projection: OrthoBounds,
}

/// One request to the rendering backend.
#[derive(Clone, Copy, Debug, PartialEq, Eq)]
pub enum DrawCall {
    /// Fill the render target with one colour; `alpha` is 1 for opaque.
    Clear { color: Color, alpha: u8 },
    Sprite(SpriteDraw),
    Text(TextDraw),
}

impl DrawCall {
    /// How many calls of `calls` are clears.
    pub open spec fn clears(calls: Seq<DrawCall>) -> nat {
        calls.filter(|call: DrawCall| call is Clear).len()
    }

    /// How many calls of `calls` draw a sprite.
    pub open spec fn sprites(calls: Seq<DrawCall>) -> nat {
        calls.filter(|call: DrawCall| call is Sprite).len()
    }

    /// How many calls of `calls` draw text.
    pub open spec fn texts(calls: Seq<DrawCall>) -> nat {
        calls.filter(|call: DrawCall| call is Text).len()
    }
}

} // verus!

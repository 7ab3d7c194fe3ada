//! The logical screen, the window it is shown in, and the projection between
//! logical coordinates and the device.

use vstd::prelude::*;

verus! {

/// Width of the logical screen, in logical units.
pub const SCREEN_WIDTH: u32 = 640;

/// Height of the logical screen, in logical units.
pub const SCREEN_HEIGHT: u32 = 400;

/// The six planes of an orthographic projection.
///
/// A driver turns them into a matrix; the library only says which planes.
#[derive(Clone, Copy, Debug, PartialEq, Eq, Structural)]
pub struct OrthoBounds {
    pub left: i32,
    pub right: i32,
    pub bottom: i32,
    pub top: i32,
    pub near: i32,
    pub far: i32,
}

impl OrthoBounds {
    /// No two opposite planes coincide, so the projection matrix exists.
    pub open spec fn well_formed(self) -> bool {
        &&& self.left != self.right
        &&& self.bottom != self.top
        &&& self.near != self.far
    }

    /// The projection of a screen `width` by `height` whose origin is the
    /// top left corner and whose y axis points down.
    pub open spec fn of_screen(width: u32, height: u32) -> OrthoBounds {
        OrthoBounds {
            left: 0,
            right: width as i32,
            bottom: height as i32,
            top: 0,
            near: -1i32,
            far: 1,
        }
    }
}

/// The planes of the projection of the logical screen.
pub open spec fn screen_bounds() -> OrthoBounds {
    OrthoBounds::of_screen(SCREEN_WIDTH, SCREEN_HEIGHT)
}

/// The middle of the logical screen.
pub open spec fn screen_middle() -> (u32, u32) {
    ((SCREEN_WIDTH / 2) as u32, (SCREEN_HEIGHT / 2) as u32)
}

/// Gives the projection of the logical screen: x runs from 0 at the left to
/// 640 at the right, y from 0 at the top to 400 at the bottom, depth from -1
/// to 1.
pub fn screen_projection() -> (bounds: OrthoBounds)
    ensures
        bounds == screen_bounds(),
        bounds == (OrthoBounds { left: 0, right: 640, bottom: 400, top: 0, near: -1i32, far: 1 }),
        bounds.well_formed(),
{
    OrthoBounds { left: 0, right: 640, bottom: 400, top: 0, near: -1, far: 1 }
}

/// Gives the middle of the logical screen, half its width and half its
/// height: (320, 200).
pub fn screen_center() -> (center: (u32, u32))
    ensures
        center == screen_middle(),
        center == (320u32, 200u32),
{
    (SCREEN_WIDTH / 2, SCREEN_HEIGHT / 2)
}

/// What the window is opened with.
#[derive(Clone, Copy, Debug, PartialEq, Eq)]
pub struct WindowConfig {
    pub title: &'static str,
    pub width: u32,
    pub height: u32,
}

/// Gives the window of the demo: titled "hello midgar", 1280 by 800 pixels,
/// twice the logical screen each way.
pub fn window_config() -> (config: WindowConfig)
    ensures
        config.title@ == "hello midgar"@,
        config.width == 1280,
        config.height == 800,
        config.width == 2 * SCREEN_WIDTH,
        config.height == 2 * SCREEN_HEIGHT,
{
    WindowConfig { title: "hello midgar", width: 1280, height: 800 }
}

} // verus!

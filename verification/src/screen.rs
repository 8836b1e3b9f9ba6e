use vstd::prelude::*;

verus! {

/// Width of the display in pixels.
pub const SCREEN_WIDTH: u32 = 64;

/// Height of the display in pixels.
pub const SCREEN_HEIGHT: u32 = 32;

/// One request to the rendering backend.
#[derive(Debug, Clone, Copy, PartialEq, Eq)]
pub enum Render {
    /// Blank the whole output surface.
    Clear,
    /// Turn the pixel at `(x, y)` on.
    DrawPx { x: i32, y: i32 },
    /// Turn the pixel at `(x, y)` off.
    ClearPx { x: i32, y: i32 },
    /// Flush the frame to the display.
    Present,
}

impl Render {
    /// Whether the request names a pixel of the screen, if it names one.
    pub open spec fn on_screen(self) -> bool {
        match self {
            Render::DrawPx { x, y } | Render::ClearPx { x, y } => 0 <= x < SCREEN_WIDTH && 0 <= y
                < SCREEN_HEIGHT,
            _ => true,
        }
    }
}

/// The rendering backend. The machine keeps the pixels of record in its own
/// memory and only ever writes to the backend; it never reads pixels back.
///
/// The machine proves that every coordinate it hands over lies on the screen.
pub trait Screen {
    /// Blanks the whole output surface.
    fn clear(&mut self);

    /// Turns the pixel at `(x, y)` on.
    fn draw_px(&mut self, x: i32, y: i32)
        requires
            0 <= x < SCREEN_WIDTH,
            0 <= y < SCREEN_HEIGHT,
    ;

    /// Turns the pixel at `(x, y)` off.
    fn clear_px(&mut self, x: i32, y: i32)
        requires
            0 <= x < SCREEN_WIDTH,
            0 <= y < SCREEN_HEIGHT,
    ;

    /// Flushes the frame to the display.
    fn present(&mut self);
}

} // verus!

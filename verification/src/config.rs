//! Sizes, pace and palette of the game.

use vstd::prelude::*;

verus! {

/// Frames, and ticks of the game, per second.
pub const FPS: u8 = 7;

/// Width of the window in pixels.
pub const WIDTH: usize = 640;

/// Height of the window in pixels.
pub const HEIGHT: usize = 480;

/// Side of one grid cell in pixels.
pub const CELLSIZE: usize = 20;

/// Length of the snake at the start of a round.
pub const START_LENGTH: usize = 3;

/// The colours that the game paints with.
#[derive(Clone, Copy, Debug, PartialEq, Eq, Structural)]
pub enum Color {
    White,
    Black,
    Red,
    Green,
    DarkGreen,
    DarkGray,
}

impl Color {
    /// Red, green, blue and alpha of the colour.
    pub open spec fn spec_rgba(self) -> (u8, u8, u8, u8) {
        match self {
            Color::White => (255u8, 255u8, 255u8, 255u8),
            Color::Black => (0u8, 0u8, 0u8, 255u8),
            Color::Red => (255u8, 0u8, 0u8, 255u8),
            Color::Green => (0u8, 255u8, 0u8, 255u8),
            Color::DarkGreen => (0u8, 155u8, 0u8, 255u8),
            Color::DarkGray => (40u8, 40u8, 40u8, 255u8),
        }
    }

    /// Red, green, blue and alpha of the colour. Every colour is opaque.
    #[verifier::when_used_as_spec(spec_rgba)]
    pub fn rgba(self) -> (c: (u8, u8, u8, u8))
        ensures
            c == self.spec_rgba(),
            c.3 == 255,
    {
        match self {
            Color::White => (255, 255, 255, 255),
            Color::Black => (0, 0, 0, 255),
            Color::Red => (255, 0, 0, 255),
            Color::Green => (0, 255, 0, 255),
            Color::DarkGreen => (0, 155, 0, 255),
            Color::DarkGray => (40, 40, 40, 255),
        }
    }
}

/// Number of grid columns, as a mathematical integer.
pub open spec fn columns() -> int {
    WIDTH as int / CELLSIZE as int
}

/// Number of grid rows, as a mathematical integer.
pub open spec fn rows() -> int {
    HEIGHT as int / CELLSIZE as int
}

/// The window is cut into whole cells: 32 columns and 24 rows, with no pixel
/// left over on either axis.
pub proof fn lemma_window_is_whole_cells()
    ensures
        WIDTH % CELLSIZE == 0,
        HEIGHT % CELLSIZE == 0,
        columns() == 32,
        rows() == 24,
        columns() * CELLSIZE == WIDTH,
        rows() * CELLSIZE == HEIGHT,
{
}

/// Nanoseconds that one frame lasts: a second divided by [`FPS`], rounded
/// down.
pub fn frame_nanos() -> (n: u32)
    ensures
        n == 1_000_000_000int / (FPS as int),
        n == 142_857_142,
{
    1_000_000_000u32 / (FPS as u32)
}

/// Milliseconds for which the game-over screen ignores the keyboard.
pub const GAME_OVER_PAUSE_MILLIS: u64 = 500;

} // verus!

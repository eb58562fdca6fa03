//! Where the texts go. A text is rendered first, by the front end, and only
//! then is its size known: each function here takes that size and gives the
//! rectangle of the window to copy the text into.

use crate::area::Area;
use crate::config::{HEIGHT, WIDTH};
use vstd::prelude::*;

verus! {

/// Distance of the invitation to press a key from the right and from the
/// bottom edge of the window.
pub const PRESS_KEY_MARGIN: usize = 200;

/// Distance of the score from the right edge of the window.
pub const SCORE_MARGIN: usize = 100;

/// Distance of the score, and of the word `Game`, from the top edge.
pub const TOP_MARGIN: i32 = 10;

/// Gap between the two words of the game-over screen.
pub const WORD_GAP: i32 = 25;

/// The middle of the window.
pub open spec fn center() -> (int, int) {
    (WIDTH as int / 2, HEIGHT as int / 2)
}

/// A height read as a signed number of 32 bits, as the row arithmetic of the
/// game-over screen reads it: the upper half of the range counts as
/// negative.
pub open spec fn as_signed(h: u32) -> int {
    if h <= i32::MAX {
        h as int
    } else {
        h - 0x1_0000_0000
    }
}

/// The row of the word `Over` under a word `Game` that is `game_height`
/// pixels high: the top margin, the height, the gap.
pub open spec fn over_top(game_height: u32) -> int {
    as_signed(game_height) + TOP_MARGIN + WORD_GAP
}

/// The whole window.
pub fn window_area() -> (a: Area)
    ensures
        a == (Area { x: 0, y: 0, w: WIDTH as u32, h: HEIGHT as u32 }),
        a.settled(),
{
    Area::new(0, 0, WIDTH as u32, HEIGHT as u32)
}

/// The place of the invitation to press a key, for a text of `w` by `h`
/// pixels: its corner is [`PRESS_KEY_MARGIN`] pixels from the right and from
/// the bottom edge of the window.
pub fn press_key_area(w: u32, h: u32) -> (a: Area)
    ensures
        a == Area::spec_new(WIDTH - PRESS_KEY_MARGIN, HEIGHT - PRESS_KEY_MARGIN, w as int, h as int),
        a.x == 440 && a.y == 280,
        a.settled(),
{
    Area::new((WIDTH - PRESS_KEY_MARGIN) as i32, (HEIGHT - PRESS_KEY_MARGIN) as i32, w, h)
}

/// The place of the score, for a text of `w` by `h` pixels: its corner is
/// [`SCORE_MARGIN`] pixels from the right edge and [`TOP_MARGIN`] pixels
/// from the top edge of the window.
pub fn score_area(w: u32, h: u32) -> (a: Area)
    ensures
        a == Area::spec_new(WIDTH - SCORE_MARGIN, TOP_MARGIN as int, w as int, h as int),
        a.x == 540 && a.y == 10,
        a.settled(),
{
    Area::new((WIDTH - SCORE_MARGIN) as i32, TOP_MARGIN, w, h)
}

/// The place of a title of `w` by `h` pixels: around the middle of the
/// window.
pub fn title_area(w: u32, h: u32) -> (a: Area)
    ensures
        a == Area::spec_from_center(center(), w as int, h as int),
        a.settled(),
        w <= WIDTH ==> a.x == WIDTH / 2 - a.w / 2,
        h <= HEIGHT ==> a.y == HEIGHT / 2 - a.h / 2,
{
    Area::from_center(((WIDTH / 2) as i32, (HEIGHT / 2) as i32), w, h)
}

/// A height read as a signed number, see [`as_signed`].
fn signed(h: u32) -> (s: i32)
    ensures
        s == as_signed(h),
{
    if h <= 0x7fff_ffff {
        h as i32
    } else {
        ((h - 0x8000_0000) as i32) + i32::MIN
    }
}

/// The places of the two words of the game-over screen, for a `Game` and an
/// `Over` of the given widths and heights. Each is first put around the
/// middle of the window and then moved along its column: `Game` up to the
/// top margin, `Over` to the row that lies one gap under the bottom of
/// `Game`, see [`over_top`]. That row must fit in an `i32`.
pub fn game_over_areas(game: (u32, u32), over: (u32, u32)) -> (areas: (Area, Area))
    requires
        over_top(game.1) <= i32::MAX,
    ensures
        areas.0 == (Area {
            y: TOP_MARGIN,
            ..Area::spec_from_center(center(), game.0 as int, game.1 as int)
        }),
        areas.1 == (Area {
            y: over_top(game.1) as i32,
            ..Area::spec_from_center(center(), over.0 as int, over.1 as int)
        }),
{
    let middle: (i32, i32) = ((WIDTH / 2) as i32, (HEIGHT / 2) as i32);
    let game_rect = Area::from_center(middle, game.0, game.1).with_top(TOP_MARGIN);
    let over_rect = Area::from_center(middle, over.0, over.1).with_top(
        signed(game.1) + TOP_MARGIN + WORD_GAP,
    );
    (game_rect, over_rect)
}

/// Two words of sizes that a window can show do not overlap on the
/// game-over screen: `Over` begins exactly one gap under the bottom of
/// `Game`, and both are centred on the same column.
pub proof fn lemma_game_over_words_stack(game: (u32, u32), over: (u32, u32))
    requires
        1 <= game.0 <= WIDTH,
        1 <= game.1 <= HEIGHT,
        1 <= over.0 <= WIDTH,
        1 <= over.1 <= HEIGHT,
    ensures
        over_top(game.1) == TOP_MARGIN + game.1 + WORD_GAP,
        Area::spec_from_center(center(), game.0 as int, game.1 as int).w == game.0,
        Area::spec_from_center(center(), game.0 as int, game.1 as int).h == game.1,
        Area::spec_from_center(center(), game.0 as int, game.1 as int).x == WIDTH / 2 - game.0 / 2,
        Area::spec_from_center(center(), over.0 as int, over.1 as int).x == WIDTH / 2 - over.0 / 2,
{
}

} // verus!

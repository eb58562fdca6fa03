//! Rectangles in window pixels, kept within the bounds that the `sdl2`
//! crate keeps its `Rect` to.
//!
//! `sdl2::rect::Rect` never holds an empty rectangle, nor one that reaches
//! further than half the range of an `i32`: its constructors replace a side
//! of zero by one and pull every other value back to the nearest bound. An
//! [`Area`] built here has gone through the same clamping, so that a front
//! end can turn it into a `Rect` field by field.

use vstd::prelude::*;

verus! {

/// The longest side, and the largest coordinate, that a constructor lets
/// through: half of `i32::MAX`.
pub const MAX_EXTENT: u32 = 1_073_741_823;

/// [`MAX_EXTENT`] as a coordinate.
pub const MAX_POSITION: i32 = 1_073_741_823;

/// The smallest coordinate that a constructor lets through: half of
/// `i32::MIN`.
pub const MIN_POSITION: i32 = -1_073_741_824;

/// A side length brought within bounds: zero becomes one, and nothing
/// exceeds [`MAX_EXTENT`].
pub open spec fn clamped_size(val: int) -> int {
    if val == 0 {
        1
    } else if val > MAX_EXTENT {
        MAX_EXTENT as int
    } else {
        val
    }
}

/// A coordinate brought within [`MIN_POSITION`] and [`MAX_POSITION`].
pub open spec fn clamped_position(val: int) -> int {
    if val > MAX_POSITION {
        MAX_POSITION as int
    } else if val < MIN_POSITION {
        MIN_POSITION as int
    } else {
        val
    }
}

/// A side length brought within bounds, see [`clamped_size`].
pub fn clamp_size(val: u32) -> (r: u32)
    ensures
        r == clamped_size(val as int),
        1 <= r <= MAX_EXTENT,
{
    if val == 0 {
        1
    } else if val > MAX_EXTENT {
        MAX_EXTENT
    } else {
        val
    }
}

/// A coordinate brought within bounds, see [`clamped_position`].
pub fn clamp_position(val: i32) -> (r: i32)
    ensures
        r == clamped_position(val as int),
        MIN_POSITION <= r <= MAX_POSITION,
{
    if val > MAX_POSITION {
        MAX_POSITION
    } else if val < MIN_POSITION {
        MIN_POSITION
    } else {
        val
    }
}

/// A pixel of the window: column, then row.
#[derive(Clone, Copy, Debug, PartialEq, Eq, Structural)]
pub struct Point {
    pub x: i32,
    pub y: i32,
}

/// A rectangle: the pixel of its top left corner, its width and its height.
#[derive(Clone, Copy, Debug, PartialEq, Eq, Structural)]
pub struct Area {
    pub x: i32,
    pub y: i32,
    pub w: u32,
    pub h: u32,
}

impl Area {
    /// The rectangle that [`Area::new`] makes of four numbers.
    pub open spec fn spec_new(x: int, y: int, w: int, h: int) -> Area {
        Area {
            x: clamped_position(x) as i32,
            y: clamped_position(y) as i32,
            w: clamped_size(w) as u32,
            h: clamped_size(h) as u32,
        }
    }

    /// The rectangle that [`Area::from_center`] makes of a point and a size.
    pub open spec fn spec_from_center(center: (int, int), w: int, h: int) -> Area {
        let cw = clamped_size(w);
        let ch = clamped_size(h);
        Area {
            x: clamped_position(clamped_position(center.0) - cw / 2) as i32,
            y: clamped_position(clamped_position(center.1) - ch / 2) as i32,
            w: cw as u32,
            h: ch as u32,
        }
    }

    /// Every number of the rectangle is within bounds, so that clamping it
    /// again changes nothing.
    pub open spec fn settled(self) -> bool {
        &&& MIN_POSITION <= self.x <= MAX_POSITION
        &&& MIN_POSITION <= self.y <= MAX_POSITION
        &&& 1 <= self.w <= MAX_EXTENT
        &&& 1 <= self.h <= MAX_EXTENT
    }

    /// A rectangle with its corner at `(x, y)`, each number clamped: a side
    /// of zero becomes one, and an oversized side or a far-off corner is
    /// pulled back to the nearest bound.
    pub fn new(x: i32, y: i32, w: u32, h: u32) -> (a: Area)
        ensures
            a == Area::spec_new(x as int, y as int, w as int, h as int),
            a.settled(),
    {
        Area { x: clamp_position(x), y: clamp_position(y), w: clamp_size(w), h: clamp_size(h) }
    }

    /// A rectangle of the given size around `center`. The size is clamped
    /// first, as in [`Area::new`]. The corner is then half the width to the
    /// left of the centre and half the height above it, halves rounded down,
    /// and clamped in turn.
    pub fn from_center(center: (i32, i32), w: u32, h: u32) -> (a: Area)
        ensures
            a == Area::spec_from_center((center.0 as int, center.1 as int), w as int, h as int),
            a.settled(),
    {
        let cw: u32 = clamp_size(w);
        let ch: u32 = clamp_size(h);
        let half_w: i32 = (cw / 2) as i32;
        let half_h: i32 = (ch / 2) as i32;
        Area {
            x: clamp_position(clamp_position(center.0) - half_w),
            y: clamp_position(clamp_position(center.1) - half_h),
            w: cw,
            h: ch,
        }
    }

    /// The rectangle moved up or down so that its top edge is at `y`, which
    /// is taken as it is.
    pub fn with_top(self, y: i32) -> (a: Area)
        ensures
            a == (Area { y, ..self }),
    {
        Area { x: self.x, y, w: self.w, h: self.h }
    }
}

/// Clamping is idempotent: a rectangle that is within bounds is the one that
/// [`Area::new`] builds from its own four numbers.
pub proof fn lemma_settled_area_is_fixed(a: Area)
    requires
        a.settled(),
    ensures
        Area::spec_new(a.x as int, a.y as int, a.w as int, a.h as int) == a,
{
}

/// Away from the bounds, the constructors do plain arithmetic: `new` keeps
/// its arguments, and `from_center` puts the centre half a side from the
/// corner.
pub proof fn lemma_small_areas_are_plain(x: int, y: int, w: int, h: int)
    requires
        MIN_POSITION / 2 <= x <= MAX_POSITION,
        MIN_POSITION / 2 <= y <= MAX_POSITION,
        1 <= w <= MAX_EXTENT,
        1 <= h <= MAX_EXTENT,
    ensures
        Area::spec_new(x, y, w, h) == (Area { x: x as i32, y: y as i32, w: w as u32, h: h as u32 }),
        Area::spec_from_center((x, y), w, h) == (Area {
            x: (x - w / 2) as i32,
            y: (y - h / 2) as i32,
            w: w as u32,
            h: h as u32,
        }),
{
}

} // verus!

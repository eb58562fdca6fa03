//! A frame of the running game as a list of shapes, in the order in which
//! they are painted: the background, the grid, the snake, the apple.

use crate::area::{Area, Point};
use crate::config::{columns, rows, Color, CELLSIZE, HEIGHT, WIDTH};
use crate::game::{cell, cells, Board, Game};
use vstd::prelude::*;

verus! {

/// Pixels between the edge of a snake cell and its lighter core.
pub const CORE_INSET: usize = 4;

/// One thing to paint.
#[derive(Clone, Copy, Debug, PartialEq, Eq, Structural)]
pub enum Shape {
    /// The whole window in one colour.
    Background(Color),
    /// A straight line from the first point to the second.
    Line(Color, Point, Point),
    /// A filled rectangle.
    Fill(Color, Area),
}

/// The pixels of a grid cell.
pub open spec fn cell_box(c: (int, int)) -> Area {
    Area {
        x: (c.0 * CELLSIZE) as i32,
        y: (c.1 * CELLSIZE) as i32,
        w: CELLSIZE as u32,
        h: CELLSIZE as u32,
    }
}

/// The pixels of a grid cell without a rim of [`CORE_INSET`] pixels.
pub open spec fn cell_core(c: (int, int)) -> Area {
    Area {
        x: (c.0 * CELLSIZE + CORE_INSET) as i32,
        y: (c.1 * CELLSIZE + CORE_INSET) as i32,
        w: (CELLSIZE - 2 * CORE_INSET) as u32,
        h: (CELLSIZE - 2 * CORE_INSET) as u32,
    }
}

/// The `i`-th line of the grid. The vertical lines come first, one at the
/// left edge of each column and from the top to the bottom of the window.
/// The horizontal lines follow, one at the top edge of each row and from
/// the left to the right of the window.
pub open spec fn grid_line(i: int) -> Shape {
    if i < columns() {
        Shape::Line(
            Color::DarkGray,
            Point { x: (i * CELLSIZE) as i32, y: 0 },
            Point { x: (i * CELLSIZE) as i32, y: HEIGHT as i32 },
        )
    } else {
        Shape::Line(
            Color::DarkGray,
            Point { x: 0, y: ((i - columns()) * CELLSIZE) as i32 },
            Point { x: WIDTH as i32, y: ((i - columns()) * CELLSIZE) as i32 },
        )
    }
}

/// All lines of the grid, see [`grid_line`].
pub open spec fn grid_shapes() -> Seq<Shape> {
    Seq::new((columns() + rows()) as nat, |i: int| grid_line(i))
}

/// The `i`-th shape of a snake: each cell gives two, its box in dark green
/// and then its core in green, and the cells come head first.
pub open spec fn snake_shape(snake: Seq<(int, int)>, i: int) -> Shape {
    if i % 2 == 0 {
        Shape::Fill(Color::DarkGreen, cell_box(snake[i / 2]))
    } else {
        Shape::Fill(Color::Green, cell_core(snake[i / 2]))
    }
}

/// All shapes of a snake, see [`snake_shape`].
pub open spec fn snake_shapes(snake: Seq<(int, int)>) -> Seq<Shape> {
    Seq::new(2 * snake.len(), |i: int| snake_shape(snake, i))
}

/// The apple: the box of its cell in red.
pub open spec fn apple_shape(apple: (int, int)) -> Shape {
    Shape::Fill(Color::Red, cell_box(apple))
}

/// A whole frame: black background, grid, snake, apple.
pub open spec fn frame_shapes(board: Board) -> Seq<Shape> {
    seq![Shape::Background(Color::Black)] + grid_shapes() + snake_shapes(board.snake) + seq![
        apple_shape(board.apple),
    ]
}

/// The pixels of the grid cell `c`.
pub fn cell_area(c: (usize, usize)) -> (a: Area)
    requires
        c.0 < columns(),
        c.1 < rows(),
    ensures
        a == cell_box(cell(c)),
        a.settled(),
        0 <= a.x && a.x + a.w <= WIDTH,
        0 <= a.y && a.y + a.h <= HEIGHT,
{
    Area::new((c.0 * CELLSIZE) as i32, (c.1 * CELLSIZE) as i32, CELLSIZE as u32, CELLSIZE as u32)
}

/// The pixels of the grid cell `c` without its rim.
pub fn cell_core_area(c: (usize, usize)) -> (a: Area)
    requires
        c.0 < columns(),
        c.1 < rows(),
    ensures
        a == cell_core(cell(c)),
        a.settled(),
        a.x == cell_box(cell(c)).x + CORE_INSET,
        a.y == cell_box(cell(c)).y + CORE_INSET,
        a.w + 2 * CORE_INSET == CELLSIZE,
        a.h + 2 * CORE_INSET == CELLSIZE,
{
    Area::new(
        (c.0 * CELLSIZE + CORE_INSET) as i32,
        (c.1 * CELLSIZE + CORE_INSET) as i32,
        (CELLSIZE - 2 * CORE_INSET) as u32,
        (CELLSIZE - 2 * CORE_INSET) as u32,
    )
}

/// The lines of the grid: one for each column and then one for each row.
pub fn grid_lines() -> (lines: Vec<Shape>)
    ensures
        lines@ == grid_shapes(),
        lines@.len() == columns() + rows(),
{
    let mut lines: Vec<Shape> = Vec::new();
    let mut x: usize = 0;
    while x < WIDTH
        invariant
            x % CELLSIZE == 0,
            x <= WIDTH,
            lines@.len() == x / CELLSIZE,
            forall|i: int| 0 <= i < lines@.len() ==> lines@[i] == grid_line(i),
        decreases WIDTH - x,
    {
        lines.push(
            Shape::Line(
                Color::DarkGray,
                Point { x: x as i32, y: 0 },
                Point { x: x as i32, y: HEIGHT as i32 },
            ),
        );
        x += CELLSIZE;
    }
    let mut y: usize = 0;
    while y < HEIGHT
        invariant
            y % CELLSIZE == 0,
            y <= HEIGHT,
            lines@.len() == columns() + y / CELLSIZE,
            forall|i: int| 0 <= i < lines@.len() ==> lines@[i] == grid_line(i),
        decreases HEIGHT - y,
    {
        lines.push(
            Shape::Line(
                Color::DarkGray,
                Point { x: 0, y: y as i32 },
                Point { x: WIDTH as i32, y: y as i32 },
            ),
        );
        y += CELLSIZE;
    }
    assert(lines@ =~= grid_shapes());
    lines
}

/// The apple's shape for a cell of the grid.
pub fn apple_fill(apple: (usize, usize)) -> (shape: Shape)
    requires
        apple.0 < columns(),
        apple.1 < rows(),
    ensures
        shape == apple_shape(cell(apple)),
{
    Shape::Fill(Color::Red, cell_area(apple))
}

impl Game {
    /// The shapes of the snake, two for each cell and head first.
    pub fn snake_fills(&self) -> (fills: Vec<Shape>)
        requires
            self@.wf(),
        ensures
            fills@ == snake_shapes(self@.snake),
            fills@.len() == 2 * self@.snake.len(),
    {
        let coords = self.snake();
        let mut fills: Vec<Shape> = Vec::new();
        let mut i: usize = 0;
        while i < coords.len()
            invariant
                i <= coords@.len(),
                self@.wf(),
                cells(coords@) == self@.snake,
                fills@.len() == 2 * i,
                forall|k: int| 0 <= k < fills@.len() ==> fills@[k] == snake_shape(self@.snake, k),
            decreases coords@.len() - i,
        {
            let coord = coords[i];
            assert(self@.on_grid(self@.snake[i as int]));
            fills.push(Shape::Fill(Color::DarkGreen, cell_area(coord)));
            fills.push(Shape::Fill(Color::Green, cell_core_area(coord)));
            i += 1;
        }
        assert(fills@ =~= snake_shapes(self@.snake));
        fills
    }

    /// The whole frame of the running game, in painting order: a black
    /// background, the grid, the snake, the apple.
    pub fn frame(&self) -> (shapes: Vec<Shape>)
        requires
            self@.wf(),
        ensures
            shapes@ == frame_shapes(self@),
            shapes@.len() == 2 + columns() + rows() + 2 * self@.snake.len(),
    {
        let mut shapes: Vec<Shape> = Vec::new();
        shapes.push(Shape::Background(Color::Black));
        let mut lines = grid_lines();
        shapes.append(&mut lines);
        let mut fills = self.snake_fills();
        shapes.append(&mut fills);
        shapes.push(apple_fill(self.apple()));
        shapes
    }
}

} // verus!

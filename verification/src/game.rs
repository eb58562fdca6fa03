//! The rules of a round: where the snake starts, how it turns, and what one
//! tick does to it.

use crate::config::{columns, rows, CELLSIZE, HEIGHT, START_LENGTH, WIDTH};
use crate::direction::{lemma_only_the_reverse_leads_back, Direction};
use crate::input::{Flow, Input};
use crate::random::{pick, thread_rng};
use rand::rngs::ThreadRng;
use vstd::prelude::*;

verus! {

/// How a tick ended.
#[derive(Clone, Copy, Debug, PartialEq, Eq, Structural)]
pub enum Tick {
    /// The snake went one cell further.
    Moved,
    /// The snake met itself or a wall: the round is over.
    GameOver,
}

/// A grid cell as a pair of mathematical integers: column, then row.
pub open spec fn cell(c: (usize, usize)) -> (int, int) {
    (c.0 as int, c.1 as int)
}

/// A run of grid cells as pairs of mathematical integers.
pub open spec fn cells(s: Seq<(usize, usize)>) -> Seq<(int, int)> {
    s.map_values(|c: (usize, usize)| cell(c))
}

/// Two cells share an edge.
pub open spec fn adjacent(a: (int, int), b: (int, int)) -> bool {
    ||| a.0 == b.0 && (a.1 - b.1 == 1 || b.1 - a.1 == 1)
    ||| a.1 == b.1 && (a.0 - b.0 == 1 || b.0 - a.0 == 1)
}

/// The game as a mathematical value: the grid, the snake from head to tail,
/// the heading it will move along next, the direction of its last move, and
/// the apple. Before the first move of a round the last move counts as one
/// to the right, which is how the snake lies.
pub struct Board {
    pub width: int,
    pub height: int,
    pub heading: Direction,
    pub moved: Direction,
    pub snake: Seq<(int, int)>,
    pub apple: (int, int),
}

impl Board {
    /// The board before the first round: the full grid, no snake yet.
    pub open spec fn fresh() -> Board {
        Board {
            width: columns(),
            height: rows(),
            heading: Direction::Right,
            moved: Direction::Right,
            snake: Seq::empty(),
            apple: (0, 0),
        }
    }

    /// `c` is a cell of the grid.
    pub open spec fn on_grid(self, c: (int, int)) -> bool {
        0 <= c.0 < self.width && 0 <= c.1 < self.height
    }

    /// `c` is a cell in which a new apple may appear: any cell but those of
    /// the bottom row.
    pub open spec fn spawnable(self, c: (int, int)) -> bool {
        0 <= c.0 < self.width && 0 <= c.1 < self.height - 1
    }

    /// `(x, y)` is a cell in which a round may put the snake's head: one
    /// with at least five cells to its left and above it, and at least six
    /// to its right and below it.
    pub open spec fn startable(self, x: int, y: int) -> bool {
        5 <= x < self.width - 6 && 5 <= y < self.height - 6
    }

    /// The head is one step along the last move from the cell behind it.
    pub open spec fn trails(self) -> bool {
        self.snake.len() >= 2 ==> self.snake[0] == (
            self.snake[1].0 + self.moved.delta().0,
            self.snake[1].1 + self.moved.delta().1,
        )
    }

    /// The grid is the window cut into cells, the snake and the apple lie on
    /// it, the snake got where it is by its last move, and it is not about
    /// to go straight back.
    pub open spec fn wf(self) -> bool {
        &&& self.width == columns()
        &&& self.height == rows()
        &&& forall|i: int| 0 <= i < self.snake.len() ==> self.on_grid(#[trigger] self.snake[i])
        &&& self.on_grid(self.apple)
        &&& self.trails()
        &&& self.heading != self.moved.spec_opposite()
    }

    /// A round is on: the board is well formed and the snake has grown no
    /// shorter than it started.
    pub open spec fn in_play(self) -> bool {
        self.wf() && self.snake.len() >= START_LENGTH
    }

    /// The snake is in one piece: each of its cells shares an edge with the
    /// next.
    pub open spec fn connected(self) -> bool {
        forall|i: int|
            0 <= i < self.snake.len() - 1 ==> adjacent(#[trigger] self.snake[i], self.snake[i + 1])
    }

    /// Apples eaten so far in this round.
    pub open spec fn score(self) -> int {
        self.snake.len() - START_LENGTH
    }

    /// The board at the start of a round: three cells of snake in one row,
    /// head at `(x, y)` and body to its left, heading right.
    pub open spec fn started(self, x: int, y: int, apple: (int, int)) -> Board {
        Board {
            heading: Direction::Right,
            moved: Direction::Right,
            snake: seq![(x, y), (x - 1, y), (x - 2, y)],
            apple,
            ..self
        }
    }

    /// The board after one request to go `wanted`: the heading changes,
    /// unless the request is for the reverse of the last move.
    pub open spec fn turned(self, wanted: Direction) -> Board {
        Board { heading: self.heading.spec_turn(self.moved, wanted), ..self }
    }

    /// The board after an input: an arrow key steers, nothing else changes
    /// anything.
    pub open spec fn steered(self, input: Input) -> Board {
        match input {
            Input::Arrow(wanted) => self.turned(wanted),
            _ => self,
        }
    }

    /// The board after a run of inputs, taken in their order.
    pub open spec fn steered_by(self, inputs: Seq<Input>) -> Board
        decreases inputs.len(),
    {
        if inputs.len() == 0 {
            self
        } else {
            self.steered_by(inputs.drop_last()).steered(inputs.last())
        }
    }

    /// The head lies on a cell that the body also covers.
    pub open spec fn bites_itself(self) -> bool {
        exists|i: int| 1 <= i < self.snake.len() && #[trigger] self.snake[i] == self.snake[0]
    }

    /// The head lies on the apple.
    pub open spec fn eats(self) -> bool {
        self.snake[0] == self.apple
    }

    /// The head is in the last cell before the wall that it is heading for.
    pub open spec fn at_wall(self) -> bool {
        let head = self.snake[0];
        match self.heading {
            Direction::Up => head.1 == 0,
            Direction::Down => head.1 == self.height - 1,
            Direction::Left => head.0 == 0,
            Direction::Right => head.0 == self.width - 1,
        }
    }

    /// The cell one step from the head along the heading.
    pub open spec fn ahead(self) -> (int, int) {
        let head = self.snake[0];
        let d = self.heading.delta();
        (head.0 + d.0, head.1 + d.1)
    }

    /// The first half of a move: a snake on the apple keeps its tail and the
    /// apple goes to `respawn`, any other snake lets go of its last cell.
    pub open spec fn fed(self, respawn: (int, int)) -> Board {
        if self.eats() {
            Board { apple: respawn, ..self }
        } else {
            Board { snake: self.snake.drop_last(), ..self }
        }
    }

    /// A move of a snake that has not bitten itself. The tail is settled
    /// first, see [`Board::fed`]. Then a head at the wall ends the round with
    /// nothing more done, and any other head gains the cell ahead of it, and
    /// the heading becomes the last move.
    pub open spec fn advanced(self, respawn: (int, int)) -> (Board, Tick) {
        let fed = self.fed(respawn);
        if self.at_wall() {
            (fed, Tick::GameOver)
        } else {
            (
                Board { snake: seq![self.ahead()] + fed.snake, moved: self.heading, ..fed },
                Tick::Moved,
            )
        }
    }

    /// One tick of the game, `respawn` being where the apple goes if it is
    /// eaten. A snake whose head lies on its body has lost, and the board
    /// stays as it is. Any other snake makes its move.
    pub open spec fn step(self, respawn: (int, int)) -> (Board, Tick) {
        if self.bites_itself() {
            (self, Tick::GameOver)
        } else {
            self.advanced(respawn)
        }
    }

    /// This tick sends the apple somewhere new.
    pub open spec fn respawns(self) -> bool {
        !self.bites_itself() && self.eats()
    }
}

/// The game: a grid, a snake, an apple, and the generator that places them.
pub struct Game {
    cell_width: usize,
    cell_height: usize,
    direction: Direction,
    moved: Direction,
    snake_coords: Vec<(usize, usize)>,
    apple: (usize, usize),
    rng: ThreadRng,
}

impl View for Game {
    type V = Board;

    closed spec fn view(&self) -> Board {
        Board {
            width: self.cell_width as int,
            height: self.cell_height as int,
            heading: self.direction,
            moved: self.moved,
            snake: cells(self.snake_coords@),
            apple: cell(self.apple),
        }
    }
}

impl Game {
    /// A game with no round begun: the grid is the window cut into cells,
    /// there is no snake yet, and chance will come from the generator of
    /// the calling thread.
    pub fn new() -> (game: Game)
        ensures
            game@ == Board::fresh(),
            game@.wf(),
    {
        let game = Game {
            cell_width: WIDTH / CELLSIZE,
            cell_height: HEIGHT / CELLSIZE,
            direction: Direction::Right,
            moved: Direction::Right,
            snake_coords: Vec::new(),
            apple: (0, 0),
            rng: thread_rng(),
        };
        assert(game@.snake =~= Seq::empty());
        game
    }

    /// Number of grid columns.
    pub fn cell_width(&self) -> (w: usize)
        ensures
            w == self@.width,
    {
        self.cell_width
    }

    /// Number of grid rows.
    pub fn cell_height(&self) -> (h: usize)
        ensures
            h == self@.height,
    {
        self.cell_height
    }

    /// The snake's heading.
    pub fn direction(&self) -> (d: Direction)
        ensures
            d == self@.heading,
    {
        self.direction
    }

    /// The direction of the snake's last move, and right before the first
    /// move of a round.
    pub fn moved(&self) -> (d: Direction)
        ensures
            d == self@.moved,
    {
        self.moved
    }

    /// The cells of the snake, head first.
    pub fn snake(&self) -> (s: &Vec<(usize, usize)>)
        ensures
            cells(s@) == self@.snake,
    {
        &self.snake_coords
    }

    /// The cell of the apple.
    pub fn apple(&self) -> (a: (usize, usize))
        ensures
            cell(a) == self@.apple,
    {
        self.apple
    }

    /// Apples eaten so far in this round: the cells by which the snake is
    /// longer than it started.
    pub fn score(&self) -> (n: usize)
        requires
            self@.snake.len() >= START_LENGTH,
        ensures
            n == self@.score(),
    {
        self.snake_coords.len() - START_LENGTH
    }

    /// Some cell where an apple may appear: in any column, in any row but
    /// the bottom one. The game itself is left as it was.
    pub fn get_random_location(&mut self) -> (at: (usize, usize))
        requires
            old(self)@.wf(),
        ensures
            final(self)@ == old(self)@,
            old(self)@.spawnable(cell(at)),
    {
        let x: usize = pick(&mut self.rng, 0, self.cell_width);
        let y: usize = pick(&mut self.rng, 0, self.cell_height - 1);
        (x, y)
    }

    /// Begins a round with the head at `(x, y)` and the apple at `apple`:
    /// the snake is three cells long, lies in one row with its body to the
    /// left of its head, and heads right.
    pub fn start_at(&mut self, x: usize, y: usize, apple: (usize, usize))
        requires
            old(self)@.wf(),
            2 <= x < old(self)@.width,
            y < old(self)@.height,
            old(self)@.on_grid(cell(apple)),
        ensures
            final(self)@ == old(self)@.started(x as int, y as int, cell(apple)),
            final(self)@.in_play(),
    {
        let mut coords: Vec<(usize, usize)> = Vec::new();
        coords.push((x, y));
        coords.push((x - 1, y));
        coords.push((x - 2, y));
        self.snake_coords = coords;
        self.direction = Direction::Right;
        self.moved = Direction::Right;
        self.apple = apple;
        assert(self@.snake =~= seq![
            (x as int, y as int),
            (x as int - 1, y as int),
            (x as int - 2, y as int),
        ]);
    }

    /// Begins a round at a place that chance picks: the head somewhere away
    /// from the walls, see [`Board::startable`], and the apple in any cell
    /// but those of the bottom row. Score and heading start over.
    pub fn start(&mut self)
        requires
            old(self)@.wf(),
        ensures
            final(self)@.snake.len() == START_LENGTH,
            old(self)@.startable(final(self)@.snake[0].0, final(self)@.snake[0].1),
            old(self)@.spawnable(final(self)@.apple),
            final(self)@ == old(self)@.started(
                final(self)@.snake[0].0,
                final(self)@.snake[0].1,
                final(self)@.apple,
            ),
            final(self)@.in_play(),
    {
        let x: usize = pick(&mut self.rng, 5, self.cell_width - 6);
        let y: usize = pick(&mut self.rng, 5, self.cell_height - 6);
        let apple = self.get_random_location();
        self.start_at(x, y, apple);
    }

    /// Asks the snake to go `wanted`. It obeys unless that is the reverse of
    /// its last move. So of several requests between two ticks the last one
    /// that is not a reversal counts, and none of them can fold the snake
    /// back onto itself.
    pub fn turn(&mut self, wanted: Direction)
        ensures
            final(self)@ == old(self)@.turned(wanted),
            old(self)@.wf() ==> final(self)@.wf(),
    {
        self.direction = self.direction.turn(self.moved, wanted);
    }

    /// Takes one input during a round. An arrow key steers, as [`Game::turn`]
    /// does. A close request and the escape key stop the round, and leave
    /// the game as it was. Everything else is ignored.
    pub fn handle_input(&mut self, input: Input) -> (flow: Flow)
        ensures
            final(self)@ == old(self)@.steered(input),
            flow == Flow::Stop <==> input.spec_wants_out(),
            flow == Flow::Continue <==> !input.spec_wants_out(),
            old(self)@.wf() ==> final(self)@.wf(),
    {
        match input {
            Input::Quit => Flow::Stop,
            Input::Escape => Flow::Stop,
            Input::Arrow(wanted) => {
                self.turn(wanted);
                Flow::Continue
            },
            _ => Flow::Continue,
        }
    }

    /// Whether the head lies on a cell that the body also covers.
    pub fn bites_itself(&self) -> (bitten: bool)
        requires
            self@.snake.len() >= 1,
        ensures
            bitten == self@.bites_itself(),
    {
        let head = self.snake_coords[0];
        let n: usize = self.snake_coords.len();
        let mut i: usize = 1;
        while i < n
            invariant
                1 <= i <= n,
                n == self.snake_coords@.len(),
                head == self.snake_coords@[0],
                forall|j: int| 1 <= j < i ==> #[trigger] self.snake_coords@[j] != head,
            decreases n - i,
        {
            let coords = self.snake_coords[i];
            if coords.0 == head.0 && coords.1 == head.1 {
                assert(self@.snake[i as int] == self@.snake[0]);
                return true;
            }
            i += 1;
        }
        assert forall|j: int| 1 <= j < self@.snake.len() implies #[trigger] self@.snake[j]
            != self@.snake[0] by {
            assert(self.snake_coords@[j] != head);
        }
        false
    }

    /// Whether the head lies on the apple.
    pub fn eats(&self) -> (eating: bool)
        requires
            self@.snake.len() >= 1,
        ensures
            eating == self@.eats(),
    {
        let head = self.snake_coords[0];
        head.0 == self.apple.0 && head.1 == self.apple.1
    }

    /// Moves a snake that has not bitten itself, see [`Board::advanced`].
    fn advance(&mut self, respawn: (usize, usize)) -> (tick: Tick)
        requires
            old(self)@.wf(),
            old(self)@.snake.len() >= 1,
            old(self)@.on_grid(cell(respawn)),
        ensures
            final(self)@ == old(self)@.advanced(cell(respawn)).0,
            tick == old(self)@.advanced(cell(respawn)).1,
            final(self)@.wf(),
    {
        let head = self.snake_coords[0];
        let ghost before = self@;
        assert(before.on_grid(before.snake[0]));
        if head.0 == self.apple.0 && head.1 == self.apple.1 {
            self.apple = respawn;
        } else {
            self.snake_coords.pop();
        }
        assert(self@.snake =~= before.fed(cell(respawn)).snake);
        assert(self@ == before.fed(cell(respawn)));
        let to_prepend = match self.direction {
            Direction::Up => {
                if head.1 == 0 {
                    return Tick::GameOver;
                }
                (head.0, head.1 - 1)
            },
            Direction::Down => {
                if head.1 == self.cell_height - 1 {
                    return Tick::GameOver;
                }
                (head.0, head.1 + 1)
            },
            Direction::Left => {
                if head.0 == 0 {
                    return Tick::GameOver;
                }
                (head.0 - 1, head.1)
            },
            Direction::Right => {
                if head.0 == self.cell_width - 1 {
                    return Tick::GameOver;
                }
                (head.0 + 1, head.1)
            },
        };
        assert(cell(to_prepend) == before.ahead());
        let ghost fed = self@;
        self.snake_coords.insert(0, to_prepend);
        self.moved = self.direction;
        assert(self@.snake =~= seq![before.ahead()] + fed.snake);
        proof {
            if fed.snake.len() >= 1 {
                assert(self@.snake[1] == fed.snake[0]);
                assert(fed.snake[0] == before.snake[0]);
            }
        }
        Tick::Moved
    }

    /// One tick of the game with the apple's next place given: if the snake
    /// eats on this tick, the apple goes to `respawn`. See [`Board::step`].
    pub fn step(&mut self, respawn: (usize, usize)) -> (tick: Tick)
        requires
            old(self)@.wf(),
            old(self)@.snake.len() >= 1,
            old(self)@.on_grid(cell(respawn)),
        ensures
            final(self)@ == old(self)@.step(cell(respawn)).0,
            tick == old(self)@.step(cell(respawn)).1,
            final(self)@.wf(),
    {
        if self.bites_itself() {
            Tick::GameOver
        } else {
            self.advance(respawn)
        }
    }

    /// One tick of the game. It is [`Game::step`] with the apple's next
    /// place left to chance: if the snake eats on this tick, the apple goes
    /// to some cell that is not in the bottom row, and on any other tick it
    /// stays where it is.
    pub fn tick(&mut self) -> (tick: Tick)
        requires
            old(self)@.wf(),
            old(self)@.snake.len() >= 1,
        ensures
            final(self)@ == old(self)@.step(final(self)@.apple).0,
            tick == old(self)@.step(final(self)@.apple).1,
            old(self)@.respawns() ==> old(self)@.spawnable(final(self)@.apple),
            final(self)@.wf(),
    {
        if self.bites_itself() {
            Tick::GameOver
        } else {
            let respawn = if self.eats() {
                self.get_random_location()
            } else {
                self.apple
            };
            self.advance(respawn)
        }
    }
}

/// A tick ends the round exactly when the head lies on the body or stands at
/// the wall it is heading for. The grid and the heading are never touched.
pub proof fn lemma_game_over_iff(b: Board, respawn: (int, int))
    ensures
        b.step(respawn).1 == Tick::GameOver <==> b.bites_itself() || b.at_wall(),
        b.step(respawn).1 == Tick::Moved <==> !b.bites_itself() && !b.at_wall(),
        b.step(respawn).0.width == b.width,
        b.step(respawn).0.height == b.height,
        b.step(respawn).0.heading == b.heading,
        b.step(respawn).1 == Tick::Moved ==> b.step(respawn).0.moved == b.heading,
        b.step(respawn).1 == Tick::GameOver ==> b.step(respawn).0.moved == b.moved,
{
}

/// A tick keeps a well-formed board well formed, whichever way it ends.
pub proof fn lemma_step_keeps_well_formed(b: Board, respawn: (int, int))
    requires
        b.wf(),
        b.snake.len() >= 1,
        b.on_grid(respawn),
    ensures
        b.step(respawn).0.wf(),
{
    let after = b.step(respawn).0;
    let fed = b.fed(respawn);
    assert(b.on_grid(b.snake[0]));
    assert forall|i: int| 0 <= i < fed.snake.len() implies b.on_grid(#[trigger] fed.snake[i]) by {
        assert(fed.snake[i] == b.snake[i]);
    }
    assert forall|i: int| 0 <= i < after.snake.len() implies after.on_grid(
        #[trigger] after.snake[i],
    ) by {
        if !b.bites_itself() && !b.at_wall() && i > 0 {
            assert(after.snake[i] == fed.snake[i - 1]);
        }
    }
    if after.snake.len() >= 2 {
        if !b.bites_itself() && !b.at_wall() {
            assert(after.snake[1] == fed.snake[0]);
            assert(fed.snake[0] == b.snake[0]);
        } else {
            assert(after.snake[0] == b.snake[0]);
            assert(after.snake[1] == b.snake[1]);
        }
    }
}

/// The shape of a snake that has moved: its new head is the cell ahead of
/// the old one, a cell of the grid, and behind it comes the old snake in its
/// old order, whole if it ate and without its last cell if it did not.
pub proof fn lemma_moved_snake(b: Board, respawn: (int, int))
    requires
        b.wf(),
        b.snake.len() >= 1,
        b.step(respawn).1 == Tick::Moved,
    ensures
        b.step(respawn).0.snake[0] == b.ahead(),
        b.on_grid(b.ahead()),
        b.eats() ==> b.step(respawn).0.snake.skip(1) == b.snake,
        !b.eats() ==> b.step(respawn).0.snake.skip(1) == b.snake.drop_last(),
        b.step(respawn).0.snake.len() == b.snake.len() + if b.eats() { 1int } else { 0int },
{
    let after = b.step(respawn).0;
    assert(b.on_grid(b.snake[0]));
    if b.eats() {
        assert(after.snake.skip(1) =~= b.snake);
    } else {
        assert(after.snake.skip(1) =~= b.snake.drop_last());
    }
}

/// A snake in one piece stays in one piece: the new head shares an edge
/// with the old one, and the cells behind keep their neighbours.
pub proof fn lemma_step_keeps_connected(b: Board, respawn: (int, int))
    requires
        b.snake.len() >= 1,
        b.connected(),
    ensures
        b.step(respawn).0.connected(),
        b.step(respawn).1 == Tick::Moved ==> adjacent(b.step(respawn).0.snake[0], b.snake[0]),
{
    let after = b.step(respawn).0;
    let fed = b.fed(respawn);
    assert forall|i: int| 0 <= i < fed.snake.len() - 1 implies adjacent(
        #[trigger] fed.snake[i],
        fed.snake[i + 1],
    ) by {
        assert(fed.snake[i] == b.snake[i]);
        assert(fed.snake[i + 1] == b.snake[i + 1]);
    }
    if !b.bites_itself() && !b.at_wall() {
        assert(adjacent(b.ahead(), b.snake[0]));
        assert forall|i: int| 0 <= i < after.snake.len() - 1 implies adjacent(
            #[trigger] after.snake[i],
            after.snake[i + 1],
        ) by {
            if i == 0 {
                assert(after.snake[1] == fed.snake[0]);
                assert(fed.snake[0] == b.snake[0]);
            } else {
                assert(after.snake[i] == fed.snake[i - 1]);
                assert(after.snake[i + 1] == fed.snake[i]);
            }
        }
    }
}

/// The score of a round never falls while the snake moves: it goes up by
/// one on a tick that eats and stays on any other, and the apple stays where
/// it is unless it was eaten.
pub proof fn lemma_score_counts_apples(b: Board, respawn: (int, int))
    requires
        b.snake.len() >= 1,
        b.step(respawn).1 == Tick::Moved,
    ensures
        b.eats() ==> b.step(respawn).0.score() == b.score() + 1,
        !b.eats() ==> b.step(respawn).0.score() == b.score(),
        b.eats() ==> b.step(respawn).0.apple == respawn,
        !b.eats() ==> b.step(respawn).0.apple == b.apple,
{
}

/// A round that is on stays on for as long as the snake moves.
pub proof fn lemma_moved_stays_in_play(b: Board, respawn: (int, int))
    requires
        b.in_play(),
        b.on_grid(respawn),
        b.step(respawn).1 == Tick::Moved,
    ensures
        b.step(respawn).0.in_play(),
{
    lemma_step_keeps_well_formed(b, respawn);
}

/// A round begins safely wherever chance may put the head: the whole snake
/// lies on the grid, the score is zero, the head touches neither its body
/// nor a wall, and so the first tick moves.
pub proof fn lemma_start_is_safe(b: Board, x: int, y: int, apple: (int, int))
    requires
        b.wf(),
        b.startable(x, y),
        b.on_grid(apple),
    ensures
        b.started(x, y, apple).in_play(),
        b.started(x, y, apple).connected(),
        b.started(x, y, apple).score() == 0,
        !b.started(x, y, apple).bites_itself(),
        !b.started(x, y, apple).at_wall(),
        forall|respawn: (int, int)| #[trigger] b.started(x, y, apple).step(respawn).1 == Tick::Moved,
{
}

/// No input moves the snake, the apple or the grid, or changes what the
/// last move was, and none leaves the snake heading straight back.
pub proof fn lemma_steering_never_reverses(b: Board, input: Input)
    requires
        b.heading != b.moved.spec_opposite(),
    ensures
        b.steered(input).heading != b.moved.spec_opposite(),
        b.steered(input).moved == b.moved,
        b.steered(input).snake == b.snake,
        b.steered(input).apple == b.apple,
        b.steered(input).width == b.width,
        b.steered(input).height == b.height,
        b.wf() ==> b.steered(input).wf(),
{
}

/// The same of any run of inputs: whatever was asked and however often, the
/// snake, the apple and the grid are where they were, and the snake does not
/// head straight back.
pub proof fn lemma_steered_by_never_reverses(b: Board, inputs: Seq<Input>)
    requires
        b.heading != b.moved.spec_opposite(),
    ensures
        b.steered_by(inputs).heading != b.moved.spec_opposite(),
        b.steered_by(inputs).moved == b.moved,
        b.steered_by(inputs).snake == b.snake,
        b.steered_by(inputs).apple == b.apple,
        b.steered_by(inputs).width == b.width,
        b.steered_by(inputs).height == b.height,
        b.wf() ==> b.steered_by(inputs).wf(),
    decreases inputs.len(),
{
    if inputs.len() > 0 {
        lemma_steered_by_never_reverses(b, inputs.drop_last());
        lemma_steering_never_reverses(b.steered_by(inputs.drop_last()), inputs.last());
    }
}

/// No instant reversal. Take a snake of two cells or more, any run of
/// inputs, and then a tick that moves: the new head is not on the cell that
/// was right behind the old one. With it goes that the tick after does not
/// find the head on its own neck.
pub proof fn lemma_no_instant_reversal(b: Board, inputs: Seq<Input>, respawn: (int, int))
    requires
        b.wf(),
        b.snake.len() >= 2,
        b.steered_by(inputs).step(respawn).1 == Tick::Moved,
    ensures
        b.steered_by(inputs).step(respawn).0.snake[0] != b.snake[1],
        b.steered_by(inputs).step(respawn).0.snake[1] == b.snake[0],
        b.steered_by(inputs).step(respawn).0.snake[0] != b.steered_by(inputs).step(
            respawn,
        ).0.snake[1],
{
    lemma_steered_by_never_reverses(b, inputs);
    let steered = b.steered_by(inputs);
    lemma_only_the_reverse_leads_back(b.moved, steered.heading);
    let after = steered.step(respawn).0;
    let fed = steered.fed(respawn);
    assert(after.snake[0] == steered.ahead());
    assert(after.snake[1] == fed.snake[0]);
    assert(fed.snake[0] == b.snake[0]);
}

} // verus!

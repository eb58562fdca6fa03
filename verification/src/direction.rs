//! The four headings and the rule that forbids turning straight back.

use vstd::prelude::*;

verus! {

/// Heading of the snake on the grid. `Up` is towards row 0, `Left` towards
/// column 0.
#[derive(Clone, Copy, Debug, PartialEq, Eq, Structural)]
pub enum Direction {
    Up,
    Down,
    Left,
    Right,
}

impl Direction {
    /// The heading that points the other way.
    pub open spec fn spec_opposite(self) -> Direction {
        match self {
            Direction::Up => Direction::Down,
            Direction::Down => Direction::Up,
            Direction::Left => Direction::Right,
            Direction::Right => Direction::Left,
        }
    }

    /// The heading that points the other way.
    #[verifier::when_used_as_spec(spec_opposite)]
    pub fn opposite(self) -> (r: Direction)
        ensures
            r == self.spec_opposite(),
    {
        match self {
            Direction::Up => Direction::Down,
            Direction::Down => Direction::Up,
            Direction::Left => Direction::Right,
            Direction::Right => Direction::Left,
        }
    }

    /// The heading after a request to go `wanted`, for a snake that heads
    /// `self` and whose last move went `moved`: the request is obeyed unless
    /// it asks for the exact reverse of that move.
    pub open spec fn spec_turn(self, moved: Direction, wanted: Direction) -> Direction {
        if wanted == moved.spec_opposite() {
            self
        } else {
            wanted
        }
    }

    /// The heading after a request to go `wanted`, for a snake that heads
    /// `self` and whose last move went `moved`. A request for the reverse of
    /// the last move is ignored and the heading stays as it is, every other
    /// request is obeyed. What counts is the move that the snake has made,
    /// not what it was last asked for: however many requests come between
    /// two moves, none can send the head back onto the cell it came from.
    #[verifier::when_used_as_spec(spec_turn)]
    pub fn turn(self, moved: Direction, wanted: Direction) -> (r: Direction)
        ensures
            r == self.spec_turn(moved, wanted),
    {
        if wanted == moved.opposite() {
            self
        } else {
            wanted
        }
    }

    /// Column and row offsets of one step along the heading.
    pub open spec fn delta(self) -> (int, int) {
        match self {
            Direction::Up => (0int, -1int),
            Direction::Down => (0int, 1int),
            Direction::Left => (-1int, 0int),
            Direction::Right => (1int, 0int),
        }
    }
}

/// Reversing twice gives the heading back, and no heading is its own reverse.
pub proof fn lemma_opposite_is_involution(d: Direction)
    ensures
        d.spec_opposite().spec_opposite() == d,
        d.spec_opposite() != d,
{
}

/// One step along a heading and one along its reverse cancel out, and the
/// steps along any other two headings do not.
pub proof fn lemma_only_the_reverse_leads_back(d: Direction, e: Direction)
    ensures
        e == d.spec_opposite() <==> (d.delta().0 + e.delta().0 == 0 && d.delta().1 + e.delta().1
            == 0),
{
}

/// A heading that is not the reverse of the last move stays so after a
/// request, and the outcome is always either the old heading or the one
/// asked for.
pub proof fn lemma_turn_never_reverses(d: Direction, moved: Direction, wanted: Direction)
    requires
        d != moved.spec_opposite(),
    ensures
        d.spec_turn(moved, wanted) != moved.spec_opposite(),
        d.spec_turn(moved, wanted) == wanted || d.spec_turn(moved, wanted) == d,
        d.spec_turn(moved, wanted) == wanted <==> wanted != moved.spec_opposite(),
{
}

/// Asking for the heading the snake already has changes nothing, and asking
/// twice for the same heading is the same as asking once.
pub proof fn lemma_turn_is_idempotent(d: Direction, moved: Direction, wanted: Direction)
    ensures
        d.spec_turn(moved, d) == d,
        d.spec_turn(moved, wanted).spec_turn(moved, wanted) == d.spec_turn(moved, wanted),
{
}

} // verus!

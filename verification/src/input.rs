//! What the player did, reduced to what the game can tell apart.

use crate::direction::Direction;
use vstd::prelude::*;

verus! {

/// One event of the front end, as the game sees it.
#[derive(Clone, Copy, Debug, PartialEq, Eq, Structural)]
pub enum Input {
    /// The window was asked to close.
    Quit,
    /// The escape key went down.
    Escape,
    /// An arrow key went down.
    Arrow(Direction),
    /// Some other key went down.
    OtherKey,
    /// Anything else: a key released, the mouse, the window.
    Other,
}

/// Whether a round goes on after an input.
#[derive(Clone, Copy, Debug, PartialEq, Eq, Structural)]
pub enum Flow {
    Continue,
    Stop,
}

/// What a waiting screen makes of the event queue's next entry.
#[derive(Clone, Copy, Debug, PartialEq, Eq, Structural)]
pub enum KeyPress {
    /// Nothing of interest: keep waiting.
    Idle,
    /// A key went down: leave the screen.
    Pressed,
    /// The player wants out: leave the program.
    Exit,
}

impl Input {
    /// True for the two inputs that end whatever is going on.
    pub open spec fn spec_wants_out(self) -> bool {
        self == Input::Quit || self == Input::Escape
    }

    /// True for the two inputs that end whatever is going on: a request to
    /// close the window, and the escape key.
    #[verifier::when_used_as_spec(spec_wants_out)]
    pub fn wants_out(self) -> (b: bool)
        ensures
            b == self.spec_wants_out(),
    {
        match self {
            Input::Quit => true,
            Input::Escape => true,
            _ => false,
        }
    }

    /// True for every key going down, escape included.
    pub open spec fn spec_is_key_down(self) -> bool {
        self == Input::Escape || self == Input::OtherKey || self is Arrow
    }

    /// True for every key going down, escape included.
    #[verifier::when_used_as_spec(spec_is_key_down)]
    pub fn is_key_down(self) -> (b: bool)
        ensures
            b == self.spec_is_key_down(),
    {
        match self {
            Input::Escape => true,
            Input::Arrow(_) => true,
            Input::OtherKey => true,
            _ => false,
        }
    }
}

/// What a waiting screen does about the next entry of the event queue,
/// `None` standing for an empty queue.
pub open spec fn spec_key_press(next: Option<Input>) -> KeyPress {
    match next {
        None => KeyPress::Idle,
        Some(input) => if input.spec_wants_out() {
            KeyPress::Exit
        } else if input.spec_is_key_down() {
            KeyPress::Pressed
        } else {
            KeyPress::Idle
        },
    }
}

/// What a waiting screen does about the next entry of the event queue,
/// `None` standing for an empty queue: it exits on a close request or on
/// escape, reports any other key going down, and lets the rest pass.
#[verifier::when_used_as_spec(spec_key_press)]
pub fn key_press(next: Option<Input>) -> (k: KeyPress)
    ensures
        k == spec_key_press(next),
{
    match next {
        None => KeyPress::Idle,
        Some(input) => {
            if input.wants_out() {
                KeyPress::Exit
            } else if input.is_key_down() {
                KeyPress::Pressed
            } else {
                KeyPress::Idle
            }
        },
    }
}

} // verus!

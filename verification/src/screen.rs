//! The order of the screens.

use vstd::prelude::*;

verus! {

/// What the window shows.
#[derive(Clone, Copy, Debug, PartialEq, Eq, Structural)]
pub enum Screen {
    /// The turning title, until a key goes down.
    Start,
    /// A round of the game, until the snake dies or the player stops it.
    Playing,
    /// The words `Game Over`, until a key goes down.
    GameOver,
}

impl Screen {
    /// The screen that the program opens with.
    pub fn first() -> (s: Screen)
        ensures
            s == Screen::Start,
    {
        Screen::Start
    }

    /// The screen that follows this one.
    pub open spec fn spec_next(self) -> Screen {
        match self {
            Screen::Start => Screen::Playing,
            Screen::Playing => Screen::GameOver,
            Screen::GameOver => Screen::Playing,
        }
    }

    /// The screen that follows this one: a round follows the start screen
    /// and every game-over screen, and a game-over screen follows every
    /// round.
    #[verifier::when_used_as_spec(spec_next)]
    pub fn next(self) -> (s: Screen)
        ensures
            s == self.spec_next(),
    {
        match self {
            Screen::Start => Screen::Playing,
            Screen::Playing => Screen::GameOver,
            Screen::GameOver => Screen::Playing,
        }
    }
}

/// The start screen is shown once and never again, and from the first round
/// on, rounds and game-over screens take turns.
pub proof fn lemma_start_screen_is_shown_once(s: Screen)
    ensures
        s.spec_next() != Screen::Start,
        s.spec_next() != s,
        s != Screen::Start ==> s.spec_next().spec_next() == s,
{
}

} // verus!

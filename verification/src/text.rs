//! The words on the screens: what each line of text says, in which size and
//! in which colours it is drawn.

use crate::config::Color;
use vstd::prelude::*;
use vstd::string::StringExecFns;

verus! {

/// How the pixels of a text are coloured.
#[derive(Clone, Copy, Debug, PartialEq, Eq, Structural)]
pub enum Ink {
    /// Letters in one colour, with hard edges, on nothing.
    Solid(Color),
    /// Letters in the first colour on a box of the second.
    Shaded(Color, Color),
    /// Letters in one colour, with smooth edges, on nothing.
    Blended(Color),
}

/// A line of text that the game shows.
#[derive(Clone, Copy, Debug, PartialEq, Eq, Structural)]
pub enum Label {
    /// The invitation at the bottom of the waiting screens.
    PressKey,
    /// The title on the start screen, white on dark green.
    TitleWhite,
    /// The title on the start screen, in green.
    TitleGreen,
    /// The upper word of the game-over screen.
    Game,
    /// The lower word of the game-over screen.
    Over,
    /// The score in the corner of the running game.
    Score(usize),
}

/// The character of a decimal digit.
pub open spec fn digit(d: int) -> char {
    if d == 0 {
        '0'
    } else if d == 1 {
        '1'
    } else if d == 2 {
        '2'
    } else if d == 3 {
        '3'
    } else if d == 4 {
        '4'
    } else if d == 5 {
        '5'
    } else if d == 6 {
        '6'
    } else if d == 7 {
        '7'
    } else if d == 8 {
        '8'
    } else {
        '9'
    }
}

/// A number in decimal, most significant digit first and with no leading
/// zero: the digits of its tenth part, then its last digit.
pub open spec fn decimal(n: nat) -> Seq<char>
    decreases n,
{
    if n < 10 {
        seq![digit(n as int)]
    } else {
        decimal(n / 10).push(digit((n % 10) as int))
    }
}

/// The text of the score line for a score of `n`.
pub open spec fn score_line(n: nat) -> Seq<char> {
    "Score: "@ + decimal(n)
}

/// A decimal digit as a string of one character.
fn digit_str(d: usize) -> (s: &'static str)
    requires
        d < 10,
    ensures
        s@ == seq![digit(d as int)],
{
    proof {
        reveal_strlit("0");
        reveal_strlit("1");
        reveal_strlit("2");
        reveal_strlit("3");
        reveal_strlit("4");
        reveal_strlit("5");
        reveal_strlit("6");
        reveal_strlit("7");
        reveal_strlit("8");
        reveal_strlit("9");
    }
    let s = match d {
        0 => "0",
        1 => "1",
        2 => "2",
        3 => "3",
        4 => "4",
        5 => "5",
        6 => "6",
        7 => "7",
        8 => "8",
        _ => "9",
    };
    assert(s@ =~= seq![digit(d as int)]);
    s
}

/// The text of the score line: the word `Score`, a colon, a blank and the
/// score in decimal.
pub fn score_text(score: usize) -> (text: String)
    ensures
        text@ == score_line(score as nat),
{
    // The digits come out of the division last digit first.
    let mut low_first: Vec<usize> = Vec::new();
    let mut rest: usize = score;
    while rest >= 10
        invariant
            forall|i: int| 0 <= i < low_first@.len() ==> low_first@[i] < 10,
            decimal(score as nat) == decimal(rest as nat) + Seq::new(
                low_first@.len(),
                |i: int| digit(low_first@[low_first@.len() - 1 - i] as int),
            ),
        decreases rest,
    {
        let ghost before = low_first@;
        low_first.push(rest % 10);
        assert(decimal(rest as nat) == decimal((rest / 10) as nat).push(digit((rest % 10) as int)));
        assert(decimal((rest / 10) as nat).push(digit((rest % 10) as int)) + Seq::new(
            before.len(),
            |i: int| digit(before[before.len() - 1 - i] as int),
        ) =~= decimal((rest / 10) as nat) + Seq::new(
            low_first@.len(),
            |i: int| digit(low_first@[low_first@.len() - 1 - i] as int),
        ));
        rest = rest / 10;
    }
    let mut text = String::from_str("Score: ");
    text.append(digit_str(rest));
    let mut left: usize = low_first.len();
    while left > 0
        invariant
            left <= low_first@.len(),
            forall|i: int| 0 <= i < low_first@.len() ==> low_first@[i] < 10,
            text@ == "Score: "@ + decimal(rest as nat) + Seq::new(
                (low_first@.len() - left) as nat,
                |i: int| digit(low_first@[low_first@.len() - 1 - i] as int),
            ),
        decreases left,
    {
        left -= 1;
        text.append(digit_str(low_first[left]));
        assert(text@ =~= "Score: "@ + decimal(rest as nat) + Seq::new(
            (low_first@.len() - left) as nat,
            |i: int| digit(low_first@[low_first@.len() - 1 - i] as int),
        ));
    }
    assert(text@ =~= score_line(score as nat));
    text
}

impl Label {
    /// Point size of the font that the label is set in.
    pub open spec fn spec_font_size(self) -> u16 {
        match self {
            Label::PressKey => 18,
            Label::Score(_) => 18,
            Label::TitleWhite => 100,
            Label::TitleGreen => 100,
            Label::Game => 150,
            Label::Over => 150,
        }
    }

    /// Point size of the font that the label is set in: 18 for the small
    /// print, 100 for the title, 150 for the game-over words.
    #[verifier::when_used_as_spec(spec_font_size)]
    pub fn font_size(self) -> (size: u16)
        ensures
            size == self.spec_font_size(),
    {
        match self {
            Label::PressKey => 18,
            Label::Score(_) => 18,
            Label::TitleWhite => 100,
            Label::TitleGreen => 100,
            Label::Game => 150,
            Label::Over => 150,
        }
    }

    /// Colours of the label.
    pub open spec fn spec_ink(self) -> Ink {
        match self {
            Label::PressKey => Ink::Solid(Color::DarkGray),
            Label::TitleWhite => Ink::Shaded(Color::White, Color::DarkGreen),
            Label::TitleGreen => Ink::Blended(Color::Green),
            Label::Game => Ink::Blended(Color::White),
            Label::Over => Ink::Blended(Color::White),
            Label::Score(_) => Ink::Blended(Color::White),
        }
    }

    /// Colours of the label.
    #[verifier::when_used_as_spec(spec_ink)]
    pub fn ink(self) -> (ink: Ink)
        ensures
            ink == self.spec_ink(),
    {
        match self {
            Label::PressKey => Ink::Solid(Color::DarkGray),
            Label::TitleWhite => Ink::Shaded(Color::White, Color::DarkGreen),
            Label::TitleGreen => Ink::Blended(Color::Green),
            Label::Game => Ink::Blended(Color::White),
            Label::Over => Ink::Blended(Color::White),
            Label::Score(_) => Ink::Blended(Color::White),
        }
    }

    /// Degrees by which the label turns from one frame to the next. Only
    /// the two titles turn, and at different speeds.
    pub open spec fn spec_spin(self) -> u8 {
        match self {
            Label::TitleWhite => 7,
            Label::TitleGreen => 3,
            _ => 0,
        }
    }

    /// Degrees by which the label turns from one frame to the next.
    #[verifier::when_used_as_spec(spec_spin)]
    pub fn spin(self) -> (degrees: u8)
        ensures
            degrees == self.spec_spin(),
    {
        match self {
            Label::TitleWhite => 7,
            Label::TitleGreen => 3,
            _ => 0,
        }
    }

    /// The characters of the label.
    pub open spec fn spec_text(self) -> Seq<char> {
        match self {
            Label::PressKey => "Press a key to play"@,
            Label::TitleWhite => "Snake!"@,
            Label::TitleGreen => "Snake!"@,
            Label::Game => "Game"@,
            Label::Over => "Over"@,
            Label::Score(n) => score_line(n as nat),
        }
    }

    /// The characters of the label.
    pub fn text(self) -> (text: String)
        ensures
            text@ == self.spec_text(),
    {
        match self {
            Label::PressKey => String::from_str("Press a key to play"),
            Label::TitleWhite => String::from_str("Snake!"),
            Label::TitleGreen => String::from_str("Snake!"),
            Label::Game => String::from_str("Game"),
            Label::Over => String::from_str("Over"),
            Label::Score(n) => score_text(n),
        }
    }
}

} // verus!

//! The state of one cell, and the marker a player places.

use vstd::prelude::*;

verus! {

/// What a cell of the board holds. `X` and `O` are the two markers that
/// players place; `Empty` is a cell nobody has taken.
#[derive(Copy, Clone, Debug, PartialEq, Eq, Structural)]
pub enum Square {
    Empty,
    X,
    O,
}

/// The background a square is painted with.
#[derive(Copy, Clone, Debug, PartialEq, Eq, Structural)]
pub enum Paint {
    Blue,
    Red,
    Reset,
}

impl Square {
    /// True of the two markers, false of `Empty`.
    pub open spec fn is_marker(self) -> bool {
        self != Square::Empty
    }

    /// The square that a character stands for.
    pub open spec fn of_char(c: char) -> Square {
        if c == 'X' {
            Square::X
        } else if c == 'O' {
            Square::O
        } else {
            Square::Empty
        }
    }

    /// The character a square is shown as.
    pub open spec fn glyph(self) -> char {
        match self {
            Square::X => 'X',
            Square::O => 'O',
            Square::Empty => ' ',
        }
    }

    /// The other marker; `Empty` has no other side and maps to itself.
    pub open spec fn other(self) -> Square {
        match self {
            Square::X => Square::O,
            Square::O => Square::X,
            Square::Empty => Square::Empty,
        }
    }

    /// The paint of a square: blue for `X`, red for `O`, none for `Empty`.
    pub open spec fn paint(self) -> Paint {
        match self {
            Square::X => Paint::Blue,
            Square::O => Paint::Red,
            Square::Empty => Paint::Reset,
        }
    }

    /// Reads a square from a character: `'X'` and `'O'` give the markers,
    /// every other character gives `Empty`.
    pub fn from_char(c: char) -> (s: Square)
        ensures
            s == Square::of_char(c),
    {
        match c {
            'X' => Square::X,
            'O' => Square::O,
            _ => Square::Empty,
        }
    }

    /// The character the square is shown as: `'X'`, `'O'` or a blank.
    pub fn to_char(self) -> (c: char)
        ensures
            c == self.glyph(),
    {
        match self {
            Square::X => 'X',
            Square::O => 'O',
            Square::Empty => ' ',
        }
    }

    /// The opposing marker.
    pub fn opposite(self) -> (s: Square)
        ensures
            s == self.other(),
    {
        match self {
            Square::X => Square::O,
            Square::O => Square::X,
            Square::Empty => Square::Empty,
        }
    }

    /// The paint the square is drawn with.
    pub fn color(self) -> (p: Paint)
        ensures
            p == self.paint(),
    {
        match self {
            Square::X => Paint::Blue,
            Square::O => Paint::Red,
            Square::Empty => Paint::Reset,
        }
    }
}

/// Reading back the character of a square gives the square.
pub proof fn lemma_char_round_trip(s: Square)
    ensures
        Square::of_char(s.glyph()) == s,
{
}

/// Taking the opposite twice gives the square back, and the opposite of a
/// marker is a different marker.
pub proof fn lemma_opposite_involution(s: Square)
    ensures
        s.other().other() == s,
        s.is_marker() ==> s.other().is_marker() && s.other() != s,
{
}

} // verus!

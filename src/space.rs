use vstd::prelude::*;

verus! {

/// The occupant of a cell: nobody, the first player (`Cross`) or the second (`Circle`).
#[derive(Clone, Copy, Debug, PartialEq, Eq, Structural)]
pub enum Space {
    Empty,
    Cross,
    Circle,
}

impl Default for Space {
    fn default() -> (r: Space)
        ensures
            r == Space::Empty,
    {
        Space::Empty
    }
}

/// The character that shows a cell's occupant.
pub open spec fn glyph(s: Space) -> char {
    match s {
        Space::Empty => ' ',
        Space::Cross => 'X',
        Space::Circle => 'O',
    }
}

impl Space {
    /// The character that shows this occupant: a space, `X` or `O`.
    pub fn to_char(self) -> (r: char)
        ensures
            r == glyph(self),
    {
        match self {
            Space::Empty => ' ',
            Space::Cross => 'X',
            Space::Circle => 'O',
        }
    }
}

} // verus!

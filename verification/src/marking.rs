//! The two players' marks.

use vstd::prelude::*;

verus! {

/// A player's mark.
#[derive(Clone, Copy, Debug, PartialEq, Eq, Structural)]
pub enum Marking {
    Nought,
    Cross,
}

impl Marking {
    /// The mark of the other player.
    pub open spec fn other(self) -> Marking {
        match self {
            Marking::Nought => Marking::Cross,
            Marking::Cross => Marking::Nought,
        }
    }

    /// The character a mark is drawn with.
    pub open spec fn glyph(self) -> char {
        match self {
            Marking::Nought => 'O',
            Marking::Cross => 'X',
        }
    }

    /// The mark of the other player.
    pub fn other_mark(&self) -> (m: Marking)
        ensures
            m == self.other(),
    {
        match self {
            Marking::Nought => Marking::Cross,
            Marking::Cross => Marking::Nought,
        }
    }

    /// The character this mark is drawn with: `O` for a nought, `X` for a
    /// cross.
    pub fn symbol(&self) -> (c: char)
        ensures
            c == self.glyph(),
    {
        match self {
            Marking::Nought => 'O',
            Marking::Cross => 'X',
        }
    }

    /// The mark as text: the one character it is drawn with.
    pub fn as_str(&self) -> (s: &'static str)
        ensures
            s@ == seq![self.glyph()],
    {
        proof {
            reveal_strlit("O");
            reveal_strlit("X");
        }
        match self {
            Marking::Nought => "O",
            Marking::Cross => "X",
        }
    }
}

} // verus!

//! Cell states, neighbourhood tallies and the transition rule.

use vstd::prelude::*;

verus! {

/// Whether a cell holds a living population, together with the character
/// that stands for the cell when the grid is written out as text.
///
/// The rule of the game looks at the tag only; the glyph is carried along.
#[derive(PartialEq, Eq, Clone, Copy, Debug, Structural)]
pub enum CellState {
    /// `Alive` with a `char` to be rendered
    Alive(char),
    /// `Dead` with a `char` to be rendered
    Dead(char),
}

/// How many of the neighbours that lie inside the grid are dead, and how
/// many are alive.
#[derive(PartialEq, Eq, Clone, Copy, Debug, Structural)]
pub struct NeighbourState {
    /// Neighbours inside the grid that are dead
    pub dead: i32,
    /// Neighbours inside the grid that are alive
    pub alive: i32,
}

/// `String::push` of std: the text afterwards is the text before with `ch`
/// at its end.
pub assume_specification[ String::push ](s: &mut String, ch: char)
    ensures
        final(s)@ == old(s)@.push(ch),
;

impl CellState {
    /// The tag of the state.
    pub open spec fn is_alive(self) -> bool {
        self is Alive
    }

    /// The display character of the state.
    pub open spec fn glyph(self) -> char {
        match self {
            CellState::Alive(c) => c,
            CellState::Dead(c) => c,
        }
    }

    /// The state a coin flip stands for: heads is alive.
    pub open spec fn of_flip(heads: bool, alive_glyph: char, dead_glyph: char) -> CellState {
        if heads {
            CellState::Alive(alive_glyph)
        } else {
            CellState::Dead(dead_glyph)
        }
    }

    /// The state of a cell in the next generation, given how many of its
    /// neighbours are alive now.
    ///
    /// A living cell survives with two or three living neighbours and dies
    /// otherwise; a dead cell comes alive with exactly three. A cell that the
    /// rule rewrites takes the glyph given for its new tag; a dead cell that
    /// stays dead keeps the glyph it has.
    pub open spec fn next(self, alive: int, alive_glyph: char, dead_glyph: char) -> CellState {
        match self {
            CellState::Alive(_) => if 2 <= alive <= 3 {
                CellState::Alive(alive_glyph)
            } else if 0 <= alive <= 8 {
                CellState::Dead(dead_glyph)
            } else {
                self
            },
            CellState::Dead(_) => if alive == 3 {
                CellState::Alive(alive_glyph)
            } else {
                self
            },
        }
    }

    /// Tag test, ignoring the glyph.
    pub fn alive(&self) -> (b: bool)
        ensures
            b == self.is_alive(),
    {
        match self {
            CellState::Alive(_) => true,
            CellState::Dead(_) => false,
        }
    }

    /// The display character of the state.
    pub fn symbol(&self) -> (c: char)
        ensures
            c == self.glyph(),
    {
        match self {
            CellState::Alive(c) => *c,
            CellState::Dead(c) => *c,
        }
    }

    /// Builds the state for one coin flip.
    pub fn from_flip(heads: bool, alive_glyph: char, dead_glyph: char) -> (cell: CellState)
        ensures
            cell == CellState::of_flip(heads, alive_glyph, dead_glyph),
    {
        if heads {
            CellState::Alive(alive_glyph)
        } else {
            CellState::Dead(dead_glyph)
        }
    }

    /// The textual form of a cell: its glyph and nothing else.
    pub fn to_string(&self) -> (s: String)
        ensures
            s@ == seq![self.glyph()],
    {
        let mut s = String::new();
        s.push(self.symbol());
        s
    }
}

} // verus!

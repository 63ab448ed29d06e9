//! The contents of one square of the board.

use vstd::prelude::*;

verus! {

/// One square: empty, or holding the token of one of the two teams.
#[derive(Clone, Copy, Debug, PartialEq, Eq, Structural)]
pub enum Cell {
    Empty,
    Cookie,
    Milk,
}

/// The glyph that stands for a square in the rendered board.
pub open spec fn glyph_of(cell: Cell) -> Seq<char> {
    match cell {
        Cell::Empty => "⬛"@,
        Cell::Cookie => "🍪"@,
        Cell::Milk => "🥛"@,
    }
}

/// The token that a team name stands for, if it names a team.
pub open spec fn team_of(name: Seq<char>) -> Option<Cell> {
    if name == "cookie"@ {
        Some(Cell::Cookie)
    } else if name == "milk"@ {
        Some(Cell::Milk)
    } else {
        None
    }
}

/// Each glyph is one character, and no two squares that differ share a
/// glyph.
pub proof fn lemma_glyphs_differ(a: Cell, b: Cell)
    ensures
        glyph_of(a).len() == 1,
        glyph_of(a) == glyph_of(b) <==> a == b,
{
    reveal_strlit("⬛");
    reveal_strlit("🍪");
    reveal_strlit("🥛");
    if a != b {
        assert(glyph_of(a)[0] != glyph_of(b)[0]);
    }
}

/// `cookie` names the cookies' team, `milk` names milk's.
pub proof fn lemma_team_names()
    ensures
        team_of("cookie"@) == Some(Cell::Cookie),
        team_of("milk"@) == Some(Cell::Milk),
{
    reveal_strlit("cookie");
    reveal_strlit("milk");
    assert("cookie"@.len() != "milk"@.len());
}

impl Cell {
    /// The glyph of this square.
    pub fn glyph(&self) -> (s: &'static str)
        ensures
            s@ == glyph_of(*self),
    {
        match self {
            Cell::Empty => "⬛",
            Cell::Cookie => "🍪",
            Cell::Milk => "🥛",
        }
    }

    /// Reads a team name: `cookie` and `milk` name the two teams, nothing
    /// else does.
    pub fn from_team(name: &str) -> (team: Option<Cell>)
        ensures
            team == team_of(name@),
    {
        let owned = name.to_owned();
        if owned == "cookie".to_owned() {
            Some(Cell::Cookie)
        } else if owned == "milk".to_owned() {
            Some(Cell::Milk)
        } else {
            None
        }
    }
}

impl Default for Cell {
    fn default() -> (cell: Self)
        ensures
            cell == Cell::Empty,
    {
        Cell::Empty
    }
}

} // verus!

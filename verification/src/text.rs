//! The board as text.

use crate::cell::{glyph_of, Cell};
use crate::grid::Grid;
use crate::status::{status_of, GameStatus};
use vstd::prelude::*;

verus! {

/// One row as text: its four glyphs between two wall glyphs, and a newline.
pub open spec fn render_row(row: Seq<Cell>) -> Seq<char> {
    "⬜"@ + glyph_of(row[0]) + glyph_of(row[1]) + glyph_of(row[2]) + glyph_of(row[3]) + "⬜"@
        + "\n"@
}

/// The first `n` rows as text.
pub open spec fn render_rows(g: Grid, n: int) -> Seq<char>
    decreases n,
{
    if n <= 0 {
        Seq::empty()
    } else {
        render_rows(g, n - 1) + render_row(g[n - 1])
    }
}

/// The line that tells how the game ended; nothing while it is going on.
pub open spec fn status_line(status: GameStatus) -> Seq<char> {
    match status {
        GameStatus::Winner(token) => glyph_of(token) + " wins!\n"@,
        GameStatus::Draw => "No winner.\n"@,
        GameStatus::Ongoing => Seq::empty(),
    }
}

/// The board as text: the four rows, a line of wall glyphs, and the status
/// line.
pub open spec fn render_grid(g: Grid) -> Seq<char> {
    render_rows(g, 4) + "⬜⬜⬜⬜⬜⬜\n"@ + status_line(status_of(g))
}

} // verus!

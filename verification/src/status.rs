//! Who has won: the ten lines of the grid, and where the game stands.

use crate::cell::Cell;
use crate::grid::{count_filled, empty_grid, is_full, lemma_full_means_sixteen, Grid};
use vstd::prelude::*;

verus! {

/// Where a game stands.
#[derive(Clone, Copy, Debug, PartialEq, Eq, Structural)]
pub enum GameStatus {
    Winner(Cell),
    Draw,
    Ongoing,
}

/// The number of lines that win the game: four rows, four columns and the
/// two diagonals. They are numbered in the order in which a winner is looked
/// for: rows 0 to 3 are lines 0 to 3, columns 0 to 3 are lines 4 to 7, line 8
/// runs from the top left to the bottom right, line 9 from the bottom left to
/// the top right.
pub const LINES: usize = 10;

/// The row of the `k`-th square of a line, counted from the line's start.
pub open spec fn line_row(line: int, k: int) -> int {
    if line < 4 {
        line
    } else if line < 9 {
        k
    } else {
        3 - k
    }
}

/// The column of the `k`-th square of a line.
pub open spec fn line_col(line: int, k: int) -> int {
    if 4 <= line < 8 {
        line - 4
    } else {
        k
    }
}

/// The `k`-th square of a line.
pub open spec fn line_cell(g: Grid, line: int, k: int) -> Cell {
    g[line_row(line, k)][line_col(line, k)]
}

/// All four squares of the line hold the same token.
pub open spec fn line_won(g: Grid, line: int) -> bool {
    let first = line_cell(g, line, 0);
    &&& first != Cell::Empty
    &&& line_cell(g, line, 1) == first
    &&& line_cell(g, line, 2) == first
    &&& line_cell(g, line, 3) == first
}

/// Some line is won.
pub open spec fn any_line_won(g: Grid) -> bool {
    exists|line: int| 0 <= line < LINES && #[trigger] line_won(g, line)
}

/// Some line is won with `token`.
pub open spec fn has_line(g: Grid, token: Cell) -> bool {
    exists|line: int|
        0 <= line < LINES && #[trigger] line_won(g, line) && line_cell(g, line, 0) == token
}

/// The first won line that is numbered `line` or higher, or `LINES` if there
/// is none.
pub open spec fn first_won_from(g: Grid, line: int) -> int
    decreases LINES - line,
{
    if line >= LINES {
        LINES as int
    } else if line_won(g, line) {
        line
    } else {
        first_won_from(g, line + 1)
    }
}

/// Where the game stands: won by the token of the first won line, drawn when
/// no line is won and sixteen tokens are on the grid, ongoing otherwise.
pub open spec fn status_of(g: Grid) -> GameStatus {
    let line = first_won_from(g, 0);
    if line < LINES {
        GameStatus::Winner(line_cell(g, line, 0))
    } else if count_filled(g) == 16 {
        GameStatus::Draw
    } else {
        GameStatus::Ongoing
    }
}

/// `first_won_from` finds a won line, and no line between `from` and the
/// one it finds is won.
pub proof fn lemma_first_won_from(g: Grid, from: int)
    requires
        0 <= from <= LINES,
    ensures
        from <= first_won_from(g, from) <= LINES,
        first_won_from(g, from) < LINES ==> line_won(g, first_won_from(g, from)),
        forall|line: int| from <= line < first_won_from(g, from) ==> !#[trigger] line_won(g, line),
    decreases LINES - from,
{
    if from < LINES && !line_won(g, from) {
        lemma_first_won_from(g, from + 1);
    }
}

/// The game counts as won exactly when some line is won, and then the
/// winner holds a won line. Without a won line it is a draw exactly when no
/// square is empty, and ongoing exactly when one is.
pub proof fn lemma_status_tells_lines(g: Grid)
    ensures
        status_of(g) is Winner <==> any_line_won(g),
        status_of(g) is Winner ==> has_line(g, status_of(g)->Winner_0),
        status_of(g) == GameStatus::Draw <==> !any_line_won(g) && is_full(g),
        status_of(g) == GameStatus::Ongoing <==> !any_line_won(g) && !is_full(g),
{
    lemma_first_won_from(g, 0);
    lemma_full_means_sixteen(g);
}

/// Unless both teams hold a won line at once, the game counts as won by a
/// team exactly when that team holds a won line.
pub proof fn lemma_winner_holds_line(g: Grid, token: Cell)
    requires
        !(has_line(g, Cell::Cookie) && has_line(g, Cell::Milk)),
    ensures
        status_of(g) == GameStatus::Winner(token) <==> has_line(g, token),
{
    lemma_status_tells_lines(g);
}

/// On the empty grid the game is going on.
pub proof fn lemma_empty_grid_is_ongoing()
    ensures
        status_of(empty_grid()) == GameStatus::Ongoing,
{
    lemma_status_tells_lines(empty_grid());
    assert(empty_grid()[0][0] == Cell::Empty);
}

} // verus!

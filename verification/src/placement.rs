//! Dropping a token into a column.

use crate::cell::Cell;
use crate::grid::{count_filled, settled, valid_grid, Grid};
use crate::status::{
    has_line, lemma_status_tells_lines, line_cell, line_col, line_row, line_won,
    status_of, GameStatus, LINES,
};
use vstd::prelude::*;

verus! {

/// The lowest empty square of the column among rows 0 to `row`, or -1 if
/// they all hold a token.
pub open spec fn lowest_empty_from(g: Grid, col: int, row: int) -> int
    decreases row + 1,
{
    if row < 0 {
        -1
    } else if g[row][col] == Cell::Empty {
        row
    } else {
        lowest_empty_from(g, col, row - 1)
    }
}

/// The row in which a token dropped into the column comes to rest, or -1 if
/// the column has no empty square.
pub open spec fn drop_row(g: Grid, col: int) -> int {
    lowest_empty_from(g, col, 3)
}

/// A token may be dropped into the column: its top square is empty and the
/// game is going on.
pub open spec fn can_place(g: Grid, col: int) -> bool {
    g[0][col] == Cell::Empty && status_of(g) == GameStatus::Ongoing
}

/// The grid after `team`'s token was dropped into the column.
pub open spec fn placed(g: Grid, col: int, team: Cell) -> Grid {
    let row = drop_row(g, col);
    g.update(row, g[row].update(col, team))
}

/// A token dropped into a column whose top square is empty comes to rest on
/// the lowest empty square of that column: that square takes the token, every
/// other square stays as it was, the number of tokens grows by one, and the
/// tokens still lie without gaps.
pub proof fn lemma_place_fills_lowest_empty(g: Grid, col: int, team: Cell)
    requires
        valid_grid(g),
        0 <= col < 4,
        team != Cell::Empty,
        g[0][col] == Cell::Empty,
    ensures
        ({
            let row = drop_row(g, col);
            let after = placed(g, col, team);
            &&& 0 <= row < 4
            &&& g[row][col] == Cell::Empty
            &&& forall|below: int| row < below < 4 ==> #[trigger] g[below][col] != Cell::Empty
            &&& after[row][col] == team
            &&& forall|r: int, c: int|
                0 <= r < 4 && 0 <= c < 4 && !(r == row && c == col) ==> #[trigger] after[r][c]
                    == g[r][c]
            &&& count_filled(after) == count_filled(g) + 1
            &&& valid_grid(after)
        }),
{
    reveal_with_fuel(lowest_empty_from, 5);
    let row = drop_row(g, col);
    let after = placed(g, col, team);
    assert(settled(after)) by {
        assert forall|upper: int, lower: int, c: int|
            0 <= upper < lower < 4 && 0 <= c < 4 && #[trigger] after[upper][c]
                != Cell::Empty implies #[trigger] after[lower][c] != Cell::Empty by {
            if !(c == col && upper == row) {
                assert(g[upper][c] != Cell::Empty);
            }
        }
    }
}

/// While the game is going on no line is won, and a token that is placed
/// then can complete lines for its own team only: the game goes on, is
/// drawn, or is won by the team that placed the token. So the two teams
/// never hold a won line at once on a board that was reached by placing
/// tokens.
pub proof fn lemma_only_the_mover_wins(g: Grid, col: int, team: Cell)
    requires
        valid_grid(g),
        0 <= col < 4,
        team != Cell::Empty,
        can_place(g, col),
    ensures
        ({
            let after = placed(g, col, team);
            &&& forall|token: Cell| has_line(after, token) ==> token == team
            &&& !(has_line(after, Cell::Cookie) && has_line(after, Cell::Milk))
            &&& status_of(after) is Winner ==> status_of(after) == GameStatus::Winner(team)
        }),
{
    let after = placed(g, col, team);
    let row = drop_row(g, col);
    lemma_place_fills_lowest_empty(g, col, team);
    lemma_status_tells_lines(g);
    lemma_status_tells_lines(after);
    assert forall|line: int|
        0 <= line < LINES && #[trigger] line_won(after, line) implies line_cell(after, line, 0)
        == team by {
        assert(!line_won(g, line));
        assert forall|k: int| 0 <= k < 4 implies line_cell(after, line, k) == team || line_cell(
            after,
            line,
            k,
        ) == line_cell(g, line, k) by {
            let r = line_row(line, k);
            let c = line_col(line, k);
            if !(r == row && c == col) {
                assert(after[r][c] == g[r][c]);
            }
        }
    }
}

} // verus!

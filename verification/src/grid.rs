//! The mathematical model of the board: a grid of four rows of four squares,
//! row 0 at the top and column 0 at the left.

use crate::cell::Cell;
use vstd::prelude::*;

verus! {

/// The squares of a board, indexed `[row][column]`.
pub type Grid = Seq<Seq<Cell>>;

/// Four rows of four squares.
pub open spec fn is_grid(g: Grid) -> bool {
    &&& g.len() == 4
    &&& g[0].len() == 4
    &&& g[1].len() == 4
    &&& g[2].len() == 4
    &&& g[3].len() == 4
}

/// No token hangs above an empty square: each column is filled from the
/// bottom row upwards without gaps.
pub open spec fn settled(g: Grid) -> bool {
    forall|upper: int, lower: int, col: int|
        0 <= upper < lower < 4 && 0 <= col < 4 && #[trigger] g[upper][col] != Cell::Empty
            ==> #[trigger] g[lower][col] != Cell::Empty
}

/// The grids that a board can hold.
pub open spec fn valid_grid(g: Grid) -> bool {
    is_grid(g) && settled(g)
}

/// 1 for a square that holds a token, 0 for an empty one.
pub open spec fn occupied(cell: Cell) -> nat {
    if cell == Cell::Empty {
        0
    } else {
        1
    }
}

/// The number of tokens in one row.
pub open spec fn row_filled(row: Seq<Cell>) -> nat {
    occupied(row[0]) + occupied(row[1]) + occupied(row[2]) + occupied(row[3])
}

/// The number of tokens on the grid.
pub open spec fn count_filled(g: Grid) -> nat {
    row_filled(g[0]) + row_filled(g[1]) + row_filled(g[2]) + row_filled(g[3])
}

/// Every square holds a token.
pub open spec fn is_full(g: Grid) -> bool {
    forall|row: int, col: int|
        0 <= row < 4 && 0 <= col < 4 ==> #[trigger] g[row][col] != Cell::Empty
}

/// Every square of the column holds a token.
pub open spec fn column_full(g: Grid, col: int) -> bool {
    forall|row: int| 0 <= row < 4 ==> #[trigger] g[row][col] != Cell::Empty
}

/// The grid without any token.
pub open spec fn empty_grid() -> Grid {
    Seq::new(4, |row: int| Seq::new(4, |col: int| Cell::Empty))
}

/// The grid that sixteen booleans give, taken row by row from the top left:
/// a cookie for `true`, milk for `false`.
pub open spec fn random_grid(draws: Seq<bool>) -> Grid {
    Seq::new(
        4,
        |row: int|
            Seq::new(
                4,
                |col: int|
                    if draws[4 * row + col] {
                        Cell::Cookie
                    } else {
                        Cell::Milk
                    },
            ),
    )
}

/// The grid holds sixteen tokens exactly when no square is empty, and never
/// more.
pub proof fn lemma_full_means_sixteen(g: Grid)
    ensures
        count_filled(g) <= 16,
        count_filled(g) == 16 <==> is_full(g),
{
    if count_filled(g) == 16 {
        assert forall|row: int, col: int|
            0 <= row < 4 && 0 <= col < 4 implies #[trigger] g[row][col] != Cell::Empty by {
            assert(occupied(g[row][col]) == 1);
        }
    }
    if is_full(g) {
        assert(forall|row: int, col: int|
            0 <= row < 4 && 0 <= col < 4 ==> occupied(#[trigger] g[row][col]) == 1);
        assert(row_filled(g[0]) == 4);
        assert(row_filled(g[1]) == 4);
        assert(row_filled(g[2]) == 4);
        assert(row_filled(g[3]) == 4);
    }
}

/// Where tokens lie without gaps, a column is full exactly when its top
/// square holds a token.
pub proof fn lemma_top_square_decides(g: Grid, col: int)
    requires
        settled(g),
        0 <= col < 4,
    ensures
        column_full(g, col) <==> g[0][col] != Cell::Empty,
{
}

/// The empty grid is a valid grid, all of its squares are empty, and it
/// holds no token.
pub proof fn lemma_empty_grid()
    ensures
        valid_grid(empty_grid()),
        forall|row: int, col: int|
            0 <= row < 4 && 0 <= col < 4 ==> #[trigger] empty_grid()[row][col] == Cell::Empty,
        count_filled(empty_grid()) == 0,
{
}

/// A grid made of sixteen booleans is a valid grid without an empty square.
pub proof fn lemma_random_grid_is_full(draws: Seq<bool>)
    ensures
        valid_grid(random_grid(draws)),
        is_full(random_grid(draws)),
        count_filled(random_grid(draws)) == 16,
{
    lemma_full_means_sixteen(random_grid(draws));
}

} // verus!

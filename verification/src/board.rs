//! The board: sixteen squares and the count of the tokens on them.

use crate::cell::{glyph_of, Cell};
use crate::grid::{
    column_full, count_filled, empty_grid, is_full, lemma_random_grid_is_full, random_grid,
    settled, valid_grid, Grid,
};
use crate::placement::{
    can_place, drop_row, lemma_place_fills_lowest_empty, lowest_empty_from, placed,
};
use crate::random::{next_draws, RandomSource};
use crate::status::{first_won_from, line_cell, status_of, GameStatus, LINES};
use crate::text::{render_grid, render_row, render_rows};
use vstd::prelude::*;
use vstd::seq_lib::lemma_concat_associative;
use vstd::string::StringExecFns;

verus! {

/// Why a token was not placed.
#[derive(Debug, PartialEq, Eq)]
pub enum PlaceError {
    /// The token is not that of a team.
    InvalidTeam,
    /// The board has no such column.
    InvalidColumn,
    /// The column is full or the game is over; the board, as text, comes
    /// along.
    Unavailable(String),
}

/// What a placement answers on a board that holds the grid `g`: an error
/// for a token that is no team's, else one for a column that the board does
/// not have, else the unchanged board as text where the column is full or
/// the game is over, else the board as text with the token placed.
pub open spec fn place_answers(
    g: Grid,
    team: Cell,
    col: int,
    outcome: Result<String, PlaceError>,
) -> bool {
    if team == Cell::Empty {
        outcome == Err::<String, PlaceError>(PlaceError::InvalidTeam)
    } else if !(0 <= col < 4) {
        outcome == Err::<String, PlaceError>(PlaceError::InvalidColumn)
    } else if !can_place(g, col) {
        outcome matches Err(PlaceError::Unavailable(text)) && text@ == render_grid(g)
    } else {
        outcome matches Ok(text) && text@ == render_grid(placed(g, col, team))
    }
}

/// Appends one row as text.
fn append_row(text: &mut String, row: &[Cell; 4])
    ensures
        final(text)@ == old(text)@ + render_row(row@),
{
    let ghost before = text@;
    let ghost wall = "⬜"@;
    let ghost one = wall + glyph_of(row[0]);
    let ghost two = one + glyph_of(row[1]);
    let ghost three = two + glyph_of(row[2]);
    let ghost four = three + glyph_of(row[3]);
    let ghost five = four + wall;
    text.append("⬜");
    text.append(row[0].glyph());
    text.append(row[1].glyph());
    text.append(row[2].glyph());
    text.append(row[3].glyph());
    text.append("⬜");
    text.append("\n");
    proof {
        lemma_concat_associative(before, wall, glyph_of(row[0]));
        lemma_concat_associative(before, one, glyph_of(row[1]));
        lemma_concat_associative(before, two, glyph_of(row[2]));
        lemma_concat_associative(before, three, glyph_of(row[3]));
        lemma_concat_associative(before, four, wall);
        lemma_concat_associative(before, five, "\n"@);
    }
}

/// A board of four rows of four squares, row 0 at the top and column 0 at
/// the left.
#[derive(Clone, Copy, Debug, PartialEq, Eq)]
pub struct Board {
    cells: [[Cell; 4]; 4],
    filled: u32,
}

impl View for Board {
    type V = Grid;

    closed spec fn view(&self) -> Grid {
        grid_of(self.cells)
    }
}

/// The grid that the squares of a board make up.
spec fn grid_of(cells: [[Cell; 4]; 4]) -> Grid {
    Seq::new(4, |row: int| cells[row]@)
}

impl Board {
    /// Tokens lie on one another without gaps, and the counter holds their
    /// number.
    #[verifier::type_invariant]
    pub closed spec fn well_formed(&self) -> bool {
        &&& settled(self@)
        &&& self.filled == count_filled(self@)
    }

    /// What a well-formed board is, in terms of its grid.
    pub proof fn lemma_well_formed(&self)
        requires
            self.well_formed(),
        ensures
            valid_grid(self@),
    {
    }

    /// The board without any token.
    pub fn new() -> (board: Self)
        ensures
            board@ == empty_grid(),
    {
        let row = [Cell::Empty, Cell::Empty, Cell::Empty, Cell::Empty];
        let cells = [row, row, row, row];
        assert(grid_of(cells) =~~= empty_grid());
        Board { cells, filled: 0 }
    }

    /// The number of tokens on the board.
    pub fn filled(&self) -> (n: u32)
        ensures
            n == count_filled(self@),
            n <= 16,
    {
        proof {
            use_type_invariant(self);
        }
        self.filled
    }

    /// The squares of the board, row by row.
    pub fn cells(&self) -> (cells: [[Cell; 4]; 4])
        ensures
            forall|row: int, col: int|
                0 <= row < 4 && 0 <= col < 4 ==> #[trigger] cells[row][col] == self@[row][col],
    {
        self.cells
    }

    /// The `k`-th square of a line.
    fn line_square(&self, line: usize, k: usize) -> (cell: Cell)
        requires
            line < LINES,
            k < 4,
        ensures
            cell == line_cell(self@, line as int, k as int),
    {
        if line < 4 {
            self.cells[line][k]
        } else if line < 8 {
            self.cells[k][line - 4]
        } else if line == 8 {
            self.cells[k][k]
        } else {
            self.cells[3 - k][k]
        }
    }

    /// Where the game stands. The lines are looked at in the order of their
    /// numbers, and the first won line names the winner.
    pub fn game_winner(&self) -> (status: GameStatus)
        ensures
            status == status_of(self@),
    {
        let mut line: usize = 0;
        while line < LINES
            invariant
                line <= LINES,
                first_won_from(self@, 0) == first_won_from(self@, line as int),
            decreases LINES - line,
        {
            let first = self.line_square(line, 0);
            let uniform = self.line_square(line, 1) == first && self.line_square(line, 2) == first
                && self.line_square(line, 3) == first;
            if first != Cell::Empty && uniform {
                return GameStatus::Winner(first);
            }
            line += 1;
        }
        proof {
            use_type_invariant(self);
        }
        if self.filled == 16 {
            GameStatus::Draw
        } else {
            GameStatus::Ongoing
        }
    }

    /// The board as text: each row between two wall glyphs, a line of wall
    /// glyphs below them, and a last line that names the winner or tells of
    /// the draw once the game is over.
    pub fn render(&self) -> (text: String)
        ensures
            text@ == render_grid(self@),
    {
        let mut text = String::new();
        let mut row: usize = 0;
        while row < 4
            invariant
                row <= 4,
                text@ == render_rows(self@, row as int),
            decreases 4 - row,
        {
            append_row(&mut text, &self.cells[row]);
            row += 1;
        }
        text.append("⬜⬜⬜⬜⬜⬜\n");
        let ghost body = text@;
        match self.game_winner() {
            GameStatus::Winner(token) => {
                text.append(token.glyph());
                text.append(" wins!\n");
                proof {
                    lemma_concat_associative(body, glyph_of(token), " wins!\n"@);
                }
            },
            GameStatus::Draw => {
                text.append("No winner.\n");
            },
            GameStatus::Ongoing => {
                assert(text@ =~= body + Seq::<char>::empty());
            },
        }
        text
    }

    /// Whether the column has no empty square left; `None` for a column
    /// that the board does not have. Tokens lie without gaps, so the top
    /// square decides.
    pub fn is_col_ful(&self, col: usize) -> (full: Option<bool>)
        ensures
            full == (if col < 4 {
                Some(self@[0][col as int] != Cell::Empty)
            } else {
                None
            }),
            col < 4 ==> full == Some(column_full(self@, col as int)),
    {
        if col >= 4 {
            return None;
        }
        proof {
            use_type_invariant(self);
        }
        Some(self.cells[0][col] != Cell::Empty)
    }

    /// Drops `team`'s token into column `col`, counted from 0, and answers
    /// with the board as text. The token comes to rest on the lowest empty
    /// square of the column. Nothing is placed, and the board stays as it
    /// is, when `team` is no team, when the board has no such column, when
    /// the column is full or when the game is over.
    pub fn place(&mut self, team: Cell, col: usize) -> (outcome: Result<String, PlaceError>)
        ensures
            place_answers(old(self)@, team, col as int, outcome),
            outcome is Err ==> *final(self) == *old(self),
            outcome is Ok ==> final(self)@ == placed(old(self)@, col as int, team),
            outcome is Ok ==> count_filled(final(self)@) == count_filled(old(self)@) + 1,
    {
        if team == Cell::Empty {
            return Err(PlaceError::InvalidTeam);
        }
        if col >= 4 {
            return Err(PlaceError::InvalidColumn);
        }
        proof {
            use_type_invariant(&*self);
        }
        if self.cells[0][col] != Cell::Empty || self.is_game_over() {
            return Err(PlaceError::Unavailable(self.render()));
        }
        let mut row: usize = 3;
        while self.cells[row][col] != Cell::Empty
            invariant
                row < 4,
                col < 4,
                self@[0][col as int] == Cell::Empty,
                drop_row(self@, col as int) == lowest_empty_from(self@, col as int, row as int),
            decreases row,
        {
            row -= 1;
        }
        let mut cells = self.cells;
        cells[row][col] = team;
        proof {
            assert(grid_of(cells) =~~= placed(self@, col as int, team));
            lemma_place_fills_lowest_empty(self@, col as int, team);
        }
        *self = Board { cells, filled: self.filled + 1 };
        Ok(self.render())
    }

    /// The board with a token on every square that sixteen booleans give:
    /// the squares take them row by row from the top left, a cookie for
    /// `true` and milk for `false`.
    pub fn from_draws(draws: &[bool; 16]) -> (board: Self)
        ensures
            board@ == random_grid(draws@),
            is_full(board@),
            count_filled(board@) == 16,
    {
        let row = [Cell::Empty, Cell::Empty, Cell::Empty, Cell::Empty];
        let mut cells = [row, row, row, row];
        let ghost grid = random_grid(draws@);
        let mut i: usize = 0;
        while i < 4
            invariant
                i <= 4,
                grid == random_grid(draws@),
                forall|r: int, c: int|
                    0 <= r < i && 0 <= c < 4 ==> #[trigger] cells[r]@[c] == grid[r][c],
            decreases 4 - i,
        {
            let mut j: usize = 0;
            while j < 4
                invariant
                    i < 4,
                    j <= 4,
                    grid == random_grid(draws@),
                    forall|r: int, c: int|
                        0 <= r < i && 0 <= c < 4 ==> #[trigger] cells[r]@[c] == grid[r][c],
                    forall|c: int|
                        0 <= c < j ==> #[trigger] cells[i as int]@[c] == grid[i as int][c],
                decreases 4 - j,
            {
                cells[i][j] = if draws[4 * i + j] {
                    Cell::Cookie
                } else {
                    Cell::Milk
                };
                j += 1;
            }
            i += 1;
        }
        proof {
            assert(grid_of(cells) =~~= grid);
            lemma_random_grid_is_full(draws@);
        }
        Board { cells, filled: 16 }
    }

    /// A random board: sixteen booleans are drawn from `rand`, one after
    /// the other, and the squares take them row by row from the top left.
    pub fn generate_random(rand: &mut RandomSource) -> (board: Self)
        ensures
            board@ == random_grid(next_draws(old(rand)@, 16)),
            is_full(board@),
            count_filled(board@) == 16,
            forall|k: nat| #[trigger] final(rand)@[k] == old(rand)@[k + 16],
    {
        let ghost start = rand@;
        let mut draws = [false; 16];
        let mut n: usize = 0;
        while n < 16
            invariant
                n <= 16,
                forall|k: nat| #[trigger] rand@[k] == start[(k + n) as nat],
                forall|k: int| 0 <= k < n ==> #[trigger] draws@[k] == start[k as nat],
            decreases 16 - n,
        {
            draws[n] = rand.next_bool();
            n += 1;
        }
        assert(draws@ =~= next_draws(start, 16));
        Board::from_draws(&draws)
    }

    /// Whether the game has ended, with a winner or in a draw.
    pub fn is_game_over(&self) -> (over: bool)
        ensures
            over == (status_of(self@) != GameStatus::Ongoing),
    {
        match self.game_winner() {
            GameStatus::Draw | GameStatus::Winner(_) => true,
            GameStatus::Ongoing => false,
        }
    }
}

impl Default for Board {
    fn default() -> (board: Self)
        ensures
            board@ == empty_grid(),
    {
        Board::new()
    }
}

} // verus!

//! The game that concurrent callers share: one board behind a lock for many
//! readers or one writer, and one random source behind a lock of its own.

use crate::board::{place_answers, Board, PlaceError};
use crate::cell::{team_of, Cell};
use crate::grid::{empty_grid, random_grid, valid_grid, Grid};
use crate::random::{seeded_draws, RandomSource};
use crate::text::render_grid;
use crate::sync::{
    board_lock, first_board, first_draws, guarded_board, guarded_source, lock_source, read_board, source_lock,
    upgradable_read, upgrade_and_write, write_board,
};
use parking_lot::{Mutex, RwLock};
use std::sync::Arc;
use vstd::prelude::*;

verus! {

/// The seed from which the random source starts, and starts anew after each
/// reset.
pub const SEED: u64 = 2024;

/// The shared game. A clone shares the board and the random source with
/// the value that it was cloned from.
#[derive(Clone)]
pub struct BoardState {
    board: Arc<RwLock<Board>>,
    rand: Arc<Mutex<RandomSource>>,
}

/// The token and the column, counted from 0, that a request names: the team
/// is looked at first, then the column, which the request counts from 1.
pub open spec fn requested(team: Seq<char>, column: int) -> Result<(Cell, int), PlaceError> {
    match team_of(team) {
        None => Err(PlaceError::InvalidTeam),
        Some(token) => if 1 <= column <= 4 {
            Ok((token, column - 1))
        } else {
            Err(PlaceError::InvalidColumn)
        },
    }
}

/// Checks a request to place a token before any lock is taken.
pub fn check_request(team: &str, column: usize) -> (request: Result<(Cell, usize), PlaceError>)
    ensures
        match requested(team@, column as int) {
            Ok((token, col)) => request == Ok::<(Cell, usize), PlaceError>((token, col as usize)),
            Err(error) => request == Err::<(Cell, usize), PlaceError>(error),
        },
{
    let token = match Cell::from_team(team) {
        Some(token) => token,
        None => {
            return Err(PlaceError::InvalidTeam);
        },
    };
    if column < 1 || column > 4 {
        return Err(PlaceError::InvalidColumn);
    }
    Ok((token, column - 1))
}

impl BoardState {
    /// The grid of the board that the game started with.
    pub closed spec fn starting_board(&self) -> Grid {
        first_board(*self.board)
    }

    /// The booleans that were to come from the random source when the game
    /// started.
    pub closed spec fn starting_draws(&self) -> Map<nat, bool> {
        first_draws(*self.rand)
    }

    /// A game that starts with an empty board and with a random source
    /// that starts from `SEED`.
    pub fn new() -> (game: Self)
        ensures
            game.starting_board() == empty_grid(),
            game.starting_draws() == seeded_draws(SEED),
    {
        BoardState {
            board: Arc::new(board_lock(Board::new())),
            rand: Arc::new(source_lock(RandomSource::new(SEED))),
        }
    }

    /// The board as text, as some caller left it.
    pub fn board(&self) -> (text: String)
        ensures
            exists|g: Grid| valid_grid(g) && text@ == render_grid(g),
    {
        let board = read_board(&self.board);
        proof {
            use_type_invariant(&board);
            board.lemma_well_formed();
        }
        board.render()
    }

    /// Puts an empty board in place of the board, starts the random source
    /// anew from `SEED`, and answers with the empty board as text.
    pub fn reset(&self) -> (text: String)
        ensures
            text@ == render_grid(empty_grid()),
    {
        let board = Board::new();
        write_board(&self.board, board);
        {
            let mut guard = lock_source(&self.rand);
            guarded_source(&mut guard).reseed(SEED);
        }
        board.render()
    }

    /// Drops the token of the team named `team` into the column `column`,
    /// counted from 1. The request is checked first. Then the board is
    /// looked at and written under one hold of its lock, so that no other
    /// writer comes between the two.
    pub fn place(&self, team: &str, column: usize) -> (outcome: Result<String, PlaceError>)
        ensures
            match requested(team@, column as int) {
                Ok((token, col)) => exists|g: Grid|
                    valid_grid(g) && #[trigger] place_answers(g, token, col, outcome),
                Err(error) => outcome == Err::<String, PlaceError>(error),
            },
    {
        let (token, col) = match check_request(team, column) {
            Ok(request) => request,
            Err(error) => {
                return Err(error);
            },
        };
        let guard = upgradable_read(&self.board);
        let mut board = guarded_board(&guard);
        proof {
            use_type_invariant(&board);
            board.lemma_well_formed();
        }
        let outcome = board.place(token, col);
        if outcome.is_ok() {
            upgrade_and_write(guard, board);
        }
        outcome
    }

    /// Puts a random board in place of the board and answers with it as
    /// text. The sixteen booleans are drawn under one hold of the random
    /// source's lock.
    pub fn random_board(&self) -> (text: String)
        ensures
            exists|draws: Seq<bool>|
                draws.len() == 16 && text@ == render_grid(#[trigger] random_grid(draws)),
    {
        let board = {
            let mut guard = lock_source(&self.rand);
            Board::generate_random(guarded_source(&mut guard))
        };
        let text = board.render();
        write_board(&self.board, board);
        text
    }
}

impl Default for BoardState {
    fn default() -> Self {
        BoardState::new()
    }
}

} // verus!

use cookie_game::board::PlaceError;
use cookie_game::cell::Cell;
use cookie_game::session::{check_request, BoardState, SEED};
use rand::rngs::StdRng;
use rand::{Rng, SeedableRng};

const EMPTY_TEXT: &str = "⬜⬛⬛⬛⬛⬜\n⬜⬛⬛⬛⬛⬜\n⬜⬛⬛⬛⬛⬜\n⬜⬛⬛⬛⬛⬜\n⬜⬜⬜⬜⬜⬜\n";

const FIRST_RANDOM_TEXT: &str =
    "⬜🍪🍪🍪🍪⬜\n⬜🥛🍪🍪🥛⬜\n⬜🥛🥛🥛🥛⬜\n⬜🍪🥛🍪🥛⬜\n⬜⬜⬜⬜⬜⬜\n🍪 wins!\n";

const SECOND_RANDOM_TEXT: &str =
    "⬜🍪🥛🍪🍪⬜\n⬜🥛🍪🥛🍪⬜\n⬜🥛🍪🍪🍪⬜\n⬜🍪🥛🥛🥛⬜\n⬜⬜⬜⬜⬜⬜\nNo winner.\n";

/// The number of tokens that a board shows, read off its text.
fn tokens_in(text: &str) -> usize {
    text.chars().filter(|c| *c == '🍪' || *c == '🥛').count()
        - if text.ends_with("wins!\n") { 1 } else { 0 }
}

#[test]
fn seed_constant() {
    assert_eq!(SEED, 2024);
}

#[test]
fn request_is_checked() {
    assert_eq!(check_request("cookie", 1), Ok((Cell::Cookie, 0)));
    assert_eq!(check_request("milk", 4), Ok((Cell::Milk, 3)));
    assert_eq!(check_request("milk", 0), Err(PlaceError::InvalidColumn));
    assert_eq!(check_request("cookie", 5), Err(PlaceError::InvalidColumn));
    assert_eq!(check_request("cookie", usize::MAX), Err(PlaceError::InvalidColumn));
    assert_eq!(check_request("unknown-team", 1), Err(PlaceError::InvalidTeam));
    assert_eq!(check_request("unknown-team", 0), Err(PlaceError::InvalidTeam));
    assert_eq!(check_request("", 9), Err(PlaceError::InvalidTeam));
}

#[test]
fn game_starts_empty() {
    let game = BoardState::new();
    assert_eq!(game.board(), EMPTY_TEXT);
    assert_eq!(BoardState::default().board(), EMPTY_TEXT);
}

#[test]
fn four_in_one_column_win() {
    let game = BoardState::new();
    assert_eq!(
        game.place("cookie", 1),
        Ok("⬜⬛⬛⬛⬛⬜\n⬜⬛⬛⬛⬛⬜\n⬜⬛⬛⬛⬛⬜\n⬜🍪⬛⬛⬛⬜\n⬜⬜⬜⬜⬜⬜\n".to_string())
    );
    assert_eq!(
        game.place("cookie", 1),
        Ok("⬜⬛⬛⬛⬛⬜\n⬜⬛⬛⬛⬛⬜\n⬜🍪⬛⬛⬛⬜\n⬜🍪⬛⬛⬛⬜\n⬜⬜⬜⬜⬜⬜\n".to_string())
    );
    assert_eq!(
        game.place("cookie", 1),
        Ok("⬜⬛⬛⬛⬛⬜\n⬜🍪⬛⬛⬛⬜\n⬜🍪⬛⬛⬛⬜\n⬜🍪⬛⬛⬛⬜\n⬜⬜⬜⬜⬜⬜\n".to_string())
    );
    let won = "⬜🍪⬛⬛⬛⬜\n⬜🍪⬛⬛⬛⬜\n⬜🍪⬛⬛⬛⬜\n⬜🍪⬛⬛⬛⬜\n⬜⬜⬜⬜⬜⬜\n🍪 wins!\n";
    assert_eq!(game.place("cookie", 1), Ok(won.to_string()));
    assert_eq!(game.board(), won);
    assert_eq!(game.place("cookie", 1), Err(PlaceError::Unavailable(won.to_string())));
    assert_eq!(game.place("milk", 2), Err(PlaceError::Unavailable(won.to_string())));
    assert_eq!(game.board(), won);
}

#[test]
fn column_outside_the_board_is_refused() {
    let game = BoardState::new();
    game.place("milk", 2).unwrap();
    let before = game.board();
    assert_eq!(game.place("cookie", 0), Err(PlaceError::InvalidColumn));
    assert_eq!(game.place("cookie", 5), Err(PlaceError::InvalidColumn));
    assert_eq!(game.place("milk", 0), Err(PlaceError::InvalidColumn));
    assert_eq!(game.place("milk", 5), Err(PlaceError::InvalidColumn));
    assert_eq!(game.board(), before);
    assert_eq!(tokens_in(&game.board()), 1);
}

#[test]
fn unknown_team_is_refused() {
    let game = BoardState::new();
    game.place("cookie", 3).unwrap();
    let before = game.board();
    assert_eq!(game.place("unknown-team", 1), Err(PlaceError::InvalidTeam));
    assert_eq!(game.place("unknown-team", 0), Err(PlaceError::InvalidTeam));
    assert_eq!(game.board(), before);
    assert_eq!(tokens_in(&game.board()), 1);
}

#[test]
fn diagonal_win() {
    let game = BoardState::new();
    let moves = [
        ("cookie", 1),
        ("milk", 2),
        ("cookie", 2),
        ("milk", 3),
        ("milk", 3),
        ("cookie", 3),
        ("milk", 4),
        ("cookie", 4),
        ("milk", 4),
    ];
    for (team, column) in moves {
        let text = game.place(team, column).unwrap();
        assert!(text.ends_with("⬜⬜⬜⬜⬜⬜\n"));
    }
    let won = "⬜⬛⬛⬛🍪⬜\n⬜⬛⬛🍪🥛⬜\n⬜⬛🍪🥛🍪⬜\n⬜🍪🥛🥛🥛⬜\n⬜⬜⬜⬜⬜⬜\n🍪 wins!\n";
    assert_eq!(game.place("cookie", 4), Ok(won.to_string()));
    assert_eq!(game.place("milk", 1), Err(PlaceError::Unavailable(won.to_string())));
}

#[test]
fn sixteen_tokens_without_a_line_draw() {
    let game = BoardState::new();
    let columns = [
        ["milk", "milk", "cookie", "cookie"],
        ["cookie", "cookie", "milk", "milk"],
        ["milk", "milk", "cookie", "cookie"],
        ["cookie", "cookie", "milk", "milk"],
    ];
    let mut last = String::new();
    let mut placed = 0;
    for (col, teams) in columns.iter().enumerate() {
        for team in teams {
            assert!(last.is_empty() || last.ends_with("⬜⬜⬜⬜⬜⬜\n"));
            last = game.place(team, col + 1).unwrap();
            placed += 1;
            assert_eq!(tokens_in(&last), placed);
        }
    }
    let drawn = "⬜🍪🥛🍪🥛⬜\n⬜🍪🥛🍪🥛⬜\n⬜🥛🍪🥛🍪⬜\n⬜🥛🍪🥛🍪⬜\n⬜⬜⬜⬜⬜⬜\nNo winner.\n";
    assert_eq!(last, drawn);
    for column in 1..=4 {
        assert_eq!(game.place("cookie", column), Err(PlaceError::Unavailable(drawn.to_string())));
        assert_eq!(game.place("milk", column), Err(PlaceError::Unavailable(drawn.to_string())));
    }
    assert_eq!(game.board(), drawn);
}

#[test]
fn reset_gives_the_first_board_back() {
    let game = BoardState::new();
    let start = game.board();
    for (team, column) in [("cookie", 1), ("milk", 1), ("milk", 4), ("cookie", 2)] {
        game.place(team, column).unwrap();
    }
    assert_ne!(game.board(), start);
    assert_eq!(game.reset(), start);
    assert_eq!(game.board(), start);
    assert_eq!(game.reset(), EMPTY_TEXT);
    assert_eq!(tokens_in(&game.board()), 0);
}

#[test]
fn reset_after_a_win_opens_the_game() {
    let game = BoardState::new();
    for _ in 0..4 {
        game.place("milk", 3).unwrap();
    }
    assert!(game.place("milk", 1).is_err());
    assert_eq!(game.reset(), EMPTY_TEXT);
    assert!(game.place("milk", 1).is_ok());
}

#[test]
fn random_boards_follow_the_seed() {
    let game = BoardState::new();
    assert_eq!(game.random_board(), FIRST_RANDOM_TEXT);
    assert_eq!(game.board(), FIRST_RANDOM_TEXT);
    assert_eq!(game.random_board(), SECOND_RANDOM_TEXT);
    assert_eq!(game.board(), SECOND_RANDOM_TEXT);
}

#[test]
fn random_board_is_that_of_the_generator() {
    let mut rng = StdRng::seed_from_u64(SEED);
    let mut expected = String::new();
    for _ in 0..4 {
        expected.push('⬜');
        for _ in 0..4 {
            expected.push(if rng.gen::<bool>() { '🍪' } else { '🥛' });
        }
        expected.push_str("⬜\n");
    }
    expected.push_str("⬜⬜⬜⬜⬜⬜\n");
    let text = BoardState::new().random_board();
    assert!(text.starts_with(&expected));
    assert_eq!(tokens_in(&text), 16);
    assert!(!text.contains('⬛'));
}

#[test]
fn reset_starts_the_random_source_anew() {
    let game = BoardState::new();
    let first = game.random_board();
    let second = game.random_board();
    assert_ne!(first, second);
    assert_eq!(game.reset(), EMPTY_TEXT);
    assert_eq!(game.random_board(), first);
    assert_eq!(game.random_board(), second);
    game.reset();
    game.place("cookie", 1).unwrap();
    assert_eq!(game.random_board(), first);
}

#[test]
fn game_with_a_random_board_takes_no_token() {
    let game = BoardState::new();
    let text = game.random_board();
    for column in 1..=4 {
        assert_eq!(game.place("cookie", column), Err(PlaceError::Unavailable(text.clone())));
    }
    assert_eq!(game.board(), text);
}

#[test]
fn clones_share_the_game() {
    let game = BoardState::new();
    let other = game.clone();
    let text = game.place("milk", 2).unwrap();
    assert_eq!(other.board(), text);
    other.reset();
    assert_eq!(game.board(), EMPTY_TEXT);
    let random = other.random_board();
    assert_eq!(game.board(), random);
    assert_eq!(random, FIRST_RANDOM_TEXT);
}

//! A four-in-a-row game on a four-by-four board, shared between concurrent
//! callers, with a reseedable source of random boards.
//!
//! [`grid`], [`status`], [`placement`] and [`text`] hold the mathematical
//! model: what a grid is, who has won on it, where a token comes to rest, and
//! how the board reads as text. [`board`] holds the board itself, whose
//! functions are proved against that model, [`random`] the source of random
//! boards, and [`session`] the game that concurrent callers share.

pub mod board;
pub mod cell;
pub mod grid;
pub mod placement;
pub mod random;
pub mod session;
pub mod status;
mod sync;
pub mod text;

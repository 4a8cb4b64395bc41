//! Core of a noughts-and-crosses game: the board state machine with
//! move-legality and win-detection rules, and the session phase machine
//! that decides which commands may touch the board.

pub mod board;
mod rng;
pub mod session;

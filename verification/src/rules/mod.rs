//! The rules: players, the board and the dice.
//!
//! `model` holds the board as mathematics and says what every operation
//! decides; `board` holds the board itself, `position` the moves, `dices` the
//! dice and the turn; `laws` proves what follows for all boards.

pub mod board;
pub mod dices;
pub mod laws;
pub mod model;
pub mod player;
pub mod position;

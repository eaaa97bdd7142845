//! Core rules of Backgammon: the board with its two mirrored halves, the
//! primitive and composite moves, move candidates for one die, and the dice
//! with the turn holder.

pub mod error;
pub mod rules;

pub use error::Error;
pub use rules::board::{Board, BoardDisplay, Move, PlayerBoard};
pub use rules::dices::{Dices, PlayerWithDice, Players, Roll};
pub use rules::player::Player;
pub use rules::position::{BoardPosition, MoveChecker};

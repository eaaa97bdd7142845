use crate::rules::player::Player;
use vstd::prelude::*;

verus! {

/// Where a checker can stand: on the bar, off the board, or on a point of the
/// acting player's own frame.
#[derive(Debug, Clone, Copy, PartialEq, Eq, Hash, Structural)]
pub enum BoardPosition {
    Bar,
    Off,
    Field(usize),
}

/// One checker of `player` going from one position to another.
#[derive(Debug, Clone, Copy, PartialEq, Eq, Hash, Structural)]
pub struct MoveChecker {
    pub player: Player,
    pub from: BoardPosition,
    pub to: BoardPosition,
}

impl MoveChecker {
    /// The pairs of positions that are moves: from the bar to a point, from a
    /// point to a point, from a point off the board.
    pub open spec fn is_move(self) -> bool {
        match (self.from, self.to) {
            (BoardPosition::Bar, BoardPosition::Field(_)) => true,
            (BoardPosition::Field(_), BoardPosition::Field(_)) => true,
            (BoardPosition::Field(_), BoardPosition::Off) => true,
            _ => false,
        }
    }

    /// The point that the checker leaves; 24, which is no point, when it
    /// leaves none.
    pub open spec fn from_index(self) -> int {
        match self.from {
            BoardPosition::Field(i) => i as int,
            _ => 24,
        }
    }
}

/// The `from` points of `moves` rise strictly from each move to the next.
pub open spec fn ascending(moves: Seq<MoveChecker>) -> bool {
    forall|j: int, k: int|
        0 <= j < k < moves.len() ==> (#[trigger] moves[j]).from_index() < (
        #[trigger] moves[k]).from_index()
}

} // verus!

use vstd::prelude::*;

verus! {

/// Everything that an operation of the rules can refuse.
#[derive(Debug, Clone, Copy, PartialEq, Eq, Hash, Structural)]
pub enum Error {
    /// The field index lies outside `0..=23`.
    FieldInvalid,
    /// The field holds two or more checkers of the opponent.
    FieldBlocked,
    /// A count would drop below zero, the pair of positions is no move, or a
    /// checker cannot come back from the bar.
    MoveInvalid,
    /// The operation was asked of `Player::Nobody`.
    PlayerInvalid,
}

} // verus!

use vstd::prelude::*;

verus! {

/// Who owns a checker or holds the turn. `Nobody` never acts: operations that
/// need an actor refuse it.
#[derive(Debug, Clone, Copy, PartialEq, Eq, Hash, Structural)]
pub enum Player {
    Player0,
    Player1,
    Nobody,
}

} // verus!

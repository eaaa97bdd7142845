use crate::error::Error;
use crate::rules::player::Player;
use crate::rules::position::{BoardPosition, MoveChecker};
use vstd::prelude::*;

verus! {

/// One player's half of the board as mathematics: the checkers on each of the
/// 24 points in that player's own frame (point 0 is next to the player's home,
/// point 23 the farthest), on the bar and borne off.
pub struct PlayerBoardView {
    pub points: Seq<nat>,
    pub bar: nat,
    pub off: nat,
}

/// The whole board as mathematics: one half per player, each in its own frame.
/// Point `i` of one player is the same physical point as `23 - i` of the other.
pub struct BoardView {
    pub player0: PlayerBoardView,
    pub player1: PlayerBoardView,
}

/// The point of the opponent's frame that is the same physical point as
/// `field` in the player's frame.
pub open spec fn mirror(field: int) -> int {
    23 - field
}

/// The opening layout of one player, in that player's own frame.
pub open spec fn opening_points() -> Seq<nat> {
    seq![0, 0, 0, 0, 0, 5, 0, 3, 0, 0, 0, 0, 5, 0, 0, 0, 0, 0, 0, 0, 0, 0, 0, 2]
}

/// The checkers on the points below `n`.
pub open spec fn checkers_below(points: Seq<nat>, n: nat) -> nat
    decreases n,
{
    if n == 0 {
        0
    } else {
        checkers_below(points, (n - 1) as nat) + points[n - 1]
    }
}

impl PlayerBoardView {
    /// The opening half: fifteen checkers on the points, none on the bar, none off.
    pub open spec fn opening() -> PlayerBoardView {
        PlayerBoardView { points: opening_points(), bar: 0, off: 0 }
    }

    /// All checkers of this half, wherever they are.
    pub open spec fn total(self) -> nat {
        checkers_below(self.points, 24) + self.bar + self.off
    }

    /// The half with `count` checkers on `field` and all else as it was.
    pub open spec fn with_point(self, field: int, count: nat) -> PlayerBoardView {
        PlayerBoardView { points: self.points.update(field, count), ..self }
    }

    /// The half after every checker on `field` was hit: they stand on the bar
    /// and the point is empty.
    pub open spec fn swept(self, field: int) -> PlayerBoardView {
        PlayerBoardView {
            points: self.points.update(field, 0),
            bar: self.bar + self.points[field],
            ..self
        }
    }

    /// The half with `count` checkers on the bar.
    pub open spec fn with_bar(self, count: nat) -> PlayerBoardView {
        PlayerBoardView { bar: count, ..self }
    }

    /// The half with `count` checkers borne off.
    pub open spec fn with_off(self, count: nat) -> PlayerBoardView {
        PlayerBoardView { off: count, ..self }
    }

    /// The half has 24 points and every count fits its byte: a point the
    /// signed byte of the display, bar and off an unsigned one.
    pub open spec fn wf(self) -> bool {
        &&& self.points.len() == 24
        &&& forall|i: int| 0 <= i < 24 ==> #[trigger] self.points[i] <= 127
        &&& self.bar <= 255
        &&& self.off <= 255
    }
}

impl BoardView {
    /// The board at the start of a game.
    pub open spec fn opening() -> BoardView {
        BoardView { player0: PlayerBoardView::opening(), player1: PlayerBoardView::opening() }
    }

    /// The half of `player`. Only meant for a real player.
    pub open spec fn own(self, player: Player) -> PlayerBoardView {
        if player == Player::Player1 {
            self.player1
        } else {
            self.player0
        }
    }

    /// The half of the opponent of `player`. Only meant for a real player.
    pub open spec fn opponent(self, player: Player) -> PlayerBoardView {
        if player == Player::Player1 {
            self.player0
        } else {
            self.player1
        }
    }

    /// The board with the halves of `player` and of the opponent replaced.
    pub open spec fn with_halves(
        self,
        player: Player,
        own: PlayerBoardView,
        opponent: PlayerBoardView,
    ) -> BoardView {
        if player == Player::Player1 {
            BoardView { player0: opponent, player1: own }
        } else {
            BoardView { player0: own, player1: opponent }
        }
    }

    /// A point is blocked for `player` when the opponent holds two or more
    /// checkers on the same physical point.
    pub open spec fn blocked(self, player: Player, field: int) -> bool {
        self.opponent(player).points[mirror(field)] >= 2
    }

    /// Each player has fifteen checkers, counting points, bar and off.
    pub open spec fn complete(self) -> bool {
        self.player0.total() == 15 && self.player1.total() == 15
    }

    /// Each half has its 24 points.
    pub open spec fn sized(self) -> bool {
        self.player0.points.len() == 24 && self.player1.points.len() == 24
    }

    /// Both halves are well formed.
    pub open spec fn wf(self) -> bool {
        self.player0.wf() && self.player1.wf()
    }

    /// The board after `player` changed the count on `field` by `delta` and
    /// hit what the opponent had on the same physical point.
    pub open spec fn placed(self, player: Player, field: int, delta: int) -> BoardView {
        let own = self.own(player);
        self.with_halves(
            player,
            own.with_point(field, (own.points[field] + delta) as nat),
            self.opponent(player).swept(mirror(field)),
        )
    }

    /// What `Board::set` decides: the error, or the board that is written.
    pub open spec fn set_result(self, player: Player, field: int, delta: int) -> Result<
        BoardView,
        Error,
    > {
        if field > 23 {
            Err(Error::FieldInvalid)
        } else if player == Player::Nobody {
            Err(Error::PlayerInvalid)
        } else if self.blocked(player, field) {
            Err(Error::FieldBlocked)
        } else if self.own(player).points[field] + delta < 0 {
            Err(Error::MoveInvalid)
        } else {
            Ok(self.placed(player, field, delta))
        }
    }

    /// The counts that `Board::set` writes fit their bytes.
    pub open spec fn set_fits(self, player: Player, field: int, delta: int) -> bool {
        &&& self.own(player).points[field] + delta <= 127
        &&& self.opponent(player).bar + self.opponent(player).points[mirror(field)] <= 255
    }

    /// What `Board::set_bar` decides: the error, or the board that is written.
    pub open spec fn set_bar_result(self, player: Player, delta: int) -> Result<BoardView, Error> {
        let own = self.own(player);
        if player == Player::Nobody {
            Err(Error::PlayerInvalid)
        } else if own.bar + delta < 0 {
            Err(Error::MoveInvalid)
        } else {
            Ok(
                self.with_halves(
                    player,
                    own.with_bar((own.bar + delta) as nat),
                    self.opponent(player),
                ),
            )
        }
    }

    /// What `Board::set_off` decides: the error, or the board that is written.
    pub open spec fn set_off_result(self, player: Player, amount: nat) -> Result<BoardView, Error> {
        let own = self.own(player);
        if player == Player::Nobody {
            Err(Error::PlayerInvalid)
        } else {
            Ok(self.with_halves(player, own.with_off(own.off + amount), self.opponent(player)))
        }
    }

    /// The first half of a move: the checker leaves `from`.
    pub open spec fn lift_result(self, m: MoveChecker) -> Result<BoardView, Error> {
        match m.from {
            BoardPosition::Bar => self.set_bar_result(m.player, -1),
            BoardPosition::Field(f) => self.set_result(m.player, f as int, -1),
            BoardPosition::Off => Err(Error::MoveInvalid),
        }
    }

    /// The second half of a move: the checker arrives at `to`.
    pub open spec fn drop_result(self, m: MoveChecker) -> Result<BoardView, Error> {
        match m.to {
            BoardPosition::Field(t) => self.set_result(m.player, t as int, 1),
            BoardPosition::Off => self.set_off_result(m.player, 1),
            BoardPosition::Bar => Err(Error::MoveInvalid),
        }
    }

    /// The counts that the first half of a move writes fit their bytes.
    pub open spec fn lift_fits(self, m: MoveChecker) -> bool {
        match m.from {
            BoardPosition::Field(f) => self.set_fits(m.player, f as int, -1),
            _ => true,
        }
    }

    /// The counts that the second half of a move writes fit their bytes.
    pub open spec fn drop_fits(self, m: MoveChecker) -> bool {
        match m.to {
            BoardPosition::Field(t) => self.set_fits(m.player, t as int, 1),
            BoardPosition::Off => self.own(m.player).off + 1 <= 255,
            BoardPosition::Bar => true,
        }
    }

    /// Every count that `Board::apply_move` writes on the way fits its byte.
    pub open spec fn move_fits(self, m: MoveChecker) -> bool {
        m.is_move() ==> match self.lift_result(m) {
            Ok(lifted) => self.lift_fits(m) && (lifted.drop_result(m) is Ok
                ==> lifted.drop_fits(m)),
            Err(_) => true,
        }
    }

    /// The board that `Board::apply_move` leaves behind. The two halves of a
    /// move are applied in turn and nothing is taken back: when the second
    /// half is refused, the first has happened.
    pub open spec fn after_move(self, m: MoveChecker) -> BoardView {
        if !m.is_move() {
            self
        } else {
            match self.lift_result(m) {
                Ok(lifted) => match lifted.drop_result(m) {
                    Ok(done) => done,
                    Err(_) => lifted,
                },
                Err(_) => self,
            }
        }
    }

    /// What `Board::apply_move` answers: the first refusal on the way, if any.
    pub open spec fn move_result(self, m: MoveChecker) -> Result<(), Error> {
        if !m.is_move() {
            Err(Error::MoveInvalid)
        } else {
            match self.lift_result(m) {
                Ok(lifted) => match lifted.drop_result(m) {
                    Ok(_) => Ok(()),
                    Err(e) => Err(e),
                },
                Err(e) => Err(e),
            }
        }
    }

    /// The move that the checkers of `player` on point `i` can make with
    /// `die`, if any: to the point `die` lower unless that is blocked, or off
    /// the board when no point lies that far down.
    pub open spec fn candidate(self, player: Player, die: int, i: int) -> Option<MoveChecker> {
        if self.own(player).points[i] == 0 {
            None
        } else if i < die {
            Some(
                MoveChecker {
                    player,
                    from: BoardPosition::Field(i as usize),
                    to: BoardPosition::Off,
                },
            )
        } else if self.blocked(player, i - die) {
            None
        } else {
            Some(
                MoveChecker {
                    player,
                    from: BoardPosition::Field(i as usize),
                    to: BoardPosition::Field((i - die) as usize),
                },
            )
        }
    }

    /// The candidates of the points below `n`, lowest point first.
    pub open spec fn candidates_below(self, player: Player, die: int, n: nat) -> Seq<MoveChecker>
        decreases n,
    {
        if n == 0 {
            Seq::empty()
        } else {
            let lower = self.candidates_below(player, die, (n - 1) as nat);
            match self.candidate(player, die, n - 1) {
                Some(m) => lower.push(m),
                None => lower,
            }
        }
    }

    /// With checkers on the bar and the point `24 - die` blocked, the player
    /// must come in from the bar.
    pub open spec fn must_enter(self, player: Player, die: int) -> bool {
        self.own(player).bar > 0 && self.blocked(player, 24 - die)
    }

    /// The move from the bar to the point `die - 1`.
    pub open spec fn entry(player: Player, die: int) -> MoveChecker {
        MoveChecker {
            player,
            from: BoardPosition::Bar,
            to: BoardPosition::Field((die - 1) as usize),
        }
    }

    /// What `Board::generate_a_possible_moves` answers for a die from 1 to 6.
    pub open spec fn possible_moves(self, player: Player, die: int) -> Result<
        Seq<MoveChecker>,
        Error,
    > {
        if player == Player::Nobody {
            Err(Error::PlayerInvalid)
        } else if self.must_enter(player, die) {
            if self.blocked(player, die - 1) {
                Err(Error::MoveInvalid)
            } else {
                Ok(seq![Self::entry(player, die)])
            }
        } else {
            Ok(self.candidates_below(player, die, 24))
        }
    }

    /// The signed count shown for point `i` of player 0's frame: player 0's
    /// checkers count up, player 1's count down.
    pub open spec fn display_at(self, i: int) -> int {
        self.player0.points[i] - self.player1.points[mirror(i)]
    }
}

} // verus!

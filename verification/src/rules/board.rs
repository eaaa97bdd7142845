use crate::error::Error;
use crate::rules::model::{checkers_below, mirror, opening_points, BoardView, PlayerBoardView};
use crate::rules::player::Player;
use crate::rules::position::{ascending, BoardPosition, MoveChecker};
use vstd::prelude::*;

verus! {

/// One player's half of the board, in that player's own frame.
#[derive(Debug, Clone, Copy, PartialEq, Eq)]
pub struct PlayerBoard {
    /// Checkers on each of the 24 points.
    pub board: [u8; 24],
    /// Checkers on the bar.
    pub bar: u8,
    /// Checkers borne off.
    pub off: u8,
}

impl View for PlayerBoard {
    type V = PlayerBoardView;

    open spec fn view(&self) -> PlayerBoardView {
        PlayerBoardView {
            points: Seq::new(24, |i: int| self.board@[i] as nat),
            bar: self.bar as nat,
            off: self.off as nat,
        }
    }
}

impl PlayerBoard {
    /// Every point count fits the signed byte in which the display shows it.
    pub open spec fn displayable(&self) -> bool {
        forall|i: int| 0 <= i < 24 ==> #[trigger] self.board@[i] <= 127
    }

    /// Whether every point count fits the signed byte of the display.
    pub fn is_displayable(&self) -> (fits: bool)
        ensures
            fits == self.displayable(),
    {
        let mut i: usize = 0;
        while i < 24
            invariant
                i <= 24,
                forall|k: int| 0 <= k < i ==> #[trigger] self.board@[k] <= 127,
            decreases 24 - i,
        {
            if self.board[i] > 127 {
                return false;
            }
            i += 1;
        }
        true
    }

    /// All checkers of this half, wherever they are.
    pub fn total(&self) -> (count: u16)
        ensures
            count == self@.total(),
    {
        let mut count: u16 = 0;
        let mut i: usize = 0;
        while i < 24
            invariant
                i <= 24,
                count == checkers_below(self@.points, i as nat),
                count <= 255 * i,
            decreases 24 - i,
        {
            count += self.board[i] as u16;
            i += 1;
        }
        count + self.bar as u16 + self.off as u16
    }

    /// Changes the count on `field` by `amount`, unless it would drop below zero.
    fn add_checkers(&mut self, field: usize, amount: i8) -> (r: Result<(), Error>)
        requires
            field <= 23,
            old(self).displayable(),
            old(self)@.points[field as int] + amount <= 127,
        ensures
            final(self).displayable(),
            old(self)@.points[field as int] + amount < 0 ==> r == Err::<(), Error>(
                Error::MoveInvalid,
            ) && *final(self) == *old(self),
            old(self)@.points[field as int] + amount >= 0 ==> r is Ok && final(self)@
                == old(self)@.with_point(
                field as int,
                (old(self)@.points[field as int] + amount) as nat,
            ),
        no_unwind
    {
        let new: i8 = self.board[field] as i8 + amount;
        if new < 0 {
            return Err(Error::MoveInvalid);
        }
        self.board[field] = new as u8;
        assert(self@.points =~= old(self)@.points.update(field as int, new as nat));
        Ok(())
    }

    /// Sends every checker on `field` to the bar.
    fn sweep(&mut self, field: usize)
        requires
            field <= 23,
            old(self).displayable(),
            old(self)@.bar + old(self)@.points[field as int] <= 255,
        ensures
            final(self).displayable(),
            final(self)@ == old(self)@.swept(field as int),
        no_unwind
    {
        self.bar += self.board[field];
        self.board[field] = 0;
        assert(self@.points =~= old(self)@.points.update(field as int, 0));
    }

    /// Changes the count on the bar by `amount`, unless it would drop below zero.
    fn add_bar(&mut self, amount: i8) -> (r: Result<(), Error>)
        requires
            old(self)@.bar + amount <= 255,
        ensures
            final(self).board == old(self).board,
            old(self)@.bar + amount < 0 ==> r == Err::<(), Error>(Error::MoveInvalid)
                && *final(self) == *old(self),
            old(self)@.bar + amount >= 0 ==> r is Ok && final(self)@ == old(self)@.with_bar(
                (old(self)@.bar + amount) as nat,
            ),
        no_unwind
    {
        let new: i16 = self.bar as i16 + amount as i16;
        if new < 0 {
            return Err(Error::MoveInvalid);
        }
        self.bar = new as u8;
        Ok(())
    }

    /// Adds `amount` to the checkers borne off.
    fn add_off(&mut self, amount: u8)
        requires
            old(self)@.off + amount <= 255,
        ensures
            final(self).board == old(self).board,
            final(self)@ == old(self)@.with_off(old(self)@.off + amount as nat),
        no_unwind
    {
        self.off += amount;
    }
}

impl Default for PlayerBoard {
    /// The opening half.
    fn default() -> (half: PlayerBoard)
        ensures
            half@ == PlayerBoardView::opening(),
            half.displayable(),
    {
        let half = PlayerBoard {
            board: [0, 0, 0, 0, 0, 5, 0, 3, 0, 0, 0, 0, 5, 0, 0, 0, 0, 0, 0, 0, 0, 0, 0, 2],
            bar: 0,
            off: 0,
        };
        assert(half@.points =~= opening_points());
        half
    }
}

/// The board shown for both players at once.
#[derive(Debug, Clone, Copy, PartialEq, Eq)]
pub struct BoardDisplay {
    /// The 24 points in player 0's frame. A positive count is player 0's
    /// checkers, a negative one player 1's.
    pub board: [i8; 24],
    /// The bar of player 0 and of player 1.
    pub bar: (u8, u8),
    /// The borne-off checkers of player 0 and of player 1.
    pub off: (u8, u8),
}

impl BoardDisplay {
    /// This display shows exactly the board `b`.
    pub open spec fn shows(&self, b: BoardView) -> bool {
        &&& forall|i: int| 0 <= i < 24 ==> #[trigger] self.board@[i] as int == b.display_at(i)
        &&& self.bar.0 as nat == b.player0.bar
        &&& self.bar.1 as nat == b.player1.bar
        &&& self.off.0 as nat == b.player0.off
        &&& self.off.1 as nat == b.player1.off
    }
}

/// The Backgammon board: 24 points, a bar for checkers that were hit and an
/// off area for checkers that left the board, for each of the two players.
///
/// Every operation is keyed by the acting player's own frame.
#[derive(Debug, PartialEq)]
pub struct Board {
    raw_board: (PlayerBoard, PlayerBoard),
}

impl View for Board {
    type V = BoardView;

    closed spec fn view(&self) -> BoardView {
        BoardView { player0: self.raw_board.0@, player1: self.raw_board.1@ }
    }
}

impl Clone for Board {
    fn clone(&self) -> (copy: Board)
        ensures
            copy@ == self@,
            copy@.wf(),
    {
        proof {
            use_type_invariant(self);
        }
        Board { raw_board: (self.raw_board.0, self.raw_board.1) }
    }
}

impl Default for Board {
    /// The board at the start of a game.
    fn default() -> (board: Board)
        ensures
            board@ == BoardView::opening(),
            board@.wf(),
    {
        Board { raw_board: (PlayerBoard::default(), PlayerBoard::default()) }
    }
}

impl Board {
    #[verifier::type_invariant]
    spec fn inv(&self) -> bool {
        self.raw_board.0.displayable() && self.raw_board.1.displayable()
    }

    /// The board at the start of a game.
    pub fn new() -> (board: Board)
        ensures
            board@ == BoardView::opening(),
            board@.wf(),
    {
        Board::default()
    }

    /// The board with the given halves, player 0's first, if every point
    /// count of both can be displayed; `None` if one cannot.
    pub fn from_halves(player0: PlayerBoard, player1: PlayerBoard) -> (board: Option<Board>)
        ensures
            board is Some <==> player0.displayable() && player1.displayable(),
            board is Some ==> board->Some_0@ == (BoardView { player0: player0@, player1: player1@ })
                && board->Some_0@.wf(),
    {
        if player0.is_displayable() && player1.is_displayable() {
            Some(Board { raw_board: (player0, player1) })
        } else {
            None
        }
    }

    /// The two halves of the board, player 0's first.
    pub fn halves(&self) -> (halves: (PlayerBoard, PlayerBoard))
        ensures
            halves.0@ == self@.player0,
            halves.1@ == self@.player1,
            halves.0.displayable(),
            halves.1.displayable(),
            self@.wf(),
    {
        proof {
            use_type_invariant(self);
        }
        (self.raw_board.0, self.raw_board.1)
    }

    /// The bar of player 0 and of player 1.
    pub fn get_bar(&self) -> (bar: (u8, u8))
        ensures
            bar.0 as nat == self@.player0.bar,
            bar.1 as nat == self@.player1.bar,
    {
        (self.raw_board.0.bar, self.raw_board.1.bar)
    }

    /// The borne-off checkers of player 0 and of player 1.
    pub fn get_off(&self) -> (off: (u8, u8))
        ensures
            off.0 as nat == self@.player0.off,
            off.1 as nat == self@.player1.off,
    {
        (self.raw_board.0.off, self.raw_board.1.off)
    }

    /// The board as both players see it on the table.
    pub fn get(&self) -> (display: BoardDisplay)
        ensures
            display.shows(self@),
    {
        proof {
            use_type_invariant(self);
        }
        let mut board: [i8; 24] = [0; 24];
        let mut i: usize = 0;
        while i < 24
            invariant
                i <= 24,
                self.raw_board.0.displayable(),
                self.raw_board.1.displayable(),
                forall|k: int| 0 <= k < i ==> #[trigger] board@[k] as int == self@.display_at(k),
            decreases 24 - i,
        {
            let ours: u8 = self.raw_board.0.board[i];
            let theirs: u8 = self.raw_board.1.board[23 - i];
            board[i] = ours as i8 - theirs as i8;
            i += 1;
        }
        BoardDisplay { board, bar: self.get_bar(), off: self.get_off() }
    }

    fn get_raw_board_for_player(&self, player: Player) -> (half: Result<&PlayerBoard, Error>)
        ensures
            player == Player::Nobody ==> half == Err::<&PlayerBoard, Error>(Error::PlayerInvalid),
            player != Player::Nobody ==> half is Ok && half->Ok_0@ == self@.own(player)
                && half->Ok_0.displayable(),
    {
        proof {
            use_type_invariant(self);
        }
        match player {
            Player::Player0 => Ok(&self.raw_board.0),
            Player::Player1 => Ok(&self.raw_board.1),
            Player::Nobody => Err(Error::PlayerInvalid),
        }
    }

    fn get_raw_board_for_opponent(&self, player: Player) -> (half: Result<&PlayerBoard, Error>)
        ensures
            player == Player::Nobody ==> half == Err::<&PlayerBoard, Error>(Error::PlayerInvalid),
            player != Player::Nobody ==> half is Ok && half->Ok_0@ == self@.opponent(player)
                && half->Ok_0.displayable(),
    {
        proof {
            use_type_invariant(self);
        }
        match player {
            Player::Player0 => Ok(&self.raw_board.1),
            Player::Player1 => Ok(&self.raw_board.0),
            Player::Nobody => Err(Error::PlayerInvalid),
        }
    }

    /// Whether `field` is blocked for `player`.
    pub fn blocked(&self, player: Player, field: usize) -> (r: Result<bool, Error>)
        ensures
            field > 23 ==> r == Err::<bool, Error>(Error::FieldInvalid),
            field <= 23 && player == Player::Nobody ==> r == Err::<bool, Error>(
                Error::PlayerInvalid,
            ),
            field <= 23 && player != Player::Nobody ==> r == Ok::<bool, Error>(
                self@.blocked(player, field as int),
            ),
    {
        if field > 23 {
            return Err(Error::FieldInvalid);
        }
        let opponent = self.get_raw_board_for_opponent(player)?;
        if opponent.board[23 - field] > 1 {
            Ok(true)
        } else {
            Ok(false)
        }
    }

    /// Changes the checkers of `player` on `field` by `amount` and hits what
    /// the opponent had on the same physical point.
    ///
    /// The field is refused when it lies off the board or is blocked, the
    /// player when it is `Nobody`, the amount when it would leave fewer than no
    /// checkers. Blocking is judged before the amount and whatever its sign. A
    /// refused call leaves the board as it was.
    pub fn set(&mut self, player: Player, field: usize, amount: i8) -> (r: Result<(), Error>)
        requires
            old(self)@.set_result(player, field as int, amount as int) is Ok
                ==> old(self)@.set_fits(player, field as int, amount as int),
        ensures
            final(self)@.wf(),
            match old(self)@.set_result(player, field as int, amount as int) {
                Ok(board) => r is Ok && final(self)@ == board,
                Err(e) => r == Err::<(), Error>(e) && final(self)@ == old(self)@,
            },
            r is Ok ==> {
                &&& final(self)@.own(player).points[field as int] == old(self)@.own(
                    player,
                ).points[field as int] + amount
                &&& final(self)@.opponent(player).points[mirror(field as int)] == 0
                &&& final(self)@.opponent(player).bar == old(self)@.opponent(player).bar
                    + old(self)@.opponent(player).points[mirror(field as int)]
            },
    {
        proof {
            use_type_invariant(&*self);
        }
        if field > 23 {
            return Err(Error::FieldInvalid);
        }
        if self.blocked(player, field)? {
            return Err(Error::FieldBlocked);
        }
        match player {
            Player::Player0 => {
                self.raw_board.0.add_checkers(field, amount)?;
                self.raw_board.1.sweep(23 - field);
            },
            Player::Player1 => {
                self.raw_board.1.add_checkers(field, amount)?;
                self.raw_board.0.sweep(23 - field);
            },
            Player::Nobody => {
                return Err(Error::PlayerInvalid);
            },
        }
        Ok(())
    }

    /// Changes the checkers of `player` on the bar by `amount`.
    ///
    /// `Nobody` is refused, and so is an amount that would leave fewer than no
    /// checkers. A refused call leaves the board as it was.
    pub fn set_bar(&mut self, player: Player, amount: i8) -> (r: Result<(), Error>)
        requires
            player != Player::Nobody ==> old(self)@.own(player).bar + amount <= 255,
        ensures
            final(self)@.wf(),
            match old(self)@.set_bar_result(player, amount as int) {
                Ok(board) => r is Ok && final(self)@ == board,
                Err(e) => r == Err::<(), Error>(e) && final(self)@ == old(self)@,
            },
    {
        proof {
            use_type_invariant(&*self);
        }
        match player {
            Player::Player0 => {
                self.raw_board.0.add_bar(amount)?;
            },
            Player::Player1 => {
                self.raw_board.1.add_bar(amount)?;
            },
            Player::Nobody => {
                return Err(Error::PlayerInvalid);
            },
        }
        Ok(())
    }

    /// Adds `amount` to the checkers that `player` has borne off. Only
    /// `Nobody` is refused, and then the board stays as it was.
    pub fn set_off(&mut self, player: Player, amount: u8) -> (r: Result<(), Error>)
        requires
            player != Player::Nobody ==> old(self)@.own(player).off + amount <= 255,
        ensures
            final(self)@.wf(),
            match old(self)@.set_off_result(player, amount as nat) {
                Ok(board) => r is Ok && final(self)@ == board,
                Err(e) => r == Err::<(), Error>(e) && final(self)@ == old(self)@,
            },
    {
        proof {
            use_type_invariant(&*self);
        }
        match player {
            Player::Player0 => {
                self.raw_board.0.add_off(amount);
            },
            Player::Player1 => {
                self.raw_board.1.add_off(amount);
            },
            Player::Nobody => {
                return Err(Error::PlayerInvalid);
            },
        }
        Ok(())
    }

    /// Whether each player has fifteen checkers, counting points, bar and
    /// off. `set`, `set_bar` and `set_off` do not keep this; moves do.
    pub fn validate(&self) -> (complete: bool)
        ensures
            complete == self@.complete(),
    {
        self.raw_board.0.total() == 15 && self.raw_board.1.total() == 15
    }

    /// Whether `player` has borne off all fifteen checkers.
    pub fn is_winner(&self, player: Player) -> (won: bool)
        requires
            player != Player::Nobody,
        ensures
            won == (self@.own(player).off == 15),
    {
        match self.get_raw_board_for_player(player) {
            Ok(half) => half.off == 15,
            Err(_) => false,
        }
    }

    /// Whether either player has won.
    pub fn is_finished(&self) -> (finished: bool)
        ensures
            finished == (self@.player0.off == 15 || self@.player1.off == 15),
    {
        self.is_winner(Player::Player0) || self.is_winner(Player::Player1)
    }

    /// Applies a move: the checker leaves `from`, then arrives at `to`.
    ///
    /// The two steps are taken in turn and the first refusal is returned. No
    /// step is taken back: when the arrival is refused, the checker has left.
    pub fn apply_move(&mut self, move_checker: &MoveChecker) -> (r: Result<(), Error>)
        requires
            old(self)@.move_fits(*move_checker),
        ensures
            final(self)@.wf(),
            r == old(self)@.move_result(*move_checker),
            final(self)@ == old(self)@.after_move(*move_checker),
    {
        proof {
            use_type_invariant(&*self);
        }
        match (move_checker.from, move_checker.to) {
            (BoardPosition::Bar, BoardPosition::Field(to)) => {
                self.set_bar(move_checker.player, -1)?;
                self.set(move_checker.player, to, 1)?;
            },
            (BoardPosition::Field(from), BoardPosition::Field(to)) => {
                self.set(move_checker.player, from, -1)?;
                self.set(move_checker.player, to, 1)?;
            },
            (BoardPosition::Field(from), BoardPosition::Off) => {
                self.set(move_checker.player, from, -1)?;
                self.set_off(move_checker.player, 1)?;
            },
            _ => {
                return Err(Error::MoveInvalid);
            },
        }
        Ok(())
    }

    /// Applies a move if both of its steps are accepted, and leaves the board
    /// as it was if one is refused. The answer is that of `apply_move`.
    pub fn try_move(&mut self, move_checker: &MoveChecker) -> (r: Result<(), Error>)
        requires
            old(self)@.move_fits(*move_checker),
        ensures
            final(self)@.wf(),
            r == old(self)@.move_result(*move_checker),
            r is Ok ==> final(self)@ == old(self)@.after_move(*move_checker),
            r is Err ==> final(self)@ == old(self)@,
    {
        proof {
            use_type_invariant(&*self);
        }
        let mut moved = self.clone();
        let r = moved.apply_move(move_checker);
        if r.is_ok() {
            *self = moved;
        }
        r
    }

    /// The moves that `player` can make with one die.
    ///
    /// A player with checkers on the bar whose point `24 - dice` is blocked
    /// gets the one move from the bar to the point `dice - 1`, or `MoveInvalid`
    /// when that point is blocked too. Otherwise every point that holds
    /// checkers of the player gives at most one move, and the moves come in
    /// rising order of the point they leave: to the point `dice` lower unless
    /// that is blocked, or off the board when no point lies that far down.
    ///
    /// Two things are looser here than at the table. A player with checkers
    /// on the bar whose point `24 - dice` is open is offered the moves on the
    /// board and none from the bar. And a checker is offered to go off the
    /// board whether or not all fifteen have reached the home board.
    pub fn generate_a_possible_moves(&self, player: Player, dice: usize) -> (r: Result<
        Vec<MoveChecker>,
        Error,
    >)
        requires
            1 <= dice <= 6,
        ensures
            match self@.possible_moves(player, dice as int) {
                Ok(moves) => r is Ok && r->Ok_0@ == moves,
                Err(e) => r is Err && r->Err_0 == e,
            },
            r is Ok ==> ascending(r->Ok_0@),
    {
        let player_board = self.get_raw_board_for_player(player)?;
        if player_board.bar > 0 && self.blocked(player, 24 - dice)? {
            let move_checker = MoveChecker {
                player,
                from: BoardPosition::Bar,
                to: BoardPosition::Field(dice - 1),
            };
            if !self.blocked(player, dice - 1)? {
                let mut only: Vec<MoveChecker> = Vec::new();
                only.push(move_checker);
                assert(only@ =~= seq![BoardView::entry(player, dice as int)]);
                return Ok(only);
            } else {
                return Err(Error::MoveInvalid);
            }
        }
        let mut all_moves: Vec<MoveChecker> = Vec::new();
        let mut i: usize = 0;
        while i < 24
            invariant
                i <= 24,
                1 <= dice <= 6,
                player != Player::Nobody,
                player_board@ == self@.own(player),
                all_moves@ == self@.candidates_below(player, dice as int, i as nat),
                ascending(all_moves@),
                forall|k: int|
                    0 <= k < all_moves@.len() ==> (#[trigger] all_moves@[k]).from_index() < i,
            decreases 24 - i,
        {
            if player_board.board[i] > 0 {
                if i >= dice {
                    let new: usize = i - dice;
                    let is_blocked = self.blocked(player, new)?;
                    if !is_blocked {
                        all_moves.push(
                            MoveChecker {
                                player,
                                from: BoardPosition::Field(i),
                                to: BoardPosition::Field(new),
                            },
                        );
                    }
                } else {
                    all_moves.push(
                        MoveChecker {
                            player,
                            from: BoardPosition::Field(i),
                            to: BoardPosition::Off,
                        },
                    );
                }
            }
            i += 1;
        }
        Ok(all_moves)
    }
}

/// Moving checkers by the value of a die, for a game built on the board.
pub trait Move {
    /// Moves one checker of `player` from the point `from` by `dice`.
    fn move_checker(&mut self, player: Player, dice: u8, from: usize) -> Result<
        &mut Self,
        Error,
    > where Self: Sized;

    /// Brings one checker of `player` in from the bar by `dice`.
    fn move_checker_from_bar(&mut self, player: Player, dice: u8) -> Result<&mut Self, Error> where
        Self: Sized;

    /// Says whether `player` may move by `dice`.
    fn move_permitted(&mut self, player: Player, dice: u8) -> Result<&mut Self, Error> where
        Self: Sized;
}

} // verus!

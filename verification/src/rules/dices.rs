use crate::error::Error;
use crate::rules::player::Player;
use rand::distributions::{Distribution, Uniform};
use rand::rngs::StdRng;
use rand::SeedableRng;
use vstd::prelude::*;

verus! {

/// The seeded generator of `rand`. Its state is opaque here: nothing is said
/// of the stream it gives but the range of each sample.
#[verifier::external_type_specification]
#[verifier::external_body]
pub struct ExStdRng(StdRng);

/// `StdRng::from_seed` of `rand`: the generator that the seed determines.
/// Nothing is claimed of the generator.
#[verifier::external_body]
fn rng_from_seed(seed: [u8; 32]) -> (rng: StdRng) {
    StdRng::from_seed(seed)
}

/// `Clone::clone` of `rand`'s `StdRng`: a generator in the same state.
/// Nothing is claimed of the copy.
#[verifier::external_body]
fn rng_clone(rng: &StdRng) -> (copy: StdRng) {
    rng.clone()
}

/// `Uniform::new_inclusive(low, high)` of `rand`, sampled once from a seeded
/// generator. `new_inclusive` panics when `low > high`, which `requires`
/// leaves out; the sample lies in the closed range. Which value comes is not
/// said, and the generator moves on.
#[verifier::external_body]
fn sample_seeded(rng: &mut StdRng, low: u8, high: u8) -> (value: u8)
    requires
        low <= high,
    ensures
        low <= value <= high,
{
    Uniform::new_inclusive(low, high).sample(rng)
}

/// `Uniform::new_inclusive(low, high)` of `rand`, sampled once from the
/// generator of the running thread, `rand::thread_rng()`. `new_inclusive`
/// panics when `low > high`, which `requires` leaves out; the sample lies in
/// the closed range. Which value comes is not said.
#[verifier::external_body]
fn sample_ambient(low: u8, high: u8) -> (value: u8)
    requires
        low <= high,
    ensures
        low <= value <= high,
{
    Uniform::new_inclusive(low, high).sample(&mut rand::thread_rng())
}

/// The two dice of a turn.
#[derive(Debug, Clone, Copy, PartialEq, Eq)]
pub struct Dices {
    /// The two values, each from 1 to 6.
    pub values: (u8, u8),
    /// Which of the up to four uses are spent. A double gives four uses; any
    /// other roll gives two, and the last two count as spent from the start.
    pub consumed: (bool, bool, bool, bool),
}

/// What one use counts for among those left: 1 unless it is spent.
pub open spec fn unspent(consumed: bool) -> nat {
    if consumed {
        0
    } else {
        1
    }
}

impl Default for Dices {
    /// Dice that were never rolled: both values 0, nothing spent.
    fn default() -> (dices: Dices)
        ensures
            dices == (Dices { values: (0, 0), consumed: (false, false, false, false) }),
    {
        Dices { values: (0, 0), consumed: (false, false, false, false) }
    }
}

impl Dices {
    /// The dice as they lie after a roll that showed `first` and `second`:
    /// nothing spent of a double, the last two uses spent of any other roll.
    pub open spec fn fresh(first: u8, second: u8) -> Dices {
        Dices {
            values: (first, second),
            consumed: if first == second {
                (false, false, false, false)
            } else {
                (false, false, true, true)
            },
        }
    }

    /// The dice are as some roll leaves them: both values from 1 to 6 and
    /// nothing spent beyond what the values say.
    pub open spec fn rolled(self) -> bool {
        &&& 1 <= self.values.0 <= 6
        &&& 1 <= self.values.1 <= 6
        &&& self == Self::fresh(self.values.0, self.values.1)
    }

    /// How many uses are left.
    pub open spec fn uses_left(self) -> nat {
        unspent(self.consumed.0) + unspent(self.consumed.1) + unspent(self.consumed.2) + unspent(
            self.consumed.3,
        )
    }

    /// The dice after a roll that showed `first` and `second`.
    pub fn from_values(first: u8, second: u8) -> (dices: Dices)
        ensures
            dices == Self::fresh(first, second),
    {
        let consumed = if first == second {
            (false, false, false, false)
        } else {
            (false, false, true, true)
        };
        Dices { values: (first, second), consumed }
    }

    /// Rolls both dice with the generator of the running thread. What the
    /// dice showed before is forgotten.
    pub fn roll(self) -> (dices: Dices)
        ensures
            dices.rolled(),
    {
        let first = sample_ambient(1, 6);
        let second = sample_ambient(1, 6);
        Dices::from_values(first, second)
    }
}

/// After a roll a double leaves four uses and any other roll two.
pub proof fn lemma_rolled_uses(dices: Dices)
    requires
        dices.rolled(),
    ensures
        dices.values.0 == dices.values.1 <==> dices.consumed == (false, false, false, false),
        dices.values.0 != dices.values.1 <==> dices.consumed == (false, false, true, true),
        dices.uses_left() == if dices.values.0 == dices.values.1 {
            4nat
        } else {
            2nat
        },
{
}

/// Who moves first after both players rolled: player 0 when the first roll is
/// the greater, with the first die deciding and the second breaking its tie.
/// Player 1 moves first otherwise, so also when both rolled the same.
pub open spec fn opening_turn(first: Dices, second: Dices) -> Player {
    if first.values.0 > second.values.0 || (first.values.0 == second.values.0 && first.values.1
        > second.values.1) {
        Player::Player0
    } else {
        Player::Player1
    }
}

/// What is seen of a player at the table: who it is and the dice it holds.
pub struct SeatView {
    pub player: Player,
    pub dices: Option<Dices>,
}

/// A player with a generator of its own and, while it holds the turn, dice.
#[derive(Debug)]
pub struct PlayerWithDice {
    /// The player.
    pub player: Player,
    /// The generator that this player's rolls come from.
    pub rng: StdRng,
    /// The dice of the turn, or `None` while the other player moves.
    pub dices: Option<Dices>,
}

impl View for PlayerWithDice {
    type V = SeatView;

    open spec fn view(&self) -> SeatView {
        SeatView { player: self.player, dices: self.dices }
    }
}

impl Clone for PlayerWithDice {
    fn clone(&self) -> (copy: PlayerWithDice)
        ensures
            copy@ == self@,
    {
        PlayerWithDice { player: self.player, rng: rng_clone(&self.rng), dices: self.dices }
    }
}

impl PlayerWithDice {
    /// A player without dice whose rolls follow from `seed`.
    pub fn new(player: Player, seed: [u8; 32]) -> (seat: PlayerWithDice)
        ensures
            seat@ == (SeatView { player, dices: None }),
    {
        let rng = rng_from_seed(seed);
        PlayerWithDice { player, rng, dices: None }
    }

    /// Rolls both dice with this player's generator. The dice are returned,
    /// not kept: player and dices stay as they were.
    pub fn roll(&mut self) -> (dices: Dices)
        ensures
            dices.rolled(),
            final(self)@ == old(self)@,
    {
        let first = sample_seeded(&mut self.rng, 1, 6);
        let second = sample_seeded(&mut self.rng, 1, 6);
        Dices::from_values(first, second)
    }
}

/// What is seen of the two players and of the turn.
pub struct PlayersView {
    pub player1: SeatView,
    pub player2: SeatView,
    pub current: SeatView,
}

impl PlayersView {
    /// Player 0 and player 1 sit at the table, and `current` shows the one
    /// that holds the turn: it alone has dice, as a roll left them.
    pub open spec fn wf(self) -> bool {
        &&& self.player1.player == Player::Player0
        &&& self.player2.player == Player::Player1
        &&& self.current.dices is Some
        &&& self.current.dices->Some_0.rolled()
        &&& (self.current == self.player1 && self.player2.dices is None) || (self.current
            == self.player2 && self.player1.dices is None)
    }

    /// The table after the turn went to the other player, who rolled `dices`.
    pub open spec fn switched(self, dices: Dices) -> PlayersView {
        if self.current.player == self.player1.player {
            let next = SeatView { player: self.player2.player, dices: Some(dices) };
            PlayersView {
                player1: SeatView { player: self.player1.player, dices: None },
                player2: next,
                current: next,
            }
        } else {
            let next = SeatView { player: self.player1.player, dices: Some(dices) };
            PlayersView {
                player1: next,
                player2: SeatView { player: self.player2.player, dices: None },
                current: next,
            }
        }
    }

    /// The table after `player1` rolled `first` and `player2` rolled `second`
    /// for the first move: the one that moves first keeps its roll and is
    /// `current`, the other stays as it was.
    pub open spec fn opened(
        player1: SeatView,
        player2: SeatView,
        first: Dices,
        second: Dices,
    ) -> PlayersView {
        if opening_turn(first, second) == Player::Player0 {
            let holder = SeatView { player: player1.player, dices: Some(first) };
            PlayersView { player1: holder, player2, current: holder }
        } else {
            let holder = SeatView { player: player2.player, dices: Some(second) };
            PlayersView { player1, player2: holder, current: holder }
        }
    }

    /// The table that `Players::new` gives when the players rolled `first`
    /// and `second`.
    pub open spec fn started(first: Dices, second: Dices) -> PlayersView {
        Self::opened(
            SeatView { player: Player::Player0, dices: None },
            SeatView { player: Player::Player1, dices: None },
            first,
            second,
        )
    }
}

/// The two players of a game and the one that holds the turn.
#[derive(Debug)]
pub struct Players {
    player1: PlayerWithDice,
    player2: PlayerWithDice,
    /// A copy of the player that holds the turn.
    pub current: PlayerWithDice,
}

impl View for Players {
    type V = PlayersView;

    closed spec fn view(&self) -> PlayersView {
        PlayersView { player1: self.player1@, player2: self.player2@, current: self.current@ }
    }
}

impl Clone for Players {
    fn clone(&self) -> (copy: Players)
        ensures
            copy@ == self@,
    {
        Players {
            player1: self.player1.clone(),
            player2: self.player2.clone(),
            current: self.current.clone(),
        }
    }
}

impl Players {
    /// Who moves first after player 0 rolled `first` and player 1 `second`.
    pub fn first_to_move(first: Dices, second: Dices) -> (player: Player)
        ensures
            player == opening_turn(first, second),
    {
        if first.values.0 > second.values.0 || (first.values.0 == second.values.0
            && first.values.1 > second.values.1) {
            Player::Player0
        } else {
            Player::Player1
        }
    }

    /// Seats two players after the first rolled `first` and the second
    /// `second`: the one that moves first keeps its roll and is `current`.
    pub fn with_rolls(
        player1: PlayerWithDice,
        player2: PlayerWithDice,
        first: Dices,
        second: Dices,
    ) -> (players: Players)
        ensures
            players@ == PlayersView::opened(player1@, player2@, first, second),
    {
        let mut player1 = player1;
        let mut player2 = player2;
        let current = match Self::first_to_move(first, second) {
            Player::Player0 => {
                player1.dices = Some(first);
                player1.clone()
            },
            _ => {
                player2.dices = Some(second);
                player2.clone()
            },
        };
        Players { player1, player2, current }
    }

    /// Two players, each with a generator that follows from its seed. Both
    /// roll once; the greater roll moves first and keeps its dice, the other
    /// roll is forgotten. Equal rolls give the first move to player 1.
    pub fn new(first_seed: [u8; 32], second_seed: [u8; 32]) -> (players: Players)
        ensures
            players@.wf(),
            exists|first: Dices, second: Dices|
                first.rolled() && second.rolled() && players@ == PlayersView::started(
                    first,
                    second,
                ),
    {
        let mut player1 = PlayerWithDice::new(Player::Player0, first_seed);
        let mut player2 = PlayerWithDice::new(Player::Player1, second_seed);
        let player1_dices = player1.roll();
        let player2_dices = player2.roll();
        let players = Self::with_rolls(player1, player2, player1_dices, player2_dices);
        assert(players@ == PlayersView::started(player1_dices, player2_dices));
        players
    }

    /// Hands the turn to the other player, who rolled `dices`: the player
    /// that had the turn loses its dice, the other holds `dices` and becomes
    /// `current`.
    pub fn pass_turn(&mut self, dices: Dices)
        ensures
            final(self)@ == old(self)@.switched(dices),
    {
        if self.current.player == self.player1.player {
            self.player1.dices = None;
            self.player2.dices = Some(dices);
            self.current = self.player2.clone();
        } else {
            self.player2.dices = None;
            self.player1.dices = Some(dices);
            self.current = self.player1.clone();
        }
    }

    /// Hands the turn to the other player, who rolls with its own generator.
    pub fn switch(&mut self)
        ensures
            exists|dices: Dices| dices.rolled() && final(self)@ == old(self)@.switched(dices),
            old(self)@.wf() ==> final(self)@.wf(),
    {
        let dices = if self.current.player == self.player1.player {
            self.player2.roll()
        } else {
            self.player1.roll()
        };
        self.pass_turn(dices);
        assert(dices.rolled() && self@ == old(self)@.switched(dices));
    }
}

/// Rolling the dice, for a game built on them.
pub trait Roll {
    /// Rolls the dice.
    fn roll(&mut self) -> Result<&mut Self, Error>;
}

} // verus!

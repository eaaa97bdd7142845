use crate::rules::board::BoardDisplay;
use crate::rules::dices::{opening_turn, Dices, PlayersView};
use crate::rules::model::{checkers_below, mirror, BoardView};
use crate::rules::player::Player;
use crate::rules::position::{ascending, BoardPosition, MoveChecker};
use vstd::prelude::*;

verus! {

/// The points of the opening board as they are displayed.
pub open spec fn opening_display() -> Seq<i8> {
    seq![
        -2i8, 0i8, 0i8, 0i8, 0i8, 5i8, 0i8, 3i8, 0i8, 0i8, 0i8, -5i8, 5i8, 0i8, 0i8, 0i8, -3i8, 0i8,
        -5i8, 0i8, 0i8, 0i8, 0i8, 2i8,
    ]
}

/// A display of the opening board shows the standard layout: player 0's
/// checkers on the points 5, 7, 12 and 23, player 1's on the mirrored points,
/// and nothing on the bar or off the board.
pub proof fn lemma_opening_display(display: BoardDisplay)
    requires
        display.shows(BoardView::opening()),
    ensures
        display.board@ == opening_display(),
        display.bar == (0u8, 0u8),
        display.off == (0u8, 0u8),
{
    let expected = opening_display();
    assert forall|i: int| 0 <= i < 24 implies display.board@[i] == expected[i] by {
        assert(display.board@[i] as int == BoardView::opening().display_at(i));
    }
    assert(display.board@ =~= expected);
}

/// A point is blocked for one player exactly when it shows two or more
/// checkers of the other: counted down for player 0, up for player 1, on a
/// board where no point holds checkers of both.
pub proof fn lemma_blocked_in_display(board: BoardView, field: int)
    requires
        0 <= field <= 23,
        board.wf(),
        forall|i: int|
            0 <= i < 24 ==> board.player0.points[i] == 0 || board.player1.points[mirror(i)] == 0,
    ensures
        board.blocked(Player::Player0, field) <==> board.display_at(field) <= -2,
        board.blocked(Player::Player1, field) <==> board.display_at(mirror(field)) >= 2,
{
}

/// The moves from the points below `n` are exactly the candidates of those
/// points, each once, in rising order of the point they leave.
pub proof fn lemma_candidates_below(board: BoardView, player: Player, die: int, n: nat)
    requires
        n <= 24,
    ensures
        ascending(board.candidates_below(player, die, n)),
        forall|k: int|
            0 <= k < board.candidates_below(player, die, n).len() ==> {
                let m = #[trigger] board.candidates_below(player, die, n)[k];
                0 <= m.from_index() < n && board.candidate(player, die, m.from_index()) == Some(m)
            },
        forall|i: int|
            0 <= i < n && board.candidate(player, die, i) is Some ==> board.candidates_below(
                player,
                die,
                n,
            ).contains(#[trigger] board.candidate(player, die, i)->Some_0),
    decreases n,
{
    if n > 0 {
        let lower = board.candidates_below(player, die, (n - 1) as nat);
        let all = board.candidates_below(player, die, n);
        lemma_candidates_below(board, player, die, (n - 1) as nat);
        match board.candidate(player, die, n - 1) {
            Some(m) => {
                assert(all == lower.push(m));
                assert(m.from_index() == n - 1);
                assert(all[lower.len() as int] == m);
                assert forall|i: int|
                    0 <= i < n && board.candidate(player, die, i) is Some implies all.contains(
                    #[trigger] board.candidate(player, die, i)->Some_0,
                ) by {
                    if i < n - 1 {
                        let c = board.candidate(player, die, i)->Some_0;
                        assert(lower.contains(c));
                        let k = choose|k: int| 0 <= k < lower.len() && lower[k] == c;
                        assert(all[k] == c);
                    }
                }
            },
            None => {
                assert(all == lower);
            },
        }
    }
}

/// Changing the count on one point changes the checkers below `n` by as much
/// if the point lies below `n`, and not at all if it does not.
pub proof fn lemma_checkers_below_update(points: Seq<nat>, field: int, count: nat, n: nat)
    requires
        0 <= field < points.len(),
        n <= points.len(),
    ensures
        checkers_below(points.update(field, count), n) == if field < n {
            checkers_below(points, n) - points[field] + count
        } else {
            checkers_below(points, n) as int
        },
        field < n ==> checkers_below(points, n) >= points[field],
    decreases n,
{
    if n > 0 {
        lemma_checkers_below_update(points, field, count, (n - 1) as nat);
    }
}

/// `set` changes the checkers of the acting player by `delta` and keeps those
/// of the opponent: a checker that is hit goes to the bar.
pub proof fn lemma_set_totals(board: BoardView, player: Player, field: int, delta: int)
    requires
        board.sized(),
        0 <= field,
        board.set_result(player, field, delta) is Ok,
    ensures
        board.set_result(player, field, delta)->Ok_0.sized(),
        board.set_result(player, field, delta)->Ok_0.own(player).total() == board.own(
            player,
        ).total() + delta,
        board.set_result(player, field, delta)->Ok_0.opponent(player).total() == board.opponent(
            player,
        ).total(),
{
    let own = board.own(player);
    let opponent = board.opponent(player);
    lemma_checkers_below_update(own.points, field, (own.points[field] + delta) as nat, 24);
    lemma_checkers_below_update(opponent.points, mirror(field), 0, 24);
}

/// A move that is accepted keeps the checkers of both players: a board on
/// which each has fifteen stays so.
pub proof fn lemma_move_keeps_checkers(board: BoardView, m: MoveChecker)
    requires
        board.sized(),
        board.move_result(m) is Ok,
    ensures
        board.after_move(m).player0.total() == board.player0.total(),
        board.after_move(m).player1.total() == board.player1.total(),
        board.complete() ==> board.after_move(m).complete(),
{
    let lifted = board.lift_result(m)->Ok_0;
    match m.from {
        BoardPosition::Field(f) => {
            lemma_set_totals(board, m.player, f as int, -1);
        },
        _ => {},
    }
    match m.to {
        BoardPosition::Field(t) => {
            lemma_set_totals(lifted, m.player, t as int, 1);
        },
        _ => {},
    }
}

/// After the opening rolls the table is well formed, and the turn is with
/// player 0 exactly when its roll is the greater.
pub proof fn lemma_started_wf(first: Dices, second: Dices)
    requires
        first.rolled(),
        second.rolled(),
    ensures
        PlayersView::started(first, second).wf(),
        PlayersView::started(first, second).current.player == opening_turn(first, second),
{
}

/// Passing the turn at a well-formed table gives it to the other player with
/// the dice that were rolled, and the table is well formed again.
pub proof fn lemma_switched_wf(table: PlayersView, dices: Dices)
    requires
        table.wf(),
        dices.rolled(),
    ensures
        table.switched(dices).wf(),
        table.switched(dices).current.player != table.current.player,
        table.switched(dices).current.dices == Some(dices),
{
}

/// Passing the turn twice brings it back to the player that had it.
pub proof fn lemma_switched_twice(table: PlayersView, first: Dices, second: Dices)
    requires
        table.wf(),
    ensures
        table.switched(first).switched(second).current.player == table.current.player,
{
}

} // verus!

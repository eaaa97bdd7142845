use backgammon::{Board, BoardDisplay, BoardPosition, Error, MoveChecker, Player, PlayerBoard};

#[test]
fn default_board() {
    assert_eq!(Board::new(), Board::default());
}

#[test]
fn default_player_board() {
    assert_eq!(
        PlayerBoard::default(),
        PlayerBoard {
            board: [0, 0, 0, 0, 0, 5, 0, 3, 0, 0, 0, 0, 5, 0, 0, 0, 0, 0, 0, 0, 0, 0, 0, 2,],
            bar: 0,
            off: 0
        }
    );
}

#[test]
fn get_board() {
    let board = Board::new();
    assert_eq!(
        board.get(),
        BoardDisplay {
            board: [
                -2, 0, 0, 0, 0, 5, 0, 3, 0, 0, 0, -5, 5, 0, 0, 0, -3, 0, -5, 0, 0, 0, 0, 2,
            ],
            bar: (0, 0),
            off: (0, 0)
        }
    );
}

#[test]
fn get_bar() {
    let board = Board::new();
    assert_eq!(board.get_bar(), (0, 0));
}

#[test]
fn get_off() {
    let board = Board::new();
    assert_eq!(board.get_off(), (0, 0));
}

#[test]
fn set_player0() -> Result<(), Error> {
    let mut board = Board::new();
    board.set(Player::Player0, 1, 1)?;
    assert_eq!(board.get().board[1], 1);
    Ok(())
}

#[test]
fn set_player1() -> Result<(), Error> {
    let mut board = Board::new();
    board.set(Player::Player1, 2, 1)?;
    assert_eq!(board.get().board[21], -1);
    Ok(())
}

#[test]
fn set_player0_bar() -> Result<(), Error> {
    let mut board = Board::new();
    board.set_bar(Player::Player0, 1)?;
    assert_eq!(board.get().bar.0, 1);
    Ok(())
}

#[test]
fn set_player1_bar() -> Result<(), Error> {
    let mut board = Board::new();
    board.set_bar(Player::Player1, 1)?;
    assert_eq!(board.get().bar.1, 1);
    Ok(())
}

#[test]
fn set_player0_off() -> Result<(), Error> {
    let mut board = Board::new();
    board.set_off(Player::Player0, 1)?;
    assert_eq!(board.get().off.0, 1);
    Ok(())
}

#[test]
fn set_player1_off() -> Result<(), Error> {
    let mut board = Board::new();
    board.set_off(Player::Player1, 1)?;
    assert_eq!(board.get().off.1, 1);
    Ok(())
}

#[test]
fn set_player1_off1() -> Result<(), Error> {
    let mut board = Board::new();
    board.set_off(Player::Player1, 1)?;
    board.set_off(Player::Player1, 1)?;
    assert_eq!(board.get().off.1, 2);
    Ok(())
}

#[test]
fn set_invalid_player() {
    let mut board = Board::new();
    assert!(board.set(Player::Nobody, 0, 1).is_err());
    assert!(board.set_bar(Player::Nobody, 1).is_err());
    assert!(board.set_off(Player::Nobody, 1).is_err());
}

#[test]
fn blocked_player0() -> Result<(), Error> {
    let board = Board::new();
    assert!(board.blocked(Player::Player0, 0)?);
    Ok(())
}

#[test]
fn blocked_player1() -> Result<(), Error> {
    let board = Board::new();
    assert!(board.blocked(Player::Player1, 0)?);
    Ok(())
}

#[test]
fn blocked_player0_a() -> Result<(), Error> {
    let mut board = Board::new();
    board.set(Player::Player1, 1, 2)?;
    assert!(board.blocked(Player::Player0, 22)?);
    Ok(())
}

#[test]
fn blocked_player1_a() -> Result<(), Error> {
    let mut board = Board::new();
    board.set(Player::Player0, 1, 2)?;
    assert!(board.blocked(Player::Player1, 22)?);
    Ok(())
}

#[test]
fn blocked_invalid_player() {
    let board = Board::new();
    assert!(board.blocked(Player::Nobody, 0).is_err());
}

#[test]
fn blocked_invalid_field() {
    let board = Board::new();
    assert!(board.blocked(Player::Player0, 24).is_err());
}

#[test]
fn set_field_with_1_checker_player0_a() -> Result<(), Error> {
    let mut board = Board::new();
    board.set(Player::Player0, 1, 1)?;
    board.set(Player::Player1, 22, 1)?;
    assert_eq!(board.get().board[1], -1);
    assert_eq!(board.get().bar.0, 1);
    Ok(())
}

#[test]
fn set_field_with_1_checker_player0_b() -> Result<(), Error> {
    let mut board = Board::new();
    board.set(Player::Player0, 1, 1)?;
    board.set_bar(Player::Player0, 5)?;
    board.set(Player::Player1, 22, 1)?;
    assert_eq!(board.get().board[1], -1);
    assert_eq!(board.get().bar.0, 6);
    Ok(())
}

#[test]
fn set_field_with_1_checker_player1_a() -> Result<(), Error> {
    let mut board = Board::new();
    board.set(Player::Player1, 1, 1)?;
    board.set(Player::Player0, 22, 1)?;
    assert_eq!(board.get().board[22], 1);
    assert_eq!(board.get().bar.1, 1);
    Ok(())
}

#[test]
fn set_field_with_1_checker_player1_b() -> Result<(), Error> {
    let mut board = Board::new();
    board.set(Player::Player1, 1, 1)?;
    board.set_bar(Player::Player1, 5)?;
    board.set(Player::Player0, 22, 1)?;
    assert_eq!(board.get().board[22], 1);
    assert_eq!(board.get().bar.1, 6);
    Ok(())
}

#[test]
fn set_field_with_2_checkers_player0_a() -> Result<(), Error> {
    let mut board = Board::new();
    board.set(Player::Player0, 23, 2)?;
    assert_eq!(board.get().board[23], 4);
    Ok(())
}

#[test]
fn set_field_with_2_checkers_player0_b() -> Result<(), Error> {
    let mut board = Board::new();
    board.set(Player::Player0, 23, -1)?;
    assert_eq!(board.get().board[23], 1);
    Ok(())
}

#[test]
fn set_field_blocked() {
    let mut board = Board::new();
    assert!(board.set(Player::Player0, 0, 2).is_err());
}

#[test]
fn set_wrong_field1() {
    let mut board = Board::new();
    assert!(board.set(Player::Player0, 50, 2).is_err());
}

#[test]
fn set_wrong_amount0() {
    let mut board = Board::new();
    assert!(board.set(Player::Player0, 23, -3).is_err());
}

#[test]
fn set_wrong_amount1() {
    let mut board = Board::new();
    assert!(board.set(Player::Player1, 23, -3).is_err());
}

#[test]
fn generate_a_move() {
    let board = Board::new();
    let move_checker = board.generate_a_possible_moves(Player::Player0, 1).unwrap();
    assert_eq!(move_checker.len(), 3);
    assert_eq!(move_checker, vec![MoveChecker {
        player: Player::Player0,
        from: BoardPosition::Field(5),
        to: BoardPosition::Field(4),
    }, MoveChecker {
        player: Player::Player0,
        from: BoardPosition::Field(7),
        to: BoardPosition::Field(6),
    }, MoveChecker {
        player: Player::Player0,
        from: BoardPosition::Field(23),
        to: BoardPosition::Field(22),
    }]);
}

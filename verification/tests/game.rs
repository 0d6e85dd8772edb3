use tictactoe::game::GameError;
use tictactoe::game::Player::Clear;
use tictactoe::game::Player;
use tictactoe::game::TicTacToe;

#[test]
fn game_start_with_empty_board() {
    let game = TicTacToe::new();
    let board = vec![
        vec![Clear, Clear, Clear],
        vec![Clear, Clear, Clear],
        vec![Clear, Clear, Clear],
    ];

    assert_eq!(game.board(), board);
}

#[test]
fn game_start_with_player_o() {
    let game = TicTacToe::new();
    assert_eq!(game.get_turn(), Player::O);
}

#[test]
fn game_turn_based_player() {
    let mut game = TicTacToe::new();

    let result = game.next_turn();
    assert_eq!(result, Ok(()));
    assert_eq!(game.get_turn(), Player::X);

    let result = game.next_turn();
    assert_eq!(result, Ok(()));
    assert_eq!(game.get_turn(), Player::O);

    game.fill(0, 0).unwrap();
    game.fill(1, 1).unwrap();
    game.fill(2, 2).unwrap();

    let result = game.next_turn();
    assert_eq!(result.unwrap_err().message(), "game already over");
}

#[test]
fn print_board() {
    let game = TicTacToe::new();
    let board = "   _____C_O_L_____ 
  | λ | 0 | 1 | 2 |
  |---|---|---|---|
R | 0 |   |   |   |
O |---|---|---|---|
W | 1 |   |   |   |
  |---|---|---|---|
  | 2 |   |   |   |
   --------------- ";

    assert_eq!(game.get_board(), board);
}

#[test]
fn game_cannot_fill_outside_range() {
    let mut game = TicTacToe::new();

    let result = game.fill(-1, 2);
    assert_eq!(result.unwrap_err().message(), String::from("row and col must be between 0 and 2"));

    let result = game.fill(3, 2);
    assert_eq!(result.unwrap_err().message(), String::from("row and col must be between 0 and 2"));

    let result = game.fill(0, -1);
    assert_eq!(result.unwrap_err().message(), String::from("row and col must be between 0 and 2"));

    let result = game.fill(0, 3);
    assert_eq!(result.unwrap_err().message(), String::from("row and col must be between 0 and 2"));
}

#[test]
fn cannot_fill_occupied_cell() {
    let mut game = TicTacToe::new();

    let _result = game.fill(0, 0).unwrap();
    let result = game.fill(0, 0);

    assert_eq!(result.unwrap_err().message(), String::from("row 0 and col 0 are occupied"));
}

#[test]
fn game_check_for_row_win() {
    for r in 0..3 {
        let mut game = TicTacToe::new();

        assert_eq!(game.check_rows(), false);
        game.fill(r, 0).unwrap();
        game.fill(r, 1).unwrap();
        game.fill(r, 2).unwrap();
        assert_eq!(game.check_rows(), true);
    }
}

#[test]
fn game_check_for_col_win() {
    for c in 0..3 {
        let mut game = TicTacToe::new();

        assert_eq!(game.check_cols(), false);
        game.fill(0, c).unwrap();
        game.fill(1, c).unwrap();
        game.fill(2, c).unwrap();
        assert_eq!(game.check_cols(), true);
    }
}

#[test]
fn game_check_topleft_bottom_right_win() {
    let mut game = TicTacToe::new();

    assert_eq!(game.check_topleft_bottom_right(), false);
    game.fill(0, 0).unwrap();
    game.fill(1, 1).unwrap();
    game.fill(2, 2).unwrap();
    assert_eq!(game.check_topleft_bottom_right(), true);
}

#[test]
fn game_check_bottomleft_topright_win() {
    let mut game = TicTacToe::new();

    assert_eq!(game.check_bottomleft_topright(), false);
    game.fill(0, 2).unwrap();
    game.fill(1, 1).unwrap();
    game.fill(2, 0).unwrap();
    assert_eq!(game.check_bottomleft_topright(), true);
}

#[test]
fn game_check_game_over() {
    let mut game = TicTacToe::new();

    assert_eq!(game.check_game_over(), false);
    game.fill(0, 2).unwrap();
    game.fill(1, 1).unwrap();
    game.fill(2, 0).unwrap();
    assert_eq!(game.check_game_over(), true);
}

#[test]
fn lib_start_with_empty_board() {
    let game = TicTacToe::new();
    let board = vec![
        vec![Clear, Clear, Clear],
        vec![Clear, Clear, Clear],
        vec![Clear, Clear, Clear],
    ];

    assert_eq!(game.board(), board);
}

#[test]
fn lib_start_with_player_o() {
    let game = TicTacToe::new();
    assert_eq!(game.get_turn(), Player::O);
}

#[test]
fn lib_turn_based_player() {
    let mut game = TicTacToe::new();

    let result = game.next_turn();
    if let Ok(_) = result {
        assert_eq!(game.get_turn(), Player::X);
    }

    let result = game.next_turn();
    if let Ok(_) = result {
        assert_eq!(game.get_turn(), Player::O);
    }
}

#[test]
fn lib_cannot_fill_outside_range() {
    let mut game = TicTacToe::new();

    let result = game.fill(-1, 2);
    assert_eq!(result, Err(GameError::OutOfRange));

    let result = game.fill(3, 2);
    assert_eq!(result, Err(GameError::OutOfRange));

    let result = game.fill(0, -1);
    assert_eq!(result, Err(GameError::OutOfRange));

    let result = game.fill(0, 3);
    assert_eq!(result, Err(GameError::OutOfRange));
}

#[test]
fn lib_check_for_row_win() {
    for r in 0..3 {
        let mut game = TicTacToe::new();

        assert_eq!(game.check_rows(), false);
        game.fill(r, 0).unwrap();
        game.fill(r, 1).unwrap();
        game.fill(r, 2).unwrap();
        assert_eq!(game.check_rows(), true);
    }
}

#[test]
fn lib_check_for_col_win() {
    for c in 0..3 {
        let mut game = TicTacToe::new();

        assert_eq!(game.check_cols(), false);
        game.fill(0, c).unwrap();
        game.fill(1, c).unwrap();
        game.fill(2, c).unwrap();
        assert_eq!(game.check_cols(), true);
    }
}

#[test]
fn lib_check_topleft_bottom_right_win() {
    let mut game = TicTacToe::new();

    assert_eq!(game.check_topleft_bottom_right(), false);
    game.fill(0, 0).unwrap();
    game.fill(1, 1).unwrap();
    game.fill(2, 2).unwrap();
    assert_eq!(game.check_topleft_bottom_right(), true);
}

#[test]
fn lib_check_bottomleft_topright_win() {
    let mut game = TicTacToe::new();

    assert_eq!(game.check_bottomleft_topright(), false);
    game.fill(0, 2).unwrap();
    game.fill(1, 1).unwrap();
    game.fill(2, 0).unwrap();
    assert_eq!(game.check_bottomleft_topright(), true);
}

#[test]
fn lib_check_game_over() {
    let mut game = TicTacToe::new();

    assert_eq!(game.check_game_over(), false);
    game.fill(0, 2).unwrap();
    game.fill(1, 1).unwrap();
    game.fill(2, 0).unwrap();
    assert_eq!(game.check_game_over(), true);
}

#[test]
fn fill_out_of_range_leaves_grid_unchanged() {
    let mut game = TicTacToe::new();
    game.fill(0, 0).unwrap();
    let before = game.board();

    assert_eq!(game.fill(3, 3), Err(GameError::OutOfRange));
    assert_eq!(game.fill(-1, 0), Err(GameError::OutOfRange));
    assert_eq!(game.board(), before);
    assert_eq!(game.get_turn(), Player::O);
}

#[test]
fn occupied_cell_keeps_first_value() {
    let mut game = TicTacToe::new();
    game.fill(1, 2).unwrap();
    game.next_turn().unwrap();

    let result = game.fill(1, 2);
    assert_eq!(result, Err(GameError::Occupied(1, 2)));
    assert_eq!(game.board()[1][2], Player::O);
    assert_eq!(game.get_turn(), Player::X);
}

#[test]
fn partial_lines_do_not_end_the_game() {
    let mut game = TicTacToe::new();
    game.fill(0, 0).unwrap();
    assert_eq!(game.check_game_over(), false);
    game.fill(0, 1).unwrap();
    assert_eq!(game.check_game_over(), false);

    let mut game = TicTacToe::new();
    game.fill(0, 2).unwrap();
    game.fill(1, 2).unwrap();
    assert_eq!(game.check_game_over(), false);

    let mut game = TicTacToe::new();
    game.fill(0, 0).unwrap();
    game.fill(2, 2).unwrap();
    assert_eq!(game.check_game_over(), false);

    let mut game = TicTacToe::new();
    game.fill(0, 2).unwrap();
    game.fill(1, 1).unwrap();
    assert_eq!(game.check_game_over(), false);
}

#[test]
fn mixed_symbols_do_not_win_a_line() {
    let mut game = TicTacToe::new();
    game.fill(0, 0).unwrap();
    game.next_turn().unwrap();
    game.fill(0, 1).unwrap();
    game.next_turn().unwrap();
    game.fill(0, 2).unwrap();
    assert_eq!(game.check_rows(), false);
    assert_eq!(game.check_game_over(), false);
}

#[test]
fn bench_hands_out_both_seats_then_fails() {
    let mut game = TicTacToe::new();
    assert_eq!(game.seats_remaining(), 2);
    assert_eq!(game.get_player_from_bench(), Ok(Player::O));
    assert_eq!(game.seats_remaining(), 1);
    assert_eq!(game.get_player_from_bench(), Ok(Player::X));
    assert_eq!(game.seats_remaining(), 0);
    assert_eq!(game.get_player_from_bench(), Err(GameError::NoSeatsAvailable));
    assert_eq!(game.get_player_from_bench().unwrap_err().message(), "no seats available");
}

#[test]
fn board_renders_symbols_in_place() {
    let mut game = TicTacToe::new();
    game.fill(0, 0).unwrap();
    game.next_turn().unwrap();
    game.fill(1, 1).unwrap();
    let board = "   _____C_O_L_____ 
  | λ | 0 | 1 | 2 |
  |---|---|---|---|
R | 0 | O |   |   |
O |---|---|---|---|
W | 1 |   | X |   |
  |---|---|---|---|
  | 2 |   |   |   |
   --------------- ";

    assert_eq!(game.get_board(), board);
}

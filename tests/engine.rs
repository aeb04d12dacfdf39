use bitboard_tictactoe::bitboard::BitBoard;
use bitboard_tictactoe::game::Action;
use bitboard_tictactoe::tictactoe::{
    GameStatus, PlayError, PlayerSign, TicTacToeBoard, TicTacToeGame,
};

fn play_all(moves: &[usize]) -> TicTacToeGame {
    let mut g = TicTacToeGame::new();
    for &m in moves {
        g = g.make_play(m).expect("move accepted");
    }
    g
}

fn cell_of(g: &TicTacToeGame, placement: usize) -> Option<PlayerSign> {
    let (x, o) = g.board().get_bit_boards();
    if x.get_bit(placement - 1) == 1 {
        Some(PlayerSign::X)
    } else if o.get_bit(placement - 1) == 1 {
        Some(PlayerSign::O)
    } else {
        None
    }
}

#[test]
fn bitboard_operators() {
    let a = BitBoard::with_bits(0b1100);
    let b = BitBoard::with_bits(0b1010);
    assert_eq!(a & b, BitBoard::with_bits(0b1000));
    assert_eq!(a | b, BitBoard::with_bits(0b1110));
    assert_eq!(a ^ b, BitBoard::with_bits(0b0110));
    assert_eq!(a & 0b0100usize, BitBoard::with_bits(0b0100));
    assert_eq!(a | 0b0001usize, BitBoard::with_bits(0b1101));
    assert_eq!(a ^ 0b0100usize, BitBoard::with_bits(0b1000));
    assert_eq!(a << 2usize, BitBoard::with_bits(0b110000));
    assert_eq!(a >> 2usize, BitBoard::with_bits(0b11));
    assert_eq!(BitBoard::new(), BitBoard::with_bits(0));
    assert_eq!(BitBoard::default(), BitBoard::new());
}

#[test]
fn bitboard_get_bit() {
    let a = BitBoard::with_bits(0b100000101);
    assert_eq!(a.get_bit(0), 1);
    assert_eq!(a.get_bit(1), 0);
    assert_eq!(a.get_bit(2), 1);
    assert_eq!(a.get_bit(8), 1);
    assert_eq!(a.get_bit(9), 0);
}

#[test]
fn action_holds_its_value() {
    let a = Action::new(7usize);
    assert_eq!(a.get(), 7);
}

#[test]
fn empty_board_queries() {
    let b = TicTacToeBoard::new();
    assert!(b.is_empty());
    assert!(!b.is_filled());
    for i in 0..9 {
        assert!(!b.already_played(i));
    }
    let (x, o) = b.get_bit_boards();
    assert_eq!(x, BitBoard::new());
    assert_eq!(o, BitBoard::new());
}

#[test]
fn placing_marks_the_right_side() {
    let b = TicTacToeBoard::new();
    let b = b.place_on_x_board(4).expect("free");
    let b = b.place_on_o_board(0).expect("free");
    let (x, o) = b.get_bit_boards();
    assert_eq!(x, BitBoard::with_bits(0b10000));
    assert_eq!(o, BitBoard::with_bits(0b1));
    assert!(b.already_played(4));
    assert!(b.already_played(0));
    assert!(!b.already_played(8));
    assert!(!b.is_empty());
    assert!(b.place_on_x_board(0).is_none());
    assert!(b.place_on_o_board(4).is_none());
}

#[test]
fn filled_board_is_filled() {
    let mut b = TicTacToeBoard::new();
    for i in 0..9 {
        b = if i % 2 == 0 {
            b.place_on_x_board(i).expect("free")
        } else {
            b.place_on_o_board(i).expect("free")
        };
    }
    assert!(b.is_filled());
    assert!(!b.is_empty());
}

#[test]
fn new_game_state() {
    let g = TicTacToeGame::new();
    assert_eq!(g.current_status(), GameStatus::StillGoing);
    assert!(!g.is_over());
    assert_eq!(g.get_current_player(), PlayerSign::X);
    assert_eq!(g.get_moves(), vec![1, 2, 3, 4, 5, 6, 7, 8, 9]);
    assert!(g.board().is_empty());
    let d = TicTacToeGame::default();
    assert_eq!(d.get_current_player(), PlayerSign::X);
    assert_eq!(d.current_status(), GameStatus::StillGoing);
}

#[test]
fn top_row_wins_for_x() {
    let g = TicTacToeGame::new();
    let g = g.make_play(1).unwrap();
    assert_eq!(g.current_status(), GameStatus::StillGoing);
    let g = g.make_play(4).unwrap();
    let g = g.make_play(2).unwrap();
    let g = g.make_play(5).unwrap();
    assert_eq!(g.current_status(), GameStatus::StillGoing);
    let g = g.make_play(3).unwrap();
    assert_eq!(g.current_status(), GameStatus::XWon);
    assert!(g.is_over());
}

#[test]
fn nine_moves_without_a_line_draw() {
    let order = [1, 2, 3, 4, 5, 7, 6, 9, 8];
    let mut g = TicTacToeGame::new();
    for (i, &m) in order.iter().enumerate() {
        assert_eq!(g.current_status(), GameStatus::StillGoing);
        g = g.make_play(m).expect("accepted");
        if i < 8 {
            assert!(!g.is_over());
        }
    }
    assert_eq!(g.current_status(), GameStatus::Draw);
    assert!(g.is_over());
    assert!(g.board().is_filled());
    assert!(g.get_moves().is_empty());
}

#[test]
fn same_cell_twice_is_refused() {
    let g = TicTacToeGame::new();
    let g1 = g.make_play(1).expect("first attempt accepted");
    assert_eq!(g1.try_play(1).unwrap_err(), PlayError::CellOccupied);
    assert!(g1.make_play(1).is_none());
    assert_eq!(g1.get_current_player(), PlayerSign::O);
    assert_eq!(g1.current_status(), GameStatus::StillGoing);
    assert_eq!(cell_of(&g1, 1), Some(PlayerSign::X));
    assert_eq!(g1.get_moves(), vec![2, 3, 4, 5, 6, 7, 8, 9]);
}

#[test]
fn refusal_repeats_and_leaves_game_alone() {
    let g = play_all(&[5, 1]);
    let first = g.try_play(5).unwrap_err();
    let second = g.try_play(5).unwrap_err();
    assert_eq!(first, PlayError::CellOccupied);
    assert_eq!(second, PlayError::CellOccupied);
    assert_eq!(g.get_current_player(), PlayerSign::X);
    assert_eq!(g.get_moves(), vec![2, 3, 4, 6, 7, 8, 9]);
}

#[test]
fn out_of_range_placements_are_refused() {
    let g = TicTacToeGame::new();
    assert_eq!(g.try_play(0).unwrap_err(), PlayError::OutOfRangePlacement);
    assert_eq!(g.try_play(10).unwrap_err(), PlayError::OutOfRangePlacement);
    assert_eq!(g.try_play(usize::MAX).unwrap_err(), PlayError::OutOfRangePlacement);
    assert!(g.make_play(0).is_none());
    assert!(g.make_play(10).is_none());
    assert!(g.board().is_empty());
    assert_eq!(g.get_current_player(), PlayerSign::X);
    assert_eq!(g.current_status(), GameStatus::StillGoing);
}

#[test]
fn no_move_after_the_game_is_over() {
    let g = play_all(&[1, 4, 2, 5, 3]);
    assert_eq!(g.try_play(9).unwrap_err(), PlayError::GameAlreadyOver);
    assert_eq!(g.try_play(1).unwrap_err(), PlayError::GameAlreadyOver);
    assert_eq!(g.try_play(0).unwrap_err(), PlayError::GameAlreadyOver);
}

#[test]
fn turns_alternate_from_x() {
    let order = [5, 1, 9, 3, 2, 8];
    let mut g = TicTacToeGame::new();
    let mut expected = PlayerSign::X;
    for &m in order.iter() {
        assert_eq!(g.get_current_player(), expected);
        g = g.make_play(m).unwrap();
        expected = match expected {
            PlayerSign::X => PlayerSign::O,
            PlayerSign::O => PlayerSign::X,
        };
    }
    assert_eq!(g.get_current_player(), expected);
    assert_eq!(cell_of(&g, 5), Some(PlayerSign::X));
    assert_eq!(cell_of(&g, 1), Some(PlayerSign::O));
    assert_eq!(cell_of(&g, 4), None);
}

#[test]
fn every_line_wins_for_x() {
    // each line, with X's third mark last and O playing elsewhere
    let lines: [([usize; 3], [usize; 2]); 8] = [
        ([1, 2, 3], [4, 5]),
        ([4, 5, 6], [1, 2]),
        ([7, 8, 9], [1, 2]),
        ([1, 4, 7], [2, 3]),
        ([2, 5, 8], [1, 3]),
        ([3, 6, 9], [1, 2]),
        ([1, 5, 9], [2, 3]),
        ([3, 5, 7], [1, 2]),
    ];
    for (xs, os) in lines.iter() {
        let g = play_all(&[xs[0], os[0], xs[1], os[1], xs[2]]);
        assert_eq!(g.current_status(), GameStatus::XWon);
    }
}

#[test]
fn line_with_extra_marks_wins_for_o() {
    // O holds the middle column plus cell 4; X holds no line
    let g = play_all(&[1, 2, 3, 5, 6, 4, 7, 8]);
    assert_eq!(g.current_status(), GameStatus::OWon);
    assert!(g.is_over());
}

#[test]
fn winning_last_move_on_full_board_is_a_win() {
    // X's ninth move fills the board and completes the diagonal 1-5-9
    let g = play_all(&[1, 3, 2, 4, 5, 7, 6, 8]);
    assert_eq!(g.current_status(), GameStatus::StillGoing);
    let g = g.make_play(9).unwrap();
    assert!(g.board().is_filled());
    assert_eq!(g.current_status(), GameStatus::XWon);
}

#[test]
fn moves_list_free_cells_in_order() {
    let g = play_all(&[9, 1, 5]);
    assert_eq!(g.get_moves(), vec![2, 3, 4, 6, 7, 8]);
}

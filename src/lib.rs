pub mod bitboard;
pub mod game;
pub mod tictactoe;

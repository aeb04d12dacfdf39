use crate::bitboard::{bit_set, BitBoard};
use vstd::prelude::*;

verus! {

/// All nine cells.
pub const FILLED_BOARD: usize = 0b111111111;

/// No cell.
pub const EMPTY_BOARD: usize = 0;

/// The eight lines of three cells that win: rows top to bottom, columns
/// left to right, then the two diagonals. Cell 0 is the top-left corner and
/// cells are numbered left to right, then top to bottom.
pub open spec fn win_line(k: int) -> usize {
    if k == 0 {
        0b111000000
    } else if k == 1 {
        0b000111000
    } else if k == 2 {
        0b000000111
    } else if k == 3 {
        0b100100100
    } else if k == 4 {
        0b010010010
    } else if k == 5 {
        0b001001001
    } else if k == 6 {
        0b100010001
    } else {
        0b001010100
    }
}

/// The mark-set `m` holds every cell of some winning line.
pub open spec fn has_line(m: usize) -> bool {
    exists|k: int| 0 <= k < 8 && (m & #[trigger] win_line(k)) == win_line(k)
}

/// The two marks of the game.
#[derive(Debug, Copy, Clone, PartialEq, Eq, Structural)]
pub enum PlayerSign {
    X,
    O,
}

impl PlayerSign {
    /// The player who moves after this one.
    pub open spec fn other(self) -> PlayerSign {
        match self {
            PlayerSign::X => PlayerSign::O,
            PlayerSign::O => PlayerSign::X,
        }
    }
}

/// The outcome of a game.
#[derive(Debug, Copy, Clone, PartialEq, Eq, Structural)]
pub enum GameStatus {
    XWon,
    OWon,
    Draw,
    StillGoing,
}

/// The status that reports a win for `p`.
pub open spec fn win_for(p: PlayerSign) -> GameStatus {
    match p {
        PlayerSign::X => GameStatus::XWon,
        PlayerSign::O => GameStatus::OWon,
    }
}

/// The outcome of a board whose X marks are `x` and O marks are `o`: a line
/// of X, else a line of O, else a full board is a draw.
pub open spec fn outcome_of(x: usize, o: usize) -> GameStatus {
    if has_line(x) {
        GameStatus::XWon
    } else if has_line(o) {
        GameStatus::OWon
    } else if x | o == FILLED_BOARD {
        GameStatus::Draw
    } else {
        GameStatus::StillGoing
    }
}

/// The cells held by each player, one set of bits per mark.
#[derive(Default, Debug, Clone, Copy)]
pub struct TicTacToeBoard {
    x_board: BitBoard,
    o_board: BitBoard,
}

impl TicTacToeBoard {
    /// The cells marked X.
    pub closed spec fn x_marks(&self) -> usize {
        self.x_board@
    }

    /// The cells marked O.
    pub closed spec fn o_marks(&self) -> usize {
        self.o_board@
    }

    /// The cells marked by `p`.
    pub open spec fn marks_of(&self, p: PlayerSign) -> usize {
        match p {
            PlayerSign::X => self.x_marks(),
            PlayerSign::O => self.o_marks(),
        }
    }

    /// No cell is held by both players, and only the nine cells are used.
    pub open spec fn wf(&self) -> bool {
        &&& self.x_marks() & self.o_marks() == 0
        &&& self.x_marks() | self.o_marks() <= FILLED_BOARD
    }

    /// Cell `i` is held by either player.
    pub open spec fn occupied(&self, i: usize) -> bool {
        bit_set(self.x_marks(), i) || bit_set(self.o_marks(), i)
    }

    pub open spec fn outcome(&self) -> GameStatus {
        outcome_of(self.x_marks(), self.o_marks())
    }

    /// `next` is this board with cell `i` added to the marks of `p`.
    pub open spec fn is_placed(&self, p: PlayerSign, i: usize, next: TicTacToeBoard) -> bool {
        &&& next.marks_of(p) == self.marks_of(p) | (1usize << i)
        &&& next.marks_of(p.other()) == self.marks_of(p.other())
    }

    /// The empty board.
    pub fn new() -> (r: TicTacToeBoard)
        ensures
            r.x_marks() == 0,
            r.o_marks() == 0,
            r.wf(),
    {
        let r = TicTacToeBoard { x_board: BitBoard::new(), o_board: BitBoard::new() };
        assert(0usize & 0usize == 0 && 0usize | 0usize <= FILLED_BOARD) by (bit_vector);
        r
    }

    pub fn is_empty(&self) -> (r: bool)
        ensures
            r == (self.x_marks() | self.o_marks() == EMPTY_BOARD),
    {
        (self.x_board | self.o_board) == BitBoard::with_bits(EMPTY_BOARD)
    }

    pub fn is_filled(&self) -> (r: bool)
        ensures
            r == (self.x_marks() | self.o_marks() == FILLED_BOARD),
    {
        (self.x_board | self.o_board) == BitBoard::with_bits(FILLED_BOARD)
    }

    /// Whether cell `placement` (0 to 8) is held by either player.
    pub fn already_played(&self, placement: usize) -> (r: bool)
        requires
            placement < 9,
        ensures
            r == self.occupied(placement),
    {
        let r = (self.x_board | self.o_board) & (1usize << placement) != BitBoard::with_bits(
            EMPTY_BOARD,
        );
        let ghost x = self.x_board@;
        let ghost o = self.o_board@;
        assert(((x | o) & (1usize << placement) != 0) == (((x >> placement) & 1 == 1) || ((o
            >> placement) & 1 == 1))) by (bit_vector)
            requires
                placement < 9,
        ;
        r
    }

    /// Marks cell `placement` (0 to 8) for X, or gives `None` where the cell
    /// is already held.
    pub fn place_on_x_board(&self, placement: usize) -> (r: Option<TicTacToeBoard>)
        requires
            placement < 9,
        ensures
            r is None <==> self.occupied(placement),
            r matches Some(b) ==> self.is_placed(PlayerSign::X, placement, b),
            r matches Some(b) ==> (self.wf() ==> b.wf()),
    {
        if self.already_played(placement) {
            None
        } else {
            let board = self.x_board | (1usize << placement);
            let r = TicTacToeBoard { x_board: board, o_board: self.o_board };
            proof {
                lemma_place_keeps_wf(self.x_board@, self.o_board@, placement);
            }
            Some(r)
        }
    }

    /// Marks cell `placement` (0 to 8) for O, or gives `None` where the cell
    /// is already held.
    pub fn place_on_o_board(&self, placement: usize) -> (r: Option<TicTacToeBoard>)
        requires
            placement < 9,
        ensures
            r is None <==> self.occupied(placement),
            r matches Some(b) ==> self.is_placed(PlayerSign::O, placement, b),
            r matches Some(b) ==> (self.wf() ==> b.wf()),
    {
        if self.already_played(placement) {
            None
        } else {
            let board = self.o_board | (1usize << placement);
            let r = TicTacToeBoard { x_board: self.x_board, o_board: board };
            proof {
                lemma_place_keeps_wf(self.o_board@, self.x_board@, placement);
            }
            Some(r)
        }
    }

    /// The X marks and the O marks.
    pub fn get_bit_boards(&self) -> (r: (BitBoard, BitBoard))
        ensures
            r.0@ == self.x_marks(),
            r.1@ == self.o_marks(),
    {
        (self.x_board, self.o_board)
    }
}

/// Adding a free cell to one side of a well-formed board keeps it
/// well-formed, whichever side `a` stands for.
proof fn lemma_place_keeps_wf(a: usize, b: usize, i: usize)
    requires
        i < 9,
    ensures
        ({
            let a2 = a | (1usize << i);
            let disjoint = a & b == 0 || b & a == 0;
            let within = a | b <= FILLED_BOARD || b | a <= FILLED_BOARD;
            disjoint && within && !bit_set(a, i) && !bit_set(b, i) ==> a2 & b == 0 && b & a2 == 0
                && a2 | b <= FILLED_BOARD && b | a2 <= FILLED_BOARD
        }),
{
    let a2 = a | (1usize << i);
    assert(((a & b == 0 || b & a == 0) && (a | b <= 0b111111111usize || b | a <= 0b111111111usize)
        && (a >> i) & 1 != 1 && (b >> i) & 1 != 1) ==> (a2 & b == 0 && b & a2 == 0 && a2 | b
        <= 0b111111111usize && b | a2 <= 0b111111111usize)) by (bit_vector)
        requires
            i < 9,
            a2 == a | (1usize << i),
    ;
}

/// Why a move was refused.
#[derive(Debug, Copy, Clone, PartialEq, Eq, Structural)]
pub enum PlayError {
    /// The game already has an outcome.
    GameAlreadyOver,
    /// The placement is not one of 1 to 9.
    OutOfRangePlacement,
    /// The cell is held by either player.
    CellOccupied,
}

/// Winning line `k` (0 to 7) as a set of cells.
fn won_board(k: usize) -> (r: BitBoard)
    requires
        k < 8,
    ensures
        r@ == win_line(k as int),
{
    if k == 0 {
        BitBoard::with_bits(0b111000000)
    } else if k == 1 {
        BitBoard::with_bits(0b000111000)
    } else if k == 2 {
        BitBoard::with_bits(0b000000111)
    } else if k == 3 {
        BitBoard::with_bits(0b100100100)
    } else if k == 4 {
        BitBoard::with_bits(0b010010010)
    } else if k == 5 {
        BitBoard::with_bits(0b001001001)
    } else if k == 6 {
        BitBoard::with_bits(0b100010001)
    } else {
        BitBoard::with_bits(0b001010100)
    }
}

/// A game in progress or finished: the board, whose turn it is, and the
/// outcome of the board.
#[derive(Debug, Clone, Copy)]
pub struct TicTacToeGame {
    board: TicTacToeBoard,
    current_player: PlayerSign,
    status: GameStatus,
}

impl TicTacToeGame {
    pub closed spec fn spec_board(&self) -> TicTacToeBoard {
        self.board
    }

    pub closed spec fn spec_player(&self) -> PlayerSign {
        self.current_player
    }

    pub closed spec fn spec_status(&self) -> GameStatus {
        self.status
    }

    /// The board is well-formed and the recorded status is its outcome.
    pub open spec fn wf(&self) -> bool {
        &&& self.spec_board().wf()
        &&& self.spec_status() == self.spec_board().outcome()
    }

    /// An empty board with X to move and the game going on.
    pub open spec fn is_initial(&self) -> bool {
        &&& self.spec_board().x_marks() == 0
        &&& self.spec_board().o_marks() == 0
        &&& self.spec_player() == PlayerSign::X
        &&& self.spec_status() == GameStatus::StillGoing
    }

    /// `placement` (1 to 9) names a free cell.
    pub open spec fn is_free_placement(&self, placement: usize) -> bool {
        1 <= placement <= 9 && !self.spec_board().occupied((placement - 1) as usize)
    }

    /// Why a move at `placement` is refused, checked in this order; `None`
    /// where it is accepted.
    pub open spec fn rejection(&self, placement: usize) -> Option<PlayError> {
        if self.spec_status() != GameStatus::StillGoing {
            Some(PlayError::GameAlreadyOver)
        } else if placement < 1 || placement > 9 {
            Some(PlayError::OutOfRangePlacement)
        } else if self.spec_board().occupied((placement - 1) as usize) {
            Some(PlayError::CellOccupied)
        } else {
            None
        }
    }

    /// `next` is this game after the current player marks cell
    /// `placement - 1`: the turn passes and the status is recomputed.
    pub open spec fn is_next(&self, placement: usize, next: TicTacToeGame) -> bool {
        &&& self.spec_board().is_placed(
            self.spec_player(),
            (placement - 1) as usize,
            next.spec_board(),
        )
        &&& next.spec_player() == self.spec_player().other()
        &&& next.spec_status() == next.spec_board().outcome()
    }

    /// A new game: empty board, X to move.
    pub fn new() -> (r: TicTacToeGame)
        ensures
            r.is_initial(),
            r.wf(),
    {
        let r = TicTacToeGame {
            board: TicTacToeBoard::new(),
            current_player: PlayerSign::X,
            status: GameStatus::StillGoing,
        };
        proof {
            lemma_empty_board_goes_on();
        }
        r
    }

    pub fn is_over(&self) -> (r: bool)
        ensures
            r == (self.spec_status() != GameStatus::StillGoing),
    {
        self.current_status() != GameStatus::StillGoing
    }

    pub fn current_status(&self) -> (r: GameStatus)
        ensures
            r == self.spec_status(),
    {
        self.status
    }

    /// The outcome of the board, computed afresh.
    fn get_status(&self) -> (r: GameStatus)
        ensures
            r == self.spec_board().outcome(),
    {
        let mut k: usize = 0;
        while k < 8
            invariant
                k <= 8,
                forall|j: int|
                    0 <= j < k ==> (self.board.x_marks() & #[trigger] win_line(j)) != win_line(j),
            decreases 8 - k,
        {
            let line = won_board(k);
            if (self.board.x_board & line) == line {
                assert((self.board.x_marks() & win_line(k as int)) == win_line(k as int));
                return GameStatus::XWon;
            }
            k += 1;
        }
        let mut k: usize = 0;
        while k < 8
            invariant
                k <= 8,
                !has_line(self.board.x_marks()),
                forall|j: int|
                    0 <= j < k ==> (self.board.o_marks() & #[trigger] win_line(j)) != win_line(j),
            decreases 8 - k,
        {
            let line = won_board(k);
            if (self.board.o_board & line) == line {
                assert((self.board.o_marks() & win_line(k as int)) == win_line(k as int));
                return GameStatus::OWon;
            }
            k += 1;
        }
        if self.board.is_filled() {
            return GameStatus::Draw;
        }
        GameStatus::StillGoing
    }

    pub fn get_current_player(&self) -> (r: PlayerSign)
        ensures
            r == self.spec_player(),
    {
        self.current_player
    }

    pub fn board(&self) -> (r: TicTacToeBoard)
        ensures
            r == self.spec_board(),
    {
        self.board
    }

    /// The placements (1 to 9) of the free cells, in increasing order.
    pub fn get_moves(&self) -> (r: Vec<usize>)
        ensures
            forall|i: int| 0 <= i < r.len() ==> self.is_free_placement(#[trigger] r[i]),
            forall|i: int, j: int| 0 <= i < j < r.len() ==> r[i] < r[j],
            forall|p: usize| self.is_free_placement(p) ==> r@.contains(p),
    {
        let current_places = self.board.x_board | self.board.o_board;
        let mut moves: Vec<usize> = Vec::new();
        let mut b: usize = 0;
        while b < 9
            invariant
                b <= 9,
                current_places@ == self.board.x_marks() | self.board.o_marks(),
                forall|i: int| 0 <= i < moves.len() ==> self.is_free_placement(#[trigger] moves[i]),
                forall|i: int| 0 <= i < moves.len() ==> #[trigger] moves[i] <= b,
                forall|i: int, j: int| 0 <= i < j < moves.len() ==> moves[i] < moves[j],
                forall|p: usize| 1 <= p <= b && self.is_free_placement(p) ==> moves@.contains(p),
            decreases 9 - b,
        {
            let ghost before = moves@;
            let bit = current_places.get_bit(b);
            proof {
                lemma_union_bit(self.board.x_marks(), self.board.o_marks(), b);
            }
            if bit == 0 {
                moves.push(b + 1);
            }
            assert forall|p: usize| 1 <= p <= b + 1 && self.is_free_placement(p) implies moves@.contains(
                p,
            ) by {
                if p <= b {
                    let j = choose|j: int| 0 <= j < before.len() && before[j] == p;
                    assert(moves@[j] == p);
                } else {
                    assert(moves@[moves.len() - 1] == p);
                }
            }
            b += 1;
        }
        moves
    }

    /// Plays the current player's mark at `placement` (1 to 9), or says
    /// why the move is refused.
    pub fn try_play(&self, placement: usize) -> (r: Result<TicTacToeGame, PlayError>)
        requires
            self.wf(),
        ensures
            match r {
                Ok(g) => self.rejection(placement) is None && self.is_next(placement, g) && g.wf(),
                Err(e) => self.rejection(placement) == Some(e),
            },
    {
        if self.get_status() != GameStatus::StillGoing {
            return Err(PlayError::GameAlreadyOver);
        }
        if placement < 1 || placement > 9 {
            return Err(PlayError::OutOfRangePlacement);
        }
        let tttboard = match self.current_player {
            PlayerSign::X => self.board.place_on_x_board(placement - 1),
            PlayerSign::O => self.board.place_on_o_board(placement - 1),
        };
        let tttboard = match tttboard {
            Some(board) => board,
            None => return Err(PlayError::CellOccupied),
        };
        let next_player = match self.current_player {
            PlayerSign::X => PlayerSign::O,
            PlayerSign::O => PlayerSign::X,
        };
        let mut game_state = TicTacToeGame {
            board: tttboard,
            current_player: next_player,
            status: GameStatus::StillGoing,
        };
        game_state.status = game_state.get_status();
        Ok(game_state)
    }

    /// Plays the current player's mark at `placement` (1 to 9), or gives
    /// `None` where the move is refused.
    pub fn make_play(&self, placement: usize) -> (r: Option<TicTacToeGame>)
        requires
            self.wf(),
        ensures
            r is None <==> self.rejection(placement) is Some,
            r matches Some(g) ==> self.is_next(placement, g) && g.wf(),
    {
        match self.try_play(placement) {
            Ok(g) => Some(g),
            Err(_) => None,
        }
    }
}

impl Default for TicTacToeGame {
    fn default() -> (r: TicTacToeGame)
        ensures
            r.is_initial(),
            r.wf(),
    {
        TicTacToeGame::new()
    }
}

/// The empty board has no line and is not full.
proof fn lemma_empty_board_goes_on()
    ensures
        outcome_of(0, 0) == GameStatus::StillGoing,
{
    assert(0usize & 0b111000000usize != 0b111000000usize && 0usize & 0b000111000usize
        != 0b000111000usize && 0usize & 0b000000111usize != 0b000000111usize && 0usize
        & 0b100100100usize != 0b100100100usize && 0usize & 0b010010010usize != 0b010010010usize
        && 0usize & 0b001001001usize != 0b001001001usize && 0usize & 0b100010001usize
        != 0b100010001usize && 0usize & 0b001010100usize != 0b001010100usize && 0usize | 0usize
        != 0b111111111usize) by (bit_vector);
}

/// A cell is in the union of two mark-sets when it is in either.
proof fn lemma_union_bit(x: usize, o: usize, i: usize)
    requires
        i < 9,
    ensures
        bit_set(x | o, i) <==> (bit_set(x, i) || bit_set(o, i)),
{
    assert((((x | o) >> i) & 1 == 1) <==> (((x >> i) & 1 == 1) || ((o >> i) & 1 == 1)))
        by (bit_vector);
}

/// A player whose marks are one winning line plus any cells off that line
/// has won the board. For O this needs X to hold no line, as X's lines are
/// looked at first.
pub proof fn lemma_line_wins(b: TicTacToeBoard, p: PlayerSign, k: int, extra: usize)
    requires
        b.wf(),
        0 <= k < 8,
        extra & win_line(k) == 0,
        b.marks_of(p) == win_line(k) | extra,
        p == PlayerSign::O ==> !has_line(b.x_marks()),
    ensures
        b.outcome() == win_for(p),
{
    let line = win_line(k);
    assert((line | extra) & line == line) by (bit_vector);
    assert(b.marks_of(p) & win_line(k) == win_line(k));
}

/// While the game goes on, a move onto a held cell is refused as occupied.
/// The refusal is a function of the game and the placement alone, so asking
/// again with the same cell is refused the same way, and the game is left as
/// it was.
pub proof fn lemma_occupied_cell_refused(g: TicTacToeGame, placement: usize)
    requires
        g.wf(),
        g.spec_status() == GameStatus::StillGoing,
        1 <= placement <= 9,
        g.spec_board().occupied((placement - 1) as usize),
    ensures
        g.rejection(placement) == Some(PlayError::CellOccupied),
{
}

/// `games` are the states of a game that starts new and where `games[i + 1]`
/// follows `games[i]` by the accepted move at `moves[i]`.
pub open spec fn is_run(games: Seq<TicTacToeGame>, moves: Seq<usize>) -> bool {
    &&& games.len() == moves.len() + 1
    &&& games[0].is_initial()
    &&& forall|i: int|
        0 <= i < moves.len() ==> games[i].rejection(moves[i]) is None && #[trigger] games[i].is_next(
            moves[i],
            games[i + 1],
        )
}

/// Through any run of accepted moves the turn alternates X, O, X, ...,
/// starting with X.
pub proof fn lemma_turns_alternate(games: Seq<TicTacToeGame>, moves: Seq<usize>)
    requires
        is_run(games, moves),
    ensures
        forall|i: int|
            0 <= i < games.len() ==> #[trigger] games[i].spec_player() == if i % 2 == 0 {
                PlayerSign::X
            } else {
                PlayerSign::O
            },
{
    assert forall|i: int| 0 <= i < games.len() implies #[trigger] games[i].spec_player() == if i % 2
        == 0 {
        PlayerSign::X
    } else {
        PlayerSign::O
    } by {
        lemma_player_at(games, moves, i);
    }
}

proof fn lemma_player_at(games: Seq<TicTacToeGame>, moves: Seq<usize>, i: int)
    requires
        is_run(games, moves),
        0 <= i < games.len(),
    ensures
        games[i].spec_player() == if i % 2 == 0 {
            PlayerSign::X
        } else {
            PlayerSign::O
        },
    decreases i,
{
    if i > 0 {
        lemma_player_at(games, moves, i - 1);
        assert(games[i - 1].is_next(moves[i - 1], games[i - 1 + 1]));
    }
}

/// A full board on which neither player holds a line is a draw.
pub proof fn lemma_full_board_draws(b: TicTacToeBoard)
    requires
        b.x_marks() | b.o_marks() == FILLED_BOARD,
        !has_line(b.x_marks()),
        !has_line(b.o_marks()),
    ensures
        b.outcome() == GameStatus::Draw,
{
}

/// A move that completes a line for the mover wins for the mover, also when
/// it fills the board: a win is reported, never a draw.
pub proof fn lemma_completing_move_wins(g: TicTacToeGame, placement: usize, next: TicTacToeGame)
    requires
        g.wf(),
        g.rejection(placement) is None,
        g.is_next(placement, next),
        has_line(next.spec_board().marks_of(g.spec_player())),
    ensures
        next.spec_status() == win_for(g.spec_player()),
        next.spec_status() != GameStatus::Draw,
{
}

} // verus!

//! The grid engine: a 3x3 board, a turn pointer, and the seat queue from
//! which connected peers are assigned their symbols.

use vstd::prelude::*;

verus! {

/// The mark a cell can hold: one of the two players' symbols, or `Clear`
/// for an empty cell. The same type names the player whose turn it is.
#[derive(Debug, PartialEq, Eq, Structural, Clone, Copy)]
pub enum Player {
    O,
    X,
    Clear,
}

/// Everything that can go wrong inside the grid engine.
///
/// `OutOfRange` and `Occupied` are input errors recovered by re-prompting;
/// `GameAlreadyOver` and `NoSeatsAvailable` signal misuse of the engine.
/// `Occupied` carries the offending coordinates so the report can name them.
#[derive(Debug, PartialEq, Eq, Structural, Clone, Copy)]
pub enum GameError {
    OutOfRange,
    Occupied(u8, u8),
    GameAlreadyOver,
    NoSeatsAvailable,
}

/// The mathematical model of a game: the board as a sequence of rows, the
/// player on turn, and the queue of still-unassigned seats.
#[verifier::ext_equal]
pub struct GridModel {
    pub board: Seq<Seq<Player>>,
    pub turn: Player,
    pub bench: Seq<Player>,
}

/// The seat queue as it is seeded at construction: `O` first, then `X`.
pub open spec fn full_bench() -> Seq<Player> {
    seq![Player::O, Player::X]
}

/// One row of an empty board.
pub open spec fn empty_row() -> Seq<Player> {
    seq![Player::Clear, Player::Clear, Player::Clear]
}

/// The state a fresh game starts in: empty board, `O` to move, both seats
/// still on the bench.
pub open spec fn init_model() -> GridModel {
    GridModel {
        board: seq![empty_row(), empty_row(), empty_row()],
        turn: Player::O,
        bench: full_bench(),
    }
}

impl GridModel {
    /// Validity of a game state: the board is 3x3, the turn names an actual
    /// player, and the bench is a suffix of the seeded seat queue.
    pub open spec fn wf(self) -> bool {
        &&& self.board.len() == 3
        &&& forall|r: int| 0 <= r < 3 ==> (#[trigger] self.board[r]).len() == 3
        &&& (self.turn == Player::O || self.turn == Player::X)
        &&& (self.bench == full_bench() || self.bench == seq![Player::X]
            || self.bench == Seq::<Player>::empty())
    }
}

/// Both coordinates of a move must lie on the board.
pub open spec fn in_range(row: int, col: int) -> bool {
    0 <= row <= 2 && 0 <= col <= 2
}

/// Row `r` holds three equal, non-empty symbols.
pub open spec fn row_won(b: Seq<Seq<Player>>, r: int) -> bool {
    b[r][0] != Player::Clear && b[r][1] == b[r][0] && b[r][2] == b[r][0]
}

/// Column `c` holds three equal, non-empty symbols.
pub open spec fn col_won(b: Seq<Seq<Player>>, c: int) -> bool {
    b[0][c] != Player::Clear && b[1][c] == b[0][c] && b[2][c] == b[0][c]
}

/// The top-left to bottom-right diagonal holds three equal, non-empty symbols.
pub open spec fn main_diag_won(b: Seq<Seq<Player>>) -> bool {
    b[0][0] != Player::Clear && b[1][1] == b[0][0] && b[2][2] == b[0][0]
}

/// The bottom-left to top-right diagonal holds three equal, non-empty symbols.
pub open spec fn anti_diag_won(b: Seq<Seq<Player>>) -> bool {
    b[0][2] != Player::Clear && b[1][1] == b[0][2] && b[2][0] == b[0][2]
}

/// The win predicate: some full row, full column, or diagonal is held by
/// one symbol.
pub open spec fn game_over(g: GridModel) -> bool {
    ||| row_won(g.board, 0)
    ||| row_won(g.board, 1)
    ||| row_won(g.board, 2)
    ||| col_won(g.board, 0)
    ||| col_won(g.board, 1)
    ||| col_won(g.board, 2)
    ||| main_diag_won(g.board)
    ||| anti_diag_won(g.board)
}

/// The opponent of `p`; `Clear` has no opponent and is left as it is.
pub open spec fn flip(p: Player) -> Player {
    if p == Player::X {
        Player::O
    } else if p == Player::O {
        Player::X
    } else {
        p
    }
}

/// What `fill` does: the resulting state paired with the returned value.
/// An out-of-range or occupied target leaves the state unchanged.
pub open spec fn spec_fill(g: GridModel, row: int, col: int) -> (GridModel, Result<
    (),
    GameError,
>) {
    if !in_range(row, col) {
        (g, Err(GameError::OutOfRange))
    } else if g.board[row][col] != Player::Clear {
        (g, Err(GameError::Occupied(row as u8, col as u8)))
    } else {
        (
            GridModel { board: g.board.update(row, g.board[row].update(col, g.turn)), ..g },
            Ok(()),
        )
    }
}

/// What `next_turn` does: flip the turn, unless the game is already over,
/// in which case nothing changes.
pub open spec fn spec_next_turn(g: GridModel) -> (GridModel, Result<(), GameError>) {
    if game_over(g) {
        (g, Err(GameError::GameAlreadyOver))
    } else {
        (GridModel { turn: flip(g.turn), ..g }, Ok(()))
    }
}

/// What `get_player_from_bench` does: pop the front of the seat queue, or
/// fail once both seats are taken.
pub open spec fn spec_take_seat(g: GridModel) -> (GridModel, Result<Player, GameError>) {
    if g.bench.len() == 0 {
        (g, Err(GameError::NoSeatsAvailable))
    } else {
        (GridModel { bench: g.bench.drop_first(), ..g }, Ok(g.bench[0]))
    }
}

/// How one cell is drawn in the rendered board.
pub open spec fn cell_str(p: Player) -> Seq<char> {
    match p {
        Player::O => "O"@,
        Player::X => "X"@,
        Player::Clear => " "@,
    }
}

/// The decimal digit naming a coordinate in an error message.
pub open spec fn digit_str(d: u8) -> Seq<char> {
    if d == 0 {
        "0"@
    } else if d == 1 {
        "1"@
    } else if d == 2 {
        "2"@
    } else {
        "?"@
    }
}

impl GameError {
    /// The human-readable reason shown to the operator for this error.
    pub open spec fn spec_message(self) -> Seq<char> {
        match self {
            GameError::OutOfRange => "row and col must be between 0 and 2"@,
            GameError::Occupied(r, c) => "row "@ + digit_str(r) + " and col "@ + digit_str(c)
                + " are occupied"@,
            GameError::GameAlreadyOver => "game already over"@,
            GameError::NoSeatsAvailable => "no seats available"@,
        }
    }

    /// Renders the human-readable reason for this error.
    pub fn message(&self) -> (s: String)
        ensures
            s@ == self.spec_message(),
    {
        match self {
            GameError::OutOfRange => "row and col must be between 0 and 2".to_owned(),
            GameError::Occupied(r, c) => {
                let mut s = "row ".to_owned();
                s.append(digit_text(*r));
                s.append(" and col ");
                s.append(digit_text(*c));
                s.append(" are occupied");
                proof {
                    assert(s@ =~= self.spec_message());
                }
                s
            },
            GameError::GameAlreadyOver => "game already over".to_owned(),
            GameError::NoSeatsAvailable => "no seats available".to_owned(),
        }
    }
}

fn digit_text(d: u8) -> (t: &'static str)
    ensures
        t@ == digit_str(d),
{
    if d == 0 {
        "0"
    } else if d == 1 {
        "1"
    } else if d == 2 {
        "2"
    } else {
        "?"
    }
}

/// The text rendering of a game: a fixed header, the three rows with their
/// cells, and a fixed footer, with stable row and column ordering and a
/// blank placeholder for empty cells.
pub open spec fn spec_board_text(g: GridModel) -> Seq<char> {
    "   _____C_O_L_____ \n"@ + "  | λ | 0 | 1 | 2 |\n"@ + "  |---|---|---|---|\n"@ + "R | 0 | "@
        + cell_str(g.board[0][0]) + " | "@ + cell_str(g.board[0][1]) + " | "@ + cell_str(
        g.board[0][2],
    ) + " |\n"@ + "O |---|---|---|---|\n"@ + "W | 1 | "@ + cell_str(g.board[1][0]) + " | "@
        + cell_str(g.board[1][1]) + " | "@ + cell_str(g.board[1][2]) + " |\n"@
        + "  |---|---|---|---|\n"@ + "  | 2 | "@ + cell_str(g.board[2][0]) + " | "@ + cell_str(
        g.board[2][1],
    ) + " | "@ + cell_str(g.board[2][2]) + " |\n"@ + "   --------------- "@
}

/// The canonical game state. Mutation goes only through `fill`,
/// `next_turn` and `get_player_from_bench`; a cell once written is never
/// reset except by constructing a new game.
#[derive(Debug)]
pub struct TicTacToe {
    board: Vec<Vec<Player>>,
    turn: Player,
    players_bench: Vec<Player>,
}

impl View for TicTacToe {
    type V = GridModel;

    closed spec fn view(&self) -> GridModel {
        GridModel {
            board: self.board@.map_values(|row: Vec<Player>| row@),
            turn: self.turn,
            bench: self.players_bench@,
        }
    }
}

impl TicTacToe {
    /// The rows of the concrete board and of its model line up.
    proof fn board_view_eq(&self)
        ensures
            self.board@.len() == self@.board.len(),
            forall|i: int|
                0 <= i < self.board@.len() ==> #[trigger] self.board@[i]@ == self@.board[i],
    {
        assert forall|i: int|
            0 <= i < self.board@.len() implies #[trigger] self.board@[i]@ == self@.board[i] by {
            assert(self@.board[i] == self.board@.map_values(|row: Vec<Player>| row@)[i]);
        }
    }

    /// A fresh game: empty 3x3 board, `O` to move, seat queue `[O, X]`.
    pub fn new() -> (game: TicTacToe)
        ensures
            game@ == init_model(),
            game@.wf(),
    {
        let mut board: Vec<Vec<Player>> = Vec::new();
        board.push(Self::clear_row());
        board.push(Self::clear_row());
        board.push(Self::clear_row());

        let mut players_bench: Vec<Player> = Vec::new();
        players_bench.push(Player::O);
        players_bench.push(Player::X);

        let game = TicTacToe { board, turn: Player::O, players_bench };
        proof {
            assert(game@.board =~~= init_model().board);
            assert(game@.bench =~= init_model().bench);
            assert(game@ =~~= init_model());
        }
        game
    }

    fn clear_row() -> (row: Vec<Player>)
        ensures
            row@ == empty_row(),
    {
        let mut row: Vec<Player> = Vec::new();
        row.push(Player::Clear);
        row.push(Player::Clear);
        row.push(Player::Clear);
        proof {
            assert(row@ =~= empty_row());
        }
        row
    }

    /// Whose turn it is.
    pub fn get_turn(&self) -> (p: Player)
        ensures
            p == self@.turn,
    {
        self.turn
    }

    /// Flips the turn `O` <-> `X`; fails with `GameAlreadyOver` (leaving the
    /// turn untouched) once the win predicate holds.
    pub fn next_turn(&mut self) -> (r: Result<(), GameError>)
        requires
            old(self)@.wf(),
        ensures
            final(self)@.wf(),
            final(self)@ == spec_next_turn(old(self)@).0,
            r == spec_next_turn(old(self)@).1,
    {
        if self.check_game_over() {
            Err(GameError::GameAlreadyOver)
        } else {
            if self.turn == Player::X {
                self.turn = Player::O;
            } else if self.turn == Player::O {
                self.turn = Player::X;
            }
            proof {
                assert(self@ =~~= spec_next_turn(old(self)@).0);
            }
            Ok(())
        }
    }

    /// Writes the current turn's symbol into `(row, col)`.
    ///
    /// Fails with `OutOfRange` if either coordinate is outside `[0, 2]` and
    /// with `Occupied` if the cell already holds a symbol; in both cases the
    /// grid is left unchanged. The turn is never advanced here.
    pub fn fill(&mut self, row: i32, col: i32) -> (r: Result<(), GameError>)
        requires
            old(self)@.wf(),
        ensures
            final(self)@.wf(),
            final(self)@ == spec_fill(old(self)@, row as int, col as int).0,
            r == spec_fill(old(self)@, row as int, col as int).1,
    {
        if row > 2 || row < 0 || col > 2 || col < 0 {
            return Err(GameError::OutOfRange);
        }
        let urow = row as usize;
        let ucol = col as usize;

        proof {
            self.board_view_eq();
        }
        let current = self.board[urow][ucol];
        if current != Player::Clear {
            return Err(GameError::Occupied(row as u8, col as u8));
        }

        let symbol = self.turn;
        self.board[urow][ucol] = symbol;
        proof {
            assert(self@.board =~~= spec_fill(old(self)@, row as int, col as int).0.board);
            assert(self@ =~~= spec_fill(old(self)@, row as int, col as int).0);
        }
        Ok(())
    }

    /// The win predicate: true iff some full row, full column, or diagonal
    /// holds three equal non-empty symbols.
    pub fn check_game_over(&self) -> (r: bool)
        requires
            self@.wf(),
        ensures
            r == game_over(self@),
    {
        self.check_rows() || self.check_cols() || self.check_topleft_bottom_right()
            || self.check_bottomleft_topright()
    }

    /// True iff some row is fully held by one symbol.
    pub fn check_rows(&self) -> (r: bool)
        requires
            self@.wf(),
        ensures
            r == (row_won(self@.board, 0) || row_won(self@.board, 1) || row_won(self@.board, 2)),
    {
        self.row_is_won(0) || self.row_is_won(1) || self.row_is_won(2)
    }

    fn row_is_won(&self, r: usize) -> (won: bool)
        requires
            self@.wf(),
            r < 3,
        ensures
            won == row_won(self@.board, r as int),
    {
        proof {
            self.board_view_eq();
        }
        let row = &self.board[r];
        let slot = row[0];
        slot != Player::Clear && row[1] == slot && row[2] == slot
    }

    /// True iff some column is fully held by one symbol.
    pub fn check_cols(&self) -> (r: bool)
        requires
            self@.wf(),
        ensures
            r == (col_won(self@.board, 0) || col_won(self@.board, 1) || col_won(self@.board, 2)),
    {
        self.col_is_won(0) || self.col_is_won(1) || self.col_is_won(2)
    }

    fn col_is_won(&self, c: usize) -> (won: bool)
        requires
            self@.wf(),
            c < 3,
        ensures
            won == col_won(self@.board, c as int),
    {
        proof {
            self.board_view_eq();
        }
        let slot = self.board[0][c];
        slot != Player::Clear && self.board[1][c] == slot && self.board[2][c] == slot
    }

    /// True iff the top-left to bottom-right diagonal is held by one symbol.
    pub fn check_topleft_bottom_right(&self) -> (r: bool)
        requires
            self@.wf(),
        ensures
            r == main_diag_won(self@.board),
    {
        proof {
            self.board_view_eq();
        }
        let slot = self.board[0][0];
        slot != Player::Clear && self.board[1][1] == slot && self.board[2][2] == slot
    }

    /// True iff the bottom-left to top-right diagonal is held by one symbol.
    pub fn check_bottomleft_topright(&self) -> (r: bool)
        requires
            self@.wf(),
        ensures
            r == anti_diag_won(self@.board),
    {
        proof {
            self.board_view_eq();
        }
        let slot = self.board[0][2];
        slot != Player::Clear && self.board[1][1] == slot && self.board[2][0] == slot
    }

    /// Pops the next unassigned identity from the seat queue: `O` for the
    /// first accepted peer, `X` for the second; fails with
    /// `NoSeatsAvailable` once both seats are taken.
    pub fn get_player_from_bench(&mut self) -> (r: Result<Player, GameError>)
        requires
            old(self)@.wf(),
        ensures
            final(self)@.wf(),
            final(self)@ == spec_take_seat(old(self)@).0,
            r == spec_take_seat(old(self)@).1,
    {
        if self.players_bench.len() == 0 {
            Err(GameError::NoSeatsAvailable)
        } else {
            let p = self.players_bench.remove(0);
            proof {
                assert(self@.bench =~= old(self)@.bench.drop_first());
                if old(self)@.bench == full_bench() {
                    assert(self@.bench =~= seq![Player::X]);
                } else {
                    assert(self@.bench =~= Seq::<Player>::empty());
                }
                assert(self@ =~~= spec_take_seat(old(self)@).0);
            }
            Ok(p)
        }
    }

    /// How many seats are still on the bench: 2 before any peer is
    /// accepted, 0 once both symbols are assigned.
    pub fn seats_remaining(&self) -> (n: usize)
        ensures
            n == self@.bench.len(),
    {
        self.players_bench.len()
    }

    /// Reassembles a game from its parts, as when a snapshot arrives over
    /// the wire: the 3x3 board, the player on turn, and the number of
    /// seats still unassigned (the bench empties front to back, so that
    /// count determines it).
    pub fn from_parts(rows: Vec<Vec<Player>>, turn: Player, seats: u8) -> (game: TicTacToe)
        requires
            rows@.len() == 3,
            forall|i: int| 0 <= i < 3 ==> (#[trigger] rows@[i])@.len() == 3,
            turn == Player::O || turn == Player::X,
            seats <= 2,
        ensures
            game@.wf(),
            game@.board.len() == 3,
            forall|i: int| 0 <= i < 3 ==> #[trigger] game@.board[i] == rows@[i]@,
            game@.turn == turn,
            game@.bench == (if seats == 2 {
                full_bench()
            } else if seats == 1 {
                seq![Player::X]
            } else {
                Seq::<Player>::empty()
            }),
    {
        let mut players_bench: Vec<Player> = Vec::new();
        if seats == 2 {
            players_bench.push(Player::O);
            players_bench.push(Player::X);
            proof {
                assert(players_bench@ =~= full_bench());
            }
        } else if seats == 1 {
            players_bench.push(Player::X);
            proof {
                assert(players_bench@ =~= seq![Player::X]);
            }
        }
        let game = TicTacToe { board: rows, turn, players_bench };
        proof {
            game.board_view_eq();
        }
        game
    }

    /// The board as rows of cells, top to bottom; each row left to right.
    pub fn board(&self) -> (rows: Vec<Vec<Player>>)
        requires
            self@.wf(),
        ensures
            rows@.len() == 3,
            forall|i: int| 0 <= i < 3 ==> #[trigger] rows@[i]@ == self@.board[i],
    {
        let mut rows: Vec<Vec<Player>> = Vec::new();
        let mut r: usize = 0;
        while r < 3
            invariant
                r <= 3,
                self@.wf(),
                rows@.len() == r as int,
                forall|i: int| 0 <= i < r as int ==> #[trigger] rows@[i]@ == self@.board[i],
            decreases 3 - r,
        {
            let mut row: Vec<Player> = Vec::new();
            let mut c: usize = 0;
            while c < 3
                invariant
                    c <= 3,
                    r < 3,
                    self@.wf(),
                    row@.len() == c as int,
                    forall|j: int| 0 <= j < c as int ==> row@[j] == self@.board[r as int][j],
                decreases 3 - c,
            {
                proof {
                    self.board_view_eq();
                }
                row.push(self.board[r][c]);
                c += 1;
            }
            proof {
                assert(row@ =~= self@.board[r as int]);
            }
            rows.push(row);
            r += 1;
        }
        rows
    }

    /// A copy of the game, for embedding into a protocol message.
    pub fn snapshot(&self) -> (game: TicTacToe)
        requires
            self@.wf(),
        ensures
            game@ == self@,
            game@.wf(),
    {
        let board = self.board();
        let mut players_bench: Vec<Player> = Vec::new();
        let mut k: usize = 0;
        while k < self.players_bench.len()
            invariant
                k <= self.players_bench.len(),
                players_bench@ == self.players_bench@.take(k as int),
            decreases self.players_bench.len() - k,
        {
            players_bench.push(self.players_bench[k]);
            proof {
                assert(players_bench@ =~= self.players_bench@.take(k as int + 1));
            }
            k += 1;
        }
        let game = TicTacToe { board, turn: self.turn, players_bench };
        proof {
            assert(game@.board =~~= self@.board);
            assert(game@.bench =~= self@.bench);
            assert(game@ =~~= self@);
        }
        game
    }

    /// Renders the board as the fixed text grid shown in the terminal.
    pub fn get_board(&self) -> (s: String)
        requires
            self@.wf(),
        ensures
            s@ == spec_board_text(self@),
    {
        proof {
            self.board_view_eq();
        }
        let mut s = String::new();
        s.append("   _____C_O_L_____ \n");
        s.append("  | λ | 0 | 1 | 2 |\n");
        s.append("  |---|---|---|---|\n");
        s.append("R | 0 | ");
        s.append(cell_text(self.board[0][0]));
        s.append(" | ");
        s.append(cell_text(self.board[0][1]));
        s.append(" | ");
        s.append(cell_text(self.board[0][2]));
        s.append(" |\n");
        s.append("O |---|---|---|---|\n");
        s.append("W | 1 | ");
        s.append(cell_text(self.board[1][0]));
        s.append(" | ");
        s.append(cell_text(self.board[1][1]));
        s.append(" | ");
        s.append(cell_text(self.board[1][2]));
        s.append(" |\n");
        s.append("  |---|---|---|---|\n");
        s.append("  | 2 | ");
        s.append(cell_text(self.board[2][0]));
        s.append(" | ");
        s.append(cell_text(self.board[2][1]));
        s.append(" | ");
        s.append(cell_text(self.board[2][2]));
        s.append(" |\n");
        s.append("   --------------- ");
        proof {
            assert(s@ =~= spec_board_text(self@));
        }
        s
    }

    /// One full move of the coordinating loop: try to fill the chosen cell,
    /// then either report the invalid move (state unchanged), finish on a
    /// win (turn left on the winner), or advance the turn.
    pub fn apply_move(&mut self, input: Input) -> (r: MoveOutcome)
        requires
            old(self)@.wf(),
            !game_over(old(self)@),
        ensures
            final(self)@.wf(),
            final(self)@ == spec_apply_move(old(self)@, input.row as int, input.col as int).0,
            r == spec_apply_move(old(self)@, input.row as int, input.col as int).1,
    {
        match self.fill(input.row, input.col) {
            Err(e) => MoveOutcome::Invalid(e),
            Ok(()) => {
                if self.check_game_over() {
                    MoveOutcome::Won(self.get_turn())
                } else {
                    let _ = self.next_turn();
                    MoveOutcome::Continued
                }
            },
        }
    }
}

fn cell_text(p: Player) -> (t: &'static str)
    ensures
        t@ == cell_str(p),
{
    match p {
        Player::O => "O",
        Player::X => "X",
        Player::Clear => " ",
    }
}

/// One requested move: a row and a column, as typed by a player.
#[derive(Debug, PartialEq, Eq, Structural, Clone, Copy)]
pub struct Input {
    pub row: i32,
    pub col: i32,
}

/// What one call of `apply_move` did to the game.
#[derive(Debug, PartialEq, Eq, Structural, Clone, Copy)]
pub enum MoveOutcome {
    /// The move was rejected for this reason and the grid is unchanged.
    Invalid(GameError),
    /// The move was written and the turn advanced to the other player.
    Continued,
    /// The move was written and won the game for this player.
    Won(Player),
}

/// What `apply_move` does: fill, then on success either stop on a win or
/// flip the turn.
pub open spec fn spec_apply_move(g: GridModel, row: int, col: int) -> (GridModel, MoveOutcome) {
    let (g1, r) = spec_fill(g, row, col);
    match r {
        Err(e) => (g, MoveOutcome::Invalid(e)),
        Ok(_) => if game_over(g1) {
            (g1, MoveOutcome::Won(g1.turn))
        } else {
            (spec_next_turn(g1).0, MoveOutcome::Continued)
        },
    }
}

/// The model of a protocol message, over the model of the game.
#[verifier::ext_equal]
pub enum StatusModel {
    ServerAskInputFromClient(GridModel),
    ClientGiveInputToServer(Input),
    GameOver { game: GridModel, winner: Player },
}

impl StatusModel {
    /// Validity of a message: embedded snapshots are valid games, a
    /// submitted move lies on the board, and a reported winner is a player.
    pub open spec fn wf(self) -> bool {
        match self {
            StatusModel::ServerAskInputFromClient(g) => g.wf(),
            StatusModel::ClientGiveInputToServer(input) => in_range(
                input.row as int,
                input.col as int,
            ),
            StatusModel::GameOver { game, winner } => game.wf() && (winner == Player::O || winner
                == Player::X),
        }
    }
}

/// One protocol message in flight between the authority and a peer:
/// a request for the next move (carrying a snapshot), a submitted move,
/// or the terminal game-over report naming the winner.
#[derive(Debug)]
pub enum MultiplayerStatus {
    ServerAskInputFromClient(TicTacToe),
    ClientGiveInputToServer(Input),
    GameOver { game: TicTacToe, winner: Player },
}

impl View for MultiplayerStatus {
    type V = StatusModel;

    open spec fn view(&self) -> StatusModel {
        match self {
            MultiplayerStatus::ServerAskInputFromClient(g) => StatusModel::ServerAskInputFromClient(
                g@,
            ),
            MultiplayerStatus::ClientGiveInputToServer(input) => StatusModel::ClientGiveInputToServer(
                *input,
            ),
            MultiplayerStatus::GameOver { game, winner } => StatusModel::GameOver {
                game: game@,
                winner: *winner,
            },
        }
    }
}

/// An out-of-range coordinate is rejected with `OutOfRange` and the game
/// is left exactly as it was.
pub proof fn lemma_fill_out_of_range(g: GridModel, row: int, col: int)
    requires
        g.wf(),
        !in_range(row, col),
    ensures
        spec_fill(g, row, col) == (g, Err::<(), GameError>(GameError::OutOfRange)),
{
}

/// Filling a free cell succeeds and marks it with the mover's symbol; a
/// second fill of the same cell is then rejected with `Occupied` and the
/// cell keeps its first value.
pub proof fn lemma_fill_twice_occupied(g: GridModel, row: int, col: int)
    requires
        g.wf(),
        in_range(row, col),
        g.board[row][col] == Player::Clear,
    ensures
        spec_fill(g, row, col).1 == Ok::<(), GameError>(()),
        spec_fill(g, row, col).0.board[row][col] == g.turn,
        spec_fill(g, row, col).0.board[row][col] != Player::Clear,
        spec_fill(spec_fill(g, row, col).0, row, col) == (
            spec_fill(g, row, col).0,
            Err::<(), GameError>(GameError::Occupied(row as u8, col as u8)),
        ),
{
}

/// A game whose cells are all empty is not over.
pub proof fn lemma_all_clear_not_over(g: GridModel)
    requires
        g.wf(),
        forall|r: int, c: int|
            0 <= r < 3 && 0 <= c < 3 ==> #[trigger] g.board[r][c] == Player::Clear,
    ensures
        !game_over(g),
{
}

/// A full row held by one symbol ends the game.
pub proof fn lemma_row_win(g: GridModel, r: int, symbol: Player)
    requires
        g.wf(),
        0 <= r < 3,
        symbol != Player::Clear,
        g.board[r][0] == symbol,
        g.board[r][1] == symbol,
        g.board[r][2] == symbol,
    ensures
        game_over(g),
{
}

/// A full column held by one symbol ends the game.
pub proof fn lemma_col_win(g: GridModel, c: int, symbol: Player)
    requires
        g.wf(),
        0 <= c < 3,
        symbol != Player::Clear,
        g.board[0][c] == symbol,
        g.board[1][c] == symbol,
        g.board[2][c] == symbol,
    ensures
        game_over(g),
{
}

/// The top-left to bottom-right diagonal held by one symbol ends the game.
pub proof fn lemma_main_diag_win(g: GridModel, symbol: Player)
    requires
        g.wf(),
        symbol != Player::Clear,
        g.board[0][0] == symbol,
        g.board[1][1] == symbol,
        g.board[2][2] == symbol,
    ensures
        game_over(g),
{
}

/// The bottom-left to top-right diagonal held by one symbol ends the game.
pub proof fn lemma_anti_diag_win(g: GridModel, symbol: Player)
    requires
        g.wf(),
        symbol != Player::Clear,
        g.board[0][2] == symbol,
        g.board[1][1] == symbol,
        g.board[2][0] == symbol,
    ensures
        game_over(g),
{
}

/// Filling only part of one line never ends the game: as long as fewer
/// than three cells are occupied in all, no line can be complete.
pub proof fn lemma_few_fills_not_over(g: GridModel, occupied: Set<(int, int)>)
    requires
        g.wf(),
        occupied.finite(),
        occupied.len() < 3,
        forall|r: int, c: int|
            0 <= r < 3 && 0 <= c < 3 && #[trigger] g.board[r][c] != Player::Clear
                ==> occupied.contains((r, c)),
    ensures
        !game_over(g),
{
    if game_over(g) {
        let cells: Seq<(int, int)> = if row_won(g.board, 0) {
            seq![(0int, 0int), (0int, 1int), (0int, 2int)]
        } else if row_won(g.board, 1) {
            seq![(1int, 0int), (1int, 1int), (1int, 2int)]
        } else if row_won(g.board, 2) {
            seq![(2int, 0int), (2int, 1int), (2int, 2int)]
        } else if col_won(g.board, 0) {
            seq![(0int, 0int), (1int, 0int), (2int, 0int)]
        } else if col_won(g.board, 1) {
            seq![(0int, 1int), (1int, 1int), (2int, 1int)]
        } else if col_won(g.board, 2) {
            seq![(0int, 2int), (1int, 2int), (2int, 2int)]
        } else if main_diag_won(g.board) {
            seq![(0int, 0int), (1int, 1int), (2int, 2int)]
        } else {
            seq![(0int, 2int), (1int, 1int), (2int, 0int)]
        };
        let line: Set<(int, int)> = set![cells[0], cells[1], cells[2]];
        assert(occupied.contains(cells[0]));
        assert(occupied.contains(cells[1]));
        assert(occupied.contains(cells[2]));
        assert(line.subset_of(occupied));
        assert(line.len() == 3) by {
            assert(line =~= Set::empty().insert(cells[0]).insert(cells[1]).insert(cells[2]));
        }
        vstd::set_lib::lemma_len_subset(line, occupied);
    }
}

/// While the game is running `next_turn` succeeds and alternates the turn
/// strictly: one advance hands the turn to the other player, and a second
/// advance hands it back.
pub proof fn lemma_next_turn_alternates(g: GridModel)
    requires
        g.wf(),
        !game_over(g),
    ensures
        spec_next_turn(g).1 == Ok::<(), GameError>(()),
        spec_next_turn(g).0.turn != g.turn,
        spec_next_turn(g).0.turn == flip(g.turn),
        spec_next_turn(spec_next_turn(g).0) == (g, Ok::<(), GameError>(())),
{
    assert(spec_next_turn(spec_next_turn(g).0).0 =~~= g);
}

/// Once the game is over, `next_turn` fails with `GameAlreadyOver` and
/// never advances the turn.
pub proof fn lemma_next_turn_after_game_over(g: GridModel)
    requires
        g.wf(),
        game_over(g),
    ensures
        spec_next_turn(g) == (g, Err::<(), GameError>(GameError::GameAlreadyOver)),
{
}

} // verus!

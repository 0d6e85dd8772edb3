//! The wire codec: a protocol message to and from a fixed-size byte frame.
//!
//! A frame is exactly `frame_size` bytes: a tagged payload followed by a
//! zero terminator and zero padding. The payload is self-describing — a
//! tag byte names the variant, the fields follow — and contains no zero
//! byte, so the first zero of a frame always marks the end of the payload.

use vstd::prelude::*;

use crate::game::GridModel;
use crate::game::Input;
use crate::game::MultiplayerStatus;
use crate::game::Player;
use crate::game::StatusModel;
use crate::game::TicTacToe;
use crate::game::full_bench;

verus! {

/// The payload tag of a `ServerAskInputFromClient` message.
pub const ASK_TAG: u8 = 1;

/// The payload tag of a `ClientGiveInputToServer` message.
pub const GIVE_TAG: u8 = 2;

/// The payload tag of a `GameOver` message.
pub const OVER_TAG: u8 = 3;

/// Everything that can go wrong in the codec.
#[derive(Debug, PartialEq, Eq, Structural, Clone, Copy)]
pub enum CodecError {
    /// The serialized payload does not fit in the frame (the frame must
    /// keep one byte for the terminator).
    FrameTooLarge,
    /// The frame's payload does not parse as any known message.
    MalformedFrame,
}

/// The byte standing for one cell (or for the player on turn): cells are
/// never encoded as zero, so the payload stays free of terminator bytes.
pub open spec fn player_byte(p: Player) -> u8 {
    match p {
        Player::Clear => 1,
        Player::O => 2,
        Player::X => 3,
    }
}

/// The cell a byte stands for; inverse of `player_byte` on valid bytes.
pub open spec fn byte_player(b: u8) -> Player {
    if b == 1 {
        Player::Clear
    } else if b == 2 {
        Player::O
    } else {
        Player::X
    }
}

pub open spec fn valid_cell_byte(b: u8) -> bool {
    1 <= b <= 3
}

pub open spec fn valid_turn_byte(b: u8) -> bool {
    2 <= b <= 3
}

pub open spec fn valid_bench_byte(b: u8) -> bool {
    1 <= b <= 3
}

/// A move coordinate is shifted up by one so it cannot be a terminator.
pub open spec fn valid_move_byte(b: u8) -> bool {
    1 <= b <= 3
}

/// The seat queue a bench byte stands for: the byte is the queue length
/// plus one, and the queue always empties front to back.
pub open spec fn bench_of_byte(b: u8) -> Seq<Player> {
    if b == 3 {
        full_bench()
    } else if b == 2 {
        seq![Player::X]
    } else {
        Seq::<Player>::empty()
    }
}

/// The eleven bytes a game snapshot serializes to: nine cells in row-major
/// order, the turn, and the bench length plus one.
pub open spec fn grid_bytes(g: GridModel) -> Seq<u8> {
    seq![
        player_byte(g.board[0][0]),
        player_byte(g.board[0][1]),
        player_byte(g.board[0][2]),
        player_byte(g.board[1][0]),
        player_byte(g.board[1][1]),
        player_byte(g.board[1][2]),
        player_byte(g.board[2][0]),
        player_byte(g.board[2][1]),
        player_byte(g.board[2][2]),
        player_byte(g.turn),
        (g.bench.len() + 1) as u8,
    ]
}

/// Eleven bytes that parse back into a game snapshot.
pub open spec fn valid_grid_bytes(p: Seq<u8>) -> bool {
    &&& p.len() == 11
    &&& forall|i: int| 0 <= i < 9 ==> valid_cell_byte(#[trigger] p[i])
    &&& valid_turn_byte(p[9])
    &&& valid_bench_byte(p[10])
}

/// The game snapshot eleven valid bytes stand for.
pub open spec fn grid_of_bytes(p: Seq<u8>) -> GridModel {
    GridModel {
        board: seq![
            seq![byte_player(p[0]), byte_player(p[1]), byte_player(p[2])],
            seq![byte_player(p[3]), byte_player(p[4]), byte_player(p[5])],
            seq![byte_player(p[6]), byte_player(p[7]), byte_player(p[8])],
        ],
        turn: byte_player(p[9]),
        bench: bench_of_byte(p[10]),
    }
}

/// The payload a message serializes to: a tag byte, then the fields.
pub open spec fn spec_payload(s: StatusModel) -> Seq<u8> {
    match s {
        StatusModel::ServerAskInputFromClient(g) => seq![ASK_TAG] + grid_bytes(g),
        StatusModel::ClientGiveInputToServer(input) => seq![
            GIVE_TAG,
            (input.row + 1) as u8,
            (input.col + 1) as u8,
        ],
        StatusModel::GameOver { game, winner } => seq![OVER_TAG] + grid_bytes(game) + seq![
            player_byte(winner),
        ],
    }
}

/// The message a payload parses to, if it is exactly one well-formed
/// tagged encoding; `None` otherwise.
pub open spec fn spec_parse(p: Seq<u8>) -> Option<StatusModel> {
    if p.len() == 0 {
        None
    } else if p[0] == ASK_TAG {
        if valid_grid_bytes(p.skip(1)) {
            Some(StatusModel::ServerAskInputFromClient(grid_of_bytes(p.skip(1))))
        } else {
            None
        }
    } else if p[0] == GIVE_TAG {
        if p.len() == 3 && valid_move_byte(p[1]) && valid_move_byte(p[2]) {
            Some(
                StatusModel::ClientGiveInputToServer(
                    Input { row: (p[1] - 1) as i32, col: (p[2] - 1) as i32 },
                ),
            )
        } else {
            None
        }
    } else if p[0] == OVER_TAG {
        if p.len() == 13 && valid_grid_bytes(p.subrange(1, 12)) && valid_turn_byte(p[12]) {
            Some(
                StatusModel::GameOver {
                    game: grid_of_bytes(p.subrange(1, 12)),
                    winner: byte_player(p[12]),
                },
            )
        } else {
            None
        }
    } else {
        None
    }
}

/// A frame's payload: the bytes before the first zero, or the whole frame
/// if no byte is zero.
pub open spec fn spec_trim(f: Seq<u8>) -> Seq<u8>
    decreases f.len(),
{
    if f.len() == 0 {
        f
    } else if f[0] == 0 {
        Seq::<u8>::empty()
    } else {
        seq![f[0]] + spec_trim(f.skip(1))
    }
}

/// The full frame a message serializes to: payload, then zeros up to the
/// frame size.
pub open spec fn spec_frame(s: StatusModel, frame_size: int) -> Seq<u8> {
    spec_payload(s) + Seq::<u8>::new((frame_size - spec_payload(s).len()) as nat, |i: int| 0u8)
}

/// If the first `end` bytes are nonzero and the frame ends or holds a zero
/// there, trimming yields exactly those bytes.
proof fn lemma_trim_value(f: Seq<u8>, end: int)
    requires
        0 <= end <= f.len(),
        forall|j: int| 0 <= j < end ==> f[j] != 0,
        end < f.len() ==> f[end] == 0,
    ensures
        spec_trim(f) == f.take(end),
    decreases end,
{
    if end == 0 {
        assert(spec_trim(f) =~= f.take(0));
    } else {
        assert(f[0] != 0);
        lemma_trim_value(f.skip(1), end - 1);
        assert(spec_trim(f) == seq![f[0]] + f.skip(1).take(end - 1));
        assert(seq![f[0]] + f.skip(1).take(end - 1) =~= f.take(end));
    }
}

/// No byte of a well-formed payload is zero, so the terminator that
/// follows it is unambiguous.
pub proof fn lemma_payload_zero_free(s: StatusModel)
    requires
        s.wf(),
    ensures
        forall|i: int| 0 <= i < spec_payload(s).len() ==> #[trigger] spec_payload(s)[i] != 0,
{
}

/// Trimming a zero-padded frame recovers the payload it was built from.
pub proof fn lemma_trim_frame(s: StatusModel, frame_size: int)
    requires
        s.wf(),
        spec_payload(s).len() < frame_size,
    ensures
        spec_trim(spec_frame(s, frame_size)) == spec_payload(s),
{
    let f = spec_frame(s, frame_size);
    let n = spec_payload(s).len() as int;
    lemma_payload_zero_free(s);
    lemma_trim_value(f, n);
    assert(f.take(n) =~= spec_payload(s));
}

/// Parsing inverts serialization on every well-formed message.
pub proof fn lemma_parse_payload(s: StatusModel)
    requires
        s.wf(),
    ensures
        spec_parse(spec_payload(s)) == Some(s),
{
    let p = spec_payload(s);
    match s {
        StatusModel::ServerAskInputFromClient(g) => {
            assert(p.skip(1) =~= grid_bytes(g));
            lemma_grid_bytes_roundtrip(g);
        },
        StatusModel::ClientGiveInputToServer(input) => {
            assert(spec_parse(p)->Some_0 =~~= s);
        },
        StatusModel::GameOver { game, winner } => {
            assert(p.subrange(1, 12) =~= grid_bytes(game));
            lemma_grid_bytes_roundtrip(game);
            assert(spec_parse(p)->Some_0 =~~= s);
        },
    }
}

/// A serialized snapshot is valid and parses back to the same game.
proof fn lemma_grid_bytes_roundtrip(g: GridModel)
    requires
        g.wf(),
    ensures
        valid_grid_bytes(grid_bytes(g)),
        grid_of_bytes(grid_bytes(g)) == g,
{
    assert(grid_of_bytes(grid_bytes(g)).board =~~= g.board);
    assert(grid_of_bytes(grid_bytes(g)) =~~= g);
}

/// Round trip: a frame encoded from any well-formed message trims and
/// parses back to exactly that message.
pub proof fn lemma_encode_decode_roundtrip(s: StatusModel, frame_size: int)
    requires
        s.wf(),
        spec_payload(s).len() < frame_size,
    ensures
        spec_parse(spec_trim(spec_frame(s, frame_size))) == Some(s),
{
    lemma_trim_frame(s, frame_size);
    lemma_parse_payload(s);
}

/// A payload whose tag byte names no known variant never parses.
pub proof fn lemma_unknown_tag_malformed(p: Seq<u8>)
    requires
        p.len() == 0 || (p[0] != ASK_TAG && p[0] != GIVE_TAG && p[0] != OVER_TAG),
    ensures
        spec_parse(p) is None,
{
}

fn player_to_byte(p: Player) -> (b: u8)
    ensures
        b == player_byte(p),
{
    match p {
        Player::Clear => 1,
        Player::O => 2,
        Player::X => 3,
    }
}

fn byte_to_player(b: u8) -> (p: Player)
    ensures
        p == byte_player(b),
{
    if b == 1 {
        Player::Clear
    } else if b == 2 {
        Player::O
    } else {
        Player::X
    }
}

/// The eleven snapshot bytes of `game`, ready to append to a payload.
fn grid_to_bytes(game: &TicTacToe) -> (b: Vec<u8>)
    requires
        game@.wf(),
    ensures
        b@ == grid_bytes(game@),
{
    let rows = game.board();
    let r0 = &rows[0];
    let r1 = &rows[1];
    let r2 = &rows[2];
    let mut b: Vec<u8> = Vec::new();
    b.push(player_to_byte(r0[0]));
    b.push(player_to_byte(r0[1]));
    b.push(player_to_byte(r0[2]));
    proof {
        assert(b@ =~= grid_bytes(game@).take(3));
    }
    b.push(player_to_byte(r1[0]));
    b.push(player_to_byte(r1[1]));
    b.push(player_to_byte(r1[2]));
    proof {
        assert(b@ =~= grid_bytes(game@).take(6));
    }
    b.push(player_to_byte(r2[0]));
    b.push(player_to_byte(r2[1]));
    b.push(player_to_byte(r2[2]));
    proof {
        assert(b@ =~= grid_bytes(game@).take(9));
    }
    b.push(player_to_byte(game.get_turn()));
    let seats = game.seats_remaining();
    b.push((seats + 1) as u8);
    proof {
        assert(b@ =~= grid_bytes(game@));
    }
    b
}

/// Serializes a message into a frame of exactly `frame_size` bytes: the
/// tagged payload, then zeros up to the frame size. Fails with
/// `FrameTooLarge` iff the payload fills the frame with no byte left for
/// the terminator.
pub fn encode(message: &MultiplayerStatus, frame_size: usize) -> (r: Result<Vec<u8>, CodecError>)
    requires
        message@.wf(),
    ensures
        spec_payload(message@).len() < frame_size ==> (r matches Ok(f) && f@ == spec_frame(
            message@,
            frame_size as int,
        )),
        spec_payload(message@).len() >= frame_size ==> r == Err::<Vec<u8>, CodecError>(
            CodecError::FrameTooLarge,
        ),
{
    let mut payload: Vec<u8> = Vec::new();
    match message {
        MultiplayerStatus::ServerAskInputFromClient(game) => {
            payload.push(ASK_TAG);
            let mut gb = grid_to_bytes(game);
            payload.append(&mut gb);
        },
        MultiplayerStatus::ClientGiveInputToServer(input) => {
            payload.push(GIVE_TAG);
            payload.push((input.row + 1) as u8);
            payload.push((input.col + 1) as u8);
        },
        MultiplayerStatus::GameOver { game, winner } => {
            payload.push(OVER_TAG);
            let mut gb = grid_to_bytes(game);
            payload.append(&mut gb);
            payload.push(player_to_byte(*winner));
        },
    }
    proof {
        assert(payload@ =~= spec_payload(message@));
    }
    if payload.len() >= frame_size {
        return Err(CodecError::FrameTooLarge);
    }
    let mut frame = payload;
    while frame.len() < frame_size
        invariant
            spec_payload(message@).len() < frame_size,
            spec_payload(message@).len() <= frame@.len() <= frame_size,
            frame@.take(spec_payload(message@).len() as int) == spec_payload(message@),
            forall|i: int|
                spec_payload(message@).len() <= i < frame@.len() ==> #[trigger] frame@[i] == 0u8,
        decreases frame_size - frame@.len(),
    {
        frame.push(0u8);
        proof {
            assert(frame@.take(spec_payload(message@).len() as int) =~= spec_payload(message@));
        }
    }
    proof {
        assert(frame@ =~= spec_frame(message@, frame_size as int));
    }
    Ok(frame)
}

/// Parses a received frame: the payload ends at the first zero byte (or
/// at the end of the frame) and must be exactly one well-formed tagged
/// message; anything else fails with `MalformedFrame`.
pub fn decode(frame: &Vec<u8>) -> (r: Result<MultiplayerStatus, CodecError>)
    ensures
        r matches Ok(message) ==> spec_parse(spec_trim(frame@)) == Some(message@)
            && message@.wf(),
        r matches Err(e) ==> e == CodecError::MalformedFrame && spec_parse(spec_trim(frame@))
            is None,
{
    let n = frame.len();
    let mut end: usize = 0;
    while end < n && frame[end] != 0u8
        invariant
            end <= n,
            n == frame@.len(),
            forall|j: int| 0 <= j < end ==> frame@[j] != 0,
        decreases n - end,
    {
        end += 1;
    }
    proof {
        lemma_trim_value(frame@, end as int);
    }
    let ghost p = spec_trim(frame@);
    if end == 0 {
        return Err(CodecError::MalformedFrame);
    }
    let tag = frame[0];
    if tag == ASK_TAG {
        if end != 12 {
            return Err(CodecError::MalformedFrame);
        }
        match decode_grid(frame, 1) {
            Some(game) => {
                proof {
                    assert(p.skip(1) =~= frame@.subrange(1, 12));
                    assert(StatusModel::ServerAskInputFromClient(game@)
                        =~~= spec_parse(p)->Some_0);
                }
                Ok(MultiplayerStatus::ServerAskInputFromClient(game))
            },
            None => {
                proof {
                    assert(p.skip(1) =~= frame@.subrange(1, 12));
                }
                Err(CodecError::MalformedFrame)
            },
        }
    } else if tag == GIVE_TAG {
        if end != 3 {
            return Err(CodecError::MalformedFrame);
        }
        let rb = frame[1];
        let cb = frame[2];
        if rb < 1 || rb > 3 || cb < 1 || cb > 3 {
            return Err(CodecError::MalformedFrame);
        }
        let input = Input { row: (rb - 1) as i32, col: (cb - 1) as i32 };
        Ok(MultiplayerStatus::ClientGiveInputToServer(input))
    } else if tag == OVER_TAG {
        if end != 13 {
            return Err(CodecError::MalformedFrame);
        }
        let wb = frame[12];
        if wb < 2 || wb > 3 {
            return Err(CodecError::MalformedFrame);
        }
        match decode_grid(frame, 1) {
            Some(game) => {
                let winner = byte_to_player(wb);
                proof {
                    assert(p.subrange(1, 12) =~= frame@.subrange(1, 12));
                    assert(StatusModel::GameOver { game: game@, winner } =~~= spec_parse(
                        p,
                    )->Some_0);
                }
                Ok(MultiplayerStatus::GameOver { game, winner })
            },
            None => {
                proof {
                    assert(p.subrange(1, 12) =~= frame@.subrange(1, 12));
                }
                Err(CodecError::MalformedFrame)
            },
        }
    } else {
        Err(CodecError::MalformedFrame)
    }
}

/// Reads the eleven snapshot bytes starting at `start` back into a game,
/// or reports that some byte is out of its valid range.
fn decode_grid(frame: &Vec<u8>, start: usize) -> (r: Option<TicTacToe>)
    requires
        start + 11 <= frame@.len(),
    ensures
        r matches Some(game) ==> valid_grid_bytes(frame@.subrange(start as int, start + 11))
            && game@ == grid_of_bytes(frame@.subrange(start as int, start + 11)) && game@.wf(),
        r is None ==> !valid_grid_bytes(frame@.subrange(start as int, start + 11)),
{
    let ghost p = frame@.subrange(start as int, start + 11);
    let n = frame.len();
    let mut i: usize = 0;
    while i < 9
        invariant
            i <= 9,
            start + 11 <= n,
            n == frame@.len(),
            p == frame@.subrange(start as int, start + 11),
            forall|j: int| 0 <= j < i ==> valid_cell_byte(#[trigger] p[j]),
        decreases 9 - i,
    {
        let b = frame[start + i];
        if b < 1 || b > 3 {
            return None;
        }
        i += 1;
    }
    let tb = frame[start + 9];
    if tb < 2 || tb > 3 {
        return None;
    }
    let bb = frame[start + 10];
    if bb < 1 || bb > 3 {
        return None;
    }
    let mut rows: Vec<Vec<Player>> = Vec::new();
    let mut r: usize = 0;
    while r < 3
        invariant
            r <= 3,
            start + 11 <= n,
            n == frame@.len(),
            p == frame@.subrange(start as int, start + 11),
            valid_grid_bytes(p),
            rows@.len() == r as int,
            forall|k: int|
                0 <= k < r as int ==> #[trigger] rows@[k]@ == grid_of_bytes(p).board[k],
        decreases 3 - r,
    {
        let mut row: Vec<Player> = Vec::new();
        row.push(byte_to_player(frame[start + 3 * r]));
        row.push(byte_to_player(frame[start + 3 * r + 1]));
        row.push(byte_to_player(frame[start + 3 * r + 2]));
        proof {
            assert(row@ =~= grid_of_bytes(p).board[r as int]);
        }
        rows.push(row);
        r += 1;
    }
    let turn = byte_to_player(tb);
    let game = TicTacToe::from_parts(rows, turn, bb - 1);
    proof {
        assert(game@ =~~= grid_of_bytes(p));
    }
    Some(game)
}

} // verus!

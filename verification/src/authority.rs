//! The authority loop's decision logic: the single coordinating side that
//! owns the canonical game, seats incoming peers up to the player
//! capacity, requests and validates moves, and advances turns.
//!
//! Only decisions live here. The surrounding process performs each decided
//! action (accept, send, close) and feeds the resulting events back in.

use vstd::prelude::*;

use crate::game::GameError;
use crate::game::GridModel;
use crate::game::Input;
use crate::game::MoveOutcome;
use crate::game::MultiplayerStatus;
use crate::game::Player;
use crate::game::StatusModel;
use crate::game::TicTacToe;
use crate::game::game_over;
use crate::game::init_model;
use crate::game::spec_apply_move;
use crate::game::spec_take_seat;

verus! {

/// Where the coordinating authority stands in the game's lifecycle.
#[derive(Debug, PartialEq, Eq, Structural, Clone, Copy)]
pub enum AuthorityPhase {
    /// Fewer than two peers are seated; connections are still accepted.
    AwaitingPeers,
    /// Both seats are taken and the player on turn owes a move.
    AwaitingMove,
    /// The game ended with this winner; nothing further is read or sent.
    Finished(Player),
    /// The peer on turn disconnected; the game was abandoned, no winner.
    Aborted,
}

/// What the authority decided for one incoming connection.
#[derive(Debug, PartialEq, Eq, Structural, Clone, Copy)]
pub enum ConnectOutcome {
    /// The peer was accepted and assigned this identity.
    Seated(Player),
    /// Both seats are taken (or the game has moved on): the connection is
    /// to be closed immediately, and nothing changed.
    Rejected,
}

/// What the authority decided for one submitted move.
#[derive(Debug, PartialEq, Eq, Structural, Clone, Copy)]
pub enum TurnOutcome {
    /// The move was invalid for this reason: the game is unchanged and the
    /// same request is owed again to the same peer.
    Rejected(GameError),
    /// The move was written and the turn advanced: the other player now
    /// owes a move.
    Advanced,
    /// The move won the game for this player: the game-over report is owed
    /// to all sessions, and the authority is finished.
    GameWon(Player),
}

/// The model of the authority: the game it owns, and its phase.
#[verifier::ext_equal]
pub struct AuthorityModel {
    pub game: GridModel,
    pub phase: AuthorityPhase,
}

impl AuthorityModel {
    /// Validity: the game is valid; seats are still on the bench exactly
    /// while peers are awaited; the game is over exactly when finished,
    /// with the turn resting on the winner.
    pub open spec fn wf(self) -> bool {
        &&& self.game.wf()
        &&& (self.phase == AuthorityPhase::AwaitingPeers <==> self.game.bench.len() > 0)
        &&& (self.phase matches AuthorityPhase::Finished(w) ==> game_over(self.game)
            && self.game.turn == w)
        &&& (!(self.phase matches AuthorityPhase::Finished(_)) ==> !game_over(self.game))
    }
}

/// What `on_connect` does: while peers are awaited the next seat is
/// assigned and, once the bench empties, the first move is awaited; in
/// every other phase the connection is rejected and nothing changes.
pub open spec fn spec_on_connect(m: AuthorityModel) -> (AuthorityModel, ConnectOutcome) {
    if m.phase == AuthorityPhase::AwaitingPeers && m.game.bench.len() > 0 {
        let g1 = spec_take_seat(m.game).0;
        let phase = if g1.bench.len() == 0 {
            AuthorityPhase::AwaitingMove
        } else {
            AuthorityPhase::AwaitingPeers
        };
        (AuthorityModel { game: g1, phase }, ConnectOutcome::Seated(m.game.bench[0]))
    } else {
        (m, ConnectOutcome::Rejected)
    }
}

/// What `on_move` does: apply the move to the game; an invalid move
/// changes nothing, a winning move finishes the game, any other move
/// advances the turn.
pub open spec fn spec_on_move(m: AuthorityModel, row: int, col: int) -> (
    AuthorityModel,
    TurnOutcome,
) {
    let (g1, outcome) = spec_apply_move(m.game, row, col);
    match outcome {
        MoveOutcome::Invalid(e) => (m, TurnOutcome::Rejected(e)),
        MoveOutcome::Continued => (
            AuthorityModel { game: g1, phase: AuthorityPhase::AwaitingMove },
            TurnOutcome::Advanced,
        ),
        MoveOutcome::Won(w) => (
            AuthorityModel { game: g1, phase: AuthorityPhase::Finished(w) },
            TurnOutcome::GameWon(w),
        ),
    }
}

/// What `on_disconnect` does: losing the peer whose move is awaited aborts
/// the game; losing any other peer changes nothing here.
pub open spec fn spec_on_disconnect(m: AuthorityModel, peer: Player) -> AuthorityModel {
    if m.phase == AuthorityPhase::AwaitingMove && peer == m.game.turn {
        AuthorityModel { phase: AuthorityPhase::Aborted, ..m }
    } else {
        m
    }
}

/// The coordinating authority. It exclusively owns the canonical game;
/// no connection worker ever touches it.
pub struct Authority {
    game: TicTacToe,
    phase: AuthorityPhase,
}

impl View for Authority {
    type V = AuthorityModel;

    closed spec fn view(&self) -> AuthorityModel {
        AuthorityModel { game: self.game@, phase: self.phase }
    }
}

impl Authority {
    /// A fresh authority: a fresh game, awaiting its two peers.
    pub fn new() -> (a: Authority)
        ensures
            a@.wf(),
            a@.game == init_model(),
            a@.phase == AuthorityPhase::AwaitingPeers,
    {
        Authority { game: TicTacToe::new(), phase: AuthorityPhase::AwaitingPeers }
    }

    /// The authority's current phase.
    pub fn phase(&self) -> (p: AuthorityPhase)
        ensures
            p == self@.phase,
    {
        self.phase
    }

    /// The game the authority owns, read-only.
    pub fn game(&self) -> (g: &TicTacToe)
        ensures
            g@ == self@.game,
    {
        &self.game
    }

    /// Handles one incoming connection: while a seat is free the peer is
    /// seated (the first accepted peer gets `O`, the second `X`) and, once
    /// both seats are taken, the authority starts awaiting the first move;
    /// any further connection is rejected and changes nothing.
    pub fn on_connect(&mut self) -> (r: ConnectOutcome)
        requires
            old(self)@.wf(),
        ensures
            final(self)@.wf(),
            final(self)@ == spec_on_connect(old(self)@).0,
            r == spec_on_connect(old(self)@).1,
    {
        if self.phase == AuthorityPhase::AwaitingPeers {
            match self.game.get_player_from_bench() {
                Ok(seat) => {
                    if self.game.seats_remaining() == 0 {
                        self.phase = AuthorityPhase::AwaitingMove;
                    }
                    ConnectOutcome::Seated(seat)
                },
                // While peers are awaited the bench is never empty, so the
                // seat assignment cannot fail.
                Err(_) => unreached(),
            }
        } else {
            ConnectOutcome::Rejected
        }
    }

    /// The message owed while a move is awaited: a request to the player
    /// on turn, carrying a snapshot of the game. Only that player is
    /// polled; the other session receives nothing this turn.
    pub fn current_request(&self) -> (r: (Player, MultiplayerStatus))
        requires
            self@.wf(),
            self@.phase == AuthorityPhase::AwaitingMove,
        ensures
            r.0 == self@.game.turn,
            r.1@ == StatusModel::ServerAskInputFromClient(self@.game),
            r.1@.wf(),
    {
        let snapshot = self.game.snapshot();
        (self.game.get_turn(), MultiplayerStatus::ServerAskInputFromClient(snapshot))
    }

    /// Applies one submitted move: an invalid move is discarded (the same
    /// request is owed again), a winning move finishes the game, and any
    /// other move advances the turn to the other player.
    pub fn on_move(&mut self, input: Input) -> (r: TurnOutcome)
        requires
            old(self)@.wf(),
            old(self)@.phase == AuthorityPhase::AwaitingMove,
        ensures
            final(self)@.wf(),
            final(self)@ == spec_on_move(old(self)@, input.row as int, input.col as int).0,
            r == spec_on_move(old(self)@, input.row as int, input.col as int).1,
    {
        match self.game.apply_move(input) {
            MoveOutcome::Invalid(e) => TurnOutcome::Rejected(e),
            MoveOutcome::Continued => TurnOutcome::Advanced,
            MoveOutcome::Won(winner) => {
                self.phase = AuthorityPhase::Finished(winner);
                TurnOutcome::GameWon(winner)
            },
        }
    }

    /// A peer's channel closed. If it is the peer whose move the authority
    /// is awaiting, the game cannot continue: it is aborted with no
    /// winner. Otherwise nothing changes here.
    pub fn on_disconnect(&mut self, peer: Player)
        requires
            old(self)@.wf(),
        ensures
            final(self)@.wf(),
            final(self)@ == spec_on_disconnect(old(self)@, peer),
    {
        if self.phase == AuthorityPhase::AwaitingMove {
            if self.game.get_turn() == peer {
                self.phase = AuthorityPhase::Aborted;
            }
        }
    }

    /// The terminal broadcast owed to every session once the game is won:
    /// the final snapshot and the winner.
    pub fn game_over_message(&self) -> (r: MultiplayerStatus)
        requires
            self@.wf(),
            (self@.phase matches AuthorityPhase::Finished(_)),
        ensures
            (self@.phase matches AuthorityPhase::Finished(w) ==> r@ == (StatusModel::GameOver {
                game: self@.game,
                winner: w,
            }) && r@.wf()),
    {
        let winner = self.game.get_turn();
        let snapshot = self.game.snapshot();
        MultiplayerStatus::GameOver { game: snapshot, winner }
    }
}

} // verus!

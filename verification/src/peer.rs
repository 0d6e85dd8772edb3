//! The remote peer's decision logic: a two-state loop that waits for the
//! authority, solicits one move when asked, and terminates on game over.
//!
//! Rendering and input collection happen outside the library; this module
//! only decides what each received message calls for.

use vstd::prelude::*;

use crate::game::Input;
use crate::game::MultiplayerStatus;
use crate::game::Player;
use crate::game::StatusModel;
use crate::game::spec_board_text;

verus! {

/// What the peer loop must do with one received message.
pub enum PeerDirective {
    /// Show the rendered board, name the player on turn, and solicit one
    /// move from the local user.
    AskUser { board_text: String, turn: Player },
    /// Show the final board and the winner, then terminate normally.
    Finish { board_text: String, winner: Player },
}

/// Decides the peer's reaction to one message from the authority: a move
/// request solicits a move, a game-over report ends the session, and a
/// message not addressed to a peer is ignored.
pub fn handle_server_message(message: &MultiplayerStatus) -> (r: Option<PeerDirective>)
    requires
        message@.wf(),
    ensures
        (message@ matches StatusModel::ServerAskInputFromClient(g) ==> (r matches Some(d) && d
            matches PeerDirective::AskUser { board_text, turn } && board_text@ == spec_board_text(
            g,
        ) && turn == g.turn)),
        (message@ matches StatusModel::GameOver { game, winner } ==> (r matches Some(d) && d
            matches PeerDirective::Finish { board_text, winner: w } && board_text@
            == spec_board_text(game) && w == winner)),
        (message@ matches StatusModel::ClientGiveInputToServer(_) ==> (r is None)),
{
    match message {
        MultiplayerStatus::ServerAskInputFromClient(game) => Some(
            PeerDirective::AskUser { board_text: game.get_board(), turn: game.get_turn() },
        ),
        MultiplayerStatus::GameOver { game, winner } => Some(
            PeerDirective::Finish { board_text: game.get_board(), winner: *winner },
        ),
        MultiplayerStatus::ClientGiveInputToServer(_) => None,
    }
}

/// Wraps one locally solicited move as the reply owed to the authority.
pub fn reply_for_input(input: Input) -> (r: MultiplayerStatus)
    ensures
        r@ == StatusModel::ClientGiveInputToServer(input),
{
    MultiplayerStatus::ClientGiveInputToServer(input)
}

} // verus!

//! A two-player 3x3 grid game with a networked turn-exchange protocol.
//!
//! The crate holds the verified core of the game: the grid engine
//! ([`game`]), the fixed-size wire codec ([`codec`]), the decision logic of
//! the coordinating authority ([`authority`]) and of a remote peer
//! ([`peer`]), and the per-iteration decisions of a connection channel
//! worker ([`channel`]). Socket and terminal plumbing live outside the
//! library and drive these functions with plain values.

pub mod authority;
pub mod channel;
pub mod codec;
pub mod game;
pub mod peer;

pub use codec::CodecError;
pub use game::GameError;
pub use game::Player;
pub use game::TicTacToe;

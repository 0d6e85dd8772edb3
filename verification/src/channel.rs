//! The connection channel worker's per-iteration decision: what to do
//! with the outcome of one non-blocking read of a full frame.
//!
//! The worker itself — socket, queues, and the poll-sleep loop — lives
//! outside the library; it reports each read outcome here and performs
//! the returned action.

use vstd::prelude::*;

use crate::codec::decode;
use crate::codec::spec_parse;
use crate::codec::spec_trim;
use crate::game::MultiplayerStatus;

verus! {

/// What one non-blocking read attempt on the peer socket produced.
pub enum ReadEvent {
    /// A full frame was read.
    Frame(Vec<u8>),
    /// No data was available yet; not an error.
    NoData,
    /// Any other outcome — partial frame, reset, closed socket — counts
    /// as peer disconnection.
    Closed,
}

/// What the channel worker must do after one read attempt.
pub enum ChannelAction {
    /// Forward this decoded message to the owning side's inbound queue.
    Deliver(MultiplayerStatus),
    /// Nothing arrived; fall through to the send side and sleep.
    Idle,
    /// Mark the channel closed and stop the worker, releasing the socket.
    CloseChannel,
}

/// Decides one iteration of the worker's read side: a readable frame is
/// decoded and forwarded; a malformed frame is treated exactly like a
/// connection error, since fixed-size framing gives no way to
/// resynchronize; silence is a no-op; an I/O error closes the channel.
pub fn on_read_event(event: ReadEvent) -> (r: ChannelAction)
    ensures
        (event matches ReadEvent::Frame(f) ==> ({
            &&& spec_parse(spec_trim(f@)) matches Some(m) ==> (r matches ChannelAction::Deliver(d)
                && d@ == m && m.wf())
            &&& spec_parse(spec_trim(f@)) is None ==> (r is CloseChannel)
        })),
        (event is NoData ==> (r is Idle)),
        (event is Closed ==> (r is CloseChannel)),
{
    match event {
        ReadEvent::Frame(frame) => match decode(&frame) {
            Ok(message) => ChannelAction::Deliver(message),
            Err(_) => ChannelAction::CloseChannel,
        },
        ReadEvent::NoData => ChannelAction::Idle,
        ReadEvent::Closed => ChannelAction::CloseChannel,
    }
}

} // verus!

use vstd::prelude::*;

use crate::packet::Packet;

verus! {

/// What one successful `receive` call surfaces.
///
/// `Empty` is not an error: it means "no event available this poll" and is
/// returned by the cooperative binding, which never blocks.
#[derive(Clone, PartialEq, Debug)]
pub enum SocketEvent {
    /// Nothing available this poll.
    Empty,
    /// An inbound application message.
    Packet(Packet),
    /// The connection handshake completed: the server-hello payload arrived
    /// from the configured server address.
    Connection,
    /// The transport detected the peer unreachable or timed out.
    Disconnection,
}

} // verus!

use vstd::prelude::*;

verus! {

/// Errors surfaced by `receive` and `send`.
///
/// `ChannelClosed` is transport-fatal: the path to the transport has been torn
/// down and the socket is unusable afterward.  The other two are protocol
/// errors: polling may continue.
#[derive(Clone, Copy, PartialEq, Eq, Structural, Debug)]
pub enum SocketError {
    /// The channel to the transport (or from it) has been permanently closed.
    ChannelClosed,
    /// A datagram arrived from an address other than the configured server.
    UnknownSender,
    /// The transport reported a connection from an unexpected peer; the
    /// client initiates connections itself, via the hello convention.
    UnknownHost,
}

impl SocketError {
    /// A short diagnostic text for this error.
    pub fn describe(&self) -> (s: &'static str)
        ensures
            *self is ChannelClosed ==> s@ == "transport channel closed"@,
            *self is UnknownSender ==> s@ == "unknown sender"@,
            *self is UnknownHost ==> s@ == "unknown host"@,
    {
        match self {
            SocketError::ChannelClosed => "transport channel closed",
            SocketError::UnknownSender => "unknown sender",
            SocketError::UnknownHost => "unknown host",
        }
    }
}

} // verus!

use vstd::prelude::*;

use crossbeam_channel::Receiver;
use crossbeam_channel::Sender;

use crate::address::Address;
use crate::channel::channel_pair;
use crate::channel::channel_recv;
use crate::channel::clone_sender;
use crate::config::Config;
use crate::config::effective_heartbeat_millis;
use crate::error::SocketError;
use crate::handshake::bytes_eq;
use crate::handshake::initial_handshake_packet;
use crate::handshake::server_hello;
use crate::handshake::server_hello_bytes;
use crate::message_sender::MessageSender;
use crate::message_sender::retry_dropped;
use crate::packet::Packet;
use crate::socket_event::SocketEvent;

verus! {

/// One notification out of the reliable-datagram transport, as plain values:
/// a transport-level connect, an inbound datagram, or a peer timeout.
#[derive(Clone, PartialEq, Debug)]
pub enum TransportEvent {
    /// The transport established a connection with the named peer.
    Connect(Address),
    /// An inbound datagram: sender address and payload bytes.
    Packet(Address, Vec<u8>),
    /// The named peer became unreachable or timed out.
    Timeout(Address),
}

/// What `receive` makes of one transport notification.
///
/// A datagram from any address other than the configured server is an error,
/// never data.  A datagram from the server whose payload equals the
/// server-hello literal byte for byte surfaces as `Connection`; any other
/// payload surfaces unchanged as a `Packet`, whether or not a `Connection`
/// has been observed before.  A transport-level connect is an error, since
/// the client initiates connections only via the hello convention, and a
/// timeout becomes `Disconnection`.
pub open spec fn classify_spec(server: Address, ev: TransportEvent) -> Result<
    SocketEvent,
    SocketError,
> {
    match ev {
        TransportEvent::Connect(_) => Result::Err(SocketError::UnknownHost),
        TransportEvent::Timeout(_) => Result::Ok(SocketEvent::Disconnection),
        TransportEvent::Packet(from, payload) => if from != server {
            Result::Err(SocketError::UnknownSender)
        } else if payload@ == server_hello() {
            Result::Ok(SocketEvent::Connection)
        } else {
            Result::Ok(SocketEvent::Packet(Packet { address: from, payload }))
        },
    }
}

/// The event-translation step of the threaded binding, exactly as
/// `classify_spec` states it.
pub fn classify_transport_event(server: Address, ev: TransportEvent) -> (r: Result<
    SocketEvent,
    SocketError,
>)
    ensures
        r == classify_spec(server, ev),
{
    match ev {
        TransportEvent::Connect(_) => Result::Err(SocketError::UnknownHost),
        TransportEvent::Timeout(_) => Result::Ok(SocketEvent::Disconnection),
        TransportEvent::Packet(from, payload) => {
            if !(from == server) {
                Result::Err(SocketError::UnknownSender)
            } else {
                let hello = server_hello_bytes();
                if bytes_eq(&payload, &hello) {
                    Result::Ok(SocketEvent::Connection)
                } else {
                    Result::Ok(SocketEvent::Packet(Packet { address: from, payload }))
                }
            }
        },
    }
}

/// Sender-address gating: a datagram from an address other than the
/// configured server address never becomes a `Packet` event; it yields a
/// protocol error.
pub proof fn lemma_sender_gating(server: Address, from: Address, payload: Vec<u8>)
    requires
        from != server,
    ensures
        classify_spec(server, TransportEvent::Packet(from, payload)) == Result::<
            SocketEvent,
            SocketError,
        >::Err(SocketError::UnknownSender),
{
}

/// Handshake boundary: from the server address, a payload byte-for-byte
/// equal to the server-hello literal yields `Connection`, and any payload
/// differing in even one byte yields `Packet` carrying that very payload.
pub proof fn lemma_handshake_boundary(server: Address, payload: Vec<u8>)
    ensures
        payload@ == server_hello() ==> classify_spec(
            server,
            TransportEvent::Packet(server, payload),
        ) == Result::<SocketEvent, SocketError>::Ok(SocketEvent::Connection),
        payload@ != server_hello() ==> classify_spec(
            server,
            TransportEvent::Packet(server, payload),
        ) == Result::<SocketEvent, SocketError>::Ok(
            SocketEvent::Packet(Packet { address: server, payload }),
        ),
{
}

/// The far ends of the threaded socket's shared channels: a background
/// thread drives the reliable-datagram transport with these, translating
/// inbound activity into `TransportEvent`s, draining `outgoing` into the
/// transport, and recording asynchronous send failures through `outbox`.
pub struct UdpTransportTask {
    /// Producer side of the socket's event path.
    pub events: Sender<TransportEvent>,
    /// Consumer side of the outgoing-packet path.
    pub outgoing: Receiver<Packet>,
    /// Failed-send paths outside the `MessageSender` append here.
    pub outbox: Sender<Packet>,
    /// The heartbeat interval the transport must be opened with.
    pub heartbeat_millis: u64,
}

/// The threaded binding: a background thread owns the transport's blocking
/// poll loop and is the sole producer into the event path; the caller's
/// thread blocks only inside `receive`.
pub struct UdpClientSocket {
    sender: MessageSender,
    events: Receiver<TransportEvent>,
    outbox_rx: Receiver<Packet>,
}

impl UdpClientSocket {
    /// The fixed configured remote endpoint.
    pub closed spec fn spec_server(&self) -> Address {
        self.sender.spec_server()
    }

    /// Opens the threaded binding bound to `server_address`: builds the
    /// shared channels, queues the client-hello literal for the transport
    /// (relying entirely on the external transport's own retransmission for
    /// its delivery — the binding performs no handshake retries of its own),
    /// and returns the socket together with the task the background thread
    /// must run.
    pub fn connect(server_address: Address, config: Option<Config>) -> (r: (
        UdpClientSocket,
        UdpTransportTask,
    ))
        ensures
            r.0.spec_server() == server_address,
            r.1.heartbeat_millis == (match config {
                Option::Some(c) => c.heartbeat_interval_millis,
                Option::None => crate::config::DEFAULT_HEARTBEAT_MILLIS,
            }),
    {
        let (events_tx, events_rx) = channel_pair::<TransportEvent>();
        let (outgoing_tx, outgoing_rx) = channel_pair::<Packet>();
        let (outbox_tx, outbox_rx) = channel_pair::<Packet>();
        let outbox_tx_task = clone_sender(&outbox_tx);
        let sender = MessageSender::new(server_address, outgoing_tx, outbox_tx);
        // Send the initial client handshake.
        let _ = sender.send(initial_handshake_packet(server_address));
        let socket = UdpClientSocket { sender, events: events_rx, outbox_rx };
        let task = UdpTransportTask {
            events: events_tx,
            outgoing: outgoing_rx,
            outbox: outbox_tx_task,
            heartbeat_millis: effective_heartbeat_millis(&config),
        };
        (socket, task)
    }

    /// Polls the socket.  First every packet in the dropped-outbox is
    /// resent, in original order; then the call blocks until the transport
    /// produces one event, which is classified as `classify_spec` states, or
    /// until the producer side is permanently closed, which is terminal.
    pub fn receive(&mut self) -> (r: Result<SocketEvent, SocketError>)
        ensures
            *final(self) == *old(self),
            r == Result::<SocketEvent, SocketError>::Err(SocketError::ChannelClosed) || (exists|
                ev: TransportEvent,
            |
                r == classify_spec(old(self).spec_server(), ev)),
    {
        retry_dropped(&self.sender, &self.outbox_rx);
        match channel_recv(&self.events) {
            Option::None => Result::Err(SocketError::ChannelClosed),
            Option::Some(ev) => {
                let ghost gev = ev;
                let server = self.sender.server_address();
                let out = classify_transport_event(server, ev);
                proof {
                    assert(out == classify_spec(old(self).spec_server(), gev));
                }
                out
            },
        }
    }

    /// A cloneable handle sharing this socket's transmission path and
    /// dropped-outbox.
    pub fn get_sender(&mut self) -> (s: MessageSender)
        ensures
            *final(self) == *old(self),
            s.spec_server() == old(self).spec_server(),
    {
        self.sender.clone()
    }

    /// The fixed configured remote endpoint.
    pub fn server_address(&self) -> (a: Address)
        ensures
            a == self.spec_server(),
    {
        self.sender.server_address()
    }
}

} // verus!

use vstd::prelude::*;

use crossbeam_channel::Receiver;
use crossbeam_channel::Sender;

use crate::address::Address;
use crate::channel::channel_pending;
use crate::channel::channel_send;
use crate::channel::channel_try_recv;
use crate::channel::clone_sender;
use crate::error::SocketError;
use crate::packet::Packet;

verus! {

/// A cloneable handle that submits outgoing packets to the active transport
/// binding and records failures into the dropped-outbox.  All clones share
/// the same transmission path and the same outbox; the sender itself never
/// retries — retry is the socket's `receive` step.
pub struct MessageSender {
    server: Address,
    outgoing: Sender<Packet>,
    outbox: Sender<Packet>,
}

impl MessageSender {
    /// The configured server endpoint this handle sends toward.
    pub closed spec fn spec_server(&self) -> Address {
        self.server
    }

    pub(crate) fn new(server: Address, outgoing: Sender<Packet>, outbox: Sender<Packet>) -> (s:
        MessageSender)
        ensures
            s.spec_server() == server,
    {
        MessageSender { server, outgoing, outbox }
    }

    /// The fixed remote endpoint.
    pub fn server_address(&self) -> (a: Address)
        ensures
            a == self.spec_server(),
    {
        self.server
    }

    /// Submits one packet to the transport's outgoing path.  This does not
    /// block; it fails only if the path's receiving side has been torn down
    /// (fatal, not transient), and the unsent packet is then recorded in the
    /// dropped-outbox so that the next `receive` call retries it.
    pub fn send(&self, packet: Packet) -> (r: Result<(), SocketError>)
        ensures
            r matches Err(e) ==> e == SocketError::ChannelClosed,
    {
        match channel_send(&self.outgoing, packet) {
            Result::Ok(()) => Result::Ok(()),
            Result::Err(returned) => {
                // The failed-send path appends the unsent packet to the
                // dropped-outbox; if even the outbox is gone the socket
                // itself was dropped and the packet is unreachable anyway.
                let _ = channel_send(&self.outbox, returned);
                Result::Err(SocketError::ChannelClosed)
            },
        }
    }
}

impl Clone for MessageSender {
    /// The clone shares the transmission path and the dropped-outbox of the
    /// original; nothing is copied but the handle itself.
    fn clone(&self) -> (r: Self)
        ensures
            r.spec_server() == self.spec_server(),
    {
        MessageSender {
            server: self.server,
            outgoing: clone_sender(&self.outgoing),
            outbox: clone_sender(&self.outbox),
        }
    }
}

/// The drain-and-retry step shared by both bindings: atomically snapshots the
/// packets now sitting in the dropped-outbox (packets enqueued by a
/// concurrent failure during this step are retried on the next call) and
/// resends each in original submission order.  A failure here is recorded
/// back into the outbox by `send` and is not propagated.
pub(crate) fn retry_dropped(sender: &MessageSender, outbox_rx: &Receiver<Packet>) {
    let pending = channel_pending(outbox_rx);
    let mut dropped: Vec<Packet> = Vec::new();
    let mut i: usize = 0;
    while i < pending
        invariant
            i <= pending,
        decreases pending - i,
    {
        match channel_try_recv(outbox_rx) {
            Option::Some(p) => dropped.push(p),
            Option::None => {
                // The outbox emptied early; nothing more to snapshot.
                break;
            },
        }
        i = i + 1;
    }
    // Reverse so that popping yields the packets in submission order.
    let mut reversed: Vec<Packet> = Vec::new();
    while dropped.len() > 0
        decreases dropped.len(),
    {
        match dropped.pop() {
            Option::Some(p) => reversed.push(p),
            Option::None => {
                break;
            },
        }
    }
    while reversed.len() > 0
        decreases reversed.len(),
    {
        match reversed.pop() {
            Option::Some(p) => {
                // Failures re-enter the outbox inside `send`; only a
                // diagnostic outcome, never this call's result.
                let _ = sender.send(p);
            },
            Option::None => {
                break;
            },
        }
    }
}

} // verus!

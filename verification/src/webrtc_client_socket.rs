use vstd::prelude::*;

use std::collections::VecDeque;

use crossbeam_channel::Receiver;
use crossbeam_channel::Sender;

use crate::address::Address;
use crate::channel::channel_pair;
use crate::channel::clone_sender;
use crate::config::Config;
use crate::error::SocketError;
use crate::message_sender::MessageSender;
use crate::message_sender::retry_dropped;
use crate::negotiation::Negotiation;
use crate::negotiation::NegotiationState;
use crate::packet::Packet;
use crate::socket_event::SocketEvent;

verus! {

/// The far ends of the cooperative socket's shared channels: the host's data
/// channel glue drains `outgoing` into the channel while it is open, and
/// asynchronous failure paths append the unsent packet through `outbox`.
pub struct WebrtcTransportTask {
    /// Consumer side of the outgoing-packet path.
    pub outgoing: Receiver<Packet>,
    /// Failed-send paths outside the `MessageSender` append here.
    pub outbox: Sender<Packet>,
}

/// The cooperative binding: single-threaded and callback-driven.  The host's
/// callbacks drive `negotiation` and feed inbound frames through
/// `on_inbound_frame`, interleaved with the caller's polls; `receive` never
/// blocks, since a block would stall the one shared thread.
pub struct WebrtcClientSocket {
    /// The one-shot handshake/negotiation state machine; the host's
    /// callbacks advance it and perform the actions it returns.
    pub negotiation: Negotiation,
    events: VecDeque<SocketEvent>,
    sender: MessageSender,
    outbox_rx: Receiver<Packet>,
}

impl WebrtcClientSocket {
    /// The fixed configured remote endpoint.
    pub closed spec fn spec_server(&self) -> Address {
        self.sender.spec_server()
    }

    /// The negotiation machine as contracts see it.
    pub closed spec fn spec_negotiation(&self) -> Negotiation {
        self.negotiation
    }

    /// The message-sender handle as contracts see it.
    pub closed spec fn spec_sender(&self) -> MessageSender {
        self.sender
    }

    /// The dropped-outbox's receiving end as contracts see it.
    pub closed spec fn spec_outbox(&self) -> Receiver<Packet> {
        self.outbox_rx
    }

    /// The ordered queue of inbound events awaiting consumption.
    pub closed spec fn spec_events(&self) -> Seq<SocketEvent> {
        self.events@
    }

    /// Opens the cooperative binding bound to `server_address`: a fresh
    /// event queue and dropped-outbox, and a negotiation machine that has
    /// just asked the platform for a local offer.  The first `receive` may
    /// be called immediately; it returns the empty event until negotiation
    /// completes and frames arrive.  The tuning values are unused by this
    /// binding.
    pub fn connect(server_address: Address, config: Option<Config>) -> (r: (
        WebrtcClientSocket,
        WebrtcTransportTask,
    ))
        ensures
            r.0.spec_server() == server_address,
            r.0.spec_negotiation().spec_state() == NegotiationState::CreatingOffer,
            r.0.spec_negotiation().spec_server() == server_address,
            r.0.spec_negotiation().wf(),
            r.0.spec_events() == Seq::<SocketEvent>::empty(),
    {
        let _ = config;
        let (outgoing_tx, outgoing_rx) = channel_pair::<Packet>();
        let (outbox_tx, outbox_rx) = channel_pair::<Packet>();
        let outbox_tx_task = clone_sender(&outbox_tx);
        let sender = MessageSender::new(server_address, outgoing_tx, outbox_tx);
        let events: VecDeque<SocketEvent> = VecDeque::new();
        let socket = WebrtcClientSocket {
            negotiation: Negotiation::new(server_address),
            events,
            sender,
            outbox_rx,
        };
        let task = WebrtcTransportTask { outgoing: outgoing_rx, outbox: outbox_tx_task };
        (socket, task)
    }

    /// Polls the socket, never blocking.  First every packet in the
    /// dropped-outbox is resent in original order; then the front event of
    /// the queue is surfaced, or `Empty` when the queue holds none.  The event
    /// surfaced and the queue left behind depend on the old queue alone: an
    /// empty dropped-outbox leaves the poll unaffected, and nothing of the
    /// socket but the queue is touched.
    pub fn receive(&mut self) -> (r: Result<SocketEvent, SocketError>)
        ensures
            final(self).spec_server() == old(self).spec_server(),
            final(self).spec_negotiation() == old(self).spec_negotiation(),
            final(self).spec_sender() == old(self).spec_sender(),
            final(self).spec_outbox() == old(self).spec_outbox(),
            old(self).spec_events().len() == 0 ==> r == Result::<
                SocketEvent,
                SocketError,
            >::Ok(SocketEvent::Empty) && final(self).spec_events() == old(self).spec_events(),
            old(self).spec_events().len() > 0 ==> r == Result::<
                SocketEvent,
                SocketError,
            >::Ok(old(self).spec_events()[0]) && final(self).spec_events() == old(self).spec_events().subrange(1, old(self).spec_events().len() as int),
    {
        retry_dropped(&self.sender, &self.outbox_rx);
        if self.events.len() == 0 {
            Result::Ok(SocketEvent::Empty)
        } else {
            match self.events.pop_front() {
                Option::Some(ev) => Result::Ok(ev),
                Option::None => Result::Ok(SocketEvent::Empty),  // queue was non-empty
            }
        }
    }

    /// The open data channel delivered one inbound binary frame: it becomes
    /// a `Packet` event on the queue.  Before the channel is open no frames
    /// are delivered.  There is no explicit `Connection` event for this
    /// binding — channel-open itself is the connection signal.
    pub fn on_inbound_frame(&mut self, payload: Vec<u8>)
        ensures
            final(self).spec_server() == old(self).spec_server(),
            final(self).spec_negotiation() == old(self).spec_negotiation(),
            final(self).spec_sender() == old(self).spec_sender(),
            final(self).spec_outbox() == old(self).spec_outbox(),
            old(self).spec_negotiation().spec_state() == NegotiationState::Open ==> final(self).spec_events() == old(self).spec_events().push(
                SocketEvent::Packet(Packet { address: old(self).spec_server(), payload }),
            ),
            old(self).spec_negotiation().spec_state() != NegotiationState::Open ==> final(self).spec_events() == old(self).spec_events(),
    {
        if self.negotiation.state() == NegotiationState::Open {
            let server = self.sender.server_address();
            let packet = Packet { address: server, payload };
            self.events.push_back(SocketEvent::Packet(packet));
        }
    }

    /// A cloneable handle sharing this socket's transmission path and
    /// dropped-outbox.
    pub fn get_sender(&mut self) -> (s: MessageSender)
        ensures
            *final(self) == *old(self),
            s.spec_server() == old(self).spec_server(),
    {
        self.sender.clone()
    }

    /// The fixed configured remote endpoint.
    pub fn server_address(&self) -> (a: Address)
        ensures
            a == self.spec_server(),
    {
        self.sender.server_address()
    }
}

/// The results of `n` successive polls of a queue holding `items`: `receive`
/// surfaces the front entry and leaves the rest, so each step contributes
/// the head of what the step before left behind.
pub open spec fn drained_results(items: Seq<SocketEvent>, n: int) -> Seq<SocketEvent>
    decreases n,
{
    if n <= 0 || items.len() == 0 {
        Seq::empty()
    } else {
        seq![items[0]] + drained_results(items.subrange(1, items.len() as int), n - 1)
    }
}

/// FIFO: for any sequence of events enqueued by a producer, N consecutive
/// `receive` calls (N at most the queue length) return exactly the first N
/// entries in enqueue order — no reordering, no deduplication.
pub proof fn lemma_fifo(items: Seq<SocketEvent>, n: int)
    requires
        0 <= n <= items.len(),
    ensures
        drained_results(items, n) == items.subrange(0, n),
    decreases n,
{
    if n <= 0 {
        assert(drained_results(items, n) =~= items.subrange(0, n));
    } else {
        let rest = items.subrange(1, items.len() as int);
        lemma_fifo(rest, n - 1);
        assert(drained_results(items, n) =~= items.subrange(0, n));
    }
}

} // verus!

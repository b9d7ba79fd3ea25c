use client_socket::Address;
use client_socket::NegotiationAction;
use client_socket::NegotiationEvent;
use client_socket::NegotiationState;
use client_socket::Packet;
use client_socket::SocketEvent;
use client_socket::WebrtcClientSocket;
use client_socket::DataChannelBinaryKind;
use client_socket::default_data_channel_config;
use client_socket::default_ice_server_config;
use client_socket::parse_session_response;
use client_socket::signaling_url;

fn server() -> Address {
    Address::new(1, 2, 3, 4, 5000)
}

fn good_body() -> String {
    "{ \"answer\": { \"sdp\": \"answer-sdp\", \"type\": \"answer\" }, \"candidate\": { \"candidate\": \"cand:1\", \"sdpMLineIndex\": 0, \"sdpMid\": \"data\" } }"
        .to_string()
}

/// Drives a fresh socket's machine up to the point where the signaling
/// response is awaited.
fn drive_to_awaiting(socket: &mut WebrtcClientSocket) {
    let a = socket.negotiation.advance(NegotiationEvent::OfferReady {
        sdp: "offer-sdp".to_string(),
        kind: "offer".to_string(),
    });
    assert_eq!(
        a,
        Some(NegotiationAction::SetLocalDescription {
            sdp: "offer-sdp".to_string(),
            kind: "offer".to_string(),
        })
    );
    assert_eq!(socket.negotiation.state(), NegotiationState::OfferCreated);
    let a = socket.negotiation.advance(NegotiationEvent::LocalDescriptionSet {
        sdp: "local-sdp".to_string(),
    });
    assert_eq!(
        a,
        Some(NegotiationAction::PostOffer {
            url: "http://1.2.3.4:5000/new_rtc_session".to_string(),
            body: "local-sdp".to_string(),
        })
    );
    assert_eq!(socket.negotiation.state(), NegotiationState::SignalingSent);
    let a = socket.negotiation.advance(NegotiationEvent::RequestSent);
    assert_eq!(a, None);
    assert_eq!(
        socket.negotiation.state(),
        NegotiationState::AwaitingSignalingResponse
    );
}

#[test]
fn fresh_socket_polls_empty_without_blocking() {
    let (mut socket, _task) = WebrtcClientSocket::connect(server(), None);
    assert_eq!(socket.server_address(), server());
    assert_eq!(socket.negotiation.state(), NegotiationState::CreatingOffer);
    for _ in 0..3 {
        assert_eq!(socket.receive(), Ok(SocketEvent::Empty));
    }
}

#[test]
fn negotiation_happy_path_reaches_open_and_delivers() {
    let (mut socket, _task) = WebrtcClientSocket::connect(server(), None);
    drive_to_awaiting(&mut socket);
    let a = socket.negotiation.advance(NegotiationEvent::SignalingResponse {
        status: 200,
        body: good_body(),
    });
    match a {
        Some(NegotiationAction::SetRemoteDescription { answer }) => {
            assert_eq!(answer.sdp, "answer-sdp");
            assert_eq!(answer.kind, "answer");
        }
        other => panic!("expected the remote description action, got {:?}", other),
    }
    assert_eq!(
        socket.negotiation.state(),
        NegotiationState::RemoteDescriptionSet
    );
    let a = socket
        .negotiation
        .advance(NegotiationEvent::RemoteDescriptionInstalled);
    match a {
        Some(NegotiationAction::AddCandidate { candidate }) => {
            assert_eq!(candidate.candidate, "cand:1");
            assert_eq!(candidate.sdp_m_line_index, 0);
            assert_eq!(candidate.sdp_mid, "data");
        }
        other => panic!("expected the add-candidate action, got {:?}", other),
    }
    assert_eq!(socket.negotiation.state(), NegotiationState::CandidateAdded);
    let a = socket.negotiation.advance(NegotiationEvent::CandidateInstalled);
    assert_eq!(a, None);
    let a = socket.negotiation.advance(NegotiationEvent::ChannelOpen);
    assert_eq!(a, None);
    assert_eq!(socket.negotiation.state(), NegotiationState::Open);
    socket.on_inbound_frame(b"pong".to_vec());
    match socket.receive() {
        Ok(SocketEvent::Packet(p)) => {
            assert_eq!(p.address, server());
            assert_eq!(p.payload, b"pong".to_vec());
        }
        other => panic!("expected a packet event, got {:?}", other),
    }
    assert_eq!(socket.receive(), Ok(SocketEvent::Empty));
}

#[test]
fn scenario_malformed_signaling_body_stalls_silently() {
    let (mut socket, _task) = WebrtcClientSocket::connect(server(), None);
    drive_to_awaiting(&mut socket);
    let a = socket.negotiation.advance(NegotiationEvent::SignalingResponse {
        status: 200,
        body: "this is not json".to_string(),
    });
    assert_eq!(a, None);
    assert_eq!(
        socket.negotiation.state(),
        NegotiationState::AwaitingSignalingResponse
    );
    for _ in 0..5 {
        assert_eq!(socket.receive(), Ok(SocketEvent::Empty));
    }
}

#[test]
fn non_200_response_stalls_silently() {
    let (mut socket, _task) = WebrtcClientSocket::connect(server(), None);
    drive_to_awaiting(&mut socket);
    let a = socket.negotiation.advance(NegotiationEvent::SignalingResponse {
        status: 500,
        body: good_body(),
    });
    assert_eq!(a, None);
    assert_eq!(
        socket.negotiation.state(),
        NegotiationState::AwaitingSignalingResponse
    );
    assert_eq!(socket.receive(), Ok(SocketEvent::Empty));
}

#[test]
fn step_failure_is_absorbing() {
    let (mut socket, _task) = WebrtcClientSocket::connect(server(), None);
    let a = socket.negotiation.advance(NegotiationEvent::StepFailed);
    assert_eq!(a, None);
    assert_eq!(socket.negotiation.state(), NegotiationState::Failed);
    let a = socket.negotiation.advance(NegotiationEvent::ChannelOpen);
    assert_eq!(a, None);
    assert_eq!(socket.negotiation.state(), NegotiationState::Failed);
    socket.on_inbound_frame(b"late".to_vec());
    assert_eq!(socket.receive(), Ok(SocketEvent::Empty));
}

#[test]
fn frames_before_open_are_not_delivered() {
    let (mut socket, _task) = WebrtcClientSocket::connect(server(), None);
    socket.on_inbound_frame(b"early".to_vec());
    assert_eq!(socket.receive(), Ok(SocketEvent::Empty));
}

#[test]
fn fifo_order_is_preserved() {
    let (mut socket, _task) = WebrtcClientSocket::connect(server(), None);
    socket.negotiation.advance(NegotiationEvent::ChannelOpen);
    assert_eq!(socket.negotiation.state(), NegotiationState::Open);
    socket.on_inbound_frame(b"one".to_vec());
    socket.on_inbound_frame(b"two".to_vec());
    socket.on_inbound_frame(b"three".to_vec());
    for expected in [b"one".to_vec(), b"two".to_vec(), b"three".to_vec()] {
        match socket.receive() {
            Ok(SocketEvent::Packet(p)) => assert_eq!(p.payload, expected),
            other => panic!("expected a packet event, got {:?}", other),
        }
    }
    assert_eq!(socket.receive(), Ok(SocketEvent::Empty));
}

#[test]
fn empty_outbox_leaves_polling_unaffected() {
    let (mut socket, _task) = WebrtcClientSocket::connect(server(), None);
    socket.negotiation.advance(NegotiationEvent::ChannelOpen);
    socket.on_inbound_frame(b"only".to_vec());
    // The outbox is empty: the drain step must not disturb the poll.
    match socket.receive() {
        Ok(SocketEvent::Packet(p)) => assert_eq!(p.payload, b"only".to_vec()),
        other => panic!("expected a packet event, got {:?}", other),
    }
    assert_eq!(socket.receive(), Ok(SocketEvent::Empty));
}

#[test]
fn recorded_failure_is_resent_on_the_next_poll() {
    let (mut socket, task) = WebrtcClientSocket::connect(server(), None);
    task.outbox
        .send(Packet::new(server(), b"lost".to_vec()))
        .unwrap();
    assert_eq!(socket.receive(), Ok(SocketEvent::Empty));
    let retried = task.outgoing.try_recv().expect("the dropped packet must be resent");
    assert_eq!(retried.payload, b"lost".to_vec());
    assert_eq!(socket.receive(), Ok(SocketEvent::Empty));
    assert!(task.outgoing.try_recv().is_err());
}

#[test]
fn sender_writes_to_the_outgoing_path() {
    let (mut socket, task) = WebrtcClientSocket::connect(server(), None);
    let sender = socket.get_sender();
    sender
        .send(Packet::new(server(), b"hello".to_vec()))
        .unwrap();
    assert_eq!(task.outgoing.try_recv().unwrap().payload, b"hello".to_vec());
}

#[test]
fn parse_accepts_the_signaling_contract_shape() {
    let r = parse_session_response(&good_body()).expect("the body is well formed");
    assert_eq!(r.answer.sdp, "answer-sdp");
    assert_eq!(r.answer.kind, "answer");
    assert_eq!(r.candidate.candidate, "cand:1");
    assert_eq!(r.candidate.sdp_m_line_index, 0);
    assert_eq!(r.candidate.sdp_mid, "data");
}

#[test]
fn parse_rejects_malformed_bodies() {
    assert!(parse_session_response("").is_none());
    assert!(parse_session_response("not json").is_none());
    assert!(parse_session_response("{}").is_none());
    assert!(parse_session_response("{ \"answer\": { \"sdp\": \"x\", \"type\": \"answer\" } }").is_none());
    let wrong_kind = "{ \"answer\": { \"sdp\": 7, \"type\": \"answer\" }, \"candidate\": { \"candidate\": \"c\", \"sdpMLineIndex\": 0, \"sdpMid\": \"m\" } }";
    assert!(parse_session_response(wrong_kind).is_none());
    let line_index_too_large = "{ \"answer\": { \"sdp\": \"x\", \"type\": \"answer\" }, \"candidate\": { \"candidate\": \"c\", \"sdpMLineIndex\": 70000, \"sdpMid\": \"m\" } }";
    assert!(parse_session_response(line_index_too_large).is_none());
}

#[test]
fn signaling_url_is_the_well_known_route() {
    let url = signaling_url(&Address::new(127, 0, 0, 1, 8080));
    assert_eq!(url, "http://127.0.0.1:8080/new_rtc_session");
    let url = signaling_url(&Address::new(192, 168, 0, 10, 65535));
    assert_eq!(url, "http://192.168.0.10:65535/new_rtc_session");
}

#[test]
fn default_ice_server_is_fixed() {
    let c = default_ice_server_config();
    assert_eq!(c.urls[0], "stun:stun.l.google.com:19302");
}

#[test]
fn data_channel_is_unreliable_and_unordered() {
    let c = default_data_channel_config();
    assert_eq!(c.label, "webudp");
    assert!(!c.ordered);
    assert_eq!(c.max_retransmits, 0);
    assert_eq!(c.binary_kind, DataChannelBinaryKind::ArrayBuffer);
}

use client_socket::Address;
use client_socket::Config;
use client_socket::Packet;
use client_socket::SocketError;
use client_socket::SocketEvent;
use client_socket::TransportEvent;
use client_socket::UdpClientSocket;
use client_socket::classify_transport_event;
use client_socket::client_hello_bytes;
use client_socket::effective_heartbeat_millis;
use client_socket::server_hello_bytes;

fn server() -> Address {
    Address::new(10, 0, 0, 1, 14191)
}

fn stranger() -> Address {
    Address::new(10, 0, 0, 2, 14191)
}

#[test]
fn classify_unknown_sender_is_error() {
    let r = classify_transport_event(
        server(),
        TransportEvent::Packet(stranger(), b"pong".to_vec()),
    );
    assert_eq!(r, Err(SocketError::UnknownSender));
    assert_eq!(SocketError::UnknownSender.describe(), "unknown sender");
}

#[test]
fn classify_server_hello_is_connection() {
    let r = classify_transport_event(
        server(),
        TransportEvent::Packet(server(), server_hello_bytes()),
    );
    assert_eq!(r, Ok(SocketEvent::Connection));
}

#[test]
fn classify_near_hello_is_packet() {
    let mut payload = server_hello_bytes();
    let last = payload.len() - 1;
    payload[last] = b'0';
    let r = classify_transport_event(server(), TransportEvent::Packet(server(), payload.clone()));
    match r {
        Ok(SocketEvent::Packet(p)) => {
            assert_eq!(p.address, server());
            assert_eq!(p.payload, payload);
        }
        other => panic!("expected a packet event, got {:?}", other),
    }
}

#[test]
fn classify_transport_connect_is_unknown_host() {
    let r = classify_transport_event(server(), TransportEvent::Connect(server()));
    assert_eq!(r, Err(SocketError::UnknownHost));
    assert_eq!(SocketError::UnknownHost.describe(), "unknown host");
}

#[test]
fn classify_timeout_is_disconnection() {
    let r = classify_transport_event(server(), TransportEvent::Timeout(server()));
    assert_eq!(r, Ok(SocketEvent::Disconnection));
}

#[test]
fn connect_sends_client_hello_first() {
    let (_socket, task) = UdpClientSocket::connect(server(), None);
    let hello = task.outgoing.try_recv().expect("the client hello must be queued");
    assert_eq!(hello.address, server());
    assert_eq!(hello.payload, client_hello_bytes());
    assert!(task.outgoing.try_recv().is_err());
}

#[test]
fn connect_heartbeat_defaults_and_overrides() {
    let (_s1, task1) = UdpClientSocket::connect(server(), None);
    assert_eq!(task1.heartbeat_millis, 500);
    let config = Config { heartbeat_interval_millis: 250 };
    let (_s2, task2) = UdpClientSocket::connect(server(), Some(config));
    assert_eq!(task2.heartbeat_millis, 250);
    assert_eq!(effective_heartbeat_millis(&None), 500);
    assert_eq!(effective_heartbeat_millis(&Some(config)), 250);
}

#[test]
fn scenario_hello_exchange_yields_connection_once() {
    let (mut socket, task) = UdpClientSocket::connect(server(), None);
    assert_eq!(socket.server_address(), server());
    task.events
        .send(TransportEvent::Packet(server(), server_hello_bytes()))
        .unwrap();
    task.events
        .send(TransportEvent::Packet(server(), b"pong".to_vec()))
        .unwrap();
    assert_eq!(socket.receive(), Ok(SocketEvent::Connection));
    match socket.receive() {
        Ok(SocketEvent::Packet(p)) => assert_eq!(p.payload, b"pong".to_vec()),
        other => panic!("expected a packet event, got {:?}", other),
    }
}

#[test]
fn scenario_pong_is_delivered_without_connection_gate() {
    let (mut socket, task) = UdpClientSocket::connect(server(), None);
    task.events
        .send(TransportEvent::Packet(server(), b"pong".to_vec()))
        .unwrap();
    match socket.receive() {
        Ok(SocketEvent::Packet(p)) => {
            assert_eq!(p.address, server());
            assert_eq!(p.payload, b"pong".to_vec());
        }
        other => panic!("expected a packet event, got {:?}", other),
    }
}

#[test]
fn receive_after_producer_teardown_is_terminal() {
    let (mut socket, task) = UdpClientSocket::connect(server(), None);
    drop(task);
    assert_eq!(socket.receive(), Err(SocketError::ChannelClosed));
    assert_eq!(
        SocketError::ChannelClosed.describe(),
        "transport channel closed"
    );
}

#[test]
fn dropped_packet_is_retried_once_before_the_next_event() {
    let (mut socket, task) = UdpClientSocket::connect(server(), None);
    // Consume the client hello so only retries remain observable.
    let _ = task.outgoing.try_recv().unwrap();
    // An asynchronous failure path records one unsent packet.
    task.outbox
        .send(Packet::new(server(), b"lost".to_vec()))
        .unwrap();
    task.events
        .send(TransportEvent::Packet(server(), b"after".to_vec()))
        .unwrap();
    let r = socket.receive();
    assert!(matches!(r, Ok(SocketEvent::Packet(_))));
    // The retry went out before the queued event was surfaced.
    let retried = task.outgoing.try_recv().expect("the dropped packet must be resent");
    assert_eq!(retried.payload, b"lost".to_vec());
    // A successful resend removes the packet: no second retry.
    task.events
        .send(TransportEvent::Packet(server(), b"later".to_vec()))
        .unwrap();
    let _ = socket.receive();
    assert!(task.outgoing.try_recv().is_err());
}

#[test]
fn dropped_packets_are_retried_in_submission_order() {
    let (mut socket, task) = UdpClientSocket::connect(server(), None);
    let _ = task.outgoing.try_recv().unwrap();
    task.outbox.send(Packet::new(server(), b"one".to_vec())).unwrap();
    task.outbox.send(Packet::new(server(), b"two".to_vec())).unwrap();
    task.outbox.send(Packet::new(server(), b"three".to_vec())).unwrap();
    task.events
        .send(TransportEvent::Packet(server(), b"evt".to_vec()))
        .unwrap();
    let _ = socket.receive();
    assert_eq!(task.outgoing.try_recv().unwrap().payload, b"one".to_vec());
    assert_eq!(task.outgoing.try_recv().unwrap().payload, b"two".to_vec());
    assert_eq!(task.outgoing.try_recv().unwrap().payload, b"three".to_vec());
    assert!(task.outgoing.try_recv().is_err());
}

#[test]
fn sender_submits_packets_and_reports_teardown() {
    let (mut socket, task) = UdpClientSocket::connect(server(), None);
    let _ = task.outgoing.try_recv().unwrap();
    let sender = socket.get_sender();
    assert_eq!(sender.server_address(), server());
    let clone = sender.clone();
    assert_eq!(clone.server_address(), server());
    clone
        .send(Packet::new(server(), b"ping".to_vec()))
        .unwrap();
    assert_eq!(task.outgoing.try_recv().unwrap().payload, b"ping".to_vec());
    drop(task);
    let r = sender.send(Packet::new(server(), b"late".to_vec()));
    assert_eq!(r, Err(SocketError::ChannelClosed));
}

#[test]
fn hello_literals_differ_and_round_trip() {
    assert_eq!(client_hello_bytes(), b"client-hello".to_vec());
    assert_eq!(server_hello_bytes(), b"server-hello".to_vec());
    assert!(client_socket::bytes_eq(
        &client_hello_bytes(),
        &client_hello_bytes()
    ));
    assert!(!client_socket::bytes_eq(
        &client_hello_bytes(),
        &server_hello_bytes()
    ));
}

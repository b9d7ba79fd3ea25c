//! Client-side transport abstraction for real-time networked applications.
//!
//! One synchronous, poll-based packet socket interface is offered over two
//! transports: a threaded reliable-datagram binding ([`UdpClientSocket`]) and a
//! cooperative, callback-driven negotiated data channel
//! ([`WebrtcClientSocket`]).  Both share the same machinery: an ordered event
//! queue drained by `receive`, a dropped-outbox of packets whose last send
//! attempt failed (retried on every poll), and a cloneable [`MessageSender`].

pub mod address;
pub mod channel;
pub mod config;
pub mod error;
pub mod handshake;
pub mod json;
pub mod message_sender;
pub mod negotiation;
pub mod packet;
pub mod socket_event;
pub mod udp_client_socket;
pub mod webrtc_client_socket;

pub use address::Address;
pub use config::Config;
pub use config::DEFAULT_HEARTBEAT_MILLIS;
pub use config::effective_heartbeat_millis;
pub use error::SocketError;
pub use handshake::client_hello;
pub use handshake::client_hello_bytes;
pub use handshake::server_hello;
pub use handshake::server_hello_bytes;
pub use handshake::bytes_eq;
pub use handshake::initial_handshake_packet;
pub use json::parse_session_response;
pub use json::session_response_of;
pub use json::string_field_of;
pub use json::uint_field_of;
pub use json::doc_of;
pub use json::field_of;
pub use json::text_of;
pub use json::uint_of;
pub use message_sender::MessageSender;
pub use negotiation::DataChannelBinaryKind;
pub use negotiation::DataChannelConfig;
pub use negotiation::IceServerConfig;
pub use negotiation::JsSessionResponse;
pub use negotiation::Negotiation;
pub use negotiation::NegotiationAction;
pub use negotiation::NegotiationEvent;
pub use negotiation::NegotiationState;
pub use negotiation::SessionAnswer;
pub use negotiation::SessionAnswerModel;
pub use negotiation::SessionCandidate;
pub use negotiation::SessionCandidateModel;
pub use negotiation::SessionResponseModel;
pub use negotiation::default_data_channel_config;
pub use negotiation::default_ice_server_config;
pub use negotiation::in_turn;
pub use negotiation::signaling_outcome_ok;
pub use negotiation::signaling_url;
pub use negotiation::signaling_url_spec;
pub use packet::Packet;
pub use socket_event::SocketEvent;
pub use udp_client_socket::TransportEvent;
pub use udp_client_socket::UdpClientSocket;
pub use udp_client_socket::UdpTransportTask;
pub use udp_client_socket::classify_spec;
pub use udp_client_socket::classify_transport_event;
pub use udp_client_socket::lemma_handshake_boundary;
pub use udp_client_socket::lemma_sender_gating;
pub use webrtc_client_socket::WebrtcClientSocket;
pub use webrtc_client_socket::drained_results;
pub use webrtc_client_socket::lemma_fifo;
pub use webrtc_client_socket::WebrtcTransportTask;

use vstd::prelude::*;
use vstd::string::StringExecFns;

use crate::address::Address;
use crate::json::parse_session_response;
use crate::json::session_response_of;

verus! {

/// The answer description inside a signaling response.
#[derive(Clone, PartialEq, Debug)]
pub struct SessionAnswer {
    pub sdp: String,
    pub kind: String,
}

/// The single bundled candidate inside a signaling response (not trickled: a
/// single candidate is assumed sufficient).
#[derive(Clone, PartialEq, Debug)]
pub struct SessionCandidate {
    pub candidate: String,
    pub sdp_m_line_index: u16,
    pub sdp_mid: String,
}

/// A parsed signaling response: exactly one answer description and exactly
/// one candidate.
#[derive(Clone, PartialEq, Debug)]
pub struct JsSessionResponse {
    pub answer: SessionAnswer,
    pub candidate: SessionCandidate,
}

/// The answer description as contracts see it.
pub struct SessionAnswerModel {
    pub sdp: Seq<char>,
    pub kind: Seq<char>,
}

/// The candidate as contracts see it.
pub struct SessionCandidateModel {
    pub candidate: Seq<char>,
    pub sdp_m_line_index: u16,
    pub sdp_mid: Seq<char>,
}

/// The whole signaling response as contracts see it.
pub struct SessionResponseModel {
    pub answer: SessionAnswerModel,
    pub candidate: SessionCandidateModel,
}

impl View for SessionAnswer {
    type V = SessionAnswerModel;

    open spec fn view(&self) -> SessionAnswerModel {
        SessionAnswerModel { sdp: self.sdp@, kind: self.kind@ }
    }
}

impl View for SessionCandidate {
    type V = SessionCandidateModel;

    open spec fn view(&self) -> SessionCandidateModel {
        SessionCandidateModel {
            candidate: self.candidate@,
            sdp_m_line_index: self.sdp_m_line_index,
            sdp_mid: self.sdp_mid@,
        }
    }
}

impl View for JsSessionResponse {
    type V = SessionResponseModel;

    open spec fn view(&self) -> SessionResponseModel {
        SessionResponseModel { answer: self.answer@, candidate: self.candidate@ }
    }
}

/// The servers handed to the platform's negotiation primitive.
#[derive(Clone, PartialEq, Debug)]
pub struct IceServerConfig {
    pub urls: [String; 1],
}

/// The fixed default ICE server the peer connection is configured with.
pub fn default_ice_server_config() -> (c: IceServerConfig)
    ensures
        c.urls[0]@ == "stun:stun.l.google.com:19302"@,
{
    IceServerConfig { urls: [String::from_str("stun:stun.l.google.com:19302")] }
}

/// Where the cooperative binding's one-shot negotiation stands.
#[derive(Clone, Copy, PartialEq, Eq, Structural, Debug)]
pub enum NegotiationState {
    /// A local session offer has been requested from the platform.
    CreatingOffer,
    /// The offer is available and is being installed as local description.
    OfferCreated,
    /// The local description's session text was posted to the signaling
    /// endpoint.
    SignalingSent,
    /// The single HTTP signaling exchange is in flight.
    AwaitingSignalingResponse,
    /// The answer from the signaling response was installed as the remote
    /// description.
    RemoteDescriptionSet,
    /// The single supplied remote candidate was added.
    CandidateAdded,
    /// The platform fired the data channel's open notification; inbound
    /// frames now feed the event queue.
    Open,
    /// A negotiation step was rejected; absorbing.
    Failed,
}

/// What the platform or the signaling exchange reports to the machine.
#[derive(Clone, PartialEq, Debug)]
pub enum NegotiationEvent {
    /// The platform produced the local session offer.
    OfferReady { sdp: String, kind: String },
    /// The offer was installed as the local description, whose session text
    /// is carried here.
    LocalDescriptionSet { sdp: String },
    /// The signaling POST has been dispatched.
    RequestSent,
    /// The signaling exchange completed with this HTTP status and body.
    SignalingResponse { status: u16, body: String },
    /// The remote description was installed.
    RemoteDescriptionInstalled,
    /// The remote candidate was added.
    CandidateInstalled,
    /// The platform fired the data channel's open notification.
    ChannelOpen,
    /// The platform rejected the step in flight.
    StepFailed,
}

/// The side effect the host must perform after a transition.
#[derive(Clone, PartialEq, Debug)]
pub enum NegotiationAction {
    /// Install the offer as the local description.
    SetLocalDescription { sdp: String, kind: String },
    /// Issue the single signaling POST: the offer text to the well-known
    /// route under the server address.
    PostOffer { url: String, body: String },
    /// Install the answer as the remote description.
    SetRemoteDescription { answer: SessionAnswer },
    /// Add the single supplied remote candidate to the peer connection.
    AddCandidate { candidate: SessionCandidate },
}

/// The decimal digits of `n`, most significant first.
pub open spec fn decimal(n: nat) -> Seq<char>
    decreases n,
{
    if n < 10 {
        seq![((n + 0x30) as u8) as char]
    } else {
        decimal(n / 10).push(((n % 10 + 0x30) as u8) as char)
    }
}

/// The signaling endpoint derived from the server address: the fixed
/// well-known route under it.
pub open spec fn signaling_url_spec(a: Address) -> Seq<char> {
    "http://"@ + decimal(a.ip0 as nat) + "."@ + decimal(a.ip1 as nat) + "."@ + decimal(
        a.ip2 as nat,
    ) + "."@ + decimal(a.ip3 as nat) + ":"@ + decimal(a.port as nat) + "/new_rtc_session"@
}

/// Relies on `format!` of std: a `u8` or `u16` formats as its plain decimal
/// digits, most significant first, with no padding.
#[verifier::external_body]
pub fn signaling_url(a: &Address) -> (r: String)
    ensures
        r@ == signaling_url_spec(*a),
{
    format!("http://{}.{}.{}.{}:{}/new_rtc_session", a.ip0, a.ip1, a.ip2, a.ip3, a.port)
}

/// How inbound binary frames are handed to the message callback.
#[derive(Clone, Copy, PartialEq, Eq, Structural, Debug)]
pub enum DataChannelBinaryKind {
    /// Frames arrive as array buffers, read out as plain bytes.
    ArrayBuffer,
    /// Frames arrive as blobs.
    Blob,
}

/// How the data channel is configured: unordered, zero-retransmission
/// delivery — reliability, if needed, is an application-level concern, not
/// guaranteed by the transport.
#[derive(Clone, Copy, PartialEq, Debug)]
pub struct DataChannelConfig {
    pub label: &'static str,
    pub ordered: bool,
    pub max_retransmits: u16,
    pub binary_kind: DataChannelBinaryKind,
}

/// The fixed configuration the cooperative binding's data channel is created
/// with: the well-known label, unreliable and unordered delivery, and
/// array-buffer framing.
pub fn default_data_channel_config() -> (c: DataChannelConfig)
    ensures
        c.label@ == "webudp"@,
        !c.ordered,
        c.max_retransmits == 0,
        c.binary_kind == DataChannelBinaryKind::ArrayBuffer,
{
    DataChannelConfig {
        label: "webudp",
        ordered: false,
        max_retransmits: 0,
        binary_kind: DataChannelBinaryKind::ArrayBuffer,
    }
}

/// The events a machine in this state can act on; any other event changes
/// nothing and yields no action.
pub open spec fn in_turn(state: NegotiationState, event: NegotiationEvent) -> bool {
    ||| state is Failed
    ||| event is StepFailed
    ||| event is ChannelOpen
    ||| (state is CreatingOffer && event is OfferReady)
    ||| (state is OfferCreated && event is LocalDescriptionSet)
    ||| (state is SignalingSent && event is RequestSent)
    ||| (state is AwaitingSignalingResponse && event is SignalingResponse)
    ||| (state is RemoteDescriptionSet && event is RemoteDescriptionInstalled)
}

/// The handshake/negotiation state machine of the cooperative binding: each
/// transition is a discrete function from (state, external event) to (new
/// state, side effect).  Any platform rejection moves to the absorbing
/// `Failed` state; a non-200 or malformed signaling response stalls the
/// machine in `AwaitingSignalingResponse`, silently — negotiation errors are
/// never surfaced through `receive`.
pub struct Negotiation {
    state: NegotiationState,
    pending_candidate: Option<SessionCandidate>,
    server: Address,
}

/// Exactly how a signaling response that arrived with status 200 in
/// `AwaitingSignalingResponse` advances the machine: a body of the
/// documented shape (`session_response_of` it is `Some`) installs its answer
/// as remote description and holds its candidate for the next step; any
/// other body changes nothing, and the machine stalls silently.
pub open spec fn signaling_outcome_ok(
    body: Seq<char>,
    state: NegotiationState,
    pending: Option<SessionCandidate>,
    action: Option<NegotiationAction>,
) -> bool {
    match session_response_of(body) {
        Option::Some(m) => {
            &&& state is RemoteDescriptionSet
            &&& pending matches Option::Some(c) && c@ == m.candidate
            &&& action matches Option::Some(NegotiationAction::SetRemoteDescription { answer })
                && answer@ == m.answer
        },
        Option::None => {
            &&& state is AwaitingSignalingResponse
            &&& pending is None
            &&& action is None
        },
    }
}

impl Negotiation {
    pub closed spec fn spec_state(&self) -> NegotiationState {
        self.state
    }

    pub closed spec fn spec_pending(&self) -> Option<SessionCandidate> {
        self.pending_candidate
    }

    pub closed spec fn spec_server(&self) -> Address {
        self.server
    }

    /// A machine in `RemoteDescriptionSet` always holds the candidate that
    /// arrived with the answer.
    pub open spec fn wf(&self) -> bool {
        self.spec_state() is RemoteDescriptionSet ==> self.spec_pending() is Some
    }

    /// Where the negotiation stands now.
    pub fn state(&self) -> (s: NegotiationState)
        ensures
            s == self.spec_state(),
    {
        self.state
    }

    /// A fresh machine: the platform has been asked for a local offer.
    pub fn new(server: Address) -> (n: Negotiation)
        ensures
            n.spec_state() == NegotiationState::CreatingOffer,
            n.spec_server() == server,
            n.wf(),
    {
        Negotiation { state: NegotiationState::CreatingOffer, pending_candidate: Option::None, server }
    }

    /// One transition.  Every clause below is exact: an event out of turn
    /// changes nothing; `ChannelOpen` moves any live state to `Open`
    /// independently of the signaling steps; `StepFailed` is absorbing into
    /// `Failed`; a signaling response only matters in
    /// `AwaitingSignalingResponse` with status 200, and then advances
    /// exactly by what its body parses to, as `signaling_outcome_ok` states.
    pub fn advance(&mut self, event: NegotiationEvent) -> (action: Option<NegotiationAction>)
        requires
            old(self).wf(),
        ensures
            final(self).wf(),
            final(self).spec_server() == old(self).spec_server(),
            // absorbing failure state
            old(self).spec_state() is Failed ==> final(self).spec_state() is Failed && action
                is None,
            // platform rejection of any step
            !(old(self).spec_state() is Failed) && event is StepFailed ==> final(self).spec_state()
                is Failed && action is None,
            // channel-open fires independently of the signaling steps
            !(old(self).spec_state() is Failed) && event is ChannelOpen ==> final(self).spec_state() is Open && action is None,
            // the offer is installed as local description
            old(self).spec_state() is CreatingOffer ==> (event
                matches NegotiationEvent::OfferReady { sdp, kind } ==> final(self).spec_state()
                is OfferCreated && action == Option::Some(
                NegotiationAction::SetLocalDescription { sdp, kind },
            )),
            // the local description's session text is posted to the endpoint
            old(self).spec_state() is OfferCreated ==> (event
                matches NegotiationEvent::LocalDescriptionSet { sdp } ==> final(self).spec_state()
                is SignalingSent && (action matches Option::Some(
                NegotiationAction::PostOffer { url, body },
            ) && url@ == signaling_url_spec(old(self).spec_server()) && body == sdp)),
            // the POST is in flight
            old(self).spec_state() is SignalingSent && event is RequestSent ==> final(self).spec_state() is AwaitingSignalingResponse && action is None,
            // a non-200 response stalls the machine silently
            old(self).spec_state() is AwaitingSignalingResponse ==> (event
                matches NegotiationEvent::SignalingResponse { status, body } ==> (status != 200
                ==> final(self).spec_state() is AwaitingSignalingResponse && action is None)),
            // a 200 response advances exactly by the parse outcome of its body
            old(self).spec_state() is AwaitingSignalingResponse ==> (event
                matches NegotiationEvent::SignalingResponse { status, body } ==> (status == 200
                ==> signaling_outcome_ok(
                    body@,
                    final(self).spec_state(),
                    final(self).spec_pending(),
                    action,
                ))),
            // the stored candidate is added once the remote description holds
            old(self).spec_state() is RemoteDescriptionSet && event is RemoteDescriptionInstalled
                ==> final(self).spec_state() is CandidateAdded && action == Option::Some(
                NegotiationAction::AddCandidate {
                    candidate: old(self).spec_pending()->Some_0,
                },
            ),
            // nothing further to drive once the candidate is in
            old(self).spec_state() is CandidateAdded && event is CandidateInstalled ==> final(self).spec_state() is CandidateAdded && action is None,
            // an event out of turn changes nothing
            !in_turn(old(self).spec_state(), event) ==> *final(self) == *old(self) && action
                is None,
    {
        match (self.state, event) {
            (NegotiationState::Failed, _) => Option::None,
            (_, NegotiationEvent::StepFailed) => {
                self.state = NegotiationState::Failed;
                Option::None
            },
            (_, NegotiationEvent::ChannelOpen) => {
                self.state = NegotiationState::Open;
                Option::None
            },
            (NegotiationState::CreatingOffer, NegotiationEvent::OfferReady { sdp, kind }) => {
                self.state = NegotiationState::OfferCreated;
                Option::Some(NegotiationAction::SetLocalDescription { sdp, kind })
            },
            (NegotiationState::OfferCreated, NegotiationEvent::LocalDescriptionSet { sdp }) => {
                self.state = NegotiationState::SignalingSent;
                let url = signaling_url(&self.server);
                Option::Some(NegotiationAction::PostOffer { url, body: sdp })
            },
            (NegotiationState::SignalingSent, NegotiationEvent::RequestSent) => {
                self.state = NegotiationState::AwaitingSignalingResponse;
                Option::None
            },
            (
                NegotiationState::AwaitingSignalingResponse,
                NegotiationEvent::SignalingResponse { status, body },
            ) => {
                if status == 200 {
                    match parse_session_response(body.as_str()) {
                        Option::Some(resp) => {
                            self.state = NegotiationState::RemoteDescriptionSet;
                            self.pending_candidate = Option::Some(resp.candidate);
                            Option::Some(
                                NegotiationAction::SetRemoteDescription { answer: resp.answer },
                            )
                        },
                        Option::None => {
                            self.pending_candidate = Option::None;
                            Option::None
                        },
                    }
                } else {
                    Option::None
                }
            },
            (NegotiationState::RemoteDescriptionSet, NegotiationEvent::RemoteDescriptionInstalled) => {
                self.state = NegotiationState::CandidateAdded;
                let mut taken: Option<SessionCandidate> = Option::None;
                core::mem::swap(&mut taken, &mut self.pending_candidate);
                match taken {
                    Option::Some(candidate) => Option::Some(
                        NegotiationAction::AddCandidate { candidate },
                    ),
                    Option::None => Option::None,  // excluded by `wf`
                }
            },
            (_, _) => Option::None,
        }
    }
}

} // verus!

//! The messages of the control interface.

use vstd::prelude::*;

use crate::model::{option_view, seq_view};
use crate::session::{PacketLossRate, SessionState};
use crate::transport::TransportType;

verus! {

/// An address and a port, as a client of the control interface writes them.
#[derive(Debug)]
pub struct Endpoint {
    pub address: String,
    pub port: u32,
}

/// The mathematical counterpart of [`Endpoint`].
pub struct EndpointView {
    pub address: Seq<char>,
    pub port: u32,
}

impl View for Endpoint {
    type V = EndpointView;

    open spec fn view(&self) -> EndpointView {
        EndpointView { address: self.address@, port: self.port }
    }
}

/// The transport protocols by their numbers.
#[derive(Debug, Clone, Copy, PartialEq, Eq, Structural)]
pub enum Protocol {
    Unspecified,
    Udp,
    Tcp,
}

impl Protocol {
    /// The number of the protocol.
    pub open spec fn spec_number(self) -> i32 {
        match self {
            Protocol::Unspecified => 0,
            Protocol::Udp => 1,
            Protocol::Tcp => 2,
        }
    }

    /// The protocol with a number.
    pub open spec fn spec_from_number(number: i32) -> Option<Protocol> {
        if number == 0 {
            Some(Protocol::Unspecified)
        } else if number == 1 {
            Some(Protocol::Udp)
        } else if number == 2 {
            Some(Protocol::Tcp)
        } else {
            None
        }
    }

    /// The protocol of a transport.
    pub open spec fn spec_of(transport: TransportType) -> Protocol {
        match transport {
            TransportType::Udp => Protocol::Udp,
            TransportType::Tcp => Protocol::Tcp,
        }
    }

    /// The number of the protocol.
    pub fn number(&self) -> (number: i32)
        ensures
            number == self.spec_number(),
    {
        match self {
            Protocol::Unspecified => 0,
            Protocol::Udp => 1,
            Protocol::Tcp => 2,
        }
    }

    /// The protocol with a number.
    pub fn from_number(number: i32) -> (protocol: Option<Protocol>)
        ensures
            protocol == Self::spec_from_number(number),
    {
        match number {
            0 => Some(Protocol::Unspecified),
            1 => Some(Protocol::Udp),
            2 => Some(Protocol::Tcp),
            _ => None,
        }
    }

    /// The protocol of a transport.
    pub fn of(transport: TransportType) -> (protocol: Protocol)
        ensures
            protocol == Self::spec_of(transport),
    {
        match transport {
            TransportType::Udp => Protocol::Udp,
            TransportType::Tcp => Protocol::Tcp,
        }
    }
}

/// The session state with a number; `None` for the unspecified state and for numbers that
/// stand for no state.
pub open spec fn spec_state_from_number(number: i32) -> Option<SessionState> {
    if number == 1 {
        Some(SessionState::Connecting)
    } else if number == 2 {
        Some(SessionState::Active)
    } else if number == 3 {
        Some(SessionState::Error)
    } else if number == 4 {
        Some(SessionState::Closed)
    } else {
        None
    }
}

/// The session state with a number.
pub fn state_from_number(number: i32) -> (state: Option<SessionState>)
    ensures
        state == spec_state_from_number(number),
{
    match number {
        1 => Some(SessionState::Connecting),
        2 => Some(SessionState::Active),
        3 => Some(SessionState::Error),
        4 => Some(SessionState::Closed),
        _ => None,
    }
}

/// The kinds of session events.
#[derive(Debug, Clone, Copy, PartialEq, Eq, Structural)]
pub enum SessionEventType {
    SessionCreated,
    SessionStateChanged,
    SessionStatsUpdate,
    SessionError,
    SessionClosed,
}

impl SessionEventType {
    /// The number of the kind.
    pub open spec fn spec_number(self) -> i32 {
        match self {
            SessionEventType::SessionCreated => 1,
            SessionEventType::SessionStateChanged => 2,
            SessionEventType::SessionStatsUpdate => 3,
            SessionEventType::SessionError => 4,
            SessionEventType::SessionClosed => 5,
        }
    }

    /// The number of the kind.
    pub fn number(&self) -> (number: i32)
        ensures
            number == self.spec_number(),
    {
        match self {
            SessionEventType::SessionCreated => 1,
            SessionEventType::SessionStateChanged => 2,
            SessionEventType::SessionStatsUpdate => 3,
            SessionEventType::SessionError => 4,
            SessionEventType::SessionClosed => 5,
        }
    }
}

/// The traffic counters of a session.
#[derive(Debug, Clone, Copy, PartialEq, Eq, Structural)]
pub struct ProtoTrafficStats {
    pub packets_received: u64,
    pub bytes_received: u64,
    pub packets_sent: u64,
    pub bytes_sent: u64,
    pub packets_lost: u64,
    pub packet_loss_rate: PacketLossRate,
}

/// A session as it is shown to clients of the control interface.
#[derive(Debug)]
pub struct ProtoSessionInfo {
    pub session_id: String,
    pub state: i32,
    pub listen_endpoint: Option<Endpoint>,
    pub forward_endpoint: Option<Endpoint>,
    pub destination_endpoint: Option<Endpoint>,
    pub protocol: i32,
    pub created_at: i64,
    pub last_activity_at: i64,
    pub stats: Option<ProtoTrafficStats>,
    pub error_message: String,
}

/// The mathematical counterpart of [`ProtoSessionInfo`].
pub struct ProtoSessionInfoView {
    pub session_id: Seq<char>,
    pub state: i32,
    pub listen_endpoint: Option<EndpointView>,
    pub forward_endpoint: Option<EndpointView>,
    pub destination_endpoint: Option<EndpointView>,
    pub protocol: i32,
    pub created_at: i64,
    pub last_activity_at: i64,
    pub stats: Option<ProtoTrafficStats>,
    pub error_message: Seq<char>,
}

impl View for ProtoSessionInfo {
    type V = ProtoSessionInfoView;

    open spec fn view(&self) -> ProtoSessionInfoView {
        ProtoSessionInfoView {
            session_id: self.session_id@,
            state: self.state,
            listen_endpoint: option_view(self.listen_endpoint),
            forward_endpoint: option_view(self.forward_endpoint),
            destination_endpoint: option_view(self.destination_endpoint),
            protocol: self.protocol,
            created_at: self.created_at,
            last_activity_at: self.last_activity_at,
            stats: self.stats,
            error_message: self.error_message@,
        }
    }
}

/// A session event as it is shown to clients of the control interface.
#[derive(Debug)]
pub struct ProtoSessionEvent {
    pub event_type: i32,
    pub session: Option<ProtoSessionInfo>,
    pub timestamp: i64,
    pub description: String,
}

/// The mathematical counterpart of [`ProtoSessionEvent`].
pub struct ProtoSessionEventView {
    pub event_type: i32,
    pub session: Option<ProtoSessionInfoView>,
    pub timestamp: i64,
    pub description: Seq<char>,
}

impl View for ProtoSessionEvent {
    type V = ProtoSessionEventView;

    open spec fn view(&self) -> ProtoSessionEventView {
        ProtoSessionEventView {
            event_type: self.event_type,
            session: option_view(self.session),
            timestamp: self.timestamp,
            description: self.description@,
        }
    }
}

/// The request to create a session.
#[derive(Debug)]
pub struct CreateSessionRequest {
    pub session_id: String,
    pub listen_endpoint: Option<Endpoint>,
    pub forward_endpoint: Option<Endpoint>,
    pub destination_endpoint: Option<Endpoint>,
    pub protocol: i32,
    pub timeout_seconds: u32,
    pub stats_interval_seconds: u32,
}

/// The mathematical counterpart of [`CreateSessionRequest`].
pub struct CreateSessionRequestView {
    pub session_id: Seq<char>,
    pub listen_endpoint: Option<EndpointView>,
    pub forward_endpoint: Option<EndpointView>,
    pub destination_endpoint: Option<EndpointView>,
    pub protocol: i32,
    pub timeout_seconds: u32,
    pub stats_interval_seconds: u32,
}

impl View for CreateSessionRequest {
    type V = CreateSessionRequestView;

    open spec fn view(&self) -> CreateSessionRequestView {
        CreateSessionRequestView {
            session_id: self.session_id@,
            listen_endpoint: option_view(self.listen_endpoint),
            forward_endpoint: option_view(self.forward_endpoint),
            destination_endpoint: option_view(self.destination_endpoint),
            protocol: self.protocol,
            timeout_seconds: self.timeout_seconds,
            stats_interval_seconds: self.stats_interval_seconds,
        }
    }
}

/// The reply to a request to create a session.
#[derive(Debug)]
pub struct CreateSessionResponse {
    pub session_id: String,
    pub created_at: i64,
}

/// The mathematical counterpart of [`CreateSessionResponse`].
pub struct CreateSessionResponseView {
    pub session_id: Seq<char>,
    pub created_at: i64,
}

impl View for CreateSessionResponse {
    type V = CreateSessionResponseView;

    open spec fn view(&self) -> CreateSessionResponseView {
        CreateSessionResponseView { session_id: self.session_id@, created_at: self.created_at }
    }
}

/// The request to destroy a session.
#[derive(Debug)]
pub struct DestroySessionRequest {
    pub session_id: String,
}

/// The reply to a request to destroy a session.
#[derive(Debug)]
pub struct DestroySessionResponse {
    pub success: bool,
    pub message: String,
}

/// The mathematical counterpart of [`DestroySessionResponse`].
pub struct DestroySessionResponseView {
    pub success: bool,
    pub message: Seq<char>,
}

impl View for DestroySessionResponse {
    type V = DestroySessionResponseView;

    open spec fn view(&self) -> DestroySessionResponseView {
        DestroySessionResponseView { success: self.success, message: self.message@ }
    }
}

/// The request for the status of a session.
#[derive(Debug)]
pub struct GetSessionStatusRequest {
    pub session_id: String,
}

/// The status of a session.
#[derive(Debug)]
pub struct GetSessionStatusResponse {
    pub session: Option<ProtoSessionInfo>,
}

/// The mathematical counterpart of [`GetSessionStatusResponse`].
pub struct GetSessionStatusResponseView {
    pub session: Option<ProtoSessionInfoView>,
}

impl View for GetSessionStatusResponse {
    type V = GetSessionStatusResponseView;

    open spec fn view(&self) -> GetSessionStatusResponseView {
        GetSessionStatusResponseView { session: option_view(self.session) }
    }
}

/// The request for a list of sessions.
#[derive(Debug)]
pub struct ListSessionsRequest {
    pub state_filter: Option<i32>,
}

/// A list of sessions.
#[derive(Debug)]
pub struct ListSessionsResponse {
    pub sessions: Vec<ProtoSessionInfo>,
    pub total_count: u32,
}

/// The mathematical counterpart of [`ListSessionsResponse`].
pub struct ListSessionsResponseView {
    pub sessions: Seq<ProtoSessionInfoView>,
    pub total_count: u32,
}

impl View for ListSessionsResponse {
    type V = ListSessionsResponseView;

    open spec fn view(&self) -> ListSessionsResponseView {
        ListSessionsResponseView {
            sessions: seq_view(self.sessions@),
            total_count: self.total_count,
        }
    }
}

/// The request for a stream of session events.
#[derive(Debug)]
pub struct StreamSessionEventsRequest {
    pub session_ids: Vec<String>,
}

/// Why a request was refused.
#[derive(Debug, Clone, Copy, PartialEq, Eq, Structural)]
pub enum Code {
    InvalidArgument,
    NotFound,
    AlreadyExists,
    Internal,
}

/// The refusal of a request.
#[derive(Debug)]
pub struct Status {
    pub code: Code,
    pub message: String,
}

/// The mathematical counterpart of [`Status`].
pub struct StatusView {
    pub code: Code,
    pub message: Seq<char>,
}

impl View for Status {
    type V = StatusView;

    open spec fn view(&self) -> StatusView {
        StatusView { code: self.code, message: self.message@ }
    }
}

impl StatusView {
    /// The refusal of a request that says something wrong.
    pub open spec fn invalid_argument(message: Seq<char>) -> StatusView {
        StatusView { code: Code::InvalidArgument, message }
    }

    /// The refusal of a request about something that is not there.
    pub open spec fn not_found(message: Seq<char>) -> StatusView {
        StatusView { code: Code::NotFound, message }
    }

    /// The refusal of a request for something that is there already.
    pub open spec fn already_exists(message: Seq<char>) -> StatusView {
        StatusView { code: Code::AlreadyExists, message }
    }

    /// The refusal of a request that could not be carried out.
    pub open spec fn internal(message: Seq<char>) -> StatusView {
        StatusView { code: Code::Internal, message }
    }
}

impl Status {
    /// The refusal of a request that says something wrong.
    pub fn invalid_argument(message: String) -> (status: Status)
        ensures
            status@ == StatusView::invalid_argument(message@),
    {
        Status { code: Code::InvalidArgument, message }
    }

    /// The refusal of a request about something that is not there.
    pub fn not_found(message: String) -> (status: Status)
        ensures
            status@ == StatusView::not_found(message@),
    {
        Status { code: Code::NotFound, message }
    }

    /// The refusal of a request for something that is there already.
    pub fn already_exists(message: String) -> (status: Status)
        ensures
            status@ == StatusView::already_exists(message@),
    {
        Status { code: Code::AlreadyExists, message }
    }

    /// The refusal of a request that could not be carried out.
    pub fn internal(message: String) -> (status: Status)
        ensures
            status@ == StatusView::internal(message@),
    {
        Status { code: Code::Internal, message }
    }
}

} // verus!

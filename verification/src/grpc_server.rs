//! How requests of the control interface are answered.

use vstd::prelude::*;

use crate::addr::{SocketAddr, SocketAddrView};
use crate::error::{ProxyError, ProxyErrorView};
use crate::model::{option_view, result_view, seq_view};
use crate::proto::{
    state_from_number, CreateSessionRequest, CreateSessionRequestView, CreateSessionResponse,
    CreateSessionResponseView, DestroySessionRequest, DestroySessionResponse,
    DestroySessionResponseView, Endpoint, EndpointView, GetSessionStatusRequest,
    GetSessionStatusResponse, GetSessionStatusResponseView, ListSessionsRequest,
    ListSessionsResponse, Protocol, ProtoSessionEvent, ProtoSessionEventView, ProtoSessionInfo,
    ProtoSessionInfoView, ProtoTrafficStats, SessionEventType, Status, StatusView,
    StreamSessionEventsRequest,
};
use crate::session::{
    Registered, RegisteredView, SessionConfig, SessionConfigView, SessionEvent, SessionEventView, SessionInfo, SessionInfoView,
    SessionManager, SessionManagerView, SessionSetup, SessionSetupView, SessionState,
    TrafficStatsSnapshot,
};
use crate::text::{decimal_text, join2, join3};
use crate::transport::TransportType;

verus! {

/// An endpoint as text: address, colon, port.
pub open spec fn endpoint_text_of(endpoint: EndpointView) -> Seq<char> {
    endpoint.address + ":"@ + crate::text::decimal(endpoint.port as nat)
}

/// Writes an endpoint as text, to be read as a socket address.
pub fn endpoint_text(endpoint: &Endpoint) -> (text: String)
    ensures
        text@ == endpoint_text_of(endpoint@),
{
    let port: String = decimal_text(endpoint.port);
    join3(endpoint.address.as_str(), ":", port.as_str())
}

/// What reading an endpoint as a socket address comes to.
pub open spec fn endpoint_result(parsed: Result<SocketAddrView, Seq<char>>) -> Result<
    SocketAddrView,
    StatusView,
> {
    match parsed {
        Ok(addr) => Ok(addr),
        Err(e) => Err(StatusView::invalid_argument("Invalid endpoint address: "@ + e)),
    }
}

/// Takes the result of reading an endpoint's text as a socket address.
pub fn parse_endpoint(parsed: Result<SocketAddr, String>) -> (r: Result<SocketAddr, Status>)
    ensures
        result_view(r) == endpoint_result(result_view(parsed)),
{
    match parsed {
        Ok(addr) => Ok(addr),
        Err(e) => Err(
            Status::invalid_argument(join2("Invalid endpoint address: ", e.as_str())),
        ),
    }
}

/// The three endpoints of a request as text.
#[derive(Debug)]
pub struct EndpointTexts {
    pub listen: String,
    pub forward: String,
    pub destination: String,
}

/// The mathematical counterpart of [`EndpointTexts`].
pub struct EndpointTextsView {
    pub listen: Seq<char>,
    pub forward: Seq<char>,
    pub destination: Seq<char>,
}

impl View for EndpointTexts {
    type V = EndpointTextsView;

    open spec fn view(&self) -> EndpointTextsView {
        EndpointTextsView {
            listen: self.listen@,
            forward: self.forward@,
            destination: self.destination@,
        }
    }
}

/// The three endpoints of a request, read as socket addresses or with the reader's error.
#[derive(Debug)]
pub struct ParsedEndpoints {
    pub listen: Result<SocketAddr, String>,
    pub forward: Result<SocketAddr, String>,
    pub destination: Result<SocketAddr, String>,
}

/// The mathematical counterpart of [`ParsedEndpoints`].
pub struct ParsedEndpointsView {
    pub listen: Result<SocketAddrView, Seq<char>>,
    pub forward: Result<SocketAddrView, Seq<char>>,
    pub destination: Result<SocketAddrView, Seq<char>>,
}

impl View for ParsedEndpoints {
    type V = ParsedEndpointsView;

    open spec fn view(&self) -> ParsedEndpointsView {
        ParsedEndpointsView {
            listen: result_view(self.listen),
            forward: result_view(self.forward),
            destination: result_view(self.destination),
        }
    }
}

impl CreateSessionRequestView {
    /// The three endpoints as text, or the refusal where the id is empty or one is missing.
    pub open spec fn endpoint_texts(self) -> Result<EndpointTextsView, StatusView> {
        if self.session_id.len() == 0 {
            Err(StatusView::invalid_argument("session_id is required and cannot be empty"@))
        } else if self.listen_endpoint is None {
            Err(StatusView::invalid_argument("listen_endpoint is required"@))
        } else if self.forward_endpoint is None {
            Err(StatusView::invalid_argument("forward_endpoint is required"@))
        } else if self.destination_endpoint is None {
            Err(StatusView::invalid_argument("destination_endpoint is required"@))
        } else {
            Ok(
                EndpointTextsView {
                    listen: endpoint_text_of(self.listen_endpoint->0),
                    forward: endpoint_text_of(self.forward_endpoint->0),
                    destination: endpoint_text_of(self.destination_endpoint->0),
                },
            )
        }
    }

    /// The transport that the request asks for.
    pub open spec fn transport(self) -> Result<TransportType, StatusView> {
        match Protocol::spec_from_number(self.protocol) {
            Some(Protocol::Udp) => Ok(TransportType::Udp),
            Some(Protocol::Tcp) => Ok(TransportType::Tcp),
            _ => Err(StatusView::invalid_argument("Invalid or unsupported protocol"@)),
        }
    }

    /// The configuration that the request asks for, or its refusal: the first of the endpoints
    /// that is no socket address, then the protocol.
    pub open spec fn config(self, parsed: ParsedEndpointsView) -> Result<
        SessionConfigView,
        StatusView,
    > {
        match (
            endpoint_result(parsed.listen),
            endpoint_result(parsed.forward),
            endpoint_result(parsed.destination),
            self.transport(),
        ) {
            (Err(e), _, _, _) => Err(e),
            (_, Err(e), _, _) => Err(e),
            (_, _, Err(e), _) => Err(e),
            (_, _, _, Err(e)) => Err(e),
            (Ok(listen_addr), Ok(forward_addr), Ok(destination_addr), Ok(protocol)) => Ok(
                SessionConfigView {
                    listen_addr,
                    forward_addr,
                    destination_addr,
                    protocol,
                    timeout_seconds: self.timeout_seconds,
                    stats_interval_seconds: self.stats_interval_seconds,
                },
            ),
        }
    }
}

/// Checks that a request has an id and its three endpoints, and gives these as text.
pub fn endpoint_texts(request: &CreateSessionRequest) -> (r: Result<EndpointTexts, Status>)
    ensures
        result_view(r) == request@.endpoint_texts(),
{
    if request.session_id.as_str().is_empty() {
        return Err(
            Status::invalid_argument("session_id is required and cannot be empty".to_string()),
        );
    }
    let listen: String = match &request.listen_endpoint {
        Some(endpoint) => endpoint_text(endpoint),
        None => return Err(Status::invalid_argument("listen_endpoint is required".to_string())),
    };
    let forward: String = match &request.forward_endpoint {
        Some(endpoint) => endpoint_text(endpoint),
        None => return Err(Status::invalid_argument("forward_endpoint is required".to_string())),
    };
    let destination: String = match &request.destination_endpoint {
        Some(endpoint) => endpoint_text(endpoint),
        None => return Err(
            Status::invalid_argument("destination_endpoint is required".to_string()),
        ),
    };
    Ok(EndpointTexts { listen, forward, destination })
}

/// The transport that a request asks for.
fn requested_transport(request: &CreateSessionRequest) -> (r: Result<TransportType, Status>)
    ensures
        result_view(r) == request@.transport(),
{
    match Protocol::from_number(request.protocol) {
        Some(Protocol::Udp) => Ok(TransportType::Udp),
        Some(Protocol::Tcp) => Ok(TransportType::Tcp),
        _ => Err(Status::invalid_argument("Invalid or unsupported protocol".to_string())),
    }
}

/// The configuration that a request asks for, its endpoints read as socket addresses.
pub fn session_config(request: &CreateSessionRequest, parsed: ParsedEndpoints) -> (r: Result<
    SessionConfig,
    Status,
>)
    ensures
        result_view(r) == request@.config(parsed@),
{
    let listen_addr: SocketAddr = match parse_endpoint(parsed.listen) {
        Ok(addr) => addr,
        Err(e) => return Err(e),
    };
    let forward_addr: SocketAddr = match parse_endpoint(parsed.forward) {
        Ok(addr) => addr,
        Err(e) => return Err(e),
    };
    let destination_addr: SocketAddr = match parse_endpoint(parsed.destination) {
        Ok(addr) => addr,
        Err(e) => return Err(e),
    };
    let protocol: TransportType = match requested_transport(request) {
        Ok(protocol) => protocol,
        Err(e) => return Err(e),
    };
    Ok(
        SessionConfig {
            listen_addr,
            forward_addr,
            destination_addr,
            protocol,
            timeout_seconds: request.timeout_seconds,
            stats_interval_seconds: request.stats_interval_seconds,
        },
    )
}

/// The refusal where a session could not be created.
pub open spec fn create_refusal(e: ProxyErrorView) -> StatusView {
    match e {
        ProxyErrorView::SessionExists(id) => StatusView::already_exists(
            "Session "@ + id + " already exists"@,
        ),
        _ => StatusView::internal("Failed to create session: "@ + e.text()),
    }
}

/// The reply to a request to create a session.
pub open spec fn create_reply(result: Result<RegisteredView, ProxyErrorView>) -> Result<
    CreateSessionResponseView,
    StatusView,
> {
    match result {
        Ok(registered) => Ok(
            CreateSessionResponseView {
                session_id: registered.session_id,
                created_at: registered.created_at,
            },
        ),
        Err(e) => Err(create_refusal(e)),
    }
}

/// The refusal where a session could not be destroyed.
pub open spec fn destroy_refusal(e: ProxyErrorView) -> StatusView {
    match e {
        ProxyErrorView::SessionNotFound(id) => StatusView::not_found(
            "Session "@ + id + " not found"@,
        ),
        _ => StatusView::internal("Failed to destroy session: "@ + e.text()),
    }
}

/// The reply to a request to destroy a session.
pub open spec fn destroy_reply(result: Result<(), ProxyErrorView>) -> Result<
    DestroySessionResponseView,
    StatusView,
> {
    match result {
        Ok(_) => Ok(
            DestroySessionResponseView {
                success: true,
                message: "Session destroyed successfully"@,
            },
        ),
        Err(e) => Err(destroy_refusal(e)),
    }
}

/// The reply to a request for the status of a session.
pub open spec fn status_reply(result: Result<SessionInfoView, ProxyErrorView>) -> Result<
    GetSessionStatusResponseView,
    StatusView,
> {
    match result {
        Ok(info) => Ok(GetSessionStatusResponseView { session: Some(session_info_proto(info)) }),
        Err(ProxyErrorView::SessionNotFound(id)) => Err(
            StatusView::not_found("Session "@ + id + " not found"@),
        ),
        Err(e) => Err(StatusView::internal("Failed to get session status: "@ + e.text())),
    }
}

/// A socket address as an endpoint.
pub open spec fn addr_endpoint(addr: SocketAddrView) -> EndpointView {
    EndpointView { address: addr.ip, port: addr.port as u32 }
}

/// Traffic counters as they are shown to clients.
pub open spec fn stats_proto(stats: TrafficStatsSnapshot) -> ProtoTrafficStats {
    ProtoTrafficStats {
        packets_received: stats.packets_received,
        bytes_received: stats.bytes_received,
        packets_sent: stats.packets_sent,
        bytes_sent: stats.bytes_sent,
        packets_lost: stats.packets_lost,
        packet_loss_rate: stats.loss_rate(),
    }
}

/// A session as it is shown to clients.
pub open spec fn session_info_proto(info: SessionInfoView) -> ProtoSessionInfoView {
    ProtoSessionInfoView {
        session_id: info.session_id,
        state: info.state.proto_number(),
        listen_endpoint: Some(addr_endpoint(info.config.listen_addr)),
        forward_endpoint: Some(addr_endpoint(info.config.forward_addr)),
        destination_endpoint: Some(addr_endpoint(info.config.destination_addr)),
        protocol: Protocol::spec_of(info.config.protocol).spec_number(),
        created_at: info.created_at,
        last_activity_at: info.last_activity,
        stats: Some(stats_proto(info.stats)),
        error_message: match info.error_message {
            Some(message) => message,
            None => Seq::empty(),
        },
    }
}

/// An event as it is shown to clients.
pub open spec fn event_proto(event: SessionEventView) -> ProtoSessionEventView {
    match event {
        SessionEventView::Created { session_id, timestamp } => ProtoSessionEventView {
            event_type: SessionEventType::SessionCreated.spec_number(),
            session: None,
            timestamp,
            description: "Session "@ + session_id + " created"@,
        },
        SessionEventView::StateChanged { session_id, old_state, new_state, timestamp } =>
            ProtoSessionEventView {
            event_type: SessionEventType::SessionStateChanged.spec_number(),
            session: None,
            timestamp,
            description: "Session "@ + session_id + " state changed to "@ + new_state.name_text(),
        },
        SessionEventView::StatsUpdate { session_id, stats, timestamp } => ProtoSessionEventView {
            event_type: SessionEventType::SessionStatsUpdate.spec_number(),
            session: Some(
                ProtoSessionInfoView {
                    session_id,
                    state: SessionState::Active.proto_number(),
                    listen_endpoint: None,
                    forward_endpoint: None,
                    destination_endpoint: None,
                    protocol: Protocol::Udp.spec_number(),
                    created_at: 0,
                    last_activity_at: timestamp,
                    stats: Some(stats_proto(stats)),
                    error_message: Seq::empty(),
                },
            ),
            timestamp,
            description: "Session "@ + session_id + " statistics updated"@,
        },
        SessionEventView::Error { session_id, error, timestamp } => ProtoSessionEventView {
            event_type: SessionEventType::SessionError.spec_number(),
            session: None,
            timestamp,
            description: "Session "@ + session_id + " error: "@ + error,
        },
        SessionEventView::Closed { session_id, timestamp } => ProtoSessionEventView {
            event_type: SessionEventType::SessionClosed.spec_number(),
            session: None,
            timestamp,
            description: "Session "@ + session_id + " closed"@,
        },
    }
}

fn endpoint_of(addr: &SocketAddr) -> (endpoint: Endpoint)
    ensures
        endpoint@ == addr_endpoint(addr@),
{
    Endpoint { address: addr.ip.clone(), port: addr.port as u32 }
}

fn convert_stats_to_proto(stats: &TrafficStatsSnapshot) -> (proto: ProtoTrafficStats)
    ensures
        proto == stats_proto(*stats),
{
    ProtoTrafficStats {
        packets_received: stats.packets_received,
        bytes_received: stats.bytes_received,
        packets_sent: stats.packets_sent,
        bytes_sent: stats.bytes_sent,
        packets_lost: stats.packets_lost,
        packet_loss_rate: stats.packet_loss_rate(),
    }
}

/// A session as it is shown to clients.
pub fn convert_session_info_to_proto(info: SessionInfo) -> (proto: ProtoSessionInfo)
    ensures
        proto@ == session_info_proto(info@),
{
    ProtoSessionInfo {
        session_id: info.session_id,
        state: info.state.to_proto(),
        listen_endpoint: Some(endpoint_of(&info.config.listen_addr)),
        forward_endpoint: Some(endpoint_of(&info.config.forward_addr)),
        destination_endpoint: Some(endpoint_of(&info.config.destination_addr)),
        protocol: Protocol::of(info.config.protocol).number(),
        created_at: info.created_at,
        last_activity_at: info.last_activity,
        stats: Some(convert_stats_to_proto(&info.stats)),
        error_message: match info.error_message {
            Some(message) => message,
            None => String::new(),
        },
    }
}

/// An event as it is shown to clients. There is no event that is not shown.
pub fn convert_event_to_proto(event: SessionEvent) -> (proto: Option<ProtoSessionEvent>)
    ensures
        option_view(proto) == Some(event_proto(event@)),
{
    match event {
        SessionEvent::Created { session_id, timestamp } => Some(
            ProtoSessionEvent {
                event_type: SessionEventType::SessionCreated.number(),
                session: None,
                timestamp,
                description: join3("Session ", session_id.as_str(), " created"),
            },
        ),
        SessionEvent::StateChanged { session_id, old_state: _, new_state, timestamp } => {
            let head: String = join3("Session ", session_id.as_str(), " state changed to ");
            Some(
                ProtoSessionEvent {
                    event_type: SessionEventType::SessionStateChanged.number(),
                    session: None,
                    timestamp,
                    description: join2(head.as_str(), new_state.name()),
                },
            )
        },
        SessionEvent::StatsUpdate { session_id, stats, timestamp } => {
            let description: String = join3(
                "Session ",
                session_id.as_str(),
                " statistics updated",
            );
            Some(
                ProtoSessionEvent {
                    event_type: SessionEventType::SessionStatsUpdate.number(),
                    session: Some(
                        ProtoSessionInfo {
                            session_id,
                            state: SessionState::Active.to_proto(),
                            listen_endpoint: None,
                            forward_endpoint: None,
                            destination_endpoint: None,
                            protocol: Protocol::Udp.number(),
                            created_at: 0,
                            last_activity_at: timestamp,
                            stats: Some(convert_stats_to_proto(&stats)),
                            error_message: String::new(),
                        },
                    ),
                    timestamp,
                    description,
                },
            )
        },
        SessionEvent::Error { session_id, error, timestamp } => {
            let head: String = join3("Session ", session_id.as_str(), " error: ");
            Some(
                ProtoSessionEvent {
                    event_type: SessionEventType::SessionError.number(),
                    session: None,
                    timestamp,
                    description: join2(head.as_str(), error.as_str()),
                },
            )
        },
        SessionEvent::Closed { session_id, timestamp } => Some(
            ProtoSessionEvent {
                event_type: SessionEventType::SessionClosed.number(),
                session: None,
                timestamp,
                description: join3("Session ", session_id.as_str(), " closed"),
            },
        ),
    }
}

fn refuse_create(e: &ProxyError) -> (status: Status)
    ensures
        status@ == create_refusal(e@),
{
    match e {
        ProxyError::SessionExists(id) => Status::already_exists(
            join3("Session ", id.as_str(), " already exists"),
        ),
        _ => {
            let message: String = e.message();
            Status::internal(join2("Failed to create session: ", message.as_str()))
        },
    }
}

fn refuse_destroy(e: &ProxyError) -> (status: Status)
    ensures
        status@ == destroy_refusal(e@),
{
    match e {
        ProxyError::SessionNotFound(id) => Status::not_found(
            join3("Session ", id.as_str(), " not found"),
        ),
        _ => {
            let message: String = e.message();
            Status::internal(join2("Failed to destroy session: ", message.as_str()))
        },
    }
}

/// The reply to a request to create a session: `result` is the session that was brought up and
/// registered, or why it was not.
pub fn create_session_reply(result: Result<Registered, ProxyError>) -> (r: Result<
    CreateSessionResponse,
    Status,
>)
    ensures
        result_view(r) == create_reply(result_view(result)),
{
    match result {
        Ok(registered) => Ok(
            CreateSessionResponse {
                session_id: registered.session_id,
                created_at: registered.created_at,
            },
        ),
        Err(e) => Err(refuse_create(&e)),
    }
}

/// The reply to a request to destroy a session.
pub fn destroy_session_reply(result: Result<(), ProxyError>) -> (r: Result<
    DestroySessionResponse,
    Status,
>)
    ensures
        result_view(r) == destroy_reply(result_view(result)),
{
    match result {
        Ok(_) => Ok(
            DestroySessionResponse {
                success: true,
                message: "Session destroyed successfully".to_string(),
            },
        ),
        Err(e) => Err(refuse_destroy(&e)),
    }
}

/// The sessions whose events a stream is for: none of them named means all of them.
pub open spec fn stream_filter(session_ids: Seq<Seq<char>>) -> Option<Seq<Seq<char>>> {
    if session_ids.len() == 0 {
        None
    } else {
        Some(session_ids)
    }
}

/// The view of a stream's filter.
pub open spec fn filter_view(filter: Option<Vec<String>>) -> Option<Seq<Seq<char>>> {
    match filter {
        Some(ids) => Some(seq_view(ids@)),
        None => None,
    }
}

/// Whether a stream with a filter shows the events of a session.
pub open spec fn streams(filter: Option<Seq<Seq<char>>>, session_id: Seq<char>) -> bool {
    match filter {
        Some(ids) => ids.contains(session_id),
        None => true,
    }
}

/// The filter of a stream.
pub fn event_filter(request: StreamSessionEventsRequest) -> (filter: Option<Vec<String>>)
    ensures
        filter_view(filter) == stream_filter(seq_view(request.session_ids@)),
{
    if request.session_ids.len() == 0 {
        None
    } else {
        Some(request.session_ids)
    }
}

/// Whether a session is among those with the given ids.
fn contains_id(ids: &Vec<String>, id: &String) -> (r: bool)
    ensures
        r == seq_view(ids@).contains(id@),
{
    let mut n: usize = 0;
    while n < ids.len()
        invariant
            n <= ids@.len(),
            forall|i: int| 0 <= i < n ==> (#[trigger] ids@[i])@ != id@,
        decreases ids@.len() - n,
    {
        if ids[n] == *id {
            assert(seq_view(ids@)[n as int] == id@);
            return true;
        }
        n = n + 1;
    }
    false
}

/// What a stream with a filter shows of an event.
pub open spec fn shown_event(filter: Option<Seq<Seq<char>>>, event: SessionEventView) -> Option<
    ProtoSessionEventView,
> {
    if streams(filter, event.session_id()) {
        Some(event_proto(event))
    } else {
        None
    }
}

/// What a stream with a filter shows of an event.
pub fn stream_event(filter: &Option<Vec<String>>, event: SessionEvent) -> (shown: Option<
    ProtoSessionEvent,
>)
    ensures
        option_view(shown) == shown_event(filter_view(*filter), event@),
{
    if let Some(ids) = filter {
        if !contains_id(ids, event.session_id()) {
            return None;
        }
    }
    convert_event_to_proto(event)
}

/// The filter that a request for a list of sessions asks for. A number that stands for no state
/// filters nothing.
pub open spec fn list_filter(state_filter: Option<i32>) -> Option<SessionState> {
    match state_filter {
        Some(number) => crate::proto::spec_state_from_number(number),
        None => None,
    }
}

/// The control service: answers requests out of the session manager.
pub struct RtpProxyService {
    session_manager: SessionManager,
}

impl View for RtpProxyService {
    type V = SessionManagerView;

    closed spec fn view(&self) -> SessionManagerView {
        self.session_manager@
    }
}

impl RtpProxyService {
    /// The service for a session manager.
    pub fn new(session_manager: SessionManager) -> (service: RtpProxyService)
        ensures
            service@ == session_manager@,
    {
        RtpProxyService { session_manager }
    }

    /// The session manager.
    pub fn session_manager(&mut self) -> (m: &mut SessionManager)
        ensures
            (*m)@ == old(self)@,
            final(self)@ == (*final(m))@,
    {
        &mut self.session_manager
    }

    /// Checks a request to create a session and begins to create it. `parsed` holds the texts of
    /// [`endpoint_texts`], read as socket addresses.
    pub fn create_session(
        &self,
        request: CreateSessionRequest,
        parsed: ParsedEndpoints,
        now: i64,
    ) -> (r: Result<SessionSetup, Status>)
        ensures
            result_view(r) == create_session_result(self@, request@, parsed@, now),
            r matches Ok(setup) ==> setup@.wf(),
    {
        if let Err(e) = endpoint_texts(&request) {
            return Err(e);
        }
        let config: SessionConfig = match session_config(&request, parsed) {
            Ok(config) => config,
            Err(e) => return Err(e),
        };
        match self.session_manager.create_session(request.session_id, config, now) {
            Ok(setup) => Ok(setup),
            Err(e) => Err(refuse_create(&e)),
        }
    }

    /// Finds the session that a request wants to destroy.
    pub fn destroy_session(&self, request: &DestroySessionRequest) -> (r: Result<usize, Status>)
        ensures
            result_view(r) == (if self@.registered.contains_key(request.session_id@) {
                Ok(self@.registered[request.session_id@])
            } else {
                Err(
                    StatusView::not_found("Session "@ + request.session_id@ + " not found"@),
                )
            }),
    {
        match self.session_manager.destroy_session(request.session_id.as_str()) {
            Ok(place) => Ok(place),
            Err(e) => Err(refuse_destroy(&e)),
        }
    }

    /// The status of a session.
    pub fn get_session_status(&self, request: &GetSessionStatusRequest) -> (r: Result<
        GetSessionStatusResponse,
        Status,
    >)
        requires
            self@.wf(),
        ensures
            result_view(r) == status_reply(self@.session_info(request.session_id@)),
    {
        match self.session_manager.get_session_info(request.session_id.as_str()) {
            Ok(info) => Ok(
                GetSessionStatusResponse { session: Some(convert_session_info_to_proto(info)) },
            ),
            Err(ProxyError::SessionNotFound(id)) => Err(
                Status::not_found(join3("Session ", id.as_str(), " not found")),
            ),
            Err(e) => {
                let message: String = e.message();
                Err(
                    Status::internal(join2("Failed to get session status: ", message.as_str())),
                )
            },
        }
    }

    /// The registered sessions, or those of them in the state that the request names.
    pub fn list_sessions(&self, request: &ListSessionsRequest) -> (r: Result<
        ListSessionsResponse,
        Status,
    >)
        requires
            self@.wf(),
        ensures
            r matches Ok(response) && {
                &&& response.total_count == response.sessions@.len() as u32
                &&& exists|infos: Seq<SessionInfoView>| #[trigger]
                    self@.lists(infos, list_filter(request.state_filter)) && response@.sessions
                        == infos.map_values(|info: SessionInfoView| session_info_proto(info))
                        && shows_all(response@.sessions, infos)
            },
    {
        let state_filter: Option<SessionState> = match request.state_filter {
            Some(number) => state_from_number(number),
            None => None,
        };
        let infos: Vec<SessionInfo> = self.session_manager.list_sessions(state_filter);
        let ghost listed: Seq<SessionInfo> = infos@;
        let total_count: u32 = infos.len() as u32;
        let mut sessions: Vec<ProtoSessionInfo> = Vec::new();
        for info in iter: infos
            invariant
                iter.seq() == listed,
                sessions@.len() == iter.index(),
                forall|i: int|
                    0 <= i < sessions@.len() ==> (#[trigger] sessions@[i])@
                        == session_info_proto(listed[i]@),
        {
            sessions.push(convert_session_info_to_proto(info));
        }
        let response = ListSessionsResponse { sessions, total_count };
        assert(response@.sessions =~= seq_view(listed).map_values(
            |info: SessionInfoView| session_info_proto(info),
        ));
        Ok(response)
    }
}

/// Whether a list shows each of the given sessions, in order.
pub open spec fn shows_all(
    sessions: Seq<ProtoSessionInfoView>,
    infos: Seq<SessionInfoView>,
) -> bool {
    &&& sessions.len() == infos.len()
    &&& forall|i: int|
        0 <= i < infos.len() ==> (#[trigger] sessions[i]) == session_info_proto(infos[i])
}

/// What a request to create a session comes to: the beginning of its creation, or its refusal.
pub open spec fn create_session_result(
    manager: SessionManagerView,
    request: CreateSessionRequestView,
    parsed: ParsedEndpointsView,
    now: i64,
) -> Result<SessionSetupView, StatusView> {
    match (request.endpoint_texts(), request.config(parsed)) {
        (Err(e), _) => Err(e),
        (_, Err(e)) => Err(e),
        (Ok(_), Ok(config)) => if manager.registered.contains_key(request.session_id) {
            Err(create_refusal(ProxyErrorView::SessionExists(request.session_id)))
        } else {
            Ok(SessionSetupView::begin(request.session_id, config, now))
        },
    }
}

} // verus!

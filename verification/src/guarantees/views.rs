//! Views: what is said of the view of a value is said of the value, part by part.

use vstd::prelude::*;

use crate::addr::SocketAddr;
use crate::config::{Config, LoggingConfig, ServerConfig};
use crate::error::{ProxyError, ProxyErrorView};
use crate::grpc_server::{filter_view, EndpointTexts, ParsedEndpoints};
use crate::model::{option_view, result_view, seq_view};
use crate::payload::{payload, Packet};
use crate::proto::{
    CreateSessionRequest, CreateSessionResponse, DestroySessionResponse, Endpoint,
    GetSessionStatusResponse, ListSessionsResponse, ProtoSessionEvent, ProtoSessionInfo, Status,
};
use crate::session::record::stream_outcome;
use crate::session::{
    ForwardTarget, ForwardTargetView, Registered, RtpStep, RtpStepView, SessionConfig,
    SessionEvent, SessionEventView, SessionInfo, SessionSetupStep, SessionSetupStepView,
    StartAction, StartActionView, Started, UdpForwarding, UdpStep, UdpStepView,
};
use crate::transport::{
    SetupStep, SetupStepView, TcpStep, TcpStepView, Transport, TransportSetup, TransportSetupView,
    TransportType, TransportView,
};

verus! {

/// A result is viewed by its value or its error.
pub proof fn law_view_of_a_result<T: View, E: View>(value: T, error: E)
    ensures
        result_view(Ok::<T, E>(value)) == Ok::<T::V, E::V>(value@),
        result_view(Err::<T, E>(error)) == Err::<T::V, E::V>(error@),
{
}

/// An option is viewed by its value.
pub proof fn law_view_of_an_option<T: View>(value: T)
    ensures
        option_view(Some(value)) == Some(value@),
        option_view(None::<T>) is None,
{
}

/// A sequence is viewed item by item.
pub proof fn law_view_of_a_sequence<T: View>(items: Seq<T>)
    ensures
        seq_view(items).len() == items.len(),
        forall|i: int| 0 <= i < items.len() ==> (#[trigger] seq_view(items)[i]) == items[i]@,
{
}

/// The result of an operation on a stream is viewed by the result, where there is a stream.
pub proof fn law_view_of_a_stream_outcome<T: View>(value: T, error: String)
    ensures
        stream_outcome(None::<Result<T, String>>) is None,
        stream_outcome(Some(Ok::<T, String>(value))) == Some(Ok::<T::V, Seq<char>>(value@)),
        stream_outcome(Some(Err::<T, String>(error))) == Some(Err::<T::V, Seq<char>>(error@)),
{
}

/// The filter of a stream is viewed id by id.
pub proof fn law_view_of_a_filter(ids: Vec<String>)
    ensures
        filter_view(None) is None,
        filter_view(Some(ids)) matches Some(view) && view.len() == ids@.len() && forall|i: int|
            0 <= i < ids@.len() ==> (#[trigger] view[i]) == ids@[i]@,
{
}

/// Addresses and packets are viewed by their parts.
pub proof fn law_view_of_addresses_and_packets(addr: SocketAddr, packet: Packet)
    ensures
        addr@.ip == addr.ip@,
        addr@.port == addr.port,
        addr@.flowinfo == addr.flowinfo,
        addr@.scope_id == addr.scope_id,
        packet@.data == payload(packet.data),
        packet@.source == packet.source@,
{
}

/// An error is viewed by its kind and what it holds.
pub proof fn law_view_of_an_error(e: ProxyError)
    ensures
        match e {
            ProxyError::Io(text) => e@ == ProxyErrorView::Io(text@),
            ProxyError::AddrParse(text) => e@ == ProxyErrorView::AddrParse(text@),
            ProxyError::SessionNotFound(text) => e@ == ProxyErrorView::SessionNotFound(text@),
            ProxyError::InvalidProtocol(text) => e@ == ProxyErrorView::InvalidProtocol(text@),
            ProxyError::Transport(text) => e@ == ProxyErrorView::Transport(text@),
            ProxyError::ConnectionTimeout => e@ == ProxyErrorView::ConnectionTimeout,
            ProxyError::SessionExists(text) => e@ == ProxyErrorView::SessionExists(text@),
            ProxyError::InvalidConfig(text) => e@ == ProxyErrorView::InvalidConfig(text@),
        },
{
}

/// A configuration is viewed field by field.
pub proof fn law_view_of_a_configuration(
    server: ServerConfig,
    logging: LoggingConfig,
    config: Config,
)
    ensures
        server@.grpc_listen_address == server.grpc_listen_address@,
        server@.grpc_listen_port == server.grpc_listen_port,
        logging@.file_enabled == logging.file_enabled,
        logging@.directory == logging.directory@,
        logging@.file_prefix == logging.file_prefix@,
        logging@.max_file_size == logging.max_file_size,
        logging@.max_log_files == logging.max_log_files,
        config@.server == config.server@,
        config@.logging == config.logging@,
{
}

/// Transports, and the steps of their setup and of a receive, are viewed by their parts.
pub proof fn law_view_of_transports(
    kind: TransportType,
    step: TcpStep,
    transport: Transport,
    setup: TransportSetup,
    next: SetupStep,
)
    ensures
        kind@ == kind,
        match step {
            TcpStep::Accept => step@ is Accept,
            TcpStep::Connect { source, destination } => step@ == (TcpStepView::Connect {
                source: source@,
                destination: destination@,
            }),
            TcpStep::Read => step@ is Read,
        },
        match transport {
            Transport::Udp(t) => transport@ == TransportView::Udp(t@),
            Transport::Tcp(t) => transport@ == TransportView::Tcp(t@),
        },
        match setup {
            TransportSetup::RtpListen { listen_addr, forward_addr } => setup@ == (
            TransportSetupView::RtpListen { listen: listen_addr@, forward: forward_addr@ }),
            TransportSetup::RtpForward { listen_addr, forward_addr } => setup@ == (
            TransportSetupView::RtpForward { listen: listen_addr@, forward: forward_addr@ }),
            TransportSetup::RtcpListen(t) => setup@ == TransportSetupView::RtcpListen(t@),
            TransportSetup::RtcpForward(t) => setup@ == TransportSetupView::RtcpForward(t@),
            TransportSetup::TcpListener(t) => setup@ == TransportSetupView::TcpListener(t@),
        },
        match next {
            SetupStep::Bind(s) => next@ == SetupStepView::Bind(s@),
            SetupStep::Ready(t) => next@ == SetupStepView::Ready(t@),
        },
{
}

/// An event is viewed by its kind and what it holds.
pub proof fn law_view_of_an_event(event: SessionEvent)
    ensures
        match event {
            SessionEvent::Created { session_id, timestamp } => event@ == (
            SessionEventView::Created { session_id: session_id@, timestamp }),
            SessionEvent::StateChanged { session_id, old_state, new_state, timestamp } => event@
                == (SessionEventView::StateChanged {
                session_id: session_id@,
                old_state,
                new_state,
                timestamp,
            }),
            SessionEvent::StatsUpdate { session_id, stats, timestamp } => event@ == (
            SessionEventView::StatsUpdate { session_id: session_id@, stats, timestamp }),
            SessionEvent::Error { session_id, error, timestamp } => event@ == (
            SessionEventView::Error { session_id: session_id@, error: error@, timestamp }),
            SessionEvent::Closed { session_id, timestamp } => event@ == (
            SessionEventView::Closed { session_id: session_id@, timestamp }),
        },
{
}

/// Tasks, and what brings a session up, are viewed by their parts.
pub proof fn law_view_of_tasks(
    target: ForwardTarget,
    task: UdpForwarding,
    action: StartAction,
    started: Started,
)
    ensures
        match target {
            ForwardTarget::Fixed(addr) => target@ == ForwardTargetView::Fixed(addr@),
            ForwardTarget::Client => target@ is Client,
            ForwardTarget::RtcpClient => target@ is RtcpClient,
        },
        task@.name == task.name@,
        task@.recv_socket == task.recv_socket,
        task@.send_socket == task.send_socket,
        task@.target == task.target@,
        task@.counts_traffic == task.counts_traffic,
        task@.counts_activity == task.counts_activity,
        task@.learns_rtcp_client == task.learns_rtcp_client,
        match action {
            StartAction::ForwardRtp { recv_socket, send_socket } => action@ == (
            StartActionView::ForwardRtp { recv_socket, send_socket }),
            StartAction::ForwardUdp(task) => action@ == StartActionView::ForwardUdp(task@),
            StartAction::AwaitConnections => action@ is AwaitConnections,
            StartAction::ForwardReverseTcp => action@ is ForwardReverseTcp,
            StartAction::ReportStats { interval_seconds } => action@ == (
            StartActionView::ReportStats { interval_seconds }),
        },
        started@.actions.len() == started.actions@.len(),
        forall|i: int|
            0 <= i < started.actions@.len() ==> (#[trigger] started@.actions[i])
                == started.actions@[i]@,
        started@.events.len() == started.events@.len(),
        forall|i: int|
            0 <= i < started.events@.len() ==> (#[trigger] started@.events[i])
                == started.events@[i]@,
{
}

/// The configuration of a session is viewed field by field.
pub proof fn law_view_of_a_session_configuration(config: SessionConfig)
    ensures
        config@.listen_addr == config.listen_addr@,
        config@.forward_addr == config.forward_addr@,
        config@.destination_addr == config.destination_addr@,
        config@.protocol == config.protocol,
        config@.timeout_seconds == config.timeout_seconds,
        config@.stats_interval_seconds == config.stats_interval_seconds,
{
}

/// What is known of a session is viewed field by field.
pub proof fn law_view_of_a_session_info(info: SessionInfo)
    ensures
        info@.session_id == info.session_id@,
        info@.config == info.config@,
        info@.state == info.state,
        info@.created_at == info.created_at,
        info@.last_activity == info.last_activity,
        info@.stats == info.stats,
        info.error_message matches Some(message) ==> info@.error_message == Some(message@),
        info.error_message is None ==> info@.error_message is None,
{
}

/// The steps of tasks and of a creation are viewed by their parts.
pub proof fn law_view_of_steps(
    rtp: RtpStep,
    udp: UdpStep,
    setup: SessionSetupStep,
    registered: Registered,
)
    ensures
        match rtp {
            RtpStep::Forward { data, destination } => rtp@ == (RtpStepView::Forward {
                data: payload(data),
                destination: destination@,
            }),
            RtpStep::Stop(events) => rtp@ matches RtpStepView::Stop(view) && view.len()
                == events@.len() && forall|i: int|
                0 <= i < events@.len() ==> (#[trigger] view[i]) == events@[i]@,
        },
        match udp {
            UdpStep::Send { data, to } => udp@ == (UdpStepView::Send { data: data@, to: to@ }),
            UdpStep::Skip => udp@ is Skip,
            UdpStep::Stop => udp@ is Stop,
        },
        match setup {
            SessionSetupStep::Bind(next) => setup@ == SessionSetupStepView::Bind(next@),
            SessionSetupStep::Open { session, event, transport } => setup@ == (
            SessionSetupStepView::Open {
                session: session@,
                event: event@,
                transport: transport@,
            }),
        },
        registered@.session_id == registered.session_id@,
        registered@.created_at == registered.created_at,
{
}

/// A request and its endpoints are viewed field by field.
pub proof fn law_view_of_requests(
    endpoint: Endpoint,
    request: CreateSessionRequest,
    texts: EndpointTexts,
    parsed: ParsedEndpoints,
)
    ensures
        endpoint@.address == endpoint.address@,
        endpoint@.port == endpoint.port,
        request@.session_id == request.session_id@,
        request@.listen_endpoint is Some <==> request.listen_endpoint is Some,
        request@.listen_endpoint matches Some(e) ==> e == request.listen_endpoint->0@,
        request@.forward_endpoint is Some <==> request.forward_endpoint is Some,
        request@.forward_endpoint matches Some(e) ==> e == request.forward_endpoint->0@,
        request@.destination_endpoint is Some <==> request.destination_endpoint is Some,
        request@.destination_endpoint matches Some(e) ==> e == request.destination_endpoint->0@,
        request@.protocol == request.protocol,
        request@.timeout_seconds == request.timeout_seconds,
        request@.stats_interval_seconds == request.stats_interval_seconds,
        texts@.listen == texts.listen@,
        texts@.forward == texts.forward@,
        texts@.destination == texts.destination@,
        parsed.listen matches Ok(addr) ==> parsed@.listen == Ok::<_, Seq<char>>(addr@),
        parsed.listen matches Err(e) ==> parsed@.listen is Err && parsed@.listen->Err_0 == e@,
        parsed.forward matches Ok(addr) ==> parsed@.forward == Ok::<_, Seq<char>>(addr@),
        parsed.forward matches Err(e) ==> parsed@.forward is Err && parsed@.forward->Err_0 == e@,
        parsed.destination matches Ok(addr) ==> parsed@.destination == Ok::<_, Seq<char>>(addr@),
        parsed.destination matches Err(e) ==> parsed@.destination is Err
            && parsed@.destination->Err_0 == e@,
{
}

/// A shown session is viewed field by field.
pub proof fn law_view_of_a_shown_session(shown: ProtoSessionInfo)
    ensures
        shown@.session_id == shown.session_id@,
        shown@.state == shown.state,
        shown@.listen_endpoint is Some <==> shown.listen_endpoint is Some,
        shown@.listen_endpoint matches Some(e) ==> e == shown.listen_endpoint->0@,
        shown@.forward_endpoint is Some <==> shown.forward_endpoint is Some,
        shown@.forward_endpoint matches Some(e) ==> e == shown.forward_endpoint->0@,
        shown@.destination_endpoint is Some <==> shown.destination_endpoint is Some,
        shown@.destination_endpoint matches Some(e) ==> e == shown.destination_endpoint->0@,
        shown@.protocol == shown.protocol,
        shown@.created_at == shown.created_at,
        shown@.last_activity_at == shown.last_activity_at,
        shown@.stats == shown.stats,
        shown@.error_message == shown.error_message@,
{
}

/// Replies, refusals and shown events are viewed field by field.
pub proof fn law_view_of_replies(
    event: ProtoSessionEvent,
    created: CreateSessionResponse,
    destroyed: DestroySessionResponse,
    status: GetSessionStatusResponse,
    list: ListSessionsResponse,
    refusal: Status,
)
    ensures
        event@.event_type == event.event_type,
        event@.session is Some <==> event.session is Some,
        event@.session matches Some(session) ==> session == event.session->0@,
        event@.timestamp == event.timestamp,
        event@.description == event.description@,
        created@.session_id == created.session_id@,
        created@.created_at == created.created_at,
        destroyed@.success == destroyed.success,
        destroyed@.message == destroyed.message@,
        status@.session is Some <==> status.session is Some,
        status@.session matches Some(session) ==> session == status.session->0@,
        list@.total_count == list.total_count,
        list@.sessions.len() == list.sessions@.len(),
        forall|i: int|
            0 <= i < list.sessions@.len() ==> (#[trigger] list@.sessions[i])
                == list.sessions@[i]@,
        refusal@.code == refusal.code,
        refusal@.message == refusal.message@,
{
}

} // verus!

//! Calls: what is known of the result of a call, for any arguments.

use bytes::Bytes;
use vstd::prelude::*;

use super::manager::law_list_shows_what_the_sessions_hold;
use super::transport::begins;
use crate::addr::{increment_port, SocketAddr};
use crate::clock::{timestamp_from_elapsed, timestamp_from_seconds};
use crate::config::Config;
use crate::error::{ProxyError, ProxyErrorView};
use crate::grpc_server::{
    convert_event_to_proto, convert_session_info_to_proto, create_session_reply, event_filter,
    list_filter, session_config, shows_all, ParsedEndpoints, RtpProxyService,
};
use crate::payload::{cut_to_received, payload, Packet};
use crate::proto::{
    Code, CreateSessionRequest, CreateSessionResponse, DestroySessionRequest, ListSessionsRequest,
    ListSessionsResponse, ProtoSessionEvent, ProtoSessionInfo, Status, StreamSessionEventsRequest,
};
use crate::session::{
    ForwardTarget, PacketLossRate, Registered, Session, SessionConfig, SessionEvent, SessionInfo,
    SessionInfoView, SessionManager, SessionSetup, SessionState, TrafficStatsSnapshot, UdpForwarding,
};
use crate::text::{join2, join3};
use crate::transport::{SocketRole, TcpTransport, TransportType, UdpTransport};

verus! {

/// A packet that a UDP transport received has the source that the socket reported and the bytes
/// that it put into the buffer; there is one exactly where the receive succeeded.
pub proof fn law_call_udp_recv(
    t: UdpTransport,
    buf: Vec<u8>,
    outcome: Result<(usize, SocketAddr), String>,
    r: Result<Packet, ProxyError>,
)
    requires
        call_ensures(UdpTransport::recv, (&t, buf, outcome), r),
    ensures
        outcome matches Ok((len, source)) ==> {
            &&& r is Ok
            &&& r->Ok_0.source.ip@ == source.ip@
            &&& r->Ok_0.source.port == source.port
            &&& r->Ok_0.source.flowinfo == source.flowinfo
            &&& r->Ok_0.source.scope_id == source.scope_id
            &&& begins(payload(r->Ok_0.data), buf@, len as int)
        },
        outcome matches Err(cause) ==> r is Err && r->Err_0 is Io && r->Err_0->Io_0@ == cause@,
{
}

/// A UDP send has sent as many bytes as the socket reported.
pub proof fn law_call_udp_send(
    t: UdpTransport,
    outcome: Result<usize, String>,
    r: Result<usize, ProxyError>,
)
    requires
        call_ensures(UdpTransport::send, (&t, outcome), r),
    ensures
        outcome matches Ok(len) ==> r is Ok && r->Ok_0 == len,
        outcome matches Err(cause) ==> r is Err && r->Err_0 is Io && r->Err_0->Io_0@ == cause@,
{
}

/// What a TCP client sent comes from the client's address, unchanged.
pub proof fn law_call_tcp_read(
    t: TcpTransport,
    buf: Vec<u8>,
    outcome: Result<usize, String>,
    r: Result<Packet, ProxyError>,
)
    requires
        call_ensures(TcpTransport::client_read, (&t, buf, outcome), r),
    ensures
        r is Ok <==> t@.client_addr is Some && outcome is Ok && outcome->Ok_0 > 0,
        r is Ok ==> {
            &&& r->Ok_0.source@ == t@.client_addr->0
            &&& begins(payload(r->Ok_0.data), buf@, outcome->Ok_0 as int)
        },
{
}

/// What was written to a TCP destination is all of the payload.
pub proof fn law_call_tcp_write(
    t: TcpTransport,
    data: Bytes,
    outcome: Result<(), String>,
    r: Result<usize, ProxyError>,
)
    requires
        call_ensures(TcpTransport::destination_written, (&t, &data, outcome), r),
        payload(data).len() <= usize::MAX,
    ensures
        outcome is Ok ==> r is Ok && r->Ok_0 == payload(data).len(),
        outcome matches Err(cause) ==> r is Err && r->Err_0 is Io && r->Err_0->Io_0@ == cause@,
{
}

/// A TCP transport is fully connected exactly where it has both connections.
pub proof fn law_call_fully_connected(t: TcpTransport, r: bool)
    requires
        call_ensures(TcpTransport::is_fully_connected, (&t,), r),
    ensures
        r <==> t@.client_connected && t@.dest_connected,
{
}

/// The RTCP address of an address has the next port, where there is one.
pub proof fn law_call_increment_port(addr: SocketAddr, r: Result<SocketAddr, ProxyError>)
    requires
        call_ensures(increment_port, (&addr,), r),
    ensures
        r is Ok <==> addr.port < 65535,
        r matches Ok(next) ==> {
            &&& next.port == addr.port + 1
            &&& next.ip@ == addr.ip@
            &&& next.flowinfo == addr.flowinfo
            &&& next.scope_id == addr.scope_id
        },
{
}

/// A buffer is cut down to what was received.
pub proof fn law_call_cut_to_received(buf: Vec<u8>, len: usize, data: Vec<u8>)
    requires
        call_ensures(cut_to_received, (buf, len), data),
    ensures
        begins(data@, buf@, len as int),
{
}

/// Texts are joined one after the other.
pub proof fn law_call_joins(a: &str, b: &str, c: &str, two: String, three: String)
    requires
        call_ensures(join2, (a, b), two),
        call_ensures(join3, (a, b, c), three),
    ensures
        two@.len() == a@.len() + b@.len(),
        two@.take(a@.len() as int) == a@,
        two@.skip(a@.len() as int) == b@,
        three@ == two@ + c@,
{
    assert(two@.take(a@.len() as int) =~= a@);
    assert(two@.skip(a@.len() as int) =~= b@);
}

/// The message of an error ends with what the error holds.
pub proof fn law_call_message(e: ProxyError, text: String)
    requires
        call_ensures(ProxyError::message, (&e,), text),
    ensures
        e matches ProxyError::Io(detail) ==> text@ == "IO error: "@ + detail@,
        e matches ProxyError::Transport(detail) ==> text@ == "Transport error: "@ + detail@,
        e matches ProxyError::SessionNotFound(id) ==> text@ == "Session not found: "@ + id@,
        e matches ProxyError::SessionExists(id) ==> text@ == "Session already exists: "@ + id@,
{
}

/// A time stamp is the number of seconds that the clock gave; there is none where the clock gave
/// none.
pub proof fn law_call_timestamps(
    seconds: u64,
    timestamp: i64,
    elapsed: Option<u64>,
    stamped: Option<i64>,
)
    requires
        call_ensures(timestamp_from_seconds, (seconds,), timestamp),
        call_ensures(timestamp_from_elapsed, (elapsed,), stamped),
    ensures
        seconds <= i64::MAX ==> timestamp == seconds,
        stamped is Some <==> elapsed is Some,
        elapsed is Some && elapsed->0 <= i64::MAX ==> stamped is Some && stamped->0 == elapsed->0,
{
}

/// The configuration that was read is used; the standard one where none could be read.
pub proof fn law_call_load(read: Result<Config, String>, config: Config)
    requires
        call_ensures(Config::load, (read,), config),
    ensures
        read matches Ok(c) ==> {
            &&& config.server.grpc_listen_address@ == c.server.grpc_listen_address@
            &&& config.server.grpc_listen_port == c.server.grpc_listen_port
            &&& config.logging.file_enabled == c.logging.file_enabled
            &&& config.logging.directory@ == c.logging.directory@
            &&& config.logging.file_prefix@ == c.logging.file_prefix@
            &&& config.logging.max_file_size == c.logging.max_file_size
            &&& config.logging.max_log_files == c.logging.max_log_files
        },
        read is Err ==> config.server.grpc_listen_address@ == "[::]"@
            && config.server.grpc_listen_port == 50051,
{
}

/// The loss rate, taken as a ratio, times the number of received packets is the number of lost
/// packets.
pub proof fn law_call_packet_loss_rate(stats: TrafficStatsSnapshot, rate: PacketLossRate)
    requires
        call_ensures(TrafficStatsSnapshot::packet_loss_rate, (&stats,), rate),
    ensures
        rate is Zero <==> stats.packets_received == 0,
        rate matches PacketLossRate::Percent { lost, received } ==> received > 0 && lost
            * stats.packets_received == stats.packets_lost * received,
{
}

/// A new session holds what it was given, and reports its creation.
pub proof fn law_call_new_session(
    id: String,
    config: SessionConfig,
    transport: TransportType,
    created_at: i64,
    r: (Session, SessionEvent),
)
    requires
        call_ensures(Session::new, (id, config, transport, created_at), r),
    ensures
        r.0@.id == id@,
        r.0@.config == config@,
        r.0@.transport == transport,
        r.0@.created_at == created_at,
        r.0@.state == SessionState::Connecting,
        r.1 matches SessionEvent::Created { session_id, timestamp } && session_id@ == id@
            && timestamp == created_at,
{
}

/// What a session tells of itself is what it holds.
pub proof fn law_call_getters(
    s: Session,
    id: &String,
    state: SessionState,
    created_at: i64,
    last_activity: i64,
    message: Option<String>,
    stats: TrafficStatsSnapshot,
    info: SessionInfo,
)
    requires
        call_ensures(Session::id, (&s,), id),
        call_ensures(Session::get_state, (&s,), state),
        call_ensures(Session::created_at, (&s,), created_at),
        call_ensures(Session::get_last_activity, (&s,), last_activity),
        call_ensures(Session::get_error_message, (&s,), message),
        call_ensures(Session::get_stats_snapshot, (&s,), stats),
        call_ensures(Session::info, (&s,), info),
    ensures
        id@ == s@.id && info.session_id@ == s@.id,
        state == s@.state && info.state == s@.state,
        created_at == s@.created_at && info.created_at == s@.created_at,
        last_activity == s@.last_activity && info.last_activity == s@.last_activity,
        message is Some <==> s@.error_message is Some,
        message matches Some(text) ==> text@ == s@.error_message->0,
        info.error_message is Some <==> s@.error_message is Some,
        info.error_message matches Some(text) ==> text@ == s@.error_message->0,
        stats == s@.stats && info.stats == s@.stats,
        info.config@ == s@.config,
{
}

/// A statistics report has the session's id, its counters and the time of the report.
pub proof fn law_call_stats_update(s: Session, now: i64, event: SessionEvent)
    requires
        call_ensures(Session::stats_update, (&s, now), event),
    ensures
        event matches SessionEvent::StatsUpdate { session_id, stats, timestamp } && session_id@
            == s@.id && stats == s@.stats && timestamp == now,
{
}

/// The tasks between UDP sockets need a UDP transport; the RTCP task also needs a port for RTCP
/// at the destination. Each has its own sockets and its own target.
pub proof fn law_call_udp_tasks(
    s: Session,
    rtcp: Result<UdpForwarding, ProxyError>,
    reverse_rtp: Result<UdpForwarding, ProxyError>,
    reverse_rtcp: Result<UdpForwarding, ProxyError>,
)
    requires
        call_ensures(Session::start_rtcp_forwarding, (&s,), rtcp),
        call_ensures(Session::start_reverse_rtp_forwarding, (&s,), reverse_rtp),
        call_ensures(Session::start_reverse_rtcp_forwarding, (&s,), reverse_rtcp),
    ensures
        reverse_rtp is Ok <==> s@.transport == TransportType::Udp,
        reverse_rtcp is Ok <==> s@.transport == TransportType::Udp,
        rtcp is Ok <==> s@.transport == TransportType::Udp && s@.config.destination_addr.port
            < 65535,
        rtcp matches Ok(task) ==> {
            &&& task.recv_socket == SocketRole::RtcpListen
            &&& task.send_socket == SocketRole::RtcpForward
            &&& task.target matches ForwardTarget::Fixed(to) && to.ip@
                == s@.config.destination_addr.ip && to.port == s@.config.destination_addr.port + 1
            &&& !task.counts_traffic && !task.counts_activity && task.learns_rtcp_client
        },
        reverse_rtp matches Ok(task) ==> {
            &&& task.recv_socket == SocketRole::RtpForward
            &&& task.send_socket == SocketRole::RtpListen
            &&& task.target is Client
            &&& task.counts_traffic && task.counts_activity && !task.learns_rtcp_client
        },
        reverse_rtcp matches Ok(task) ==> {
            &&& task.recv_socket == SocketRole::RtcpForward
            &&& task.send_socket == SocketRole::RtcpListen
            &&& task.target is RtcpClient
            &&& !task.counts_traffic && !task.counts_activity && !task.learns_rtcp_client
        },
{
}

/// The configuration of a session is, field by field, what the request asks for.
pub proof fn law_call_session_config(
    request: CreateSessionRequest,
    parsed: ParsedEndpoints,
    r: Result<SessionConfig, Status>,
)
    requires
        call_ensures(session_config, (&request, parsed), r),
    ensures
        r is Ok <==> parsed.listen is Ok && parsed.forward is Ok && parsed.destination is Ok && (
        request.protocol == 1 || request.protocol == 2),
        r matches Ok(config) ==> {
            &&& config.listen_addr@ == parsed.listen->Ok_0@
            &&& config.forward_addr@ == parsed.forward->Ok_0@
            &&& config.destination_addr@ == parsed.destination->Ok_0@
            &&& config.protocol == TransportType::Udp <==> request.protocol == 1
            &&& config.timeout_seconds == request.timeout_seconds
            &&& config.stats_interval_seconds == request.stats_interval_seconds
        },
        r matches Err(refusal) ==> refusal.code == Code::InvalidArgument,
{
}

/// A session is shown with what is known of it.
pub proof fn law_call_convert_session_info(info: SessionInfo, shown: ProtoSessionInfo)
    requires
        call_ensures(convert_session_info_to_proto, (info,), shown),
    ensures
        shown.session_id@ == info.session_id@,
        shown.created_at == info.created_at,
        shown.last_activity_at == info.last_activity,
        shown.stats is Some,
        shown.stats->0.packets_received == info.stats.packets_received,
        shown.stats->0.bytes_received == info.stats.bytes_received,
        shown.stats->0.packets_sent == info.stats.packets_sent,
        shown.stats->0.bytes_sent == info.stats.bytes_sent,
        shown.stats->0.packets_lost == info.stats.packets_lost,
        shown.protocol == (match info.config.protocol {
            TransportType::Udp => 1i32,
            TransportType::Tcp => 2i32,
        }),
        info.error_message matches Some(text) ==> shown.error_message@ == text@,
{
}

/// Every event is shown, at its time; a change of state with the state that was changed to.
pub proof fn law_call_convert_event(event: SessionEvent, shown: Option<ProtoSessionEvent>)
    requires
        call_ensures(convert_event_to_proto, (event,), shown),
    ensures
        shown is Some,
        event matches SessionEvent::StateChanged { session_id, old_state, new_state, timestamp }
            ==> {
            &&& shown->0.timestamp == timestamp
            &&& shown->0.description@ == "Session "@ + session_id@ + " state changed to "@ + (
            match new_state {
                SessionState::Connecting => "Connecting"@,
                SessionState::Active => "Active"@,
                SessionState::Error => "Error"@,
                SessionState::Closed => "Closed"@,
            })
        },
        event matches SessionEvent::Error { session_id, error, timestamp } ==> {
            &&& shown->0.timestamp == timestamp
            &&& shown->0.description@ == "Session "@ + session_id@ + " error: "@ + error@
        },
        event matches SessionEvent::StatsUpdate { session_id, stats, timestamp } ==> {
            &&& shown->0.timestamp == timestamp
            &&& shown->0.session is Some
            &&& shown->0.session->0.session_id@ == session_id@
            &&& shown->0.session->0.stats is Some
            &&& shown->0.session->0.stats->0.packets_received == stats.packets_received
            &&& shown->0.session->0.stats->0.bytes_received == stats.bytes_received
            &&& shown->0.session->0.stats->0.packets_sent == stats.packets_sent
            &&& shown->0.session->0.stats->0.bytes_sent == stats.bytes_sent
            &&& shown->0.session->0.stats->0.packets_lost == stats.packets_lost
        },
{
}

/// The reply to a creation names the session and the time of its creation.
pub proof fn law_call_create_session_reply(
    result: Result<Registered, ProxyError>,
    r: Result<CreateSessionResponse, Status>,
)
    requires
        call_ensures(create_session_reply, (result,), r),
    ensures
        result matches Ok(registered) ==> r is Ok && r->Ok_0.session_id@
            == registered.session_id@ && r->Ok_0.created_at == registered.created_at,
        result is Err ==> r is Err,
{
}

/// A stream is for the sessions that its request names, or for all where it names none.
pub proof fn law_call_event_filter(
    request: StreamSessionEventsRequest,
    filter: Option<Vec<String>>,
)
    requires
        call_ensures(event_filter, (request,), filter),
    ensures
        filter is None <==> request.session_ids@.len() == 0,
        filter matches Some(ids) ==> ids@.len() == request.session_ids@.len() && forall|i: int|
            0 <= i < ids@.len() ==> (#[trigger] ids@[i])@ == request.session_ids@[i]@,
{
    if let Some(ids) = filter {
        let named = crate::model::seq_view(request.session_ids@);
        let kept = crate::model::seq_view(ids@);
        assert(kept == named);
        assert forall|i: int| 0 <= i < ids@.len() implies (#[trigger] ids@[i])@
            == request.session_ids@[i]@ by {
            assert(kept[i] == named[i]);
        }
    }
}

/// A creation begins where the id is free, with what it was given, and is refused otherwise.
pub proof fn law_call_create_session(
    m: SessionManager,
    id: String,
    config: SessionConfig,
    now: i64,
    r: Result<SessionSetup, ProxyError>,
)
    requires
        call_ensures(SessionManager::create_session, (&m, id, config, now), r),
    ensures
        r is Ok <==> !m@.registered.contains_key(id@),
        r matches Ok(setup) ==> setup@.session_id == id@ && setup@.config == config@
            && setup@.created_at == now,
        r matches Err(e) ==> e@ == ProxyErrorView::SessionExists(id@),
{
}

/// The session to be destroyed is the one that is registered under the id.
pub proof fn law_call_destroy_session(
    m: SessionManager,
    id: &str,
    r: Result<usize, ProxyError>,
    service: RtpProxyService,
    request: DestroySessionRequest,
    answer: Result<usize, Status>,
)
    requires
        call_ensures(SessionManager::destroy_session, (&m, id), r),
        call_ensures(RtpProxyService::destroy_session, (&service, &request), answer),
    ensures
        r is Ok <==> m@.registered.contains_key(id@),
        r matches Ok(place) ==> place == m@.registered[id@],
        r matches Err(e) ==> e@ == ProxyErrorView::SessionNotFound(id@),
        answer is Ok <==> service@.registered.contains_key(request.session_id@),
        answer matches Ok(place) ==> place == service@.registered[request.session_id@],
        answer matches Err(refusal) ==> refusal.code == Code::NotFound && refusal.message@
            == "Session "@ + request.session_id@ + " not found"@,
{
}

/// A list counts the sessions that it shows, and shows exactly the registered sessions that are
/// in the asked state, each with what it holds.
pub proof fn law_call_list_sessions(
    service: RtpProxyService,
    request: ListSessionsRequest,
    r: Result<ListSessionsResponse, Status>,
    id: Seq<char>,
)
    requires
        service@.wf(),
        call_ensures(RtpProxyService::list_sessions, (&service, &request), r),
    ensures
        r is Ok,
        r->Ok_0.sessions@.len() <= u32::MAX ==> r->Ok_0.total_count == r->Ok_0.sessions@.len(),
        (exists|i: int|
            0 <= i < r->Ok_0.sessions@.len() && (#[trigger] r->Ok_0.sessions@[i]).session_id@ == id)
            <==> service@.registered.contains_key(id) && (match list_filter(request.state_filter) {
            Some(state) => service@.places[service@.registered[id] as int]->0@.state == state,
            None => true,
        }),
        forall|i: int| #![trigger r->Ok_0.sessions@[i]]
            0 <= i < r->Ok_0.sessions@.len() ==> {
                let shown = r->Ok_0.sessions@[i];
                let s = service@.places[service@.registered[shown.session_id@] as int]->0@;
                &&& shown.created_at == s.created_at
                &&& shown.last_activity_at == s.last_activity
                &&& shown.stats is Some
                &&& shown.stats->0.packets_received == s.stats.packets_received
                &&& shown.stats->0.bytes_received == s.stats.bytes_received
                &&& shown.stats->0.packets_sent == s.stats.packets_sent
                &&& shown.stats->0.bytes_sent == s.stats.bytes_sent
                &&& shown.stats->0.packets_lost == s.stats.packets_lost
            },
{
    let response = r->Ok_0;
    let filter = list_filter(request.state_filter);
    assert forall|i: int| 0 <= i < response.sessions@.len() implies (
    #[trigger] response.sessions@[i])@ == response@.sessions[i] by {}
    assert(exists|infos: Seq<SessionInfoView>| #[trigger]
        service@.lists(infos, filter) && shows_all(response@.sessions, infos));
    let infos = choose|infos: Seq<SessionInfoView>| #[trigger]
        service@.lists(infos, filter) && shows_all(response@.sessions, infos);
    law_list_shows_what_the_sessions_hold(service@, infos, filter, id);
    if exists|i: int| 0 <= i < infos.len() && (#[trigger] infos[i]).session_id == id {
        let i = choose|i: int| 0 <= i < infos.len() && (#[trigger] infos[i]).session_id == id;
        assert(response@.sessions[i].session_id == id);
        assert(response.sessions@[i].session_id@ == id);
    }
    if exists|i: int|
        0 <= i < response.sessions@.len() && (#[trigger] response.sessions@[i]).session_id@ == id {
        let i = choose|i: int|
            0 <= i < response.sessions@.len() && (#[trigger] response.sessions@[i]).session_id@
                == id;
        assert(response@.sessions[i].session_id == id);
        assert(infos[i].session_id == id);
    }
    assert forall|i: int| #![trigger response.sessions@[i]]
        0 <= i < response.sessions@.len() implies response.sessions@[i]@ == response@.sessions[i]
        && response@.sessions[i].session_id == infos[i].session_id by {}
}

} // verus!

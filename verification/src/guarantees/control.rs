//! The control interface: how requests are read, and what replies and events show.

use vstd::prelude::*;

use super::text::{law_decimal_can_be_read_back, value_of};
use crate::addr::SocketAddrView;
use crate::error::ProxyErrorView;
use crate::grpc_server::{
    addr_endpoint, create_refusal, create_reply, create_session_result, destroy_refusal,
    destroy_reply, endpoint_result, endpoint_text_of, event_proto, list_filter,
    session_info_proto, shown_event, stats_proto, status_reply, ParsedEndpointsView,
};
use crate::properties::{after_all, traffic_of, Happening};
use crate::proto::{
    spec_state_from_number, Code, CreateSessionRequestView, EndpointView, Protocol,
    SessionEventType, StatusView,
};
use crate::session::{
    PacketLossRate, RegisteredView, SessionEventView, SessionInfoView, SessionManagerView, SessionState, SessionView, StartActionView, TrafficStatsSnapshot,
};
use crate::text::decimal;
use crate::transport::TransportType;

verus! {

/// The text of an endpoint gives its address and its port back: they stand before and behind a
/// colon.
pub proof fn law_endpoint_text_holds_address_and_port(endpoint: EndpointView)
    ensures
        ({
            let text = endpoint_text_of(endpoint);
            let n = endpoint.address.len() as int;
            &&& text.len() > n + 1
            &&& text.take(n) == endpoint.address
            &&& text[n] == ':'
            &&& value_of(text.skip(n + 1)) == endpoint.port
        }),
{
    reveal_strlit(":");
    let port = decimal(endpoint.port as nat);
    let text = endpoint_text_of(endpoint);
    law_decimal_can_be_read_back(endpoint.port as nat);
    assert(text.take(endpoint.address.len() as int) =~= endpoint.address);
    assert(text.skip(endpoint.address.len() as int + 1) =~= port);
}

/// An endpoint that could be read is taken as it was read; any other is refused with the cause.
pub proof fn law_read_endpoint(addr: SocketAddrView, cause: Seq<char>)
    ensures
        endpoint_result(Ok(addr)) == Ok::<SocketAddrView, StatusView>(addr),
        endpoint_result(Err(cause)) is Err,
        endpoint_result(Err(cause))->Err_0.code == Code::InvalidArgument,
        endpoint_result(Err(cause))->Err_0.message == "Invalid endpoint address: "@ + cause,
{
}

/// A request has to have an id and its three endpoints. What is missing first is named; where
/// nothing is missing, the texts are those of the endpoints.
pub proof fn law_incomplete_request_is_refused(request: CreateSessionRequestView)
    ensures
        ({
            let r = request.endpoint_texts();
            let named = request.session_id.len() > 0;
            &&& r is Ok <==> named && request.listen_endpoint is Some && request.forward_endpoint
                is Some && request.destination_endpoint is Some
            &&& r is Ok ==> {
                &&& r->Ok_0.listen == endpoint_text_of(request.listen_endpoint->0)
                &&& r->Ok_0.forward == endpoint_text_of(request.forward_endpoint->0)
                &&& r->Ok_0.destination == endpoint_text_of(request.destination_endpoint->0)
            }
            &&& r is Err ==> r->Err_0.code == Code::InvalidArgument
            &&& r is Err ==> r->Err_0.message == (if !named {
                "session_id is required and cannot be empty"@
            } else if request.listen_endpoint is None {
                "listen_endpoint is required"@
            } else if request.forward_endpoint is None {
                "forward_endpoint is required"@
            } else {
                "destination_endpoint is required"@
            })
        }),
{
}

/// The configuration of a session is, field by field, what the request asks for: its endpoints
/// as they were read, its protocol, its timeout and its statistics interval.
pub proof fn law_configuration_is_what_was_requested(
    request: CreateSessionRequestView,
    parsed: ParsedEndpointsView,
)
    ensures
        request.config(parsed) is Ok <==> parsed.listen is Ok && parsed.forward is Ok
            && parsed.destination is Ok && (request.protocol == 1 || request.protocol == 2),
        request.config(parsed) matches Ok(config) ==> {
            &&& config.listen_addr == parsed.listen->Ok_0
            &&& config.forward_addr == parsed.forward->Ok_0
            &&& config.destination_addr == parsed.destination->Ok_0
            &&& config.protocol == TransportType::Udp <==> request.protocol == 1
            &&& config.protocol == TransportType::Tcp <==> request.protocol == 2
            &&& config.timeout_seconds == request.timeout_seconds
            &&& config.stats_interval_seconds == request.stats_interval_seconds
        },
{
}

/// A request that is refused for its endpoints or its protocol is refused for the first of the
/// three endpoints that could not be read, and otherwise for the protocol.
pub proof fn law_unusable_request_is_refused(
    request: CreateSessionRequestView,
    parsed: ParsedEndpointsView,
)
    ensures
        request.config(parsed) matches Err(refusal) ==> {
            &&& refusal.code == Code::InvalidArgument
            &&& refusal.message == (match (parsed.listen, parsed.forward, parsed.destination) {
                (Err(cause), _, _) => "Invalid endpoint address: "@ + cause,
                (_, Err(cause), _) => "Invalid endpoint address: "@ + cause,
                (_, _, Err(cause)) => "Invalid endpoint address: "@ + cause,
                _ => "Invalid or unsupported protocol"@,
            })
        },
{
}

/// What begins with a request is the creation of a session with the request's id and what else
/// it asks for, at the time of the request.
pub proof fn law_requested_session_is_created(
    m: SessionManagerView,
    request: CreateSessionRequestView,
    parsed: ParsedEndpointsView,
    now: i64,
)
    ensures
        create_session_result(m, request, parsed, now) matches Ok(setup) ==> {
            &&& !m.registered.contains_key(request.session_id)
            &&& setup.session_id == request.session_id
            &&& setup.created_at == now
            &&& setup.config.listen_addr == parsed.listen->Ok_0
            &&& setup.config.forward_addr == parsed.forward->Ok_0
            &&& setup.config.destination_addr == parsed.destination->Ok_0
            &&& setup.config.timeout_seconds == request.timeout_seconds
            &&& setup.config.stats_interval_seconds == request.stats_interval_seconds
            &&& setup.config.protocol == TransportType::Udp <==> request.protocol == 1
            &&& setup.transport.bind_addr() == parsed.listen->Ok_0
        },
{
}

/// A request that begins no creation is refused for the first thing that is wrong with it: what
/// is missing, what cannot be used, and then that the id is taken.
pub proof fn law_refused_request(
    m: SessionManagerView,
    request: CreateSessionRequestView,
    parsed: ParsedEndpointsView,
    now: i64,
)
    ensures
        create_session_result(m, request, parsed, now) matches Err(refusal) ==> {
            let texts = request.endpoint_texts();
            let config = request.config(parsed);
            if texts is Err {
                refusal == texts->Err_0
            } else if config is Err {
                refusal == config->Err_0
            } else {
                &&& m.registered.contains_key(request.session_id)
                &&& refusal.code == Code::AlreadyExists
                &&& refusal.message == "Session "@ + request.session_id + " already exists"@
            }
        },
{
}

/// A session that was created from a request reports statistics exactly where the request asks
/// for it, at the interval of the request.
pub proof fn law_reports_are_those_that_were_requested(
    m: SessionManagerView,
    request: CreateSessionRequestView,
    parsed: ParsedEndpointsView,
    now: i64,
    n: u32,
)
    requires
        create_session_result(m, request, parsed, now) is Ok,
        parsed.destination->Ok_0.port < 65535,
    ensures
        ({
            let setup = create_session_result(m, request, parsed, now)->Ok_0;
            let s = SessionView::fresh(
                setup.session_id,
                setup.config,
                setup.config.protocol,
                setup.created_at,
            );
            &&& s.start_actions() is Ok
            &&& s.start_actions()->Ok_0.contains(
                StartActionView::ReportStats { interval_seconds: n },
            ) <==> n == request.stats_interval_seconds && n > 0
        }),
{
    let setup = create_session_result(m, request, parsed, now)->Ok_0;
    let s = SessionView::fresh(
        setup.session_id,
        setup.config,
        setup.config.protocol,
        setup.created_at,
    );
    let actions = s.start_actions()->Ok_0;
    if request.stats_interval_seconds > 0 {
        assert(actions.last() == StartActionView::ReportStats {
            interval_seconds: request.stats_interval_seconds,
        });
    }
}

/// A session that could not be created is refused with the cause: as already there where its id
/// is taken, and as an internal error otherwise.
pub proof fn law_failed_creation_is_refused(id: Seq<char>, e: ProxyErrorView)
    ensures
        create_refusal(ProxyErrorView::SessionExists(id)).code == Code::AlreadyExists,
        create_refusal(ProxyErrorView::SessionExists(id)).message == "Session "@ + id
            + " already exists"@,
        !(e is SessionExists) ==> create_refusal(e).code == Code::Internal,
        !(e is SessionExists) ==> create_refusal(e).message == "Failed to create session: "@
            + e.text(),
        create_reply(Err(e)) is Err && create_reply(Err(e))->Err_0 == create_refusal(e),
{
}

/// The reply to a creation names the session and the time of its creation.
pub proof fn law_creation_is_answered(registered: RegisteredView)
    ensures
        create_reply(Ok(registered)) matches Ok(reply) && reply.session_id
            == registered.session_id && reply.created_at == registered.created_at,
{
}

/// A destruction is answered with success, or refused with the cause: as not found where there
/// is no such session, and as an internal error otherwise.
pub proof fn law_destruction_is_answered(id: Seq<char>, e: ProxyErrorView)
    ensures
        destroy_reply(Ok(())) matches Ok(reply) && reply.success && reply.message
            == "Session destroyed successfully"@,
        destroy_reply(Err(e)) is Err && destroy_reply(Err(e))->Err_0 == destroy_refusal(e),
        destroy_refusal(ProxyErrorView::SessionNotFound(id)).code == Code::NotFound,
        destroy_refusal(ProxyErrorView::SessionNotFound(id)).message == "Session "@ + id
            + " not found"@,
        !(e is SessionNotFound) ==> destroy_refusal(e).code == Code::Internal,
        !(e is SessionNotFound) ==> destroy_refusal(e).message == "Failed to destroy session: "@
            + e.text(),
{
}

/// Whether the shown counters are those of a session.
pub open spec fn shows_counters(
    shown: crate::proto::ProtoTrafficStats,
    stats: TrafficStatsSnapshot,
) -> bool {
    &&& shown.packets_received == stats.packets_received
    &&& shown.bytes_received == stats.bytes_received
    &&& shown.packets_sent == stats.packets_sent
    &&& shown.bytes_sent == stats.bytes_sent
    &&& shown.packets_lost == stats.packets_lost
    &&& shown.packet_loss_rate is Zero <==> stats.packets_received == 0
    &&& shown.packet_loss_rate matches PacketLossRate::Percent { lost, received } ==> received > 0
        && lost * stats.packets_received == stats.packets_lost * received
}

/// Counters are shown as they are, with the loss rate that they give.
pub proof fn law_counters_are_shown(stats: TrafficStatsSnapshot)
    ensures
        shows_counters(stats_proto(stats), stats),
{
}

/// An address is shown with its own address and port.
pub proof fn law_address_is_shown(addr: SocketAddrView)
    ensures
        addr_endpoint(addr).address == addr.ip,
        addr_endpoint(addr).port == addr.port,
{
}

/// A session is shown with its own id, state, endpoints, protocol, times, counters and error.
pub proof fn law_session_is_shown(info: SessionInfoView)
    ensures
        ({
            let shown = session_info_proto(info);
            &&& shown.session_id == info.session_id
            &&& shown.state == (match info.state {
                SessionState::Connecting => 1i32,
                SessionState::Active => 2i32,
                SessionState::Error => 3i32,
                SessionState::Closed => 4i32,
            })
            &&& shown.listen_endpoint is Some
            &&& shown.listen_endpoint->0.address == info.config.listen_addr.ip
            &&& shown.listen_endpoint->0.port == info.config.listen_addr.port
            &&& shown.forward_endpoint is Some
            &&& shown.forward_endpoint->0.address == info.config.forward_addr.ip
            &&& shown.forward_endpoint->0.port == info.config.forward_addr.port
            &&& shown.destination_endpoint is Some
            &&& shown.destination_endpoint->0.address == info.config.destination_addr.ip
            &&& shown.destination_endpoint->0.port == info.config.destination_addr.port
            &&& shown.protocol == (match info.config.protocol {
                TransportType::Udp => 1i32,
                TransportType::Tcp => 2i32,
            })
            &&& shown.created_at == info.created_at
            &&& shown.last_activity_at == info.last_activity
            &&& shown.stats is Some
            &&& shows_counters(shown.stats->0, info.stats)
            &&& info.error_message matches Some(message) ==> shown.error_message == message
            &&& info.error_message is None ==> shown.error_message.len() == 0
        }),
{
}

/// The status of a session is the session as it is shown; where there is none, the request is
/// refused as not found.
pub proof fn law_status_is_answered(info: SessionInfoView, id: Seq<char>, e: ProxyErrorView)
    ensures
        status_reply(Ok(info)) matches Ok(reply) && reply.session == Some(
            session_info_proto(info),
        ),
        status_reply(Err(ProxyErrorView::SessionNotFound(id))) matches Err(refusal)
            && refusal.code == Code::NotFound && refusal.message == "Session "@ + id
            + " not found"@,
        !(e is SessionNotFound) ==> (status_reply(Err(e)) matches Err(refusal) && refusal.code
            == Code::Internal && refusal.message == "Failed to get session status: "@ + e.text()),
{
}

/// The status of a session shows, at any moment of its history, the packets and bytes that were
/// received, sent and lost so far, and when it was last active, as long as no counter passes the
/// largest 64-bit number.
pub proof fn law_status_shows_the_traffic_so_far(s: SessionView, history: Seq<Happening>)
    requires
        traffic_of(s, history).fits(s.stats),
    ensures
        ({
            let later = after_all(s, history);
            let reply = status_reply(Ok(later.info()));
            let shown = reply->Ok_0.session->0;
            let counters = shown.stats->0;
            let traffic = traffic_of(s, history);
            &&& reply is Ok && reply->Ok_0.session is Some && shown.stats is Some
            &&& shown.session_id == s.id
            &&& shown.created_at == s.created_at
            &&& shown.last_activity_at == later.last_activity
            &&& counters.packets_received == s.stats.packets_received + traffic.packets_received
            &&& counters.bytes_received == s.stats.bytes_received + traffic.bytes_received
            &&& counters.packets_sent == s.stats.packets_sent + traffic.packets_sent
            &&& counters.bytes_sent == s.stats.bytes_sent + traffic.bytes_sent
            &&& counters.packets_lost == s.stats.packets_lost + traffic.packets_lost
        }),
{
    crate::properties::law_counters_show_the_traffic(s, history);
    lemma_identity(s, history);
}

proof fn lemma_identity(s: SessionView, history: Seq<Happening>)
    ensures
        after_all(s, history).id == s.id,
        after_all(s, history).created_at == s.created_at,
    decreases history.len(),
{
    if history.len() > 0 {
        lemma_identity(s, history.drop_last());
    }
}

/// The name under which a state is shown.
pub open spec fn shown_name(state: SessionState) -> Seq<char> {
    match state {
        SessionState::Connecting => "Connecting"@,
        SessionState::Active => "Active"@,
        SessionState::Error => "Error"@,
        SessionState::Closed => "Closed"@,
    }
}

/// A change of state is shown with the session and the state that was changed to, at its time.
pub proof fn law_change_of_state_is_shown(
    id: Seq<char>,
    old_state: SessionState,
    new_state: SessionState,
    timestamp: i64,
)
    ensures
        ({
            let shown = event_proto(
                SessionEventView::StateChanged { session_id: id, old_state, new_state, timestamp },
            );
            let name = shown_name(new_state);
            &&& shown.event_type == 2
            &&& shown.timestamp == timestamp
            &&& shown.session is None
            &&& shown.description == "Session "@ + id + " state changed to "@ + name
            &&& shown.description.len() >= name.len()
            &&& shown.description.skip(shown.description.len() - name.len()) == name
        }),
{
    let name = shown_name(new_state);
    let text = "Session "@ + id + " state changed to "@ + name;
    assert(text.skip(text.len() - name.len()) =~= name);
}

/// Changes to different states are shown differently.
pub proof fn law_changes_to_different_states_look_different(
    id: Seq<char>,
    old_state: SessionState,
    a: SessionState,
    b: SessionState,
    timestamp: i64,
)
    requires
        a != b,
    ensures
        event_proto(
            SessionEventView::StateChanged { session_id: id, old_state, new_state: a, timestamp },
        ).description != event_proto(
            SessionEventView::StateChanged { session_id: id, old_state, new_state: b, timestamp },
        ).description,
{
    reveal_strlit("Connecting");
    reveal_strlit("Active");
    reveal_strlit("Error");
    reveal_strlit("Closed");
    let head = "Session "@ + id + " state changed to "@;
    let x = head + shown_name(a);
    let y = head + shown_name(b);
    assert(x.skip(head.len() as int) =~= shown_name(a));
    assert(y.skip(head.len() as int) =~= shown_name(b));
    assert(shown_name(a)[1] != shown_name(b)[1]);
}

/// A creation, an error and an end are shown with the session they are about, at their time; the
/// error with its message.
pub proof fn law_events_are_shown(id: Seq<char>, error: Seq<char>, timestamp: i64)
    ensures
        ({
            let created = event_proto(SessionEventView::Created { session_id: id, timestamp });
            let failed = event_proto(
                SessionEventView::Error { session_id: id, error, timestamp },
            );
            let closed = event_proto(SessionEventView::Closed { session_id: id, timestamp });
            &&& created.event_type == 1 && failed.event_type == 4 && closed.event_type == 5
            &&& created.timestamp == timestamp && failed.timestamp == timestamp
                && closed.timestamp == timestamp
            &&& created.session is None && failed.session is None && closed.session is None
            &&& created.description == "Session "@ + id + " created"@
            &&& failed.description == "Session "@ + id + " error: "@ + error
            &&& closed.description == "Session "@ + id + " closed"@
        }),
{
}

/// A statistics report is shown with the session and its counters at the time of the report.
pub proof fn law_statistics_are_shown(
    id: Seq<char>,
    stats: TrafficStatsSnapshot,
    timestamp: i64,
)
    ensures
        ({
            let shown = event_proto(
                SessionEventView::StatsUpdate { session_id: id, stats, timestamp },
            );
            let session = shown.session->0;
            &&& shown.event_type == 3
            &&& shown.timestamp == timestamp
            &&& shown.description == "Session "@ + id + " statistics updated"@
            &&& shown.session is Some
            &&& session.session_id == id
            &&& session.state == 2 && session.protocol == 1
            &&& session.listen_endpoint is None && session.forward_endpoint is None
            &&& session.destination_endpoint is None
            &&& session.created_at == 0 && session.last_activity_at == timestamp
            &&& session.error_message.len() == 0
            &&& session.stats is Some
            &&& shows_counters(session.stats->0, stats)
        }),
{
}

/// A stream for named sessions shows an event exactly where its session is one of them, and a
/// stream for all shows every event.
pub proof fn law_event_of_a_named_session_is_shown(
    ids: Seq<Seq<char>>,
    event: SessionEventView,
)
    ensures
        shown_event(None, event) == Some(event_proto(event)),
        shown_event(Some(ids), event) is Some <==> exists|i: int|
            0 <= i < ids.len() && (#[trigger] ids[i]) == event.session_id(),
        shown_event(Some(ids), event) matches Some(shown) ==> shown == event_proto(event),
{
}

/// The filter of a list is the state whose number the request has; no number, and a number that
/// stands for no state, filter nothing.
pub proof fn law_list_filter(number: i32)
    ensures
        list_filter(None) is None,
        list_filter(Some(number)) == (if number == 1 {
            Some(SessionState::Connecting)
        } else if number == 2 {
            Some(SessionState::Active)
        } else if number == 3 {
            Some(SessionState::Error)
        } else if number == 4 {
            Some(SessionState::Closed)
        } else {
            None
        }),
        spec_state_from_number(number) == list_filter(Some(number)),
{
}

/// The numbers of states, protocols and events are distinct, and each number stands for what has
/// it.
pub proof fn law_numbers(number: i32, protocol: Protocol, kind: SessionEventType)
    ensures
        Protocol::spec_from_number(number) == Some(protocol) <==> number == protocol.spec_number(),
        Protocol::spec_from_number(number) is Some <==> 0 <= number <= 2,
        Protocol::spec_of(TransportType::Udp).spec_number() == 1,
        Protocol::spec_of(TransportType::Tcp).spec_number() == 2,
        1 <= kind.spec_number() <= 5,
{
}

/// A refusal has its own kind and the message that it was given.
pub proof fn law_refusals(message: Seq<char>)
    ensures
        StatusView::invalid_argument(message).code == Code::InvalidArgument,
        StatusView::not_found(message).code == Code::NotFound,
        StatusView::already_exists(message).code == Code::AlreadyExists,
        StatusView::internal(message).code == Code::Internal,
        StatusView::invalid_argument(message).message == message,
        StatusView::not_found(message).message == message,
        StatusView::already_exists(message).message == message,
        StatusView::internal(message).message == message,
{
}

} // verus!

use rtpproxy::addr::SocketAddr;
use rtpproxy::error::ProxyError;
use rtpproxy::grpc_server::{
    convert_event_to_proto, create_session_reply, destroy_session_reply, endpoint_text,
    endpoint_texts, event_filter, parse_endpoint, stream_event, ParsedEndpoints, RtpProxyService,
};
use rtpproxy::proto::{
    state_from_number, Code, CreateSessionRequest, DestroySessionRequest, Endpoint,
    GetSessionStatusRequest, ListSessionsRequest, Protocol, ProtoSessionInfo, SessionEventType,
    Status, StreamSessionEventsRequest,
};
use rtpproxy::session::{
    CreationStep, Destroyed, PacketLossRate, Registered, SessionEvent, SessionManager, SessionSetup,
    SessionState, TrafficStatsSnapshot,
};
use rtpproxy::transport::TransportType;

fn addr(ip: &str, port: u16) -> SocketAddr {
    SocketAddr { ip: ip.to_string(), flowinfo: 0, scope_id: 0, port }
}

fn endpoint(address: &str, port: u32) -> Option<Endpoint> {
    Some(Endpoint { address: address.to_string(), port })
}

fn request(id: &str, protocol: i32) -> CreateSessionRequest {
    CreateSessionRequest {
        session_id: id.to_string(),
        listen_endpoint: endpoint("0.0.0.0", 20000),
        forward_endpoint: endpoint("10.0.0.5", 20010),
        destination_endpoint: endpoint("192.168.1.100", 30000),
        protocol,
        timeout_seconds: 0,
        stats_interval_seconds: 5,
    }
}

fn parsed() -> ParsedEndpoints {
    ParsedEndpoints {
        listen: Ok(addr("0.0.0.0", 20000)),
        forward: Ok(addr("10.0.0.5", 20010)),
        destination: Ok(addr("192.168.1.100", 30000)),
    }
}

fn service() -> RtpProxyService {
    RtpProxyService::new(SessionManager::new())
}

fn begin(service: &RtpProxyService, id: &str, protocol: i32, now: i64) -> SessionSetup {
    service.create_session(request(id, protocol), parsed(), now).unwrap()
}

fn open(service: &mut RtpProxyService, setup: SessionSetup) -> usize {
    let mut setup = setup;
    loop {
        match service.session_manager().socket_bound(setup, Ok(())).unwrap() {
            CreationStep::Bind(next) => setup = next,
            CreationStep::Opened { place, .. } => return place,
        }
    }
}

fn create(service: &mut RtpProxyService, id: &str, protocol: i32, now: i64) -> usize {
    let setup = begin(service, id, protocol, now);
    let place = open(service, setup);
    service.session_manager().start_session(place, Ok(()), 100).unwrap();
    let registered = service.session_manager().session_started(place, Ok(())).unwrap();
    assert_eq!(registered.session_id, id);
    assert_eq!(registered.created_at, now);
    place
}

fn destroy(service: &mut RtpProxyService, id: &str, now: i64) -> Destroyed {
    let place = service
        .destroy_session(&DestroySessionRequest { session_id: id.to_string() })
        .unwrap();
    service.session_manager().session_stopped(id, place, Ok(()), now).unwrap()
}

fn status(service: &RtpProxyService, id: &str) -> Result<ProtoSessionInfo, Status> {
    service
        .get_session_status(&GetSessionStatusRequest { session_id: id.to_string() })
        .map(|response| response.session.unwrap())
}

fn listed(service: &RtpProxyService, state_filter: Option<i32>) -> Vec<String> {
    let response = service.list_sessions(&ListSessionsRequest { state_filter }).unwrap();
    assert_eq!(response.total_count as usize, response.sessions.len());
    let mut ids: Vec<String> = response.sessions.into_iter().map(|s| s.session_id).collect();
    ids.sort();
    ids
}

fn assert_refused<T>(r: Result<T, Status>, code: Code, message: &str) {
    match r {
        Ok(_) => panic!("expected a refusal"),
        Err(status) => {
            assert_eq!(status.code, code);
            assert_eq!(status.message, message);
        }
    }
}

#[test]
fn endpoints_as_text() {
    let e = Endpoint { address: "192.168.1.100".to_string(), port: 30000 };
    assert_eq!(endpoint_text(&e), "192.168.1.100:30000");
    let e = Endpoint { address: "[::1]".to_string(), port: 70000 };
    assert_eq!(endpoint_text(&e), "[::1]:70000");
    let texts = endpoint_texts(&request("a", 1)).unwrap();
    assert_eq!(texts.listen, "0.0.0.0:20000");
    assert_eq!(texts.forward, "10.0.0.5:20010");
    assert_eq!(texts.destination, "192.168.1.100:30000");
}

#[test]
fn endpoint_that_is_no_address() {
    assert_eq!(parse_endpoint(Ok(addr("10.0.0.1", 1))).unwrap().port, 1);
    assert_refused(
        parse_endpoint(Err("invalid socket address syntax".to_string())),
        Code::InvalidArgument,
        "Invalid endpoint address: invalid socket address syntax",
    );
}

#[test]
fn incomplete_requests_are_refused() {
    let refuse = |change: fn(&mut CreateSessionRequest), message: &str| {
        let mut r = request("a", 1);
        change(&mut r);
        assert_refused(endpoint_texts(&r), Code::InvalidArgument, message);
        assert_refused(service().create_session(r, parsed(), 1), Code::InvalidArgument, message);
    };
    refuse(|r| r.session_id = String::new(), "session_id is required and cannot be empty");
    refuse(|r| r.listen_endpoint = None, "listen_endpoint is required");
    refuse(|r| r.forward_endpoint = None, "forward_endpoint is required");
    refuse(|r| r.destination_endpoint = None, "destination_endpoint is required");
    refuse(
        |r| {
            r.session_id = String::new();
            r.listen_endpoint = None;
        },
        "session_id is required and cannot be empty",
    );
}

#[test]
fn unreadable_endpoints_are_refused_in_order() {
    let mut endpoints = parsed();
    endpoints.forward = Err("forward".to_string());
    endpoints.destination = Err("destination".to_string());
    assert_refused(
        service().create_session(request("a", 9), endpoints, 1),
        Code::InvalidArgument,
        "Invalid endpoint address: forward",
    );
}

#[test]
fn unknown_protocols_are_refused() {
    for protocol in [0, 3, -1] {
        assert_refused(
            service().create_session(request("a", protocol), parsed(), 1),
            Code::InvalidArgument,
            "Invalid or unsupported protocol",
        );
    }
}

#[test]
fn status_shows_what_was_requested() {
    let mut service = service();
    create(&mut service, "call-1", 1, 1234567890);
    let shown = status(&service, "call-1").unwrap();
    assert_eq!(shown.session_id, "call-1");
    assert_eq!(shown.state, 2);
    assert_eq!(shown.protocol, 1);
    let listen = shown.listen_endpoint.unwrap();
    assert_eq!((listen.address.as_str(), listen.port), ("0.0.0.0", 20000));
    let forward = shown.forward_endpoint.unwrap();
    assert_eq!((forward.address.as_str(), forward.port), ("10.0.0.5", 20010));
    let destination = shown.destination_endpoint.unwrap();
    assert_eq!((destination.address.as_str(), destination.port), ("192.168.1.100", 30000));
    assert_eq!((shown.created_at, shown.last_activity_at), (1234567890, 1234567890));
    let stats = shown.stats.unwrap();
    assert_eq!(stats.packets_received, 0);
    assert_eq!(stats.packet_loss_rate, PacketLossRate::Zero);
    assert_eq!(shown.error_message, "");
}

#[test]
fn status_follows_the_session() {
    let mut service = service();
    let place = create(&mut service, "call-1", 2, 100);
    create(&mut service, "call-2", 2, 100);
    let session = service.session_manager().session_mut(place).unwrap();
    session.reverse_tcp_read(vec![1, 2, 3], Some(Ok(3)), 130).unwrap();
    session.reverse_tcp_written(3, Some(Err("reset".to_string()))).unwrap_err();
    session.rtp_received(Err(ProxyError::Io("reset".to_string())), 131);
    let shown = status(&service, "call-1").unwrap();
    assert_eq!(shown.state, 3);
    assert_eq!(shown.protocol, 2);
    assert_eq!(shown.last_activity_at, 130);
    assert_eq!(shown.error_message, "IO error: reset");
    let stats = shown.stats.unwrap();
    assert_eq!((stats.packets_received, stats.bytes_received, stats.packets_lost), (1, 3, 1));
    assert_eq!(stats.packet_loss_rate, PacketLossRate::Percent { lost: 1, received: 1 });
    assert_eq!(status(&service, "call-2").unwrap().state, 2);
}

#[test]
fn taken_id_is_refused() {
    let mut service = service();
    create(&mut service, "call-1", 1, 100);
    assert_refused(
        service.create_session(request("call-1", 2), parsed(), 101),
        Code::AlreadyExists,
        "Session call-1 already exists",
    );
    assert!(service.create_session(request("call-2", 2), parsed(), 101).is_ok());
}

#[test]
fn unknown_id_is_refused() {
    let service = service();
    assert_refused(status(&service, "nobody"), Code::NotFound, "Session nobody not found");
    assert_refused(
        service.destroy_session(&DestroySessionRequest { session_id: "nobody".to_string() }),
        Code::NotFound,
        "Session nobody not found",
    );
}

#[test]
fn destroyed_session_is_gone_and_its_id_free() {
    let mut service = service();
    let place = create(&mut service, "call-1", 1, 100);
    create(&mut service, "call-2", 1, 100);
    let destroyed = destroy(&mut service, "call-1", 160);
    assert_eq!(destroyed.unregistered, Some(place));
    assert_eq!(destroyed.events.len(), 2);
    match &destroyed.events[0] {
        SessionEvent::StateChanged { session_id, old_state, new_state, timestamp } => {
            assert_eq!((session_id.as_str(), *timestamp), ("call-1", 160));
            assert_eq!((*old_state, *new_state), (SessionState::Active, SessionState::Closed));
        }
        other => panic!("expected a change of state, got {:?}", other),
    }
    match &destroyed.events[1] {
        SessionEvent::Closed { session_id, timestamp } => {
            assert_eq!((session_id.as_str(), *timestamp), ("call-1", 160));
        }
        other => panic!("expected the end of the session, got {:?}", other),
    }
    assert!(service.session_manager().session(place).is_none());
    assert_refused(status(&service, "call-1"), Code::NotFound, "Session call-1 not found");
    assert!(status(&service, "call-2").is_ok());
    create(&mut service, "call-1", 2, 170);
    assert_eq!(status(&service, "call-1").unwrap().created_at, 170);
}

#[test]
fn session_that_cannot_be_closed_stays() {
    let mut service = service();
    let place = create(&mut service, "call-1", 1, 100);
    let failed = Err(ProxyError::transport("stuck"));
    let e = service.session_manager().session_stopped("call-1", place, failed, 160).unwrap_err();
    assert_eq!(e.message(), "Transport error: stuck");
    assert_eq!(status(&service, "call-1").unwrap().state, 2);
    assert_refused(
        destroy_session_reply(Err(e)),
        Code::Internal,
        "Failed to destroy session: Transport error: stuck",
    );
}

#[test]
fn session_is_not_seen_before_it_is_registered() {
    let mut service = service();
    let setup = begin(&service, "call-1", 1, 100);
    let place = open(&mut service, setup);
    assert_refused(status(&service, "call-1"), Code::NotFound, "Session call-1 not found");
    service.session_manager().start_session(place, Ok(()), 100).unwrap();
    let session = service.session_manager().session(place).unwrap();
    assert_eq!(session.get_state(), SessionState::Active);
    assert_eq!(session.transport, TransportType::Udp);
    assert_refused(status(&service, "call-1"), Code::NotFound, "Session call-1 not found");
    let e = service
        .session_manager()
        .session_started(place, Err(ProxyError::transport("down")))
        .unwrap_err();
    assert_eq!(e.message(), "Transport error: down");
    assert!(service.session_manager().session(place).is_none());
    assert_refused(status(&service, "call-1"), Code::NotFound, "Session call-1 not found");
    create(&mut service, "call-1", 1, 101);
}

#[test]
fn session_that_cannot_be_started_is_gone() {
    let mut service = service();
    let setup = begin(&service, "call-1", 1, 100);
    let place = open(&mut service, setup);
    assert!(service.session_manager().start_session(place, Err(ProxyError::transport("x")), 100).is_err());
    assert!(service.session_manager().session(place).is_none());

    let mut endpoints = parsed();
    endpoints.destination = Ok(addr("192.168.1.100", 65535));
    let setup = service.create_session(request("call-2", 1), endpoints, 100).unwrap();
    let place = open(&mut service, setup);
    let e = service.session_manager().start_session(place, Ok(()), 100).unwrap_err();
    assert_eq!(e.message(), "Transport error: Port overflow when calculating RTCP port");
    assert!(service.session_manager().session(place).is_none());
    assert!(listed(&service, None).is_empty());
}

#[test]
fn failed_bind_ends_the_creation() {
    let mut service = service();
    let setup = begin(&service, "call-1", 1, 100);
    let e = service
        .session_manager()
        .socket_bound(setup, Err("Address already in use".to_string()))
        .unwrap_err();
    assert_refused(
        create_session_reply(Err(e)),
        Code::Internal,
        "Failed to create session: Transport error: Failed to bind RTP listen socket: \
         Address already in use",
    );
    assert!(service.session_manager().session(0).is_none());
}

#[test]
fn one_of_two_creations_succeeds() {
    let mut service = service();
    let first = begin(&service, "call-1", 1, 100);
    let second = begin(&service, "call-1", 2, 101);
    let first = open(&mut service, first);
    let second = open(&mut service, second);
    for place in [first, second] {
        service.session_manager().start_session(place, Ok(()), 102).unwrap();
    }
    let registered = service.session_manager().session_started(second, Ok(())).unwrap();
    assert_eq!((registered.session_id.as_str(), registered.created_at), ("call-1", 101));
    let e = service.session_manager().session_started(first, Ok(())).unwrap_err();
    assert_eq!(e.message(), "Session already exists: call-1");
    assert_refused(
        create_session_reply(Err(e)),
        Code::AlreadyExists,
        "Session call-1 already exists",
    );
    assert!(service.session_manager().session(first).is_none());
    assert_eq!(status(&service, "call-1").unwrap().protocol, 2);
    assert_eq!(listed(&service, None), vec!["call-1"]);
}

#[test]
fn places_where_nothing_is_created() {
    let mut service = service();
    let waiting = "Transport error: No session is waiting to be started here";
    let created = "Transport error: No session is being created here";
    let manager = service.session_manager();
    assert_eq!(manager.start_session(7, Ok(()), 1).unwrap_err().message(), waiting);
    assert_eq!(manager.session_started(7, Ok(())).unwrap_err().message(), created);

    let place = create(&mut service, "call-1", 1, 100);
    let down = || Err(ProxyError::transport("down"));
    let manager = service.session_manager();
    assert_eq!(manager.start_session(place, down(), 1).unwrap_err().message(), waiting);
    assert_eq!(manager.session_started(place, down()).unwrap_err().message(), created);
    assert!(status(&service, "call-1").is_ok());

    let setup = begin(&service, "call-2", 1, 100);
    let place = open(&mut service, setup);
    let manager = service.session_manager();
    manager.start_session(place, Ok(()), 101).unwrap();
    assert_eq!(manager.start_session(place, Ok(()), 102).unwrap_err().message(), waiting);
    assert!(manager.session_started(place, Ok(())).is_ok());
}

#[test]
fn start_is_reported_to_subscribers() {
    let mut service = service();
    let setup = begin(&service, "call-1", 1, 100);
    let place = open(&mut service, setup);
    let started = service.session_manager().start_session(place, Ok(()), 103).unwrap();
    let shown = convert_event_to_proto(started.events[0].clone()).unwrap();
    assert_eq!(shown.description, "Session call-1 state changed to Active");
    assert_eq!(shown.timestamp, 103);
}

#[test]
fn empty_place_stays_empty() {
    let mut service = service();
    let place = create(&mut service, "call-1", 1, 100);
    destroy(&mut service, "call-1", 110);
    let next = create(&mut service, "call-1", 1, 120);
    assert_ne!(place, next);
    assert!(service.session_manager().session_mut(place).is_none());
    let late = service.session_manager().session_stopped("call-2", place, Ok(()), 130).unwrap();
    assert_eq!(late.events.len(), 1);
    assert!(late.unregistered.is_none());
    assert!(status(&service, "call-1").is_ok());
}

#[test]
fn list_shows_every_session_once() {
    let mut service = service();
    assert!(listed(&service, None).is_empty());
    let mut expected: Vec<String> = Vec::new();
    for n in 0..40 {
        let id = format!("call-{}", n + 10);
        create(&mut service, &id, 1, 100);
        expected.push(id);
    }
    assert_eq!(listed(&service, None), expected);
}

#[test]
fn list_selects_by_state() {
    let mut service = service();
    create(&mut service, "good", 1, 100);
    let place = create(&mut service, "bad", 1, 100);
    let down = Err(ProxyError::Io("down".to_string()));
    service.session_manager().session_mut(place).unwrap().rtp_received(down, 101);
    assert_eq!(listed(&service, Some(2)), vec!["good"]);
    assert_eq!(listed(&service, Some(3)), vec!["bad"]);
    assert!(listed(&service, Some(1)).is_empty());
    assert!(listed(&service, Some(4)).is_empty());
    assert_eq!(listed(&service, Some(0)), vec!["bad", "good"]);
    assert_eq!(listed(&service, Some(77)), vec!["bad", "good"]);
}

#[test]
fn numbers_stand_for_states_and_protocols() {
    for state in
        [SessionState::Connecting, SessionState::Active, SessionState::Error, SessionState::Closed]
    {
        assert_eq!(state_from_number(state.to_proto()), Some(state));
    }
    assert_eq!(state_from_number(0), None);
    for protocol in [Protocol::Unspecified, Protocol::Udp, Protocol::Tcp] {
        assert_eq!(Protocol::from_number(protocol.number()), Some(protocol));
    }
    assert_eq!(Protocol::of(TransportType::Udp).number(), 1);
    assert_eq!(Protocol::of(TransportType::Tcp).number(), 2);
    assert_eq!(Protocol::from_number(3), None);
}

#[test]
fn replies() {
    let registered = Registered { session_id: "call-1".to_string(), created_at: 1234567890 };
    let reply = create_session_reply(Ok(registered)).unwrap();
    assert_eq!((reply.session_id.as_str(), reply.created_at), ("call-1", 1234567890));
    let reply = destroy_session_reply(Ok(())).unwrap();
    assert!(reply.success);
    assert_eq!(reply.message, "Session destroyed successfully");
    assert_refused(
        create_session_reply(Err(ProxyError::SessionExists("a".to_string()))),
        Code::AlreadyExists,
        "Session a already exists",
    );
    assert_refused(
        destroy_session_reply(Err(ProxyError::SessionNotFound("a".to_string()))),
        Code::NotFound,
        "Session a not found",
    );
}

#[test]
fn reply_shows_the_time_of_creation() {
    let mut service = service();
    let setup = begin(&service, "call-1", 2, 1234567890);
    let place = open(&mut service, setup);
    service.session_manager().start_session(place, Ok(()), 1234567990).unwrap();
    let result = service.session_manager().session_started(place, Ok(()));
    let reply = create_session_reply(result).unwrap();
    assert_eq!((reply.session_id.as_str(), reply.created_at), ("call-1", 1234567890));
    assert_eq!(status(&service, "call-1").unwrap().created_at, reply.created_at);
}

#[test]
fn shown_endpoints_can_be_requested_again() {
    let mut service = service();
    create(&mut service, "call-1", 1, 100);
    let shown = status(&service, "call-1").unwrap();
    assert_eq!(endpoint_text(&shown.listen_endpoint.unwrap()), "0.0.0.0:20000");
    assert_eq!(endpoint_text(&shown.forward_endpoint.unwrap()), "10.0.0.5:20010");
    assert_eq!(endpoint_text(&shown.destination_endpoint.unwrap()), "192.168.1.100:30000");
}

fn snapshot() -> TrafficStatsSnapshot {
    TrafficStatsSnapshot {
        packets_received: 4,
        bytes_received: 400,
        packets_sent: 3,
        bytes_sent: 300,
        packets_lost: 1,
    }
}

#[test]
fn events_as_shown_to_clients() {
    let id = || "call-1".to_string();
    let cases = vec![
        (
            SessionEvent::Created { session_id: id(), timestamp: 1 },
            SessionEventType::SessionCreated,
            "Session call-1 created",
        ),
        (
            SessionEvent::StateChanged {
                session_id: id(),
                old_state: SessionState::Connecting,
                new_state: SessionState::Active,
                timestamp: 1,
            },
            SessionEventType::SessionStateChanged,
            "Session call-1 state changed to Active",
        ),
        (
            SessionEvent::Error { session_id: id(), error: "IO error: x".to_string(), timestamp: 1 },
            SessionEventType::SessionError,
            "Session call-1 error: IO error: x",
        ),
        (
            SessionEvent::Closed { session_id: id(), timestamp: 1 },
            SessionEventType::SessionClosed,
            "Session call-1 closed",
        ),
    ];
    for (event, kind, description) in cases {
        let shown = convert_event_to_proto(event).unwrap();
        assert_eq!(shown.event_type, kind.number());
        assert_eq!(shown.description, description);
        assert_eq!(shown.timestamp, 1);
        assert!(shown.session.is_none());
    }
}

#[test]
fn statistics_as_shown_to_clients() {
    let event =
        SessionEvent::StatsUpdate { session_id: "call-1".to_string(), stats: snapshot(), timestamp: 9 };
    let shown = convert_event_to_proto(event).unwrap();
    assert_eq!(shown.event_type, SessionEventType::SessionStatsUpdate.number());
    assert_eq!(shown.description, "Session call-1 statistics updated");
    let session = shown.session.unwrap();
    assert_eq!(session.session_id, "call-1");
    assert_eq!((session.state, session.protocol), (2, 1));
    assert_eq!((session.created_at, session.last_activity_at), (0, 9));
    assert!(session.listen_endpoint.is_none());
    let stats = session.stats.unwrap();
    assert_eq!((stats.packets_received, stats.bytes_received), (4, 400));
    assert_eq!((stats.packets_sent, stats.bytes_sent, stats.packets_lost), (3, 300, 1));
    assert_eq!(stats.packet_loss_rate, PacketLossRate::Percent { lost: 1, received: 4 });
}

#[test]
fn stream_shows_the_named_sessions() {
    let closed = |id: &str| SessionEvent::Closed { session_id: id.to_string(), timestamp: 1 };
    let all = event_filter(StreamSessionEventsRequest { session_ids: vec![] });
    assert!(all.is_none());
    assert!(stream_event(&all, closed("a")).is_some());
    let some = event_filter(StreamSessionEventsRequest {
        session_ids: vec!["a".to_string(), "b".to_string()],
    });
    assert!(stream_event(&some, closed("a")).is_some());
    assert!(stream_event(&some, closed("b")).is_some());
    assert!(stream_event(&some, closed("c")).is_none());
}

#[test]
fn stream_is_complete_and_in_order() {
    let filter = event_filter(StreamSessionEventsRequest {
        session_ids: vec!["a".to_string(), "b".to_string()],
    });
    let shown: Vec<i64> = ["a", "c", "b", "a", "c"]
        .iter()
        .zip(1..)
        .map(|(id, timestamp)| SessionEvent::Closed { session_id: id.to_string(), timestamp })
        .filter_map(|event| stream_event(&filter, event))
        .map(|event| event.timestamp)
        .collect();
    assert_eq!(shown, vec![1, 3, 4]);
}

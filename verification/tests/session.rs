use rtpproxy::addr::SocketAddr;
use rtpproxy::error::ProxyError;
use rtpproxy::payload::Packet;
use rtpproxy::session::{
    report_due, ForwardTarget, PacketLossRate, RtpStep, Session, SessionConfig, SessionEvent, SessionState,
    StartAction, TrafficStats, TrafficStatsSnapshot, UdpForwarding,
    UdpStep,
};
use rtpproxy::transport::{SocketRole, TransportType, UdpTransport};

fn addr(ip: &str, port: u16) -> SocketAddr {
    SocketAddr { ip: ip.to_string(), flowinfo: 0, scope_id: 0, port }
}

fn config(protocol: TransportType, destination_port: u16, stats_interval_seconds: u32) -> SessionConfig {
    SessionConfig {
        listen_addr: addr("10.0.0.1", 20000),
        forward_addr: addr("10.0.0.2", 21000),
        destination_addr: addr("10.0.0.3", destination_port),
        protocol,
        timeout_seconds: 60,
        stats_interval_seconds,
    }
}

fn session(protocol: TransportType) -> Session {
    Session::new("s1".to_string(), config(protocol, 30000, 5), protocol, 1000).0
}

fn packet(bytes: &[u8]) -> Packet {
    let udp = UdpTransport::new(&addr("10.0.0.1", 1), &addr("10.0.0.2", 3)).unwrap();
    udp.recv(bytes.to_vec(), Ok((bytes.len(), addr("10.0.0.9", 4000)))).unwrap()
}

fn udp_task(actions: &[StartAction], n: usize) -> &UdpForwarding {
    match &actions[n] {
        StartAction::ForwardUdp(task) => task,
        other => panic!("expected a UDP task, got {:?}", other),
    }
}

/// What is sent and where to.
fn sent(step: UdpStep) -> (Vec<u8>, String, u16) {
    match step {
        UdpStep::Send { data, to } => (data, to.ip, to.port),
        other => panic!("expected a packet to send, got {:?}", other),
    }
}

fn stats(received: u64, sent: u64, lost: u64) -> (u64, u64, u64) {
    (received, sent, lost)
}

fn packets(s: &Session) -> (u64, u64, u64) {
    let snapshot = s.get_stats_snapshot();
    (snapshot.packets_received, snapshot.packets_sent, snapshot.packets_lost)
}

fn assert_change(event: &SessionEvent, from: SessionState, to: SessionState, at: i64) {
    match event {
        SessionEvent::StateChanged { session_id, old_state, new_state, timestamp } => {
            assert_eq!(session_id, "s1");
            assert_eq!((*old_state, *new_state, *timestamp), (from, to, at));
        }
        other => panic!("expected a change of state, got {:?}", other),
    }
}

fn assert_failure(event: &SessionEvent, message: &str, at: i64) {
    match event {
        SessionEvent::Error { session_id, error, timestamp } => {
            assert_eq!((session_id.as_str(), error.as_str(), *timestamp), ("s1", message, at));
        }
        other => panic!("expected a failure, got {:?}", other),
    }
}

#[test]
fn state_numbers_and_names() {
    let all = [
        (SessionState::Connecting, 1, "Connecting"),
        (SessionState::Active, 2, "Active"),
        (SessionState::Error, 3, "Error"),
        (SessionState::Closed, 4, "Closed"),
    ];
    for (state, number, name) in all {
        assert_eq!(state.to_proto(), number);
        assert_eq!(state.name(), name);
    }
}

#[test]
fn counters_count() {
    let mut stats = TrafficStats::new();
    stats.record_received(100);
    stats.record_received(72);
    stats.record_sent(100);
    stats.record_lost();
    assert_eq!(
        stats.get_snapshot(),
        TrafficStatsSnapshot {
            packets_received: 2,
            bytes_received: 172,
            packets_sent: 1,
            bytes_sent: 100,
            packets_lost: 1,
        }
    );
}

#[test]
fn counters_wrap() {
    let mut stats = TrafficStats::new();
    stats.record_received(u64::MAX);
    stats.record_received(3);
    assert_eq!(stats.get_snapshot().packets_received, 2);
    assert_eq!(stats.get_snapshot().bytes_received, 2);
}

#[test]
fn loss_rate() {
    let mut counters = TrafficStats::new();
    assert_eq!(counters.get_snapshot().packet_loss_rate(), PacketLossRate::Zero);
    counters.record_lost();
    assert_eq!(counters.get_snapshot().packet_loss_rate(), PacketLossRate::Zero);
    for _ in 0..4 {
        counters.record_received(1);
    }
    assert_eq!(
        counters.get_snapshot().packet_loss_rate(),
        PacketLossRate::Percent { lost: 1, received: 4 }
    );
}

#[test]
fn new_session_is_connecting() {
    let (s, event) = Session::new(
        "s1".to_string(),
        config(TransportType::Udp, 30000, 5),
        TransportType::Udp,
        1000,
    );
    assert_eq!(s.id(), "s1");
    assert_eq!(s.get_state(), SessionState::Connecting);
    assert_eq!(s.get_last_activity(), 1000);
    assert_eq!(s.created_at, 1000);
    assert!(s.get_error_message().is_none());
    assert_eq!(packets(&s), stats(0, 0, 0));
    match event {
        SessionEvent::Created { session_id, timestamp } => {
            assert_eq!(session_id, "s1");
            assert_eq!(timestamp, 1000);
        }
        other => panic!("expected a creation, got {:?}", other),
    }
}

#[test]
fn udp_session_starts_four_tasks_and_the_reporter() {
    let mut s = session(TransportType::Udp);
    let actions = s.start(Ok(()), 1001).unwrap().actions;
    assert_eq!(s.get_state(), SessionState::Active);
    assert_eq!(actions.len(), 5);
    assert!(matches!(
        actions[0],
        StartAction::ForwardRtp {
            recv_socket: SocketRole::RtpListen,
            send_socket: SocketRole::RtpForward,
        }
    ));
    let reverse_rtp = udp_task(&actions, 1);
    assert_eq!(reverse_rtp.name, "reverse RTP");
    assert_eq!(reverse_rtp.recv_socket, SocketRole::RtpForward);
    assert_eq!(reverse_rtp.send_socket, SocketRole::RtpListen);
    assert!(reverse_rtp.counts_traffic && reverse_rtp.counts_activity);
    assert!(matches!(reverse_rtp.target, ForwardTarget::Client));
    let rtcp = udp_task(&actions, 2);
    assert_eq!(rtcp.name, "RTCP");
    assert_eq!(rtcp.recv_socket, SocketRole::RtcpListen);
    assert_eq!(rtcp.send_socket, SocketRole::RtcpForward);
    assert!(!rtcp.counts_traffic && !rtcp.counts_activity);
    match &rtcp.target {
        ForwardTarget::Fixed(to) => assert_eq!((to.ip.as_str(), to.port), ("10.0.0.3", 30001)),
        other => panic!("expected a fixed target, got {:?}", other),
    }
    let reverse_rtcp = udp_task(&actions, 3);
    assert_eq!(reverse_rtcp.name, "reverse RTCP");
    assert_eq!(reverse_rtcp.recv_socket, SocketRole::RtcpForward);
    assert_eq!(reverse_rtcp.send_socket, SocketRole::RtcpListen);
    assert!(!reverse_rtcp.counts_traffic && !reverse_rtcp.counts_activity);
    assert!(matches!(reverse_rtcp.target, ForwardTarget::RtcpClient));
    assert!(matches!(actions[4], StartAction::ReportStats { interval_seconds: 5 }));
}

#[test]
fn tcp_session_waits_for_its_connections() {
    let mut s = session(TransportType::Tcp);
    let actions = s.start(Ok(()), 1001).unwrap().actions;
    assert_eq!(actions.len(), 4);
    assert!(matches!(
        actions[0],
        StartAction::ForwardRtp {
            recv_socket: SocketRole::TcpClient,
            send_socket: SocketRole::TcpDestination,
        }
    ));
    assert!(matches!(actions[1], StartAction::AwaitConnections));
    assert!(matches!(actions[2], StartAction::ForwardReverseTcp));
    assert!(matches!(actions[3], StartAction::ReportStats { interval_seconds: 5 }));
    assert!(s.start_reverse_tcp_forwarding().is_ok());
}

#[test]
fn no_interval_means_no_report() {
    let (mut s, _) = Session::new(
        "s1".to_string(),
        config(TransportType::Tcp, 65535, 0),
        TransportType::Tcp,
        1000,
    );
    assert_eq!(s.start(Ok(()), 1001).unwrap().actions.len(), 3);
}

#[test]
fn failed_transport_keeps_the_session_connecting() {
    let mut s = session(TransportType::Udp);
    let e = s.start(Err(ProxyError::transport("down")), 1001).unwrap_err();
    assert_eq!(e.message(), "Transport error: down");
    assert_eq!(s.get_state(), SessionState::Connecting);
}

#[test]
fn destination_needs_an_rtcp_port() {
    let (mut s, _) = Session::new(
        "s1".to_string(),
        config(TransportType::Udp, 65535, 5),
        TransportType::Udp,
        1000,
    );
    let e = s.start(Ok(()), 1001).unwrap_err();
    assert_eq!(e.message(), "Transport error: Port overflow when calculating RTCP port");
}

#[test]
fn tasks_need_their_transport() {
    let s = Session::new(
        "s1".to_string(),
        config(TransportType::Udp, 30000, 5),
        TransportType::Tcp,
        1000,
    )
    .0;
    assert_eq!(
        s.start_rtcp_forwarding().unwrap_err().message(),
        "Transport error: UDP transport not available for RTCP"
    );
    assert_eq!(
        s.start_reverse_rtp_forwarding().unwrap_err().message(),
        "Transport error: UDP transport not available for reverse RTP"
    );
    assert_eq!(
        s.start_reverse_rtcp_forwarding().unwrap_err().message(),
        "Transport error: UDP transport not available for reverse RTCP"
    );
    assert_eq!(
        session(TransportType::Udp).start_reverse_tcp_forwarding().unwrap_err().message(),
        "Transport error: TCP transport not available for reverse forwarding"
    );
}

#[test]
fn rtp_packet_goes_to_the_destination_unchanged() {
    let mut s = session(TransportType::Udp);
    s.start(Ok(()), 1001).unwrap();
    match s.rtp_received(Ok(packet(&[0x80, 0, 1, 2])), 1007) {
        RtpStep::Forward { data, destination } => {
            assert_eq!(&data[..], &[0x80, 0, 1, 2]);
            assert_eq!((destination.ip.as_str(), destination.port), ("10.0.0.3", 30000));
        }
        other => panic!("expected a packet to forward, got {:?}", other),
    }
    assert_eq!(s.get_last_activity(), 1007);
    assert!(s.rtp_sent(Ok(4), 1008).is_empty());
    let snapshot = s.get_stats_snapshot();
    assert_eq!(snapshot.bytes_received, 4);
    assert_eq!(snapshot.bytes_sent, 4);
    assert_eq!(packets(&s), stats(1, 1, 0));
    assert_eq!(s.get_last_activity(), 1007);
    assert_eq!(s.get_state(), SessionState::Active);
}

#[test]
fn rtp_packet_that_cannot_be_sent_is_lost() {
    let mut s = session(TransportType::Udp);
    s.start(Ok(()), 1001).unwrap();
    s.rtp_received(Ok(packet(&[1, 2])), 1007);
    let events = s.rtp_sent(Err(ProxyError::Io("unreachable".to_string())), 1008);
    assert_eq!(events.len(), 2);
    assert_change(&events[0], SessionState::Active, SessionState::Error, 1008);
    assert_failure(&events[1], "IO error: unreachable", 1008);
    assert_eq!(packets(&s), stats(1, 0, 1));
    assert_eq!(s.get_state(), SessionState::Error);
    assert_eq!(s.get_error_message().unwrap(), "IO error: unreachable");
}

#[test]
fn failed_rtp_receive_ends_the_task() {
    let mut s = session(TransportType::Tcp);
    s.start(Ok(()), 1001).unwrap();
    let outcome = Err(ProxyError::transport("Connection closed by client"));
    match s.rtp_received(outcome, 1009) {
        RtpStep::Stop(events) => {
            assert_eq!(events.len(), 2);
            assert_change(&events[0], SessionState::Active, SessionState::Error, 1009);
            assert_failure(&events[1], "Transport error: Connection closed by client", 1009);
        }
        other => panic!("expected the end of the task, got {:?}", other),
    }
    assert_eq!(s.get_state(), SessionState::Error);
    assert_eq!(packets(&s), stats(0, 0, 0));
    assert_eq!(s.get_last_activity(), 1000);
}

#[test]
fn rtp_comes_back_to_the_client() {
    let mut s = session(TransportType::Udp);
    let task = s.start_reverse_rtp_forwarding().unwrap();
    s.rtp_received(Ok(packet(&[1])), 1009);
    s.rtp_sent(Ok(1), 1009);
    let mut buf = vec![7; 160];
    buf.extend_from_slice(&[0; 40]);
    let step = s.udp_received(&task, buf, Ok((160, addr("10.0.0.3", 30000))), 1010);
    assert_eq!(sent(step), (vec![7; 160], "10.0.0.9".to_string(), 4000));
    s.udp_sent(&task, Ok(160));
    let step = s.udp_received(&task, vec![0; 200], Ok((160, addr("10.0.0.4", 1))), 1011);
    assert_eq!(sent(step), (vec![0; 160], "10.0.0.9".to_string(), 4000));
    s.udp_sent(&task, Err("unreachable".to_string()));
    assert_eq!(packets(&s), stats(3, 2, 1));
    assert_eq!(s.get_last_activity(), 1011);
    assert_eq!(s.get_state(), SessionState::Connecting);
    let step = s.udp_received(&task, vec![0; 200], Err("closed".to_string()), 1012);
    assert!(matches!(step, UdpStep::Stop));
    assert_eq!(packets(&s), stats(3, 2, 1));
}

#[test]
fn return_traffic_follows_the_client() {
    let mut s = session(TransportType::Udp);
    let task = s.start_reverse_rtp_forwarding().unwrap();
    let from = || Ok((1, addr("10.0.0.3", 30000)));
    s.rtp_received(Ok(packet(&[1])), 1);
    assert_eq!(sent(s.udp_received(&task, vec![2], from(), 2)).2, 4000);
    let udp = UdpTransport::new(&addr("10.0.0.1", 1), &addr("10.0.0.2", 3)).unwrap();
    let moved = udp.recv(vec![1], Ok((1, addr("10.0.0.9", 4777)))).unwrap();
    s.rtp_received(Ok(moved), 3);
    assert_eq!(sent(s.udp_received(&task, vec![2], from(), 4)).2, 4777);
}

#[test]
fn return_traffic_without_a_client_is_lost() {
    let mut s = session(TransportType::Udp);
    let rtp = s.start_reverse_rtp_forwarding().unwrap();
    let step = s.udp_received(&rtp, vec![1, 2], Ok((2, addr("10.0.0.3", 30000))), 1010);
    assert!(matches!(step, UdpStep::Skip));
    assert_eq!(packets(&s), stats(1, 0, 1));
    assert_eq!(s.get_last_activity(), 1010);
    let rtcp = s.start_reverse_rtcp_forwarding().unwrap();
    let step = s.udp_received(&rtcp, vec![1, 2], Ok((2, addr("10.0.0.3", 30001))), 1011);
    assert!(matches!(step, UdpStep::Skip));
    assert_eq!(packets(&s), stats(1, 0, 1));
}

#[test]
fn rtcp_comes_back_to_the_client() {
    let mut s = session(TransportType::Udp);
    let rtcp = s.start_rtcp_forwarding().unwrap();
    let reverse = s.start_reverse_rtcp_forwarding().unwrap();
    s.rtp_received(Ok(packet(&[1])), 1);
    s.udp_received(&rtcp, vec![5], Ok((1, addr("10.0.0.9", 4001))), 2);
    let step = s.udp_received(&reverse, vec![6, 0], Ok((1, addr("10.0.0.3", 30001))), 3);
    assert_eq!(sent(step), (vec![6], "10.0.0.9".to_string(), 4001));
}

#[test]
fn rtcp_is_not_counted() {
    let mut s = session(TransportType::Udp);
    for task in [s.start_rtcp_forwarding().unwrap(), s.start_reverse_rtcp_forwarding().unwrap()] {
        let step = s.udp_received(&task, vec![5; 30], Ok((28, addr("10.0.0.9", 4001))), 1010);
        assert_eq!(sent(step).0, vec![5; 28]);
        s.udp_sent(&task, Ok(28));
        s.udp_sent(&task, Err("unreachable".to_string()));
    }
    assert_eq!(packets(&s), stats(0, 0, 0));
    assert_eq!(s.get_last_activity(), 1000);
}

#[test]
fn reports_are_due_at_once_and_every_interval() {
    assert_eq!(report_due(5, 0), 0);
    assert_eq!(report_due(5, 1), 5);
    assert_eq!(report_due(5, 7), 35);
    assert_eq!(report_due(4294967295, 4294967295), 18446744065119617025);
}

#[test]
fn reverse_tcp_forwards_what_was_read() {
    let mut s = session(TransportType::Tcp);
    let data = s.reverse_tcp_read(vec![9, 8, 7, 0, 0], Some(Ok(3)), 1020).unwrap();
    assert_eq!(data, vec![9, 8, 7]);
    assert!(s.reverse_tcp_written(data.len(), Some(Ok(()))).is_ok());
    let snapshot = s.get_stats_snapshot();
    assert_eq!((snapshot.bytes_received, snapshot.bytes_sent), (3, 3));
    assert_eq!(s.get_last_activity(), 1020);
}

#[test]
fn reverse_tcp_failures() {
    let mut s = session(TransportType::Tcp);
    let text = |e: ProxyError| e.message();
    assert_eq!(
        text(s.reverse_tcp_read(vec![0; 4], None, 1).unwrap_err()),
        "Transport error: Destination stream not available"
    );
    assert_eq!(
        text(s.reverse_tcp_read(vec![0; 4], Some(Ok(0)), 1).unwrap_err()),
        "Transport error: Connection closed by destination"
    );
    assert_eq!(
        text(s.reverse_tcp_read(vec![0; 4], Some(Err("reset".to_string())), 1).unwrap_err()),
        "IO error: reset"
    );
    assert_eq!(packets(&s), stats(0, 0, 0));
    assert_eq!(s.get_last_activity(), 1000);
    s.reverse_tcp_read(vec![0; 4], Some(Ok(2)), 1030).unwrap();
    assert_eq!(
        text(s.reverse_tcp_written(2, Some(Err("reset".to_string()))).unwrap_err()),
        "IO error: reset"
    );
    assert_eq!(packets(&s), stats(1, 0, 1));
    s.reverse_tcp_read(vec![0; 4], Some(Ok(2)), 1031).unwrap();
    assert_eq!(
        text(s.reverse_tcp_written(2, None).unwrap_err()),
        "Transport error: Client stream not available"
    );
    assert_eq!(packets(&s), stats(2, 0, 1));
}

#[test]
fn stats_update_shows_the_counters() {
    let mut s = session(TransportType::Udp);
    s.rtp_received(Ok(packet(&[1, 2, 3])), 1007);
    match s.stats_update(1050) {
        SessionEvent::StatsUpdate { session_id, stats, timestamp } => {
            assert_eq!(session_id, "s1");
            assert_eq!(stats.packets_received, 1);
            assert_eq!(stats.bytes_received, 3);
            assert_eq!(timestamp, 1050);
        }
        other => panic!("expected statistics, got {:?}", other),
    }
}

#[test]
fn session_life() {
    let mut s = session(TransportType::Udp);
    let mut seen = vec![s.get_state()];
    s.start(Ok(()), 1001).unwrap();
    seen.push(s.get_state());
    s.rtp_received(Err(ProxyError::Io("down".to_string())), 1001);
    seen.push(s.get_state());
    assert!(s.stop(Err(ProxyError::transport("stuck")), 1002).is_err());
    seen.push(s.get_state());
    let events = s.stop(Ok(()), 1003).unwrap();
    assert_eq!(events.len(), 1);
    assert_change(&events[0], SessionState::Error, SessionState::Closed, 1003);
    seen.push(s.get_state());
    assert_eq!(
        seen,
        vec![
            SessionState::Connecting,
            SessionState::Active,
            SessionState::Error,
            SessionState::Error,
            SessionState::Closed,
        ]
    );
    assert_eq!(s.get_error_message().unwrap(), "IO error: down");
}

#[test]
fn info_shows_the_session() {
    let info = session(TransportType::Tcp).info();
    assert_eq!(info.session_id, "s1");
    assert_eq!(info.config.protocol, TransportType::Tcp);
    assert_eq!(info.config.timeout_seconds, 60);
    assert_eq!(info.state, SessionState::Connecting);
    assert_eq!((info.created_at, info.last_activity), (1000, 1000));
    assert!(info.error_message.is_none());
}

#[test]
fn events_name_their_session() {
    let id = || "x".to_string();
    let events = [
        SessionEvent::Created { session_id: id(), timestamp: 1 },
        SessionEvent::StateChanged {
            session_id: id(),
            old_state: SessionState::Connecting,
            new_state: SessionState::Active,
            timestamp: 2,
        },
        session(TransportType::Udp).stats_update(3),
        SessionEvent::Error { session_id: id(), error: "e".to_string(), timestamp: 4 },
        SessionEvent::Closed { session_id: id(), timestamp: 5 },
    ];
    let names: Vec<&str> = events.iter().map(|e| e.session_id().as_str()).collect();
    assert_eq!(names, vec!["x", "x", "s1", "x", "x"]);
}

#[test]
fn every_packet_is_accounted_for() {
    let mut s = session(TransportType::Udp);
    let reverse = s.start_reverse_rtp_forwarding().unwrap();
    let source = || addr("10.0.0.3", 30000);
    s.rtp_received(Ok(packet(&[1])), 1);
    s.udp_received(&reverse, vec![0; 4], Ok((2, source())), 2);
    s.rtp_received(Err(ProxyError::Io("x".to_string())), 3);
    s.udp_sent(&reverse, Err("y".to_string()));
    s.udp_received(&reverse, vec![0; 4], Ok((2, source())), 4);
    s.rtp_sent(Ok(1), 5);
    let (received, sent, lost) = packets(&s);
    assert_eq!((received, sent, lost), (3, 1, 1));
    assert_eq!(received - sent - lost, 1);
    s.udp_sent(&reverse, Ok(2));
    assert_eq!(packets(&s), stats(3, 2, 1));
    assert_eq!(s.id(), "s1");
}

#[test]
fn state_changes_are_reported_once() {
    let mut s = session(TransportType::Udp);
    let events = s.start(Ok(()), 1001).unwrap().events;
    assert_eq!(events.len(), 1);
    assert_change(&events[0], SessionState::Connecting, SessionState::Active, 1001);
    assert_eq!(s.rtp_sent(Err(ProxyError::Io("x".to_string())), 1002).len(), 2);
    let again = s.rtp_sent(Err(ProxyError::Io("y".to_string())), 1003);
    assert_eq!(again.len(), 1);
    assert_failure(&again[0], "IO error: y", 1003);
    assert_eq!(s.stop(Ok(()), 1004).unwrap().len(), 1);
    assert!(s.stop(Ok(()), 1005).unwrap().is_empty());
}

#[test]
fn rtcp_goes_to_the_port_after_the_destination() {
    let mut s = session(TransportType::Udp);
    let task = s.start_rtcp_forwarding().unwrap();
    let buf = vec![0x80, 200, 0, 6, 0, 0];
    let step = s.udp_received(&task, buf, Ok((4, addr("10.0.0.9", 4001))), 1010);
    assert_eq!(sent(step), (vec![0x80, 200, 0, 6], "10.0.0.3".to_string(), 30001));
}

#[test]
fn successive_reports_never_go_down() {
    let mut s = session(TransportType::Udp);
    let mut last = s.get_stats_snapshot();
    for n in 0..6u8 {
        s.rtp_received(Ok(packet(&[n; 3])), 1000);
        if n % 2 == 0 {
            s.rtp_sent(Ok(3), 1000);
        } else {
            s.rtp_sent(Err(ProxyError::Io("x".to_string())), 1000);
        }
        let next = match s.stats_update(1001) {
            SessionEvent::StatsUpdate { stats, .. } => stats,
            other => panic!("expected statistics, got {:?}", other),
        };
        assert!(next.packets_received > last.packets_received);
        assert!(next.bytes_received > last.bytes_received);
        assert!(next.packets_sent >= last.packets_sent);
        assert!(next.bytes_sent >= last.bytes_sent);
        assert!(next.packets_lost >= last.packets_lost);
        last = next;
    }
    assert_eq!((last.bytes_received, last.bytes_sent, last.packets_lost), (18, 9, 3));
}

#[test]
fn copies_of_events_say_the_same() {
    let s = session(TransportType::Udp);
    let event = s.stats_update(1050);
    assert_eq!(format!("{:?}", event.clone()), format!("{:?}", event));
}

use rtpproxy::addr::{increment_port, SocketAddr};
use rtpproxy::error::ProxyError;
use rtpproxy::payload::cut_to_received;
use rtpproxy::transport::{
    create_transport, SetupStep, SocketRole, TcpStep, TcpTransport, Transport, TransportSetup,
    TransportType, UdpTransport,
};

fn addr(ip: &str, port: u16) -> SocketAddr {
    SocketAddr { ip: ip.to_string(), flowinfo: 0, scope_id: 0, port }
}

fn assert_addr(actual: &SocketAddr, ip: &str, port: u16) {
    assert_eq!(actual.ip, ip);
    assert_eq!(actual.port, port);
}

fn next(step: Result<SetupStep, ProxyError>) -> TransportSetup {
    match step {
        Ok(SetupStep::Bind(setup)) => setup,
        other => panic!("expected another socket to bind, got {:?}", other),
    }
}

fn udp_setup(listen_port: u16, forward_port: u16) -> TransportSetup {
    create_transport(
        TransportType::Udp,
        addr("10.0.0.1", listen_port),
        addr("10.0.0.2", forward_port),
        addr("10.0.0.3", 30000),
    )
}

#[test]
fn rtcp_port_follows_rtp_port() {
    let v6 = SocketAddr { ip: "fe80::1".to_string(), flowinfo: 7, scope_id: 2, port: 20000 };
    let rtcp = increment_port(&v6).unwrap();
    assert_addr(&rtcp, "fe80::1", 20001);
    assert_eq!(rtcp.flowinfo, 7);
    assert_eq!(rtcp.scope_id, 2);
    assert_eq!(increment_port(&addr("10.0.0.1", 0)).unwrap().port, 1);
    assert_eq!(increment_port(&addr("10.0.0.1", 65534)).unwrap().port, 65535);
}

#[test]
fn last_port_has_no_rtcp_port() {
    let e = increment_port(&addr("10.0.0.1", 65535)).unwrap_err();
    assert_eq!(e.message(), "Transport error: Port overflow when calculating RTCP port");
}

#[test]
fn udp_transport_binds_four_sockets() {
    let setup = udp_setup(20000, 21000);
    let (role, at) = setup.bind_request();
    assert_eq!(role, SocketRole::RtpListen);
    assert_addr(&at, "10.0.0.1", 20000);

    let setup = next(setup.bound(Ok(())));
    let (role, at) = setup.bind_request();
    assert_eq!(role, SocketRole::RtpForward);
    assert_addr(&at, "10.0.0.2", 21000);

    let setup = next(setup.bound(Ok(())));
    let (role, at) = setup.bind_request();
    assert_eq!(role, SocketRole::RtcpListen);
    assert_addr(&at, "10.0.0.1", 20001);

    let setup = next(setup.bound(Ok(())));
    let (role, at) = setup.bind_request();
    assert_eq!(role, SocketRole::RtcpForward);
    assert_addr(&at, "10.0.0.2", 21001);

    match setup.bound(Ok(())) {
        Ok(SetupStep::Ready(Transport::Udp(udp))) => {
            assert_addr(udp.rtp_listen_socket(), "10.0.0.1", 20000);
            assert_addr(udp.rtp_forward_socket(), "10.0.0.2", 21000);
            assert_addr(udp.rtcp_listen_socket(), "10.0.0.1", 20001);
            assert_addr(udp.rtcp_forward_socket(), "10.0.0.2", 21001);
        }
        other => panic!("expected a UDP transport, got {:?}", other),
    }
}

#[test]
fn failed_bind_names_its_socket() {
    let expected = [
        "Transport error: Failed to bind RTP listen socket: in use",
        "Transport error: Failed to bind RTP forward socket: in use",
        "Transport error: Failed to bind RTCP listen socket: in use",
        "Transport error: Failed to bind RTCP forward socket: in use",
    ];
    for failing in 0..expected.len() {
        let mut setup = udp_setup(20000, 21000);
        for _ in 0..failing {
            setup = next(setup.bound(Ok(())));
        }
        let e = setup.bound(Err("in use".to_string())).unwrap_err();
        assert_eq!(e.message(), expected[failing]);
    }
}

#[test]
fn port_overflow_comes_after_the_rtp_sockets() {
    for (listen, forward) in [(65535, 21000), (20000, 65535)] {
        let setup = next(udp_setup(listen, forward).bound(Ok(())));
        let e = setup.bound(Ok(())).unwrap_err();
        assert_eq!(e.message(), "Transport error: Port overflow when calculating RTCP port");
    }
}

#[test]
fn udp_transport_of_two_addresses() {
    let udp = UdpTransport::new(&addr("10.0.0.1", 1), &addr("10.0.0.2", 3)).unwrap();
    assert_eq!(udp.rtcp_listen_socket().port, 2);
    assert_eq!(udp.rtcp_forward_socket().port, 4);
    assert!(UdpTransport::new(&addr("10.0.0.1", 65535), &addr("10.0.0.2", 3)).is_err());
}

#[test]
fn udp_receive_is_cut_to_what_was_received() {
    let udp = UdpTransport::new(&addr("10.0.0.1", 1), &addr("10.0.0.2", 3)).unwrap();
    let packet = udp.recv(vec![1, 2, 3, 0, 0], Ok((3, addr("10.0.0.9", 4000)))).unwrap();
    assert_eq!(&packet.data[..], &[1, 2, 3]);
    assert_addr(&packet.source, "10.0.0.9", 4000);

    let e = udp.recv(vec![0; 5], Err("refused".to_string())).unwrap_err();
    assert_eq!(e.message(), "IO error: refused");
}

#[test]
fn udp_send_tells_the_number_of_bytes() {
    let udp = UdpTransport::new(&addr("10.0.0.1", 1), &addr("10.0.0.2", 3)).unwrap();
    assert_eq!(udp.send(Ok(172)).unwrap(), 172);
    let e = udp.send(Err("unreachable".to_string())).unwrap_err();
    assert_eq!(e.message(), "IO error: unreachable");
}

#[test]
fn buffers_are_cut() {
    assert_eq!(cut_to_received(vec![1, 2, 3], 0), Vec::<u8>::new());
    assert_eq!(cut_to_received(vec![1, 2, 3], 2), vec![1, 2]);
    assert_eq!(cut_to_received(vec![1, 2, 3], 9), vec![1, 2, 3]);
}

fn tcp() -> TcpTransport {
    TcpTransport::new(addr("10.0.0.1", 20000), addr("10.0.0.2", 21000), addr("10.0.0.3", 30000))
}

fn connected_tcp() -> TcpTransport {
    let mut t = tcp();
    t.recv().unwrap();
    t.client_accepted(Ok(addr("10.0.0.9", 4000))).unwrap();
    t.destination_connected(Ok(())).unwrap();
    t
}

#[test]
fn tcp_transport_binds_its_listener() {
    let setup = create_transport(
        TransportType::Tcp,
        addr("10.0.0.1", 65535),
        addr("10.0.0.2", 21000),
        addr("10.0.0.3", 30000),
    );
    let (role, at) = setup.bind_request();
    assert_eq!(role, SocketRole::TcpListener);
    assert_addr(&at, "10.0.0.1", 65535);
    match setup.bound(Ok(())) {
        Ok(SetupStep::Ready(transport)) => assert_eq!(transport.kind(), TransportType::Tcp),
        other => panic!("expected a TCP transport, got {:?}", other),
    }
}

#[test]
fn failed_listener_bind() {
    let setup = create_transport(
        TransportType::Tcp,
        addr("10.0.0.1", 1),
        addr("10.0.0.2", 2),
        addr("10.0.0.3", 3),
    );
    let e = setup.bound(Err("in use".to_string())).unwrap_err();
    assert_eq!(e.message(), "Transport error: Failed to bind TCP listener: in use");
}

#[test]
fn tcp_transport_accepts_connects_and_reads() {
    let mut t = tcp();
    assert!(!t.is_fully_connected());
    assert!(t.client_addr().is_none());
    assert!(matches!(t.recv(), Ok(TcpStep::Accept)));
    match t.client_accepted(Ok(addr("10.0.0.9", 4000))) {
        Ok(TcpStep::Connect { source, destination }) => {
            assert_addr(&source, "10.0.0.2", 21000);
            assert_addr(&destination, "10.0.0.3", 30000);
        }
        other => panic!("expected a connect, got {:?}", other),
    }
    assert!(!t.is_fully_connected());
    assert_eq!(
        t.send().unwrap_err().message(),
        "Transport error: Destination stream not available"
    );
    assert!(matches!(t.destination_connected(Ok(())), Ok(TcpStep::Read)));
    assert!(t.is_fully_connected());
    assert!(t.send().is_ok());
    assert!(matches!(t.recv(), Ok(TcpStep::Read)));
    assert_addr(&t.client_addr().unwrap(), "10.0.0.9", 4000);
}

#[test]
fn tcp_listener_takes_one_client() {
    let mut t = tcp();
    assert!(matches!(t.recv(), Ok(TcpStep::Accept)));
    let e = t.recv().unwrap_err();
    assert_eq!(e.message(), "Transport error: Listener already closed");
}

#[test]
fn failed_accept_and_connect() {
    let mut t = tcp();
    t.recv().unwrap();
    let e = t.client_accepted(Err("reset".to_string())).unwrap_err();
    assert_eq!(e.message(), "Transport error: Failed to accept connection: reset");
    assert_eq!(t.recv().unwrap_err().message(), "Transport error: Listener already closed");

    let mut t = tcp();
    t.recv().unwrap();
    t.client_accepted(Ok(addr("10.0.0.9", 4000))).unwrap();
    let e = t.destination_connected(Err("refused".to_string())).unwrap_err();
    assert_eq!(e.message(), "Transport error: Failed to connect to destination: refused");
    assert!(!t.is_fully_connected());
}

#[test]
fn tcp_read_results() {
    let t = connected_tcp();
    let packet = t.client_read(vec![5, 6, 7, 0], Ok(3)).unwrap();
    assert_eq!(&packet.data[..], &[5, 6, 7]);
    assert_addr(&packet.source, "10.0.0.9", 4000);
    assert_eq!(
        t.client_read(vec![0; 4], Ok(0)).unwrap_err().message(),
        "Transport error: Connection closed by client"
    );
    assert_eq!(
        t.client_read(vec![0; 4], Err("reset".to_string())).unwrap_err().message(),
        "IO error: reset"
    );
    assert_eq!(
        tcp().client_read(vec![0; 4], Ok(1)).unwrap_err().message(),
        "Transport error: Client address not available"
    );
}

#[test]
fn tcp_write_tells_the_length_of_the_payload() {
    let t = connected_tcp();
    let packet = t.client_read(vec![5, 6, 7, 0], Ok(3)).unwrap();
    assert_eq!(t.destination_written(&packet.data, Ok(())).unwrap(), 3);
    let e = t.destination_written(&packet.data, Err("broken pipe".to_string())).unwrap_err();
    assert_eq!(e.message(), "IO error: broken pipe");
}

#[test]
fn closed_tcp_transport_is_silent() {
    let mut t = connected_tcp();
    assert_eq!(t.close(), (true, true));
    assert_eq!(t.close(), (false, false));
    assert_eq!(t.recv().unwrap_err().message(), "Transport error: Listener already closed");
    assert!(t.send().is_err());
    assert_addr(&t.client_addr().unwrap(), "10.0.0.9", 4000);
}

#[test]
fn second_client_is_never_accepted() {
    let mut t = connected_tcp();
    let e = t.accept_client().unwrap_err();
    assert_eq!(e.message(), "Transport error: Listener already closed");
    assert!(t.is_fully_connected());
    assert!(matches!(t.recv(), Ok(TcpStep::Read)));
    assert!(t.is_fully_connected());
    assert_addr(&t.client_addr().unwrap(), "10.0.0.9", 4000);
    t.close();
    assert_eq!(t.recv().unwrap_err().message(), "Transport error: Listener already closed");
    assert_addr(&t.client_addr().unwrap(), "10.0.0.9", 4000);
}

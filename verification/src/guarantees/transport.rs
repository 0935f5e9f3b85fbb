//! Transports: the addresses that are bound, and what comes of each socket operation.

use vstd::prelude::*;

use crate::addr::SocketAddrView;
use crate::error::ProxyErrorView;
use crate::payload::received_prefix;
use crate::transport::{
    tcp_sent, transport_setup, udp_received, udp_sent, udp_transport, SetupStepView, SocketRole,
    TcpStepView, TcpTransportView, TransportSetupView, TransportType, TransportView,
    UdpTransportView,
};

verus! {

/// A port has a next port unless it is the last one; the address with the next port is the same
/// address otherwise.
pub proof fn law_next_port(addr: SocketAddrView)
    ensures
        addr.has_next_port() <==> addr.port != 65535,
        addr.has_next_port() ==> addr.next_port().port == addr.port + 1,
        addr.next_port().ip == addr.ip,
        addr.next_port().flowinfo == addr.flowinfo,
        addr.next_port().scope_id == addr.scope_id,
{
}

/// Whether `data` is the beginning of a buffer, `len` bytes long as far as the buffer goes.
pub open spec fn begins(data: Seq<u8>, buf: Seq<u8>, len: int) -> bool {
    &&& len <= buf.len() ==> data.len() == len
    &&& len > buf.len() ==> data.len() == buf.len()
    &&& forall|i: int| 0 <= i < data.len() ==> (#[trigger] data[i]) == buf[i]
}

/// What was received of a buffer is its beginning.
pub proof fn law_received_bytes_are_those_of_the_buffer(buf: Seq<u8>, len: nat)
    ensures
        begins(received_prefix(buf, len as int), buf, len as int),
{
}

/// A packet that was received over UDP has the source that the socket reported and the bytes
/// that it put into the buffer.
pub proof fn law_udp_packet_is_what_the_socket_gave(
    buf: Seq<u8>,
    len: usize,
    source: SocketAddrView,
    cause: Seq<char>,
)
    ensures
        ({
            let r = udp_received(buf, Ok((len, source)));
            &&& r is Ok
            &&& r->Ok_0.source == source
            &&& begins(r->Ok_0.data, buf, len as int)
        }),
        udp_received(buf, Err(cause)) is Err,
        udp_received(buf, Err(cause))->Err_0 == ProxyErrorView::Io(cause),
{
}

/// A UDP send has sent as many bytes as the socket reported.
pub proof fn law_udp_send_is_what_the_socket_reported(len: usize, error: Seq<char>)
    ensures
        udp_sent(Ok(len)) == Ok::<usize, ProxyErrorView>(len),
        udp_sent(Err(error)) == Err::<usize, ProxyErrorView>(ProxyErrorView::Io(error)),
{
}

/// A UDP transport has RTP at the two given addresses and RTCP at the same two with the next
/// port; there is none where one of the ports is the last one.
pub proof fn law_udp_transport_addresses(listen: SocketAddrView, forward: SocketAddrView)
    ensures
        ({
            let r = udp_transport(listen, forward);
            let t = r->Ok_0;
            &&& r is Ok <==> listen.port < 65535 && forward.port < 65535
            &&& r is Ok ==> {
                &&& t.rtp_listen == listen
                &&& t.rtp_forward == forward
                &&& t.rtcp_listen == SocketAddrView { port: (listen.port + 1) as u16, ..listen }
                &&& t.rtcp_forward == SocketAddrView { port: (forward.port + 1) as u16, ..forward }
            }
            &&& r is Err ==> r->Err_0 == ProxyErrorView::Transport(
                "Port overflow when calculating RTCP port"@,
            )
        }),
{
}

/// The sockets of a UDP transport are bound one after the other, each to its address: RTP to
/// listen, RTP to forward, then the same two for RTCP on the next port.
pub proof fn law_udp_sockets_are_bound_in_order(
    listen: SocketAddrView,
    forward: SocketAddrView,
    destination: SocketAddrView,
)
    requires
        listen.port < 65535,
        forward.port < 65535,
    ensures
        ({
            let first = transport_setup(TransportType::Udp, listen, forward, destination);
            let second = first.after_bind(Ok(()))->Ok_0->Bind_0;
            let third = second.after_bind(Ok(()))->Ok_0->Bind_0;
            let fourth = third.after_bind(Ok(()))->Ok_0->Bind_0;
            let last = fourth.after_bind(Ok(()));
            &&& first.kind() == TransportType::Udp
            &&& first.role() == SocketRole::RtpListen && first.bind_addr() == listen
            &&& first.after_bind(Ok(())) matches Ok(SetupStepView::Bind(_))
            &&& second.role() == SocketRole::RtpForward && second.bind_addr() == forward
            &&& second.after_bind(Ok(())) matches Ok(SetupStepView::Bind(_))
            &&& third.role() == SocketRole::RtcpListen
            &&& third.bind_addr() == SocketAddrView { port: (listen.port + 1) as u16, ..listen }
            &&& third.after_bind(Ok(())) matches Ok(SetupStepView::Bind(_))
            &&& fourth.role() == SocketRole::RtcpForward
            &&& fourth.bind_addr() == SocketAddrView { port: (forward.port + 1) as u16, ..forward }
            &&& last matches Ok(SetupStepView::Ready(TransportView::Udp(_)))
            &&& last->Ok_0->Ready_0.kind() == TransportType::Udp
            &&& last->Ok_0->Ready_0->Udp_0.rtp_listen == listen
            &&& last->Ok_0->Ready_0->Udp_0.rtp_forward == forward
            &&& last->Ok_0->Ready_0->Udp_0.rtcp_listen == third.bind_addr()
            &&& last->Ok_0->Ready_0->Udp_0.rtcp_forward == fourth.bind_addr()
        }),
{
}

/// Each stage of a setup binds its own socket to its own address. A bind that failed ends the
/// setup with an error that names the socket and holds the cause.
pub proof fn law_stage_of_a_setup(setup: TransportSetupView, cause: Seq<char>)
    ensures
        ({
            let (role, addr, kind, message) = match setup {
                TransportSetupView::RtpListen { listen, forward } => (
                    SocketRole::RtpListen,
                    listen,
                    TransportType::Udp,
                    "Failed to bind RTP listen socket: "@,
                ),
                TransportSetupView::RtpForward { listen, forward } => (
                    SocketRole::RtpForward,
                    forward,
                    TransportType::Udp,
                    "Failed to bind RTP forward socket: "@,
                ),
                TransportSetupView::RtcpListen(t) => (
                    SocketRole::RtcpListen,
                    t.rtcp_listen,
                    TransportType::Udp,
                    "Failed to bind RTCP listen socket: "@,
                ),
                TransportSetupView::RtcpForward(t) => (
                    SocketRole::RtcpForward,
                    t.rtcp_forward,
                    TransportType::Udp,
                    "Failed to bind RTCP forward socket: "@,
                ),
                TransportSetupView::TcpListener(t) => (
                    SocketRole::TcpListener,
                    t.listen,
                    TransportType::Tcp,
                    "Failed to bind TCP listener: "@,
                ),
            };
            &&& setup.role() == role
            &&& setup.bind_addr() == addr
            &&& setup.kind() == kind
            &&& setup.after_bind(Err(cause)) == Err::<SetupStepView, ProxyErrorView>(
                ProxyErrorView::Transport(message + cause),
            )
        }),
{
}

/// A bind that succeeded leads to the next stage, or to the transport, with the addresses that
/// were given.
pub proof fn law_stages_of_a_setup_follow(
    listen: SocketAddrView,
    forward: SocketAddrView,
    udp: UdpTransportView,
    tcp: TcpTransportView,
)
    ensures
        (TransportSetupView::RtpListen { listen, forward }).after_bind(Ok(())) == Ok::<
            SetupStepView,
            ProxyErrorView,
        >(SetupStepView::Bind(TransportSetupView::RtpForward { listen, forward })),
        ({
            let r = (TransportSetupView::RtpForward { listen, forward }).after_bind(Ok(()));
            &&& r is Ok <==> listen.port < 65535 && forward.port < 65535
            &&& r is Ok ==> r->Ok_0 is Bind && r->Ok_0->Bind_0 is RtcpListen
            &&& r is Err ==> r->Err_0 == ProxyErrorView::Transport(
                "Port overflow when calculating RTCP port"@,
            )
        }),
        TransportSetupView::RtcpListen(udp).after_bind(Ok(())) == Ok::<
            SetupStepView,
            ProxyErrorView,
        >(SetupStepView::Bind(TransportSetupView::RtcpForward(udp))),
        TransportSetupView::RtcpForward(udp).after_bind(Ok(())) == Ok::<
            SetupStepView,
            ProxyErrorView,
        >(SetupStepView::Ready(TransportView::Udp(udp))),
        TransportSetupView::TcpListener(tcp).after_bind(Ok(())) == Ok::<
            SetupStepView,
            ProxyErrorView,
        >(SetupStepView::Ready(TransportView::Tcp(tcp))),
        TransportView::Udp(udp).kind() == TransportType::Udp,
        TransportView::Tcp(tcp).kind() == TransportType::Tcp,
{
}

/// A well-formed UDP transport has RTCP one port after RTP, at the same addresses. In a
/// well-formed TCP transport a connected client has an address and the listener is gone.
pub proof fn law_well_formed_transports(udp: UdpTransportView, tcp: TcpTransportView)
    ensures
        udp.wf() ==> {
            &&& udp.rtcp_listen.port == udp.rtp_listen.port + 1
            &&& udp.rtcp_listen.ip == udp.rtp_listen.ip
            &&& udp.rtcp_forward.port == udp.rtp_forward.port + 1
            &&& udp.rtcp_forward.ip == udp.rtp_forward.ip
        },
        tcp.wf() && tcp.client_connected ==> tcp.client_addr is Some && !tcp.listening,
{
}

/// A TCP transport binds its listener to the listening address. It then listens, has no
/// connection yet, and knows from where and where to it will connect.
pub proof fn law_tcp_transport_addresses(
    listen: SocketAddrView,
    forward: SocketAddrView,
    destination: SocketAddrView,
)
    ensures
        ({
            let setup = transport_setup(TransportType::Tcp, listen, forward, destination);
            let ready = setup.after_bind(Ok(()));
            let t = ready->Ok_0->Ready_0->Tcp_0;
            &&& setup.kind() == TransportType::Tcp
            &&& setup.role() == SocketRole::TcpListener && setup.bind_addr() == listen
            &&& ready matches Ok(SetupStepView::Ready(TransportView::Tcp(_)))
            &&& ready->Ok_0->Ready_0.kind() == TransportType::Tcp
            &&& t.listen == listen && t.forward == forward && t.destination == destination
            &&& t.listening && !t.client_connected && !t.dest_connected
            &&& t.client_addr is None
        }),
{
}

/// A receive accepts a client where there is none and the listener is still there, and reads
/// from the client where there is one. It changes nothing but that an accept uses the listener
/// up.
pub proof fn law_tcp_receive_begins(t: TcpTransportView)
    ensures
        t.recv_step() == Ok::<TcpStepView, ProxyErrorView>(TcpStepView::Accept)
            <==> !t.client_connected && t.listening,
        t.recv_step() == Ok::<TcpStepView, ProxyErrorView>(TcpStepView::Read)
            <==> t.client_connected && t.client_addr is Some,
        !t.client_connected && !t.listening ==> t.recv_step() == Err::<TcpStepView, ProxyErrorView>(
            ProxyErrorView::Transport("Listener already closed"@),
        ),
        t.client_connected && t.client_addr is None ==> t.recv_step() == Err::<
            TcpStepView,
            ProxyErrorView,
        >(ProxyErrorView::Transport("Client address not available"@)),
        t.recv_begun() == (TcpTransportView {
            listening: t.listening && t.client_connected,
            ..t
        }),
{
}

/// To accept a client takes the listener, and is refused where it is gone.
pub proof fn law_tcp_accept_begins(t: TcpTransportView)
    ensures
        t.listening ==> t.accept_request() == Ok::<TcpStepView, ProxyErrorView>(
            TcpStepView::Accept,
        ),
        !t.listening ==> t.accept_request() == Err::<TcpStepView, ProxyErrorView>(
            ProxyErrorView::Transport("Listener already closed"@),
        ),
        t.accept_begun() == (TcpTransportView { listening: false, ..t }),
{
}

/// An accepted client is connected, and the first one's address is kept. Then the transport
/// connects from the forwarding address to the destination. A failed accept connects nobody.
pub proof fn law_tcp_accept(t: TcpTransportView, client: SocketAddrView, cause: Seq<char>)
    ensures
        ({
            let after = t.after_accept(Ok(client));
            &&& after == TcpTransportView {
                listening: false,
                client_connected: true,
                client_addr: after.client_addr,
                ..t
            }
            &&& after.client_addr == (match t.client_addr {
                Some(first) => Some(first),
                None => Some(client),
            })
        }),
        t.accept_step(Ok(client)) == Ok::<TcpStepView, ProxyErrorView>(
            TcpStepView::Connect { source: t.forward, destination: t.destination },
        ),
        t.after_accept(Err(cause)) == (TcpTransportView { listening: false, ..t }),
        t.accept_step(Err(cause)) == Err::<TcpStepView, ProxyErrorView>(
            ProxyErrorView::Transport("Failed to accept connection: "@ + cause),
        ),
{
}

/// Once the destination is connected the transport reads from the client; a failed connect
/// changes nothing.
pub proof fn law_tcp_connect(t: TcpTransportView, cause: Seq<char>)
    ensures
        t.after_connect(Ok(())) == (TcpTransportView { dest_connected: true, ..t }),
        t.client_connected && t.client_addr is Some ==> t.connect_step(Ok(())) == Ok::<
            TcpStepView,
            ProxyErrorView,
        >(TcpStepView::Read),
        t.client_addr is None ==> t.connect_step(Ok(())) == Err::<TcpStepView, ProxyErrorView>(
            ProxyErrorView::Transport("Client address not available"@),
        ),
        !t.client_connected && t.client_addr is Some ==> t.connect_step(Ok(())) == Err::<
            TcpStepView,
            ProxyErrorView,
        >(ProxyErrorView::Transport("Client stream not available"@)),
        t.after_connect(Err(cause)) == t,
        t.connect_step(Err(cause)) == Err::<TcpStepView, ProxyErrorView>(
            ProxyErrorView::Transport("Failed to connect to destination: "@ + cause),
        ),
{
}

/// What was read from the client comes from the client's address and holds the bytes of the
/// buffer; nothing read means that the client has closed the connection. Without a client there
/// is nothing to read.
pub proof fn law_tcp_packet_is_what_the_client_sent(
    t: TcpTransportView,
    buf: Seq<u8>,
    len: usize,
    cause: Seq<char>,
)
    ensures
        t.client_addr matches Some(client) ==> {
            let r = t.read_result(buf, Ok(len));
            &&& r is Ok <==> len > 0
            &&& r is Ok ==> r->Ok_0.source == client && begins(r->Ok_0.data, buf, len as int)
            &&& r is Err ==> r->Err_0 == ProxyErrorView::Transport(
                "Connection closed by client"@,
            )
            &&& t.read_result(buf, Err(cause)) is Err
            &&& t.read_result(buf, Err(cause))->Err_0 == ProxyErrorView::Io(cause)
        },
        t.client_addr is None ==> {
            let none = ProxyErrorView::Transport("Client address not available"@);
            &&& t.read_result(buf, Ok(len)) is Err && t.read_result(buf, Ok(len))->Err_0 == none
            &&& t.read_result(buf, Err(cause)) is Err && t.read_result(buf, Err(cause))->Err_0
                == none
        },
{
}

/// A packet can be written exactly where there is a destination. What was written is all of it.
pub proof fn law_tcp_send(t: TcpTransportView, data: Seq<u8>, cause: Seq<char>)
    requires
        data.len() <= usize::MAX,
    ensures
        t.send_check() is Ok <==> t.dest_connected,
        !t.dest_connected ==> t.send_check() == Err::<(), ProxyErrorView>(
            ProxyErrorView::Transport("Destination stream not available"@),
        ),
        tcp_sent(data, Ok(())) is Ok && tcp_sent(data, Ok(()))->Ok_0 == data.len(),
        tcp_sent(data, Err(cause)) == Err::<usize, ProxyErrorView>(ProxyErrorView::Io(cause)),
{
}

/// A closed transport has neither connection; all else stays.
pub proof fn law_tcp_close(t: TcpTransportView)
    ensures
        t.closed() == (TcpTransportView { client_connected: false, dest_connected: false, ..t }),
{
}

} // verus!

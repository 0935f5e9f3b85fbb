//! Transports: which sockets a session binds and in what order, and what the results of socket
//! operations mean.

use vstd::prelude::*;

use crate::addr::{increment_port, port_overflow, SocketAddr, SocketAddrView};
use crate::error::{ProxyError, ProxyErrorView};
use crate::model::{option_view, result_view};
use crate::payload::{bytes_from_vec, bytes_len, cut_to_received, received_prefix, Packet, PacketView};
use crate::text::join2;
use bytes::Bytes;

verus! {

/// The transport protocol of a session.
#[derive(Debug, Clone, Copy, PartialEq, Eq, Structural)]
pub enum TransportType {
    Udp,
    Tcp,
}

impl View for TransportType {
    type V = TransportType;

    open spec fn view(&self) -> TransportType {
        *self
    }
}

/// What a socket is for.
#[derive(Debug, Clone, Copy, PartialEq, Eq, Structural)]
pub enum SocketRole {
    RtpListen,
    RtpForward,
    RtcpListen,
    RtcpForward,
    TcpListener,
    /// The connection that the listener accepted.
    TcpClient,
    /// The connection to the destination.
    TcpDestination,
}

/// The addresses of a UDP transport's four sockets.
///
/// RTCP uses the port that follows the RTP port, on the listening and on the forwarding side.
#[derive(Debug)]
pub struct UdpTransport {
    rtp_listen: SocketAddr,
    rtp_forward: SocketAddr,
    rtcp_listen: SocketAddr,
    rtcp_forward: SocketAddr,
}

/// The mathematical counterpart of [`UdpTransport`].
pub struct UdpTransportView {
    pub rtp_listen: SocketAddrView,
    pub rtp_forward: SocketAddrView,
    pub rtcp_listen: SocketAddrView,
    pub rtcp_forward: SocketAddrView,
}

impl View for UdpTransport {
    type V = UdpTransportView;

    closed spec fn view(&self) -> UdpTransportView {
        UdpTransportView {
            rtp_listen: self.rtp_listen@,
            rtp_forward: self.rtp_forward@,
            rtcp_listen: self.rtcp_listen@,
            rtcp_forward: self.rtcp_forward@,
        }
    }
}

impl UdpTransportView {
    /// Each RTCP address is its RTP address with the next port.
    pub open spec fn wf(self) -> bool {
        &&& self.rtp_listen.has_next_port()
        &&& self.rtp_forward.has_next_port()
        &&& self.rtcp_listen == self.rtp_listen.next_port()
        &&& self.rtcp_forward == self.rtp_forward.next_port()
    }
}

/// The UDP transport for a listening and a forwarding address, or the error where one of the
/// two has no port after its own.
pub open spec fn udp_transport(listen: SocketAddrView, forward: SocketAddrView) -> Result<
    UdpTransportView,
    ProxyErrorView,
> {
    if listen.has_next_port() && forward.has_next_port() {
        Ok(
            UdpTransportView {
                rtp_listen: listen,
                rtp_forward: forward,
                rtcp_listen: listen.next_port(),
                rtcp_forward: forward.next_port(),
            },
        )
    } else {
        Err(port_overflow())
    }
}

/// What a UDP receive comes to: the received part of the buffer and its source, or the error.
pub open spec fn udp_received(buf: Seq<u8>, outcome: Result<(usize, SocketAddrView), Seq<char>>) -> Result<
    PacketView,
    ProxyErrorView,
> {
    match outcome {
        Ok((len, source)) => Ok(PacketView { data: received_prefix(buf, len as int), source }),
        Err(e) => Err(ProxyErrorView::Io(e)),
    }
}

/// What a UDP send comes to: the number of bytes sent, or the error.
pub open spec fn udp_sent(outcome: Result<usize, Seq<char>>) -> Result<usize, ProxyErrorView> {
    match outcome {
        Ok(len) => Ok(len),
        Err(e) => Err(ProxyErrorView::Io(e)),
    }
}

impl UdpTransport {
    /// The four addresses for a listening and a forwarding address.
    pub fn new(listen_addr: &SocketAddr, forward_addr: &SocketAddr) -> (r: Result<
        UdpTransport,
        ProxyError,
    >)
        ensures
            result_view(r) == udp_transport(listen_addr@, forward_addr@),
            r matches Ok(t) ==> t@.wf(),
    {
        let rtcp_listen: SocketAddr = match increment_port(listen_addr) {
            Ok(addr) => addr,
            Err(e) => return Err(e),
        };
        let rtcp_forward: SocketAddr = match increment_port(forward_addr) {
            Ok(addr) => addr,
            Err(e) => return Err(e),
        };
        Ok(
            UdpTransport {
                rtp_listen: listen_addr.clone(),
                rtp_forward: forward_addr.clone(),
                rtcp_listen,
                rtcp_forward,
            },
        )
    }

    /// Where the RTP listening socket is bound.
    pub fn rtp_listen_socket(&self) -> (addr: &SocketAddr)
        ensures
            addr@ == self@.rtp_listen,
    {
        &self.rtp_listen
    }

    /// Where the RTP forwarding socket is bound.
    pub fn rtp_forward_socket(&self) -> (addr: &SocketAddr)
        ensures
            addr@ == self@.rtp_forward,
    {
        &self.rtp_forward
    }

    /// Where the RTCP listening socket is bound.
    pub fn rtcp_listen_socket(&self) -> (addr: &SocketAddr)
        ensures
            addr@ == self@.rtcp_listen,
    {
        &self.rtcp_listen
    }

    /// Where the RTCP forwarding socket is bound.
    pub fn rtcp_forward_socket(&self) -> (addr: &SocketAddr)
        ensures
            addr@ == self@.rtcp_forward,
    {
        &self.rtcp_forward
    }

    /// Turns the result of a receive on the RTP listening socket into a packet.
    pub fn recv(&self, buf: Vec<u8>, outcome: Result<(usize, SocketAddr), String>) -> (r: Result<
        Packet,
        ProxyError,
    >)
        ensures
            result_view(r) == udp_received(buf@, result_view(outcome)),
    {
        match outcome {
            Ok((len, source)) => {
                let data: Bytes = bytes_from_vec(cut_to_received(buf, len));
                Ok(Packet { data, source })
            },
            Err(e) => Err(ProxyError::Io(e)),
        }
    }

    /// Turns the result of a send on the RTP forwarding socket into the number of bytes sent.
    pub fn send(&self, outcome: Result<usize, String>) -> (r: Result<usize, ProxyError>)
        ensures
            result_view(r) == udp_sent(result_view(outcome)),
    {
        match outcome {
            Ok(len) => Ok(len),
            Err(e) => Err(ProxyError::Io(e)),
        }
    }
}

/// The connections of a TCP transport.
///
/// The listener takes one client; once it has, the transport connects to the destination.
#[derive(Debug)]
pub struct TcpTransport {
    listen_addr: SocketAddr,
    forward_addr: SocketAddr,
    destination_addr: SocketAddr,
    listening: bool,
    client_connected: bool,
    dest_connected: bool,
    client_addr: Option<SocketAddr>,
}

/// The mathematical counterpart of [`TcpTransport`].
pub struct TcpTransportView {
    /// Where the listener is bound.
    pub listen: SocketAddrView,
    /// The source address of the connection to the destination.
    pub forward: SocketAddrView,
    /// Where the transport connects to.
    pub destination: SocketAddrView,
    /// Whether the listener is still there to accept a client.
    pub listening: bool,
    /// Whether there is a client stream.
    pub client_connected: bool,
    /// Whether there is a destination stream.
    pub dest_connected: bool,
    /// The address of the first client.
    pub client_addr: Option<SocketAddrView>,
}

impl View for TcpTransport {
    type V = TcpTransportView;

    closed spec fn view(&self) -> TcpTransportView {
        TcpTransportView {
            listen: self.listen_addr@,
            forward: self.forward_addr@,
            destination: self.destination_addr@,
            listening: self.listening,
            client_connected: self.client_connected,
            dest_connected: self.dest_connected,
            client_addr: option_view(self.client_addr),
        }
    }
}

/// What a TCP transport asks for in order to receive.
#[derive(Debug)]
pub enum TcpStep {
    /// Accept one connection, then close the listener.
    Accept,
    /// Connect from one address to another.
    Connect { source: SocketAddr, destination: SocketAddr },
    /// Read from the client stream.
    Read,
}

/// The mathematical counterpart of [`TcpStep`].
pub enum TcpStepView {
    Accept,
    Connect { source: SocketAddrView, destination: SocketAddrView },
    Read,
}

impl View for TcpStep {
    type V = TcpStepView;

    open spec fn view(&self) -> TcpStepView {
        match self {
            TcpStep::Accept => TcpStepView::Accept,
            TcpStep::Connect { source, destination } => TcpStepView::Connect {
                source: source@,
                destination: destination@,
            },
            TcpStep::Read => TcpStepView::Read,
        }
    }
}

impl TcpTransportView {
    /// A transport whose listener is bound and which has no connection yet.
    pub open spec fn fresh(
        listen: SocketAddrView,
        forward: SocketAddrView,
        destination: SocketAddrView,
    ) -> TcpTransportView {
        TcpTransportView {
            listen,
            forward,
            destination,
            listening: true,
            client_connected: false,
            dest_connected: false,
            client_addr: None,
        }
    }

    /// A connected client has an address, and the listener is gone.
    pub open spec fn wf(self) -> bool {
        self.client_connected ==> self.client_addr is Some && !self.listening
    }

    /// How accepting a client begins.
    pub open spec fn accept_request(self) -> Result<TcpStepView, ProxyErrorView> {
        if self.listening {
            Ok(TcpStepView::Accept)
        } else {
            Err(ProxyErrorView::Transport("Listener already closed"@))
        }
    }

    /// The transport once an accept has begun: it uses the listener up.
    pub open spec fn accept_begun(self) -> TcpTransportView {
        TcpTransportView { listening: false, ..self }
    }

    /// How a receive begins.
    pub open spec fn recv_step(self) -> Result<TcpStepView, ProxyErrorView> {
        if !self.client_connected {
            self.accept_request()
        } else {
            self.read_step()
        }
    }

    /// The transport once a receive has begun.
    pub open spec fn recv_begun(self) -> TcpTransportView {
        if self.client_connected {
            self
        } else {
            self.accept_begun()
        }
    }

    /// How a receive goes on once the connections are there.
    pub open spec fn read_step(self) -> Result<TcpStepView, ProxyErrorView> {
        if self.client_addr is None {
            Err(ProxyErrorView::Transport("Client address not available"@))
        } else if !self.client_connected {
            Err(ProxyErrorView::Transport("Client stream not available"@))
        } else {
            Ok(TcpStepView::Read)
        }
    }

    /// The transport after an accept.
    pub open spec fn after_accept(self, outcome: Result<SocketAddrView, Seq<char>>) -> TcpTransportView {
        match outcome {
            Ok(client) => TcpTransportView {
                listening: false,
                client_connected: true,
                client_addr: if self.client_addr is None {
                    Some(client)
                } else {
                    self.client_addr
                },
                ..self
            },
            Err(_) => TcpTransportView { listening: false, ..self },
        }
    }

    /// What follows an accept.
    pub open spec fn accept_step(self, outcome: Result<SocketAddrView, Seq<char>>) -> Result<
        TcpStepView,
        ProxyErrorView,
    > {
        match outcome {
            Ok(_) => Ok(
                TcpStepView::Connect { source: self.forward, destination: self.destination },
            ),
            Err(e) => Err(ProxyErrorView::Transport("Failed to accept connection: "@ + e)),
        }
    }

    /// The transport after a connect.
    pub open spec fn after_connect(self, outcome: Result<(), Seq<char>>) -> TcpTransportView {
        match outcome {
            Ok(_) => TcpTransportView { dest_connected: true, ..self },
            Err(_) => self,
        }
    }

    /// What follows a connect.
    pub open spec fn connect_step(self, outcome: Result<(), Seq<char>>) -> Result<
        TcpStepView,
        ProxyErrorView,
    > {
        match outcome {
            Ok(_) => self.read_step(),
            Err(e) => Err(ProxyErrorView::Transport("Failed to connect to destination: "@ + e)),
        }
    }

    /// What a read from the client comes to.
    pub open spec fn read_result(self, buf: Seq<u8>, outcome: Result<usize, Seq<char>>) -> Result<
        PacketView,
        ProxyErrorView,
    > {
        match (self.client_addr, outcome) {
            (None, _) => Err(ProxyErrorView::Transport("Client address not available"@)),
            (Some(_), Err(e)) => Err(ProxyErrorView::Io(e)),
            (Some(client), Ok(len)) => if len == 0 {
                Err(ProxyErrorView::Transport("Connection closed by client"@))
            } else {
                Ok(PacketView { data: received_prefix(buf, len as int), source: client })
            },
        }
    }

    /// Whether a packet can be written to the destination.
    pub open spec fn send_check(self) -> Result<(), ProxyErrorView> {
        if self.dest_connected {
            Ok(())
        } else {
            Err(ProxyErrorView::Transport("Destination stream not available"@))
        }
    }

    /// The transport without its connections.
    pub open spec fn closed(self) -> TcpTransportView {
        TcpTransportView { client_connected: false, dest_connected: false, ..self }
    }
}

/// What writing a whole payload comes to: its length, or the error.
pub open spec fn tcp_sent(data: Seq<u8>, outcome: Result<(), Seq<char>>) -> Result<
    usize,
    ProxyErrorView,
> {
    match outcome {
        Ok(_) => Ok(data.len() as usize),
        Err(e) => Err(ProxyErrorView::Io(e)),
    }
}

impl TcpTransport {
    /// A transport whose listener is bound to `listen_addr`, which will connect from
    /// `forward_addr` to `destination_addr`.
    pub fn new(
        listen_addr: SocketAddr,
        forward_addr: SocketAddr,
        destination_addr: SocketAddr,
    ) -> (t: TcpTransport)
        ensures
            t@ == TcpTransportView::fresh(listen_addr@, forward_addr@, destination_addr@),
            t@.wf(),
    {
        TcpTransport {
            listen_addr,
            forward_addr,
            destination_addr,
            listening: true,
            client_connected: false,
            dest_connected: false,
            client_addr: None,
        }
    }

    /// Where the listener is bound.
    pub fn listen_addr(&self) -> (addr: &SocketAddr)
        ensures
            addr@ == self@.listen,
    {
        &self.listen_addr
    }

    /// The address of the client, once one has connected.
    pub fn client_addr(&self) -> (addr: Option<SocketAddr>)
        ensures
            option_view(addr) == self@.client_addr,
    {
        match &self.client_addr {
            Some(addr) => Some(addr.clone()),
            None => None,
        }
    }

    /// Whether both the client and the destination are connected.
    pub fn is_fully_connected(&self) -> (r: bool)
        ensures
            r == (self@.client_connected && self@.dest_connected),
    {
        self.client_connected && self.dest_connected
    }

    /// Begins a receive: accepts a client where there is none yet, and reads otherwise.
    pub fn recv(&mut self) -> (r: Result<TcpStep, ProxyError>)
        ensures
            final(self)@ == old(self)@.recv_begun(),
            result_view(r) == old(self)@.recv_step(),
            old(self)@.wf() ==> final(self)@.wf(),
    {
        if !self.client_connected {
            self.accept_client()
        } else {
            self.read_or_error()
        }
    }

    /// Takes the listener for the one accept it is good for.
    pub fn accept_client(&mut self) -> (r: Result<TcpStep, ProxyError>)
        ensures
            final(self)@ == old(self)@.accept_begun(),
            result_view(r) == old(self)@.accept_request(),
            old(self)@.wf() ==> final(self)@.wf(),
    {
        if self.listening {
            self.listening = false;
            Ok(TcpStep::Accept)
        } else {
            Err(ProxyError::transport("Listener already closed"))
        }
    }

    fn read_or_error(&self) -> (r: Result<TcpStep, ProxyError>)
        ensures
            result_view(r) == self@.read_step(),
    {
        if self.client_addr.is_none() {
            Err(ProxyError::transport("Client address not available"))
        } else if !self.client_connected {
            Err(ProxyError::transport("Client stream not available"))
        } else {
            Ok(TcpStep::Read)
        }
    }

    /// Takes the result of an accept: the client's address, or the error.
    pub fn client_accepted(&mut self, outcome: Result<SocketAddr, String>) -> (r: Result<
        TcpStep,
        ProxyError,
    >)
        ensures
            final(self)@ == old(self)@.after_accept(result_view(outcome)),
            result_view(r) == old(self)@.accept_step(result_view(outcome)),
            old(self)@.wf() ==> final(self)@.wf(),
    {
        self.listening = false;
        match outcome {
            Ok(client) => {
                self.client_connected = true;
                if self.client_addr.is_none() {
                    self.client_addr = Some(client);
                }
                Ok(
                    TcpStep::Connect {
                        source: self.forward_addr.clone(),
                        destination: self.destination_addr.clone(),
                    },
                )
            },
            Err(e) => Err(
                ProxyError::Transport(join2("Failed to accept connection: ", e.as_str())),
            ),
        }
    }

    /// Takes the result of the connect to the destination.
    pub fn destination_connected(&mut self, outcome: Result<(), String>) -> (r: Result<
        TcpStep,
        ProxyError,
    >)
        ensures
            final(self)@ == old(self)@.after_connect(result_view(outcome)),
            result_view(r) == old(self)@.connect_step(result_view(outcome)),
            old(self)@.wf() ==> final(self)@.wf(),
    {
        match outcome {
            Ok(_) => {
                self.dest_connected = true;
                self.read_or_error()
            },
            Err(e) => Err(
                ProxyError::Transport(join2("Failed to connect to destination: ", e.as_str())),
            ),
        }
    }

    /// Takes the result of a read from the client: the number of bytes read into `buf`, zero
    /// where the client has closed the connection.
    pub fn client_read(&self, buf: Vec<u8>, outcome: Result<usize, String>) -> (r: Result<
        Packet,
        ProxyError,
    >)
        ensures
            result_view(r) == self@.read_result(buf@, result_view(outcome)),
    {
        match &self.client_addr {
            None => Err(ProxyError::transport("Client address not available")),
            Some(client) => match outcome {
                Err(e) => Err(ProxyError::Io(e)),
                Ok(len) => {
                    if len == 0 {
                        Err(ProxyError::transport("Connection closed by client"))
                    } else {
                        let data: Bytes = bytes_from_vec(cut_to_received(buf, len));
                        Ok(Packet { data, source: client.clone() })
                    }
                },
            },
        }
    }

    /// Whether there is a destination to write to.
    pub fn send(&self) -> (r: Result<(), ProxyError>)
        ensures
            result_view(r) == self@.send_check(),
    {
        if self.dest_connected {
            Ok(())
        } else {
            Err(ProxyError::transport("Destination stream not available"))
        }
    }

    /// Takes the result of writing `data` to the destination: its length where all of it was
    /// written.
    pub fn destination_written(&self, data: &Bytes, outcome: Result<(), String>) -> (r: Result<
        usize,
        ProxyError,
    >)
        ensures
            result_view(r) == tcp_sent(crate::payload::payload(*data), result_view(outcome)),
    {
        match outcome {
            Ok(_) => Ok(bytes_len(data)),
            Err(e) => Err(ProxyError::Io(e)),
        }
    }

    /// Gives the connections up. Tells which of the two streams, client and destination, there
    /// were and are to be shut down.
    pub fn close(&mut self) -> (streams: (bool, bool))
        ensures
            final(self)@ == old(self)@.closed(),
            streams == (old(self)@.client_connected, old(self)@.dest_connected),
            old(self)@.wf() ==> final(self)@.wf(),
    {
        let streams: (bool, bool) = (self.client_connected, self.dest_connected);
        self.client_connected = false;
        self.dest_connected = false;
        streams
    }
}

/// A transport whose sockets are bound.
#[derive(Debug)]
pub enum Transport {
    Udp(UdpTransport),
    Tcp(TcpTransport),
}

/// The mathematical counterpart of [`Transport`].
pub enum TransportView {
    Udp(UdpTransportView),
    Tcp(TcpTransportView),
}

impl View for Transport {
    type V = TransportView;

    open spec fn view(&self) -> TransportView {
        match self {
            Transport::Udp(t) => TransportView::Udp(t@),
            Transport::Tcp(t) => TransportView::Tcp(t@),
        }
    }
}

impl TransportView {
    /// The protocol of the transport.
    pub open spec fn kind(self) -> TransportType {
        match self {
            TransportView::Udp(_) => TransportType::Udp,
            TransportView::Tcp(_) => TransportType::Tcp,
        }
    }
}

impl Transport {
    /// The protocol of the transport.
    pub fn kind(&self) -> (kind: TransportType)
        ensures
            kind == self@.kind(),
    {
        match self {
            Transport::Udp(_) => TransportType::Udp,
            Transport::Tcp(_) => TransportType::Tcp,
        }
    }
}

/// A transport that is being set up, by the socket that has to be bound next.
#[derive(Debug)]
pub enum TransportSetup {
    RtpListen { listen_addr: SocketAddr, forward_addr: SocketAddr },
    RtpForward { listen_addr: SocketAddr, forward_addr: SocketAddr },
    RtcpListen(UdpTransport),
    RtcpForward(UdpTransport),
    TcpListener(TcpTransport),
}

/// The mathematical counterpart of [`TransportSetup`].
pub enum TransportSetupView {
    RtpListen { listen: SocketAddrView, forward: SocketAddrView },
    RtpForward { listen: SocketAddrView, forward: SocketAddrView },
    RtcpListen(UdpTransportView),
    RtcpForward(UdpTransportView),
    TcpListener(TcpTransportView),
}

impl View for TransportSetup {
    type V = TransportSetupView;

    open spec fn view(&self) -> TransportSetupView {
        match self {
            TransportSetup::RtpListen { listen_addr, forward_addr } => TransportSetupView::RtpListen {
                listen: listen_addr@,
                forward: forward_addr@,
            },
            TransportSetup::RtpForward { listen_addr, forward_addr } => TransportSetupView::RtpForward {
                listen: listen_addr@,
                forward: forward_addr@,
            },
            TransportSetup::RtcpListen(t) => TransportSetupView::RtcpListen(t@),
            TransportSetup::RtcpForward(t) => TransportSetupView::RtcpForward(t@),
            TransportSetup::TcpListener(t) => TransportSetupView::TcpListener(t@),
        }
    }
}

/// What follows a bind.
#[derive(Debug)]
pub enum SetupStep {
    /// There is another socket to bind.
    Bind(TransportSetup),
    /// All sockets are bound.
    Ready(Transport),
}

/// The mathematical counterpart of [`SetupStep`].
pub enum SetupStepView {
    Bind(TransportSetupView),
    Ready(TransportView),
}

impl View for SetupStep {
    type V = SetupStepView;

    open spec fn view(&self) -> SetupStepView {
        match self {
            SetupStep::Bind(s) => SetupStepView::Bind(s@),
            SetupStep::Ready(t) => SetupStepView::Ready(t@),
        }
    }
}

/// How setting up a transport begins.
pub open spec fn transport_setup(
    kind: TransportType,
    listen: SocketAddrView,
    forward: SocketAddrView,
    destination: SocketAddrView,
) -> TransportSetupView {
    match kind {
        TransportType::Udp => TransportSetupView::RtpListen { listen, forward },
        TransportType::Tcp => TransportSetupView::TcpListener(
            TcpTransportView::fresh(listen, forward, destination),
        ),
    }
}

impl TransportSetupView {
    /// The protocol of the transport that is being set up.
    pub open spec fn kind(self) -> TransportType {
        match self {
            TransportSetupView::TcpListener(_) => TransportType::Tcp,
            _ => TransportType::Udp,
        }
    }

    /// The socket that has to be bound next.
    pub open spec fn role(self) -> SocketRole {
        match self {
            TransportSetupView::RtpListen { .. } => SocketRole::RtpListen,
            TransportSetupView::RtpForward { .. } => SocketRole::RtpForward,
            TransportSetupView::RtcpListen(_) => SocketRole::RtcpListen,
            TransportSetupView::RtcpForward(_) => SocketRole::RtcpForward,
            TransportSetupView::TcpListener(_) => SocketRole::TcpListener,
        }
    }

    /// The address to which it has to be bound.
    pub open spec fn bind_addr(self) -> SocketAddrView {
        match self {
            TransportSetupView::RtpListen { listen, .. } => listen,
            TransportSetupView::RtpForward { forward, .. } => forward,
            TransportSetupView::RtcpListen(t) => t.rtcp_listen,
            TransportSetupView::RtcpForward(t) => t.rtcp_forward,
            TransportSetupView::TcpListener(t) => t.listen,
        }
    }

    /// The beginning of the error message where that bind fails.
    pub open spec fn bind_error(self) -> Seq<char> {
        match self {
            TransportSetupView::RtpListen { .. } => "Failed to bind RTP listen socket: "@,
            TransportSetupView::RtpForward { .. } => "Failed to bind RTP forward socket: "@,
            TransportSetupView::RtcpListen(_) => "Failed to bind RTCP listen socket: "@,
            TransportSetupView::RtcpForward(_) => "Failed to bind RTCP forward socket: "@,
            TransportSetupView::TcpListener(_) => "Failed to bind TCP listener: "@,
        }
    }

    /// What follows a bind: the next socket, the finished transport, or the error.
    pub open spec fn after_bind(self, outcome: Result<(), Seq<char>>) -> Result<
        SetupStepView,
        ProxyErrorView,
    > {
        match outcome {
            Err(e) => Err(ProxyErrorView::Transport(self.bind_error() + e)),
            Ok(_) => match self {
                TransportSetupView::RtpListen { listen, forward } => Ok(
                    SetupStepView::Bind(TransportSetupView::RtpForward { listen, forward }),
                ),
                TransportSetupView::RtpForward { listen, forward } => match udp_transport(
                    listen,
                    forward,
                ) {
                    Ok(t) => Ok(SetupStepView::Bind(TransportSetupView::RtcpListen(t))),
                    Err(e) => Err(e),
                },
                TransportSetupView::RtcpListen(t) => Ok(
                    SetupStepView::Bind(TransportSetupView::RtcpForward(t)),
                ),
                TransportSetupView::RtcpForward(t) => Ok(
                    SetupStepView::Ready(TransportView::Udp(t)),
                ),
                TransportSetupView::TcpListener(t) => Ok(
                    SetupStepView::Ready(TransportView::Tcp(t)),
                ),
            },
        }
    }
}

/// Begins setting up a transport.
pub fn create_transport(
    transport_type: TransportType,
    listen_addr: SocketAddr,
    forward_addr: SocketAddr,
    destination_addr: SocketAddr,
) -> (setup: TransportSetup)
    ensures
        setup@ == transport_setup(
            transport_type,
            listen_addr@,
            forward_addr@,
            destination_addr@,
        ),
{
    match transport_type {
        TransportType::Udp => TransportSetup::RtpListen { listen_addr, forward_addr },
        TransportType::Tcp => TransportSetup::TcpListener(
            TcpTransport::new(listen_addr, forward_addr, destination_addr),
        ),
    }
}

impl TransportSetup {
    /// The socket that has to be bound next, and the address to bind it to.
    pub fn bind_request(&self) -> (request: (SocketRole, SocketAddr))
        ensures
            request.0 == self@.role(),
            request.1@ == self@.bind_addr(),
    {
        match self {
            TransportSetup::RtpListen { listen_addr, .. } => (
                SocketRole::RtpListen,
                listen_addr.clone(),
            ),
            TransportSetup::RtpForward { forward_addr, .. } => (
                SocketRole::RtpForward,
                forward_addr.clone(),
            ),
            TransportSetup::RtcpListen(t) => (
                SocketRole::RtcpListen,
                t.rtcp_listen_socket().clone(),
            ),
            TransportSetup::RtcpForward(t) => (
                SocketRole::RtcpForward,
                t.rtcp_forward_socket().clone(),
            ),
            TransportSetup::TcpListener(t) => (SocketRole::TcpListener, t.listen_addr().clone()),
        }
    }

    fn bind_error(&self) -> (text: &'static str)
        ensures
            text@ == self@.bind_error(),
    {
        match self {
            TransportSetup::RtpListen { .. } => "Failed to bind RTP listen socket: ",
            TransportSetup::RtpForward { .. } => "Failed to bind RTP forward socket: ",
            TransportSetup::RtcpListen(_) => "Failed to bind RTCP listen socket: ",
            TransportSetup::RtcpForward(_) => "Failed to bind RTCP forward socket: ",
            TransportSetup::TcpListener(_) => "Failed to bind TCP listener: ",
        }
    }

    /// Takes the result of the bind that was asked for.
    pub fn bound(self, outcome: Result<(), String>) -> (r: Result<SetupStep, ProxyError>)
        ensures
            result_view(r) == self@.after_bind(result_view(outcome)),
    {
        if let Err(e) = outcome {
            return Err(ProxyError::Transport(join2(self.bind_error(), e.as_str())));
        }
        match self {
            TransportSetup::RtpListen { listen_addr, forward_addr } => Ok(
                SetupStep::Bind(TransportSetup::RtpForward { listen_addr, forward_addr }),
            ),
            TransportSetup::RtpForward { listen_addr, forward_addr } => {
                match UdpTransport::new(&listen_addr, &forward_addr) {
                    Ok(t) => Ok(SetupStep::Bind(TransportSetup::RtcpListen(t))),
                    Err(e) => Err(e),
                }
            },
            TransportSetup::RtcpListen(t) => Ok(SetupStep::Bind(TransportSetup::RtcpForward(t))),
            TransportSetup::RtcpForward(t) => Ok(SetupStep::Ready(Transport::Udp(t))),
            TransportSetup::TcpListener(t) => Ok(SetupStep::Ready(Transport::Tcp(t))),
        }
    }
}

} // verus!

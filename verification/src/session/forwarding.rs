//! The forwarding tasks of a session.

use vstd::prelude::*;

use super::event::{SessionEvent, SessionEventView};
use crate::addr::{SocketAddr, SocketAddrView};
use crate::model::seq_view;
use crate::transport::{SocketRole, TransportType};

verus! {

/// Where a forwarding task sends a packet.
#[derive(Debug)]
pub enum ForwardTarget {
    /// Always to one address.
    Fixed(SocketAddr),
    /// To the client that sends RTP packets.
    Client,
    /// To the client that sends RTCP packets.
    RtcpClient,
}

/// The mathematical counterpart of [`ForwardTarget`].
pub enum ForwardTargetView {
    Fixed(SocketAddrView),
    Client,
    RtcpClient,
}

impl View for ForwardTarget {
    type V = ForwardTargetView;

    open spec fn view(&self) -> ForwardTargetView {
        match self {
            ForwardTarget::Fixed(addr) => ForwardTargetView::Fixed(addr@),
            ForwardTarget::Client => ForwardTargetView::Client,
            ForwardTarget::RtcpClient => ForwardTargetView::RtcpClient,
        }
    }
}

/// A task that forwards packets from one UDP socket through another.
#[derive(Debug)]
pub struct UdpForwarding {
    /// What the task is called in log messages.
    pub name: String,
    /// The socket it receives from.
    pub recv_socket: SocketRole,
    /// The socket it sends through.
    pub send_socket: SocketRole,
    /// Where it sends to.
    pub target: ForwardTarget,
    /// Whether its packets are counted in the session's statistics.
    pub counts_traffic: bool,
    /// Whether its packets count as activity of the session.
    pub counts_activity: bool,
    /// Whether its packets tell where the client's RTCP comes from.
    pub learns_rtcp_client: bool,
}

/// The mathematical counterpart of [`UdpForwarding`].
pub struct UdpForwardingView {
    pub name: Seq<char>,
    pub recv_socket: SocketRole,
    pub send_socket: SocketRole,
    pub target: ForwardTargetView,
    pub counts_traffic: bool,
    pub counts_activity: bool,
    pub learns_rtcp_client: bool,
}

impl View for UdpForwarding {
    type V = UdpForwardingView;

    open spec fn view(&self) -> UdpForwardingView {
        UdpForwardingView {
            name: self.name@,
            recv_socket: self.recv_socket,
            send_socket: self.send_socket,
            target: self.target@,
            counts_traffic: self.counts_traffic,
            counts_activity: self.counts_activity,
            learns_rtcp_client: self.learns_rtcp_client,
        }
    }
}

impl UdpForwardingView {
    /// The task that sends RTCP packets from the client to the destination's RTCP port. They
    /// are not counted.
    pub open spec fn rtcp(destination: SocketAddrView) -> UdpForwardingView {
        UdpForwardingView {
            name: "RTCP"@,
            recv_socket: SocketRole::RtcpListen,
            send_socket: SocketRole::RtcpForward,
            target: ForwardTargetView::Fixed(destination.next_port()),
            counts_traffic: false,
            counts_activity: false,
            learns_rtcp_client: true,
        }
    }

    /// The task that sends RTP packets from the destination to the client.
    pub open spec fn reverse_rtp() -> UdpForwardingView {
        UdpForwardingView {
            name: "reverse RTP"@,
            recv_socket: SocketRole::RtpForward,
            send_socket: SocketRole::RtpListen,
            target: ForwardTargetView::Client,
            counts_traffic: true,
            counts_activity: true,
            learns_rtcp_client: false,
        }
    }

    /// The task that sends RTCP packets from the destination to the client. They are not
    /// counted.
    pub open spec fn reverse_rtcp() -> UdpForwardingView {
        UdpForwardingView {
            name: "reverse RTCP"@,
            recv_socket: SocketRole::RtcpForward,
            send_socket: SocketRole::RtcpListen,
            target: ForwardTargetView::RtcpClient,
            counts_traffic: false,
            counts_activity: false,
            learns_rtcp_client: false,
        }
    }
}

/// What has to be done to bring a session up, one action after the other.
#[derive(Debug)]
pub enum StartAction {
    /// Start the task that forwards packets from the client, which come in at one socket, to the
    /// destination, through another.
    ForwardRtp { recv_socket: SocketRole, send_socket: SocketRole },
    /// Start a task that forwards packets between two UDP sockets.
    ForwardUdp(UdpForwarding),
    /// Wait until the client and the destination are connected.
    AwaitConnections,
    /// Start the task that forwards from the destination back to the client.
    ForwardReverseTcp,
    /// Start to report statistics: the first time at once, and then every so many seconds, as
    /// [`report_due`] tells.
    ReportStats { interval_seconds: u32 },
}

/// The mathematical counterpart of [`StartAction`].
pub enum StartActionView {
    ForwardRtp { recv_socket: SocketRole, send_socket: SocketRole },
    ForwardUdp(UdpForwardingView),
    AwaitConnections,
    ForwardReverseTcp,
    ReportStats { interval_seconds: u32 },
}

impl StartActionView {
    /// The task that forwards packets from the client to the destination. Over UDP they come in
    /// at the listening socket and leave from the forwarding socket, over TCP they go from one
    /// connection to the other.
    pub open spec fn forward_rtp(transport: TransportType) -> StartActionView {
        match transport {
            TransportType::Udp => StartActionView::ForwardRtp {
                recv_socket: SocketRole::RtpListen,
                send_socket: SocketRole::RtpForward,
            },
            TransportType::Tcp => StartActionView::ForwardRtp {
                recv_socket: SocketRole::TcpClient,
                send_socket: SocketRole::TcpDestination,
            },
        }
    }
}

impl StartAction {
    /// The task that forwards packets from the client to the destination.
    pub fn forward_rtp(transport: TransportType) -> (action: StartAction)
        ensures
            action@ == StartActionView::forward_rtp(transport),
    {
        match transport {
            TransportType::Udp => StartAction::ForwardRtp {
                recv_socket: SocketRole::RtpListen,
                send_socket: SocketRole::RtpForward,
            },
            TransportType::Tcp => StartAction::ForwardRtp {
                recv_socket: SocketRole::TcpClient,
                send_socket: SocketRole::TcpDestination,
            },
        }
    }
}

impl View for StartAction {
    type V = StartActionView;

    open spec fn view(&self) -> StartActionView {
        match self {
            StartAction::ForwardRtp { recv_socket, send_socket } => StartActionView::ForwardRtp {
                recv_socket: *recv_socket,
                send_socket: *send_socket,
            },
            StartAction::ForwardUdp(task) => StartActionView::ForwardUdp(task@),
            StartAction::AwaitConnections => StartActionView::AwaitConnections,
            StartAction::ForwardReverseTcp => StartActionView::ForwardReverseTcp,
            StartAction::ReportStats { interval_seconds } => StartActionView::ReportStats {
                interval_seconds: *interval_seconds,
            },
        }
    }
}

/// When a periodic report is due, in seconds from the start: the first one, which has the
/// number zero, at once, and each further one an interval later.
pub open spec fn report_time(interval_seconds: nat, number: nat) -> nat {
    number * interval_seconds
}

/// When a periodic report is due, in seconds from the start.
pub fn report_due(interval_seconds: u32, number: u32) -> (seconds: u64)
    ensures
        seconds == report_time(interval_seconds as nat, number as nat),
{
    assert(number * interval_seconds <= u64::MAX) by (nonlinear_arith)
        requires
            number <= u32::MAX,
            interval_seconds <= u32::MAX,
    ;
    number as u64 * interval_seconds as u64
}

/// A session that was made active.
#[derive(Debug)]
pub struct Started {
    /// What has to be done to bring it up.
    pub actions: Vec<StartAction>,
    /// What is to be reported.
    pub events: Vec<SessionEvent>,
}

/// The mathematical counterpart of [`Started`].
pub struct StartedView {
    pub actions: Seq<StartActionView>,
    pub events: Seq<SessionEventView>,
}

impl View for Started {
    type V = StartedView;

    open spec fn view(&self) -> StartedView {
        StartedView { actions: seq_view(self.actions@), events: seq_view(self.events@) }
    }
}

} // verus!

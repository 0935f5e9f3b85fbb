//! Sessions: what each event of a task changes, counts, sends and reports.

use vstd::prelude::*;

use super::transport::begins;
use crate::addr::SocketAddrView;
use crate::error::ProxyErrorView;
use crate::payload::PacketView;
use crate::properties::{after_all, traffic_of, Happening};
use crate::session::record::{reverse_tcp_data, reverse_tcp_result};
use crate::session::{
    ForwardTargetView, PacketLossRate, RtpStepView, SessionConfigView, SessionEventView,
    SessionState, SessionView, StartActionView, TrafficStatsSnapshot, UdpForwardingView,
    UdpStepView,
};
use crate::transport::{udp_received, SocketRole, TransportType};

verus! {

/// Whether a counter went from one number to another by adding `by`, starting again at zero
/// behind the largest 64-bit number.
pub open spec fn counted(from: u64, to: u64, by: int) -> bool {
    to == from + by || to == from + by - 0x1_0000_0000_0000_0000
}

/// Whether the counters show one more received packet of `bytes` bytes, and nothing else.
pub open spec fn one_more_received(
    from: TrafficStatsSnapshot,
    to: TrafficStatsSnapshot,
    bytes: int,
) -> bool {
    &&& counted(from.packets_received, to.packets_received, 1)
    &&& counted(from.bytes_received, to.bytes_received, bytes)
    &&& to.packets_sent == from.packets_sent
    &&& to.bytes_sent == from.bytes_sent
    &&& to.packets_lost == from.packets_lost
}

/// Whether the counters show one more sent packet of `bytes` bytes, and nothing else.
pub open spec fn one_more_sent(
    from: TrafficStatsSnapshot,
    to: TrafficStatsSnapshot,
    bytes: int,
) -> bool {
    &&& to.packets_received == from.packets_received
    &&& to.bytes_received == from.bytes_received
    &&& counted(from.packets_sent, to.packets_sent, 1)
    &&& counted(from.bytes_sent, to.bytes_sent, bytes)
    &&& to.packets_lost == from.packets_lost
}

/// Whether the counters show one more lost packet, and nothing else.
pub open spec fn one_more_lost(from: TrafficStatsSnapshot, to: TrafficStatsSnapshot) -> bool {
    &&& to.packets_received == from.packets_received
    &&& to.bytes_received == from.bytes_received
    &&& to.packets_sent == from.packets_sent
    &&& to.bytes_sent == from.bytes_sent
    &&& counted(from.packets_lost, to.packets_lost, 1)
}

/// The counters begin at zero, and each event moves the counters that are for it.
pub proof fn law_counters_move(stats: TrafficStatsSnapshot, bytes: u64)
    ensures
        one_more_received(stats, stats.after_received(bytes), bytes as int),
        one_more_sent(stats, stats.after_sent(bytes), bytes as int),
        one_more_lost(stats, stats.after_lost()),
        TrafficStatsSnapshot::zero().packets_received == 0,
        TrafficStatsSnapshot::zero().bytes_received == 0,
        TrafficStatsSnapshot::zero().packets_sent == 0,
        TrafficStatsSnapshot::zero().bytes_sent == 0,
        TrafficStatsSnapshot::zero().packets_lost == 0,
{
}

/// The loss rate, taken as a ratio, times the number of received packets is the number of lost
/// packets; there is no ratio exactly where nothing was received.
pub proof fn law_loss_rate_is_lost_by_received(stats: TrafficStatsSnapshot)
    ensures
        stats.loss_rate() is Zero <==> stats.packets_received == 0,
        stats.loss_rate() matches PacketLossRate::Percent { lost, received } ==> {
            &&& received > 0
            &&& lost * stats.packets_received == stats.packets_lost * received
        },
{
}

/// The loss rate is 100 percent exactly where all received packets were lost, and zero percent
/// exactly where none was.
pub proof fn law_loss_rate_at_its_ends(stats: TrafficStatsSnapshot)
    requires
        stats.packets_received > 0,
    ensures
        stats.loss_rate() matches PacketLossRate::Percent { lost, received } && {
            &&& lost == received <==> stats.packets_lost == stats.packets_received
            &&& lost == 0 <==> stats.packets_lost == 0
        },
{
}

/// Of two sets of counters with the same number of received packets, the one with more lost
/// packets has the higher loss rate.
pub proof fn law_loss_rate_grows_with_each_lost_packet(
    less: TrafficStatsSnapshot,
    more: TrafficStatsSnapshot,
)
    requires
        less.packets_received == more.packets_received,
        less.packets_received > 0,
        less.packets_lost < more.packets_lost,
    ensures
        less.loss_rate() is Percent && more.loss_rate() is Percent,
        less.loss_rate()->lost * more.loss_rate()->received < more.loss_rate()->lost
            * less.loss_rate()->received,
{
    let n = less.packets_received as int;
    let a = less.packets_lost as int;
    let b = more.packets_lost as int;
    assert(a * n < b * n) by (nonlinear_arith)
        requires
            n > 0,
            a < b,
    ;
}

/// A new session has the id, configuration, transport and time of creation that it is given. It
/// is connecting, was last active when it was created, knows no client, and has seen no traffic
/// and no error.
pub proof fn law_new_session(
    id: Seq<char>,
    config: SessionConfigView,
    transport: TransportType,
    created_at: i64,
)
    ensures
        ({
            let s = SessionView::fresh(id, config, transport, created_at);
            &&& s.id == id && s.config == config && s.transport == transport
            &&& s.created_at == created_at && s.last_activity == created_at
            &&& s.state == SessionState::Connecting
            &&& s.error_message is None
            &&& s.client is None && s.rtcp_client is None
            &&& s.stats.packets_received == 0 && s.stats.bytes_received == 0
            &&& s.stats.packets_sent == 0 && s.stats.bytes_sent == 0
            &&& s.stats.packets_lost == 0
        }),
{
}

/// What is shown of a session is what it holds.
pub proof fn law_info_is_what_the_session_holds(s: SessionView)
    ensures
        s.info().session_id == s.id,
        s.info().config == s.config,
        s.info().state == s.state,
        s.info().created_at == s.created_at,
        s.info().last_activity == s.last_activity,
        s.info().stats.packets_received == s.stats.packets_received,
        s.info().stats.bytes_received == s.stats.bytes_received,
        s.info().stats.packets_sent == s.stats.packets_sent,
        s.info().stats.bytes_sent == s.stats.bytes_sent,
        s.info().stats.packets_lost == s.stats.packets_lost,
        s.info().error_message == s.error_message,
{
}

/// At any moment of a session's history, what is shown of it are the packets and bytes that were
/// received, sent and lost so far, as long as no counter passes the largest 64-bit number.
pub proof fn law_info_shows_the_traffic_so_far(s: SessionView, history: Seq<Happening>)
    requires
        traffic_of(s, history).fits(s.stats),
    ensures
        ({
            let shown = after_all(s, history).info().stats;
            let traffic = traffic_of(s, history);
            &&& shown.packets_received == s.stats.packets_received + traffic.packets_received
            &&& shown.bytes_received == s.stats.bytes_received + traffic.bytes_received
            &&& shown.packets_sent == s.stats.packets_sent + traffic.packets_sent
            &&& shown.bytes_sent == s.stats.bytes_sent + traffic.bytes_sent
            &&& shown.packets_lost == s.stats.packets_lost + traffic.packets_lost
        }),
{
    crate::properties::law_counters_show_the_traffic(s, history);
}

/// A change of state changes nothing else. It is reported with the session, both states and the
/// time, exactly where the states differ.
pub proof fn law_change_of_state(s: SessionView, state: SessionState, now: i64)
    ensures
        s.with_state(state) == (SessionView { state, ..s }),
        s.state == state ==> s.state_change(state, now).len() == 0,
        s.state != state ==> {
            &&& s.state_change(state, now).len() == 1
            &&& s.state_change(state, now)[0] == SessionEventView::StateChanged {
                session_id: s.id,
                old_state: s.state,
                new_state: state,
                timestamp: now,
            }
        },
{
}

/// Whether `events` is what a failure reports: the change of the state, where there is one, and
/// then the failure.
pub open spec fn reports_failure(
    s: SessionView,
    events: Seq<SessionEventView>,
    message: Seq<char>,
    now: i64,
) -> bool {
    &&& events.len() == (if s.state == SessionState::Error {
        1int
    } else {
        2int
    })
    &&& s.state != SessionState::Error ==> events[0] == SessionEventView::StateChanged {
        session_id: s.id,
        old_state: s.state,
        new_state: SessionState::Error,
        timestamp: now,
    }
    &&& events.last() == SessionEventView::Error {
        session_id: s.id,
        error: message,
        timestamp: now,
    }
}

/// A received RTP packet is counted with its length, marks activity, tells where the client is,
/// and goes unchanged to the session's destination. Nothing else changes.
pub proof fn law_rtp_receive(s: SessionView, packet: PacketView, now: i64)
    requires
        packet.data.len() <= u64::MAX,
    ensures
        ({
            let after = s.after_rtp_received(Ok(packet), now);
            &&& after == SessionView {
                stats: after.stats,
                last_activity: now,
                client: Some(packet.source),
                ..s
            }
            &&& one_more_received(s.stats, after.stats, packet.data.len() as int)
            &&& s.rtp_received_step(Ok(packet), now) == RtpStepView::Forward {
                data: packet.data,
                destination: s.config.destination_addr,
            }
        }),
{
}

/// A failed receive of the RTP task fails the session with the message of the error, and ends
/// the task; this is reported.
pub proof fn law_rtp_receive_failure(s: SessionView, error: ProxyErrorView, now: i64)
    ensures
        s.after_rtp_received(Err(error), now) == (SessionView {
            state: SessionState::Error,
            error_message: Some(error.text()),
            ..s
        }),
        s.rtp_received_step(Err(error), now) is Stop,
        reports_failure(s, s.rtp_received_step(Err(error), now)->Stop_0, error.text(), now),
{
}

/// A packet that the RTP task has sent is counted with the number of bytes sent, and nothing is
/// reported. One that it could not send is lost, and fails the session; this is reported.
pub proof fn law_rtp_send(s: SessionView, sent: usize, error: ProxyErrorView, now: i64)
    ensures
        ({
            let after = s.after_rtp_sent(Ok(sent));
            &&& after == SessionView { stats: after.stats, ..s }
            &&& one_more_sent(s.stats, after.stats, sent as int)
            &&& s.rtp_sent_events(Ok(sent), now).len() == 0
        }),
        ({
            let after = s.after_rtp_sent(Err(error));
            &&& after == SessionView {
                stats: after.stats,
                state: SessionState::Error,
                error_message: Some(error.text()),
                ..s
            }
            &&& one_more_lost(s.stats, after.stats)
            &&& reports_failure(s, s.rtp_sent_events(Err(error), now), error.text(), now)
        }),
{
}

/// What the destination of a UDP session sends back goes to the address from which the socket
/// last received an RTP packet of the client, unchanged, and is counted.
pub proof fn law_rtp_comes_back_to_where_the_socket_received_from(
    s: SessionView,
    buf: Seq<u8>,
    len: usize,
    client: SocketAddrView,
    now: i64,
    back: Seq<u8>,
    back_len: usize,
    source: SocketAddrView,
)
    ensures
        ({
            let seen = s.after_rtp_received(udp_received(buf, Ok((len, client))), now);
            let task = UdpForwardingView::reverse_rtp();
            let step = seen.udp_step(task, back, Ok((back_len, source)));
            let after = seen.after_udp_received(task, Ok((back_len, source)), now);
            &&& task.recv_socket == SocketRole::RtpForward
            &&& task.send_socket == SocketRole::RtpListen
            &&& step is Send
            &&& step->to == client
            &&& begins(step->data, back, back_len as int)
            &&& one_more_received(seen.stats, after.stats, back_len as int)
            &&& after.last_activity == now
        }),
{
}

/// Where a task sends to: a fixed address, or where the client's last RTP or RTCP packet came
/// from.
pub proof fn law_targets(s: SessionView, addr: SocketAddrView)
    ensures
        s.destination(ForwardTargetView::Fixed(addr)) == Some(addr),
        s.destination(ForwardTargetView::Client) == s.client,
        s.destination(ForwardTargetView::RtcpClient) == s.rtcp_client,
{
}

/// The RTCP task takes what comes to the RTCP listening socket, wherever from, to the port after
/// the destination's, through the RTCP forwarding socket. It remembers where it came from.
pub proof fn law_rtcp_receive(
    s: SessionView,
    destination: SocketAddrView,
    buf: Seq<u8>,
    len: usize,
    source: SocketAddrView,
    now: i64,
)
    requires
        destination.port < 65535,
    ensures
        ({
            let task = UdpForwardingView::rtcp(destination);
            let step = s.udp_step(task, buf, Ok((len, source)));
            &&& task.recv_socket == SocketRole::RtcpListen
            &&& task.send_socket == SocketRole::RtcpForward
            &&& step is Send
            &&& step->to.port == destination.port + 1
            &&& step->to == SocketAddrView { port: step->to.port, ..destination }
            &&& begins(step->data, buf, len as int)
            &&& s.after_udp_received(task, Ok((len, source)), now) == SessionView {
                rtcp_client: Some(source),
                ..s
            }
        }),
{
}

/// The reverse RTCP task takes what comes to the RTCP forwarding socket to where the client's
/// RTCP came from, through the RTCP listening socket. It changes nothing.
pub proof fn law_reverse_rtcp_receive(
    s: SessionView,
    buf: Seq<u8>,
    len: usize,
    source: SocketAddrView,
    sent: Result<usize, Seq<char>>,
    now: i64,
)
    ensures
        ({
            let task = UdpForwardingView::reverse_rtcp();
            let step = s.udp_step(task, buf, Ok((len, source)));
            &&& task.recv_socket == SocketRole::RtcpForward
            &&& task.send_socket == SocketRole::RtcpListen
            &&& step is Send <==> s.rtcp_client is Some
            &&& step is Skip <==> s.rtcp_client is None
            &&& step is Send ==> Some(step->to) == s.rtcp_client && begins(
                step->data,
                buf,
                len as int,
            )
            &&& s.after_udp_received(task, Ok((len, source)), now) == s
            &&& s.after_udp_sent(task, sent) == s
        }),
{
}

/// The reverse RTP task counts what it receives and marks activity; without a client to send to
/// the packet is lost. What it sends is counted with the number of bytes sent, and what it could
/// not send is lost. Nothing else changes.
pub proof fn law_reverse_rtp_is_counted(
    s: SessionView,
    len: usize,
    source: SocketAddrView,
    sent: usize,
    cause: Seq<char>,
    now: i64,
)
    ensures
        ({
            let task = UdpForwardingView::reverse_rtp();
            let after = s.after_udp_received(task, Ok((len, source)), now);
            let passed = s.after_udp_sent(task, Ok(sent));
            let failed = s.after_udp_sent(task, Err(cause));
            &&& after == SessionView { stats: after.stats, last_activity: now, ..s }
            &&& counted(s.stats.packets_received, after.stats.packets_received, 1)
            &&& counted(s.stats.bytes_received, after.stats.bytes_received, len as int)
            &&& after.stats.packets_sent == s.stats.packets_sent
            &&& after.stats.bytes_sent == s.stats.bytes_sent
            &&& counted(
                s.stats.packets_lost,
                after.stats.packets_lost,
                if s.client is None {
                    1
                } else {
                    0
                },
            )
            &&& passed == SessionView { stats: passed.stats, ..s }
            &&& one_more_sent(s.stats, passed.stats, sent as int)
            &&& failed == SessionView { stats: failed.stats, ..s }
            &&& one_more_lost(s.stats, failed.stats)
        }),
{
}

/// Any task between two UDP sockets sends what it received, unchanged, to where it is for, as
/// soon as that is known, and otherwise receives again. It counts, marks activity and learns the
/// client exactly as far as it is said to, and changes nothing else.
pub proof fn law_udp_task(
    s: SessionView,
    task: UdpForwardingView,
    buf: Seq<u8>,
    len: usize,
    source: SocketAddrView,
    sent: usize,
    cause: Seq<char>,
    now: i64,
)
    ensures
        ({
            let to = match task.target {
                ForwardTargetView::Fixed(addr) => Some(addr),
                ForwardTargetView::Client => s.client,
                ForwardTargetView::RtcpClient => s.rtcp_client,
            };
            let step = s.udp_step(task, buf, Ok((len, source)));
            let after = s.after_udp_received(task, Ok((len, source)), now);
            let passed = s.after_udp_sent(task, Ok(sent));
            let failed = s.after_udp_sent(task, Err(cause));
            &&& to matches Some(addr) ==> step is Send && step->to == addr && begins(
                step->data,
                buf,
                len as int,
            )
            &&& to is None ==> step is Skip
            &&& after == SessionView {
                stats: after.stats,
                last_activity: after.last_activity,
                rtcp_client: after.rtcp_client,
                ..s
            }
            &&& after.last_activity == (if task.counts_activity {
                now
            } else {
                s.last_activity
            })
            &&& after.rtcp_client == (if task.learns_rtcp_client {
                Some(source)
            } else {
                s.rtcp_client
            })
            &&& passed == SessionView { stats: passed.stats, ..s }
            &&& failed == SessionView { stats: failed.stats, ..s }
            &&& task.counts_traffic && to is Some ==> one_more_received(
                s.stats,
                after.stats,
                len as int,
            )
            &&& task.counts_traffic ==> one_more_sent(s.stats, passed.stats, sent as int)
            &&& task.counts_traffic ==> one_more_lost(s.stats, failed.stats)
            &&& !task.counts_traffic ==> after.stats == s.stats && passed == s && failed == s
        }),
{
}

/// A failed receive of a task between two UDP sockets ends the task and changes nothing.
pub proof fn law_udp_receive_failure(
    s: SessionView,
    task: UdpForwardingView,
    buf: Seq<u8>,
    cause: Seq<char>,
    now: i64,
)
    ensures
        s.udp_step(task, buf, Err(cause)) is Stop,
        s.after_udp_received(task, Err(cause), now) == s,
{
}

/// What is read from the TCP destination is counted, marks activity, and goes to the client
/// unchanged. Nothing read, a failed read and a missing stream end the task, each with its own
/// error, and change nothing.
pub proof fn law_reverse_tcp_read(
    s: SessionView,
    buf: Seq<u8>,
    len: usize,
    cause: Seq<char>,
    now: i64,
)
    requires
        len > 0,
    ensures
        ({
            let after = s.after_reverse_tcp_read(Some(Ok(len)), now);
            let r = reverse_tcp_data(buf, Some(Ok(len)));
            &&& after == SessionView { stats: after.stats, last_activity: now, ..s }
            &&& one_more_received(s.stats, after.stats, len as int)
            &&& r is Ok
            &&& begins(r->Ok_0, buf, len as int)
        }),
        s.after_reverse_tcp_read(Some(Ok(0)), now) == s,
        s.after_reverse_tcp_read(Some(Err(cause)), now) == s,
        s.after_reverse_tcp_read(None, now) == s,
        reverse_tcp_data(buf, Some(Ok(0))) == Err::<Seq<u8>, ProxyErrorView>(
            ProxyErrorView::Transport("Connection closed by destination"@),
        ),
        reverse_tcp_data(buf, Some(Err(cause))) == Err::<Seq<u8>, ProxyErrorView>(
            ProxyErrorView::Io(cause),
        ),
        reverse_tcp_data(buf, None) == Err::<Seq<u8>, ProxyErrorView>(
            ProxyErrorView::Transport("Destination stream not available"@),
        ),
{
}

/// What was written to the TCP client is counted with its length; what could not be written is
/// lost and ends the task, as does a missing stream, with which nothing is counted.
pub proof fn law_reverse_tcp_write(s: SessionView, len: usize, cause: Seq<char>)
    ensures
        ({
            let passed = s.after_reverse_tcp_written(len, Some(Ok(())));
            let failed = s.after_reverse_tcp_written(len, Some(Err(cause)));
            &&& passed == SessionView { stats: passed.stats, ..s }
            &&& one_more_sent(s.stats, passed.stats, len as int)
            &&& failed == SessionView { stats: failed.stats, ..s }
            &&& one_more_lost(s.stats, failed.stats)
        }),
        s.after_reverse_tcp_written(len, None) == s,
        reverse_tcp_result(Some(Ok(()))) is Ok,
        reverse_tcp_result(Some(Err(cause))) == Err::<(), ProxyErrorView>(
            ProxyErrorView::Io(cause),
        ),
        reverse_tcp_result(None) == Err::<(), ProxyErrorView>(
            ProxyErrorView::Transport("Client stream not available"@),
        ),
{
}

/// A UDP session is brought up by four tasks, in this order: RTP to the destination, RTP back,
/// RTCP to the destination, RTCP back. It reports statistics where its configuration has an
/// interval, at that interval. It needs a port for RTCP at the destination.
pub proof fn law_udp_session_is_brought_up(s: SessionView, now: i64)
    requires
        s.config.protocol == TransportType::Udp,
        s.transport == TransportType::Udp,
    ensures
        s.started(now) is Ok <==> s.config.destination_addr.port < 65535,
        s.started(now) is Err ==> s.started(now)->Err_0 == ProxyErrorView::Transport(
            "Port overflow when calculating RTCP port"@,
        ),
        s.started(now) matches Ok(started) ==> {
            let actions = started.actions;
            let interval = s.config.stats_interval_seconds;
            &&& actions.len() == (if interval > 0 {
                5int
            } else {
                4int
            })
            &&& actions[0] == StartActionView::ForwardRtp {
                recv_socket: SocketRole::RtpListen,
                send_socket: SocketRole::RtpForward,
            }
            &&& actions[1] matches StartActionView::ForwardUdp(task) && task.recv_socket
                == SocketRole::RtpForward && task.send_socket == SocketRole::RtpListen
                && task.target == ForwardTargetView::Client && task.counts_traffic
                && task.counts_activity
            &&& actions[2] matches StartActionView::ForwardUdp(task) && task.recv_socket
                == SocketRole::RtcpListen && task.send_socket == SocketRole::RtcpForward
                && task.target == ForwardTargetView::Fixed(
                SocketAddrView {
                    port: (s.config.destination_addr.port + 1) as u16,
                    ..s.config.destination_addr
                },
            ) && !task.counts_traffic && !task.counts_activity
            &&& actions[3] matches StartActionView::ForwardUdp(task) && task.recv_socket
                == SocketRole::RtcpForward && task.send_socket == SocketRole::RtcpListen
                && task.target == ForwardTargetView::RtcpClient && !task.counts_traffic
                && !task.counts_activity
            &&& interval > 0 ==> actions[4] == StartActionView::ReportStats {
                interval_seconds: interval,
            }
        },
{
}

/// A TCP session is brought up by the task to the destination, the wait for both connections,
/// and the task back, in this order. It reports statistics where its configuration has an
/// interval, at that interval. It needs nothing more.
pub proof fn law_tcp_session_is_brought_up(s: SessionView, now: i64)
    requires
        s.config.protocol == TransportType::Tcp,
        s.transport == TransportType::Tcp,
    ensures
        s.started(now) matches Ok(started) && {
            let actions = started.actions;
            let interval = s.config.stats_interval_seconds;
            &&& actions.len() == (if interval > 0 {
                4int
            } else {
                3int
            })
            &&& actions[0] == StartActionView::ForwardRtp {
                recv_socket: SocketRole::TcpClient,
                send_socket: SocketRole::TcpDestination,
            }
            &&& actions[1] is AwaitConnections
            &&& actions[2] is ForwardReverseTcp
            &&& interval > 0 ==> actions[3] == StartActionView::ReportStats {
                interval_seconds: interval,
            }
        },
{
}

/// A session whose transport is not the one that its configuration asks for: over UDP it cannot
/// be brought up, over TCP it only forwards to the destination.
pub proof fn law_session_over_another_transport(s: SessionView)
    requires
        s.transport != s.config.protocol,
    ensures
        s.config.protocol == TransportType::Udp ==> s.start_actions() == Err::<
            Seq<StartActionView>,
            ProxyErrorView,
        >(ProxyErrorView::Transport("UDP transport not available for reverse RTP"@)),
        s.config.protocol == TransportType::Tcp ==> (s.start_actions() matches Ok(actions) && {
            let interval = s.config.stats_interval_seconds;
            &&& actions.len() == (if interval > 0 {
                2int
            } else {
                1int
            })
            &&& actions[0] == StartActionView::ForwardRtp {
                recv_socket: SocketRole::RtpListen,
                send_socket: SocketRole::RtpForward,
            }
            &&& interval > 0 ==> actions[1] == StartActionView::ReportStats {
                interval_seconds: interval,
            }
        }),
{
}

/// The start of a session reports the change to active, where it is one, and nothing else.
pub proof fn law_start_is_reported(s: SessionView, now: i64)
    requires
        s.started(now) is Ok,
    ensures
        ({
            let events = s.started(now)->Ok_0.events;
            &&& s.state == SessionState::Active ==> events.len() == 0
            &&& s.state != SessionState::Active ==> {
                &&& events.len() == 1
                &&& events[0] == SessionEventView::StateChanged {
                    session_id: s.id,
                    old_state: s.state,
                    new_state: SessionState::Active,
                    timestamp: now,
                }
            }
        }),
{
}

/// Each event names the session that it is about.
pub proof fn law_events_name_their_session(
    id: Seq<char>,
    old_state: SessionState,
    new_state: SessionState,
    stats: TrafficStatsSnapshot,
    error: Seq<char>,
    timestamp: i64,
)
    ensures
        (SessionEventView::Created { session_id: id, timestamp }).session_id() == id,
        (SessionEventView::StateChanged { session_id: id, old_state, new_state, timestamp })
            .session_id() == id,
        (SessionEventView::StatsUpdate { session_id: id, stats, timestamp }).session_id() == id,
        (SessionEventView::Error { session_id: id, error, timestamp }).session_id() == id,
        (SessionEventView::Closed { session_id: id, timestamp }).session_id() == id,
{
}

} // verus!

//! What holds across several operations of the proxy.

use vstd::arithmetic::div_mod::{
    lemma_add_mod_noop_right, lemma_mod_add_multiples_vanish, lemma_mod_sub_multiples_vanish,
    lemma_small_mod,
};
use vstd::prelude::*;

use crate::addr::{port_overflow, SocketAddrView};
use crate::error::ProxyErrorView;
use crate::grpc_server::{
    addr_endpoint, create_reply, create_session_result, destroy_refusal, endpoint_result,
    endpoint_text_of, event_proto, list_filter, session_info_proto, shown_event, stats_proto,
    status_reply, stream_filter, streams, ParsedEndpointsView,
};
use crate::payload::PacketView;
use crate::proto::{
    spec_state_from_number, Code, CreateSessionRequestView, ProtoSessionEventView, Protocol,
    StatusView,
};
use crate::session::forwarding::report_time;
use crate::session::record::reverse_tcp_data;
use crate::session::stats::wrapping_sum;
use crate::session::{
    RegisteredView, RtpStepView, Session, SessionEventView, SessionInfoView, SessionManagerView,
    SessionSetupStepView, SessionSetupView, SessionState, SessionView, StartActionView,
    TrafficStatsSnapshot, UdpForwardingView, UdpStepView,
};
use crate::text::decimal;
use crate::transport::{
    transport_setup, udp_received, SetupStepView, SocketRole, TcpStepView, TcpTransportView,
    TransportSetupView, TransportType, TransportView,
};

verus! {

/// What setting up a transport comes to when the binds end as given, one after the other.
pub open spec fn setup_run(
    setup: TransportSetupView,
    outcomes: Seq<Result<(), Seq<char>>>,
) -> Result<SetupStepView, ProxyErrorView>
    decreases outcomes.len(),
{
    if outcomes.len() == 0 {
        Ok(SetupStepView::Bind(setup))
    } else {
        match setup.after_bind(outcomes[0]) {
            Ok(SetupStepView::Bind(next)) => setup_run(next, outcomes.drop_first()),
            r => r,
        }
    }
}

/// Whether the first `n` binds were made and succeeded.
pub open spec fn bound(outcomes: Seq<Result<(), Seq<char>>>, n: int) -> bool {
    outcomes.len() >= n && forall|i: int| 0 <= i < n ==> (#[trigger] outcomes[i]) is Ok
}

/// A UDP transport is ready exactly when four sockets were bound and both the listening and the
/// forwarding port have a port after them; its RTCP sockets are then on those next ports.
pub proof fn law_udp_transport_binds_rtp_and_rtcp(
    listen: SocketAddrView,
    forward: SocketAddrView,
    destination: SocketAddrView,
    outcomes: Seq<Result<(), Seq<char>>>,
)
    ensures
        ({
            let r = setup_run(
                transport_setup(TransportType::Udp, listen, forward, destination),
                outcomes,
            );
            let fits = listen.has_next_port() && forward.has_next_port();
            &&& (r matches Ok(SetupStepView::Ready(_))) <==> bound(outcomes, 4) && fits
            &&& r matches Ok(SetupStepView::Ready(t)) ==> {
                &&& t matches TransportView::Udp(udp)
                &&& udp.wf()
                &&& udp.rtp_listen == listen
                &&& udp.rtp_forward == forward
            }
            &&& bound(outcomes, 2) && !fits ==> r == Err::<SetupStepView, ProxyErrorView>(
                port_overflow(),
            )
        }),
{
    reveal_with_fuel(setup_run, 6);
    let o1 = outcomes.drop_first();
    let o2 = o1.drop_first();
    let o3 = o2.drop_first();
    if outcomes.len() >= 2 {
        assert(o1[0] == outcomes[1]);
    }
    if outcomes.len() >= 3 {
        assert(o2[0] == outcomes[2]);
    }
    if outcomes.len() >= 4 {
        assert(o3[0] == outcomes[3]);
    }
}

/// A TCP transport is ready exactly when its listener was bound.
pub proof fn law_tcp_transport_binds_its_listener(
    listen: SocketAddrView,
    forward: SocketAddrView,
    destination: SocketAddrView,
    outcomes: Seq<Result<(), Seq<char>>>,
)
    ensures
        ({
            let r = setup_run(
                transport_setup(TransportType::Tcp, listen, forward, destination),
                outcomes,
            );
            &&& (r matches Ok(SetupStepView::Ready(_))) <==> bound(outcomes, 1)
            &&& r matches Ok(SetupStepView::Ready(t)) ==> t == TransportView::Tcp(
                TcpTransportView::fresh(listen, forward, destination),
            )
        }),
{
    reveal_with_fuel(setup_run, 2);
}

/// The listener of a TCP transport takes one client. Once it was used nothing brings it back,
/// and without a client there is then nothing to receive from.
pub proof fn law_tcp_listener_takes_one_client(
    t: TcpTransportView,
    accepted: Result<SocketAddrView, Seq<char>>,
    connected: Result<(), Seq<char>>,
)
    ensures
        t.recv_step() == Ok::<TcpStepView, ProxyErrorView>(TcpStepView::Accept)
            ==> !t.recv_begun().listening,
        !t.listening ==> {
            &&& !t.recv_begun().listening
            &&& !t.after_connect(connected).listening
            &&& !t.closed().listening
        },
        !t.after_accept(accepted).listening,
        !t.listening && !t.client_connected ==> t.recv_step() == Err::<TcpStepView, ProxyErrorView>(
            ProxyErrorView::Transport("Listener already closed"@),
        ),
{
}

/// After a client was accepted and the destination connected, both streams are there and the
/// client's address is known; to accept again is refused and changes nothing.
pub proof fn law_second_accept_is_refused(t: TcpTransportView, client: SocketAddrView)
    requires
        t.client_addr is None,
    ensures
        ({
            let connected = t.accept_begun().after_accept(Ok(client)).after_connect(Ok(()));
            &&& connected.client_addr == Some(client)
            &&& connected.client_connected && connected.dest_connected
            &&& connected.accept_request() == Err::<TcpStepView, ProxyErrorView>(
                ProxyErrorView::Transport("Listener already closed"@),
            )
            &&& connected.accept_begun() == connected
        }),
{
}

/// A closed TCP transport whose listener was used neither receives nor sends any more.
pub proof fn law_closed_tcp_transport_is_silent(t: TcpTransportView)
    requires
        !t.listening,
    ensures
        t.closed().recv_step() is Err,
        t.closed().send_check() is Err,
{
}

/// A number in 64 bits.
pub open spec fn in_64_bits(n: int) -> int {
    n % 0x1_0000_0000_0000_0000
}

/// The number of received packets that were neither sent nor lost yet, in 64 bits.
pub open spec fn unsettled(stats: TrafficStatsSnapshot) -> int {
    in_64_bits(stats.packets_received - stats.packets_sent - stats.packets_lost)
}

/// A step by `d`, taken modulo 64 bits before or after.
proof fn lemma_step_in_64_bits(from: int, to: int, d: int)
    requires
        to == from + d || to == from + d - 0x1_0000_0000_0000_0000 || to == from + d
            + 0x1_0000_0000_0000_0000,
    ensures
        in_64_bits(to) == in_64_bits(in_64_bits(from) + d),
{
    let m = 0x1_0000_0000_0000_0000int;
    lemma_add_mod_noop_right(d, from, m);
    lemma_mod_add_multiples_vanish(from + d, m);
    lemma_mod_sub_multiples_vanish(from + d, m);
}

/// What the counters do to the number of unsettled packets.
proof fn lemma_counters_settle(stats: TrafficStatsSnapshot, bytes: u64)
    ensures
        unsettled(stats.after_received(bytes)) == in_64_bits(unsettled(stats) + 1),
        unsettled(stats.after_sent(bytes)) == in_64_bits(unsettled(stats) - 1),
        unsettled(stats.after_lost()) == in_64_bits(unsettled(stats) - 1),
{
    let n = stats.packets_received - stats.packets_sent - stats.packets_lost;
    let received = stats.after_received(bytes);
    let sent = stats.after_sent(bytes);
    let lost = stats.after_lost();
    lemma_step_in_64_bits(
        n,
        received.packets_received - received.packets_sent - received.packets_lost,
        1,
    );
    lemma_step_in_64_bits(n, sent.packets_received - sent.packets_sent - sent.packets_lost, -1);
    lemma_step_in_64_bits(n, lost.packets_received - lost.packets_sent - lost.packets_lost, -1);
}

/// The RTP task forwards what was received, byte for byte, to the session's destination, and
/// counts it: of a UDP packet, and of what was read from a TCP client.
pub proof fn law_rtp_payload_is_forwarded_unchanged(
    s: SessionView,
    t: TcpTransportView,
    buf: Seq<u8>,
    len: usize,
    source: SocketAddrView,
    now: i64,
)
    requires
        len <= buf.len(),
    ensures
        ({
            let forward = RtpStepView::Forward {
                data: buf.take(len as int),
                destination: s.config.destination_addr,
            };
            let counted = s.stats.after_received(len as u64);
            let udp = udp_received(buf, Ok((len, source)));
            let tcp = t.read_result(buf, Ok(len));
            &&& s.rtp_received_step(udp, now) == forward
            &&& s.after_rtp_received(udp, now).stats == counted
            &&& t.client_addr is Some && len > 0 ==> {
                &&& s.rtp_received_step(tcp, now) == forward
                &&& s.after_rtp_received(tcp, now).stats == counted
            }
        }),
{
}

/// What is read from a TCP destination goes to the client byte for byte, and is counted.
pub proof fn law_reverse_tcp_data_is_forwarded_unchanged(
    s: SessionView,
    buf: Seq<u8>,
    len: usize,
    now: i64,
)
    requires
        0 < len <= buf.len(),
    ensures
        reverse_tcp_data(buf, Some(Ok(len))) == Ok::<Seq<u8>, ProxyErrorView>(
            buf.take(len as int),
        ),
        s.after_reverse_tcp_read(Some(Ok(len)), now) == s.after_received(len as u64, now),
{
}

/// What a task between two UDP sockets receives goes on byte for byte, as soon as it is known
/// where to; RTCP from the client goes to the port after the destination's.
pub proof fn law_udp_payload_is_forwarded_unchanged(
    s: SessionView,
    task: UdpForwardingView,
    buf: Seq<u8>,
    len: usize,
    source: SocketAddrView,
)
    requires
        len <= buf.len(),
    ensures
        ({
            let data = buf.take(len as int);
            let received = Ok((len, source));
            let destination = s.config.destination_addr;
            &&& s.destination(task.target) is Some ==> s.udp_step(task, buf, received)
                == UdpStepView::Send { data, to: s.destination(task.target)->0 }
            &&& s.destination(task.target) is None ==> s.udp_step(task, buf, received)
                == UdpStepView::Skip
            &&& s.udp_step(UdpForwardingView::rtcp(destination), buf, received)
                == UdpStepView::Send { data, to: destination.next_port() }
        }),
{
}

/// What the destination of a UDP session sends back goes byte for byte to the client, whatever
/// has happened since the client's last RTP packet: it comes in at the forwarding socket and
/// leaves from the listening socket.
pub proof fn law_rtp_comes_back_to_the_client(
    s: SessionView,
    packet: PacketView,
    now: i64,
    history: Seq<Happening>,
    buf: Seq<u8>,
    len: usize,
    source: SocketAddrView,
)
    requires
        len <= buf.len(),
        forall|i: int|
            0 <= i < history.len() ==> !((#[trigger] history[i]) matches Happening::RtpReceived(
                Ok(_),
                _,
            )),
    ensures
        ({
            let later = after_all(s.after_rtp_received(Ok(packet), now), history);
            let task = UdpForwardingView::reverse_rtp();
            &&& task.recv_socket == SocketRole::RtpForward
            &&& task.send_socket == SocketRole::RtpListen
            &&& later.udp_step(task, buf, Ok((len, source))) == UdpStepView::Send {
                data: buf.take(len as int),
                to: packet.source,
            }
        }),
    decreases history.len(),
{
    if history.len() > 0 {
        let earlier = history.drop_last();
        assert forall|i: int| 0 <= i < earlier.len() implies !((
        #[trigger] earlier[i]) matches Happening::RtpReceived(Ok(_), _)) by {
            assert(earlier[i] == history[i]);
        }
        law_rtp_comes_back_to_the_client(s, packet, now, earlier, buf, len, source);
        assert(history.last() == history[history.len() - 1]);
    }
}

/// What the destination of a UDP session sends back over RTCP goes byte for byte to where the
/// client's last RTCP packet came from, whatever has happened since: it comes in at the RTCP
/// forwarding socket and leaves from the RTCP listening socket.
pub proof fn law_rtcp_comes_back_to_the_client(
    s: SessionView,
    client: SocketAddrView,
    client_len: usize,
    now: i64,
    history: Seq<Happening>,
    buf: Seq<u8>,
    len: usize,
    source: SocketAddrView,
)
    requires
        len <= buf.len(),
        forall|i: int|
            0 <= i < history.len() ==> !((#[trigger] history[i]) matches Happening::UdpReceived(
                task,
                Ok(_),
                _,
            ) && task.learns_rtcp_client),
    ensures
        ({
            let rtcp = UdpForwardingView::rtcp(s.config.destination_addr);
            let later = after_all(
                s.after_udp_received(rtcp, Ok((client_len, client)), now),
                history,
            );
            let task = UdpForwardingView::reverse_rtcp();
            &&& task.recv_socket == SocketRole::RtcpForward
            &&& task.send_socket == SocketRole::RtcpListen
            &&& later.udp_step(task, buf, Ok((len, source))) == UdpStepView::Send {
                data: buf.take(len as int),
                to: client,
            }
        }),
    decreases history.len(),
{
    if history.len() > 0 {
        let earlier = history.drop_last();
        assert forall|i: int| 0 <= i < earlier.len() implies !((
        #[trigger] earlier[i]) matches Happening::UdpReceived(task, Ok(_), _)
            && task.learns_rtcp_client) by {
            assert(earlier[i] == history[i]);
        }
        law_rtcp_comes_back_to_the_client(s, client, client_len, now, earlier, buf, len, source);
        assert(history.last() == history[history.len() - 1]);
    }
}

/// A UDP session forwards RTP to its destination and RTCP to the port after it. Both come in at
/// the listening address and leave from the forwarding address. It also forwards what comes
/// back.
pub proof fn law_udp_session_forwards_rtp_and_rtcp(s: SessionView)
    requires
        s.config.protocol == TransportType::Udp,
        s.transport == TransportType::Udp,
        s.config.destination_addr.has_next_port(),
    ensures
        ({
            let destination = s.config.destination_addr;
            let actions = s.start_actions();
            &&& actions is Ok
            &&& actions->Ok_0.contains(
                StartActionView::ForwardRtp {
                    recv_socket: SocketRole::RtpListen,
                    send_socket: SocketRole::RtpForward,
                },
            )
            &&& actions->Ok_0.contains(
                StartActionView::ForwardUdp(UdpForwardingView::rtcp(destination)),
            )
            &&& UdpForwardingView::rtcp(destination).recv_socket == SocketRole::RtcpListen
            &&& UdpForwardingView::rtcp(destination).send_socket == SocketRole::RtcpForward
            &&& s.destination(UdpForwardingView::rtcp(destination).target) == Some(
                destination.next_port(),
            )
            &&& actions->Ok_0.contains(
                StartActionView::ForwardUdp(UdpForwardingView::reverse_rtp()),
            )
            &&& actions->Ok_0.contains(
                StartActionView::ForwardUdp(UdpForwardingView::reverse_rtcp()),
            )
        }),
{
    let actions = s.start_actions()->Ok_0;
    assert(actions[0] == StartActionView::forward_rtp(TransportType::Udp));
    assert(actions[1] == StartActionView::ForwardUdp(UdpForwardingView::reverse_rtp()));
    assert(actions[2] == StartActionView::ForwardUdp(
        UdpForwardingView::rtcp(s.config.destination_addr),
    ));
    assert(actions[3] == StartActionView::ForwardUdp(UdpForwardingView::reverse_rtcp()));
}

/// Each packet that the RTP task receives is settled by the send that follows, counted once as
/// sent or once as lost, whatever the other tasks do in between.
pub proof fn law_rtp_packets_are_sent_or_lost(
    s: SessionView,
    packet: PacketView,
    now: i64,
    sent: Result<usize, ProxyErrorView>,
)
    ensures
        unsettled(s.after_rtp_received(Ok(packet), now).stats) == in_64_bits(
            unsettled(s.stats) + 1,
        ),
        unsettled(s.after_rtp_sent(sent).stats) == in_64_bits(unsettled(s.stats) - 1),
{
    lemma_counters_settle(s.stats, packet.data.len() as u64);
    if sent is Ok {
        lemma_counters_settle(s.stats, sent->Ok_0 as u64);
    }
}

/// Each packet that a task between two UDP sockets receives is settled by the send that
/// follows, counted once as sent or once as lost, or neither of the two is counted. Where there
/// is no client yet to send it to, it is lost at once.
pub proof fn law_udp_packets_are_sent_or_lost(
    s: SessionView,
    task: UdpForwardingView,
    len: usize,
    source: SocketAddrView,
    now: i64,
    sent: Result<usize, Seq<char>>,
)
    ensures
        ({
            let received = s.after_udp_received(task, Ok((len, source)), now);
            let settled = s.after_udp_sent(task, sent);
            if !task.counts_traffic {
                &&& received.stats == s.stats
                &&& settled.stats == s.stats
            } else {
                &&& s.destination(task.target) is Some ==> unsettled(received.stats) == in_64_bits(
                    unsettled(s.stats) + 1,
                )
                &&& s.destination(task.target) is None ==> unsettled(received.stats) == unsettled(
                    s.stats,
                )
                &&& unsettled(settled.stats) == in_64_bits(unsettled(s.stats) - 1)
            }
        }),
{
    lemma_counters_settle(s.stats, len as u64);
    lemma_counters_settle(s.stats.after_received(len as u64), 0);
    let n = s.stats.packets_received - s.stats.packets_sent - s.stats.packets_lost;
    lemma_step_in_64_bits(n, n + 1, 1);
    lemma_step_in_64_bits(n + 1, n, -1);
    if sent is Ok {
        lemma_counters_settle(s.stats, sent->Ok_0 as u64);
    }
}

/// Each read of the reverse TCP task is settled by the write that follows, counted once as sent
/// or once as lost, as long as there is a client stream to write to.
pub proof fn law_reverse_tcp_reads_are_sent_or_lost(
    s: SessionView,
    len: usize,
    now: i64,
    written: Result<(), Seq<char>>,
)
    requires
        len != 0,
    ensures
        unsettled(s.after_reverse_tcp_read(Some(Ok(len)), now).stats) == in_64_bits(
            unsettled(s.stats) + 1,
        ),
        unsettled(s.after_reverse_tcp_written(len, Some(written)).stats) == in_64_bits(
            unsettled(s.stats) - 1,
        ),
{
    lemma_counters_settle(s.stats, len as u64);
}

/// RTCP is not counted: all that changes is where the client's RTCP is known to come from.
pub proof fn law_rtcp_is_not_counted(
    s: SessionView,
    destination: SocketAddrView,
    received: Result<(usize, SocketAddrView), Seq<char>>,
    sent: Result<usize, Seq<char>>,
    now: i64,
)
    ensures
        s.after_udp_received(UdpForwardingView::rtcp(destination), received, now) == (SessionView {
            rtcp_client: match received {
                Ok((_, source)) => Some(source),
                Err(_) => s.rtcp_client,
            },
            ..s
        }),
        s.after_udp_sent(UdpForwardingView::rtcp(destination), sent) == s,
        s.after_udp_received(UdpForwardingView::reverse_rtcp(), received, now) == s,
        s.after_udp_sent(UdpForwardingView::reverse_rtcp(), sent) == s,
{
}

/// A session that failed says why.
pub open spec fn explains_failure(s: SessionView) -> bool {
    s.state == SessionState::Error ==> s.error_message is Some
}

/// Whether two views are of the same session.
pub open spec fn same_session(a: SessionView, b: SessionView) -> bool {
    a.id == b.id && a.config == b.config && a.created_at == b.created_at && a.transport
        == b.transport
}

/// Something that happens to a session, as its manager or one of its tasks has it.
pub enum Happening {
    Started,
    RtpReceived(Result<PacketView, ProxyErrorView>, i64),
    RtpSent(Result<usize, ProxyErrorView>),
    UdpReceived(UdpForwardingView, Result<(usize, SocketAddrView), Seq<char>>, i64),
    UdpSent(UdpForwardingView, Result<usize, Seq<char>>),
    ReverseTcpRead(Option<Result<usize, Seq<char>>>, i64),
    ReverseTcpWritten(usize, Option<Result<(), Seq<char>>>),
    Stopped,
}

impl Happening {
    /// The session afterwards.
    pub open spec fn after(self, s: SessionView) -> SessionView {
        match self {
            Happening::Started => s.with_state(SessionState::Active),
            Happening::RtpReceived(outcome, now) => s.after_rtp_received(outcome, now),
            Happening::RtpSent(outcome) => s.after_rtp_sent(outcome),
            Happening::UdpReceived(task, outcome, now) => s.after_udp_received(task, outcome, now),
            Happening::UdpSent(task, outcome) => s.after_udp_sent(task, outcome),
            Happening::ReverseTcpRead(outcome, now) => s.after_reverse_tcp_read(outcome, now),
            Happening::ReverseTcpWritten(len, outcome) => s.after_reverse_tcp_written(len, outcome),
            Happening::Stopped => s.with_state(SessionState::Closed),
        }
    }

    /// Whether a packet was received that is sent on and is counted.
    pub open spec fn takes_packet(self, s: SessionView) -> bool {
        match self {
            Happening::RtpReceived(outcome, _) => outcome is Ok,
            Happening::UdpReceived(task, outcome, _) => task.counts_traffic && outcome is Ok
                && s.destination(task.target) is Some,
            Happening::ReverseTcpRead(outcome, _) => outcome is Some && outcome->0 is Ok
                && outcome->0->Ok_0 != 0,
            _ => false,
        }
    }

    /// Whether sending a counted packet on was tried, with or without success.
    pub open spec fn passes_packet(self) -> bool {
        match self {
            Happening::RtpSent(_) => true,
            Happening::UdpSent(task, _) => task.counts_traffic,
            Happening::ReverseTcpWritten(_, outcome) => outcome is Some,
            _ => false,
        }
    }

    /// What is counted.
    pub open spec fn traffic(self, s: SessionView) -> Traffic {
        match self {
            Happening::RtpReceived(Ok(packet), _) => Traffic::received(packet.data.len() as u64),
            Happening::RtpSent(Ok(sent)) => Traffic::sent(sent as u64),
            Happening::RtpSent(Err(_)) => Traffic::lost(),
            Happening::UdpReceived(task, Ok((len, _)), _) => if !task.counts_traffic {
                Traffic::none()
            } else if s.destination(task.target) is None {
                Traffic::received(len as u64).plus(Traffic::lost())
            } else {
                Traffic::received(len as u64)
            },
            Happening::UdpSent(task, outcome) => if !task.counts_traffic {
                Traffic::none()
            } else if outcome is Ok {
                Traffic::sent(outcome->Ok_0 as u64)
            } else {
                Traffic::lost()
            },
            Happening::ReverseTcpRead(Some(Ok(len)), _) => if len == 0 {
                Traffic::none()
            } else {
                Traffic::received(len as u64)
            },
            Happening::ReverseTcpWritten(len, Some(Ok(_))) => Traffic::sent(len as u64),
            Happening::ReverseTcpWritten(_, Some(Err(_))) => Traffic::lost(),
            _ => Traffic::none(),
        }
    }

    /// By how much the number of unsettled packets grows.
    pub open spec fn balance(self, s: SessionView) -> int {
        if self.takes_packet(s) {
            1
        } else if self.passes_packet() {
            -1
        } else {
            0
        }
    }
}

/// The session after all that has happened to it.
pub open spec fn after_all(s: SessionView, history: Seq<Happening>) -> SessionView
    decreases history.len(),
{
    if history.len() == 0 {
        s
    } else {
        history.last().after(after_all(s, history.drop_last()))
    }
}

/// How many packets were received to be sent on more than were passed on.
pub open spec fn balance_of(s: SessionView, history: Seq<Happening>) -> int
    decreases history.len(),
{
    if history.len() == 0 {
        0
    } else {
        balance_of(s, history.drop_last()) + history.last().balance(
            after_all(s, history.drop_last()),
        )
    }
}

/// In every history, whatever the order in which the tasks take their turns, the packets that
/// were received are those that were sent, those that were lost, and those that are still to be
/// passed on.
pub proof fn law_every_packet_is_accounted_for(s: SessionView, history: Seq<Happening>)
    ensures
        unsettled(after_all(s, history).stats) == in_64_bits(
            unsettled(s.stats) + balance_of(s, history),
        ),
    decreases history.len(),
{
    if history.len() == 0 {
        lemma_step_in_64_bits(
            s.stats.packets_received - s.stats.packets_sent - s.stats.packets_lost,
            s.stats.packets_received - s.stats.packets_sent - s.stats.packets_lost,
            0,
        );
    } else {
        let before = after_all(s, history.drop_last());
        law_every_packet_is_accounted_for(s, history.drop_last());
        let n = unsettled(s.stats) + balance_of(s, history.drop_last());
        let d = history.last().balance(before);
        lemma_step_in_64_bits(n, n + d, d);
        match history.last() {
            Happening::RtpReceived(Ok(packet), now) => {
                law_rtp_packets_are_sent_or_lost(before, packet, now, Ok(0));
            },
            Happening::RtpSent(outcome) => {
                let packet = PacketView {
                    data: Seq::empty(),
                    source: before.config.destination_addr,
                };
                law_rtp_packets_are_sent_or_lost(before, packet, 0, outcome);
            },
            Happening::UdpReceived(task, Ok((len, source)), now) => {
                law_udp_packets_are_sent_or_lost(before, task, len, source, now, Ok(0));
            },
            Happening::UdpSent(task, outcome) => {
                law_udp_packets_are_sent_or_lost(
                    before,
                    task,
                    0,
                    before.config.destination_addr,
                    0,
                    outcome,
                );
            },
            Happening::ReverseTcpRead(Some(Ok(len)), now) => {
                if len != 0 {
                    law_reverse_tcp_reads_are_sent_or_lost(before, len, now, Ok(()));
                }
            },
            Happening::ReverseTcpWritten(len, Some(outcome)) => {
                lemma_counters_settle(before.stats, len as u64);
            },
            _ => {},
        }
    }
}

/// In every history a session stays the session it is, and where it failed it says why.
pub proof fn law_session_keeps_its_identity(s: SessionView, history: Seq<Happening>)
    requires
        explains_failure(s),
    ensures
        same_session(after_all(s, history), s),
        explains_failure(after_all(s, history)),
    decreases history.len(),
{
    if history.len() > 0 {
        law_session_keeps_its_identity(s, history.drop_last());
    }
}

/// Whether the session is started at the beginning of a history or not at all, and stopped at
/// its end or not at all.
pub open spec fn orderly(history: Seq<Happening>) -> bool {
    forall|i: int| #![trigger history[i]]
        0 <= i < history.len() ==> {
            &&& history[i] is Started ==> i == 0
            &&& history[i] is Stopped ==> i == history.len() - 1
        }
}

/// In an orderly history a session is closed by its stop and by nothing else.
proof fn lemma_closed_by_stop(s: SessionView, history: Seq<Happening>)
    requires
        s.state == SessionState::Connecting,
        orderly(history),
    ensures
        after_all(s, history).state == SessionState::Closed ==> history.len() > 0
            && history.last() is Stopped,
    decreases history.len(),
{
    if history.len() > 0 {
        let earlier = history.drop_last();
        assert forall|i: int| #![trigger earlier[i]] 0 <= i < earlier.len() implies {
            &&& earlier[i] is Started ==> i == 0
            &&& !(earlier[i] is Stopped)
        } by {
            assert(earlier[i] == history[i]);
        }
        lemma_closed_by_stop(s, earlier);
        assert(history.last() == history[history.len() - 1]);
    }
}

/// A session that was just created never goes back in its life: of two states that are seen in
/// a history, the later one has no smaller number. Connecting comes before active, active
/// before failed, and closed is last.
pub proof fn law_session_never_goes_back(
    s: SessionView,
    history: Seq<Happening>,
    earlier: int,
    later: int,
)
    requires
        s.state == SessionState::Connecting,
        orderly(history),
        0 <= earlier <= later <= history.len(),
    ensures
        after_all(s, history.take(earlier)).state.proto_number() <= after_all(
            s,
            history.take(later),
        ).state.proto_number(),
    decreases later - earlier,
{
    if earlier < later {
        law_session_never_goes_back(s, history, earlier, later - 1);
        let before = history.take(later - 1);
        let after = history.take(later);
        assert(after.drop_last() =~= before);
        assert(after.last() == history[later - 1]);
        assert forall|i: int| #![trigger before[i]] 0 <= i < before.len() implies {
            &&& before[i] is Started ==> i == 0
            &&& !(before[i] is Stopped)
        } by {
            assert(before[i] == history[i]);
        }
        lemma_closed_by_stop(s, before);
        if before.len() > 0 {
            assert(before.last() == before[before.len() - 1]);
        }
    }
}

/// A session that was started is not started again, whatever happens to it: the manager starts
/// only sessions that are connecting.
pub proof fn law_session_is_started_once(
    m: SessionManagerView,
    place: usize,
    history: Seq<Happening>,
    later: Session,
)
    requires
        m.holds(place as int),
        m.at(place as int).state != SessionState::Connecting,
        later@ == after_all(m.at(place as int), history),
    ensures
        !m.with_session_at(place, later).awaits_start(place),
{
    lemma_never_connecting_again(m.at(place as int), history);
}

proof fn lemma_never_connecting_again(s: SessionView, history: Seq<Happening>)
    requires
        s.state != SessionState::Connecting,
    ensures
        after_all(s, history).state != SessionState::Connecting,
    decreases history.len(),
{
    if history.len() > 0 {
        lemma_never_connecting_again(s, history.drop_last());
    }
}

/// Whether, among `events`, there is the report of a change from one state to another exactly
/// where the two differ.
pub open spec fn reports_change(
    before: SessionView,
    after: SessionView,
    events: Seq<SessionEventView>,
    now: i64,
) -> bool {
    before.state != after.state <==> events.contains(
        SessionEventView::StateChanged {
            session_id: before.id,
            old_state: before.state,
            new_state: after.state,
            timestamp: now,
        },
    )
}

/// What is reported after a receive of the RTP task.
pub open spec fn step_events(step: RtpStepView) -> Seq<SessionEventView> {
    match step {
        RtpStepView::Forward { .. } => Seq::empty(),
        RtpStepView::Stop(events) => events,
    }
}

/// Each change of a session's state is reported, and nothing else is reported as one: when it is
/// started, when its RTP task fails, and when it is stopped. The other tasks change no state.
pub proof fn law_state_changes_are_reported(
    s: SessionView,
    task: UdpForwardingView,
    rtp_received: Result<PacketView, ProxyErrorView>,
    rtp_sent: Result<usize, ProxyErrorView>,
    udp_received: Result<(usize, SocketAddrView), Seq<char>>,
    udp_sent: Result<usize, Seq<char>>,
    tcp_read: Option<Result<usize, Seq<char>>>,
    tcp_written: Option<Result<(), Seq<char>>>,
    len: usize,
    now: i64,
)
    ensures
        s.started(now) matches Ok(started) ==> reports_change(
            s,
            s.with_state(SessionState::Active),
            started.events,
            now,
        ),
        reports_change(
            s,
            s.with_state(SessionState::Closed),
            s.state_change(SessionState::Closed, now),
            now,
        ),
        reports_change(
            s,
            s.after_rtp_received(rtp_received, now),
            step_events(s.rtp_received_step(rtp_received, now)),
            now,
        ),
        reports_change(s, s.after_rtp_sent(rtp_sent), s.rtp_sent_events(rtp_sent, now), now),
        s.after_udp_received(task, udp_received, now).state == s.state,
        s.after_udp_sent(task, udp_sent).state == s.state,
        s.after_reverse_tcp_read(tcp_read, now).state == s.state,
        s.after_reverse_tcp_written(len, tcp_written).state == s.state,
{
    lemma_change_is_reported(s, SessionState::Active, now);
    lemma_change_is_reported(s, SessionState::Closed, now);
    lemma_change_is_reported(s, SessionState::Error, now);
    if rtp_received is Err {
        lemma_failure_is_reported(s, rtp_received->Err_0.text(), now);
    }
    if rtp_sent is Err {
        lemma_failure_is_reported(s, rtp_sent->Err_0.text(), now);
    }
}

proof fn lemma_change_is_reported(s: SessionView, new_state: SessionState, now: i64)
    ensures
        reports_change(s, s.with_state(new_state), s.state_change(new_state, now), now),
{
    if s.state != new_state {
        assert(s.state_change(new_state, now)[0] == SessionEventView::StateChanged {
            session_id: s.id,
            old_state: s.state,
            new_state,
            timestamp: now,
        });
    }
}

proof fn lemma_failure_is_reported(s: SessionView, message: Seq<char>, now: i64)
    ensures
        reports_change(
            s,
            s.with_state(SessionState::Error),
            s.failure_events(message, now),
            now,
        ),
{
    let changes = s.state_change(SessionState::Error, now);
    let events = s.failure_events(message, now);
    lemma_change_is_reported(s, SessionState::Error, now);
    if s.state != SessionState::Error {
        assert(events[0] == changes[0]);
    }
}

/// Traffic, counted without a limit.
#[verifier::ext_equal]
pub struct Traffic {
    pub packets_received: nat,
    pub bytes_received: nat,
    pub packets_sent: nat,
    pub bytes_sent: nat,
    pub packets_lost: nat,
}

impl Traffic {
    /// No traffic.
    pub open spec fn none() -> Traffic {
        Traffic {
            packets_received: 0,
            bytes_received: 0,
            packets_sent: 0,
            bytes_sent: 0,
            packets_lost: 0,
        }
    }

    /// A received packet.
    pub open spec fn received(bytes: u64) -> Traffic {
        Traffic { packets_received: 1, bytes_received: bytes as nat, ..Traffic::none() }
    }

    /// A sent packet.
    pub open spec fn sent(bytes: u64) -> Traffic {
        Traffic { packets_sent: 1, bytes_sent: bytes as nat, ..Traffic::none() }
    }

    /// A lost packet.
    pub open spec fn lost() -> Traffic {
        Traffic { packets_lost: 1, ..Traffic::none() }
    }

    /// All of the traffic of two.
    pub open spec fn plus(self, other: Traffic) -> Traffic {
        Traffic {
            packets_received: self.packets_received + other.packets_received,
            bytes_received: self.bytes_received + other.bytes_received,
            packets_sent: self.packets_sent + other.packets_sent,
            bytes_sent: self.bytes_sent + other.bytes_sent,
            packets_lost: self.packets_lost + other.packets_lost,
        }
    }

    /// Whether the counters can take the traffic on without passing the largest 64-bit number.
    pub open spec fn fits(self, stats: TrafficStatsSnapshot) -> bool {
        &&& stats.packets_received + self.packets_received <= u64::MAX
        &&& stats.bytes_received + self.bytes_received <= u64::MAX
        &&& stats.packets_sent + self.packets_sent <= u64::MAX
        &&& stats.bytes_sent + self.bytes_sent <= u64::MAX
        &&& stats.packets_lost + self.packets_lost <= u64::MAX
    }

    /// Whether one set of counters is another with the traffic added.
    pub open spec fn leads(self, from: TrafficStatsSnapshot, to: TrafficStatsSnapshot) -> bool {
        &&& to.packets_received == from.packets_received + self.packets_received
        &&& to.bytes_received == from.bytes_received + self.bytes_received
        &&& to.packets_sent == from.packets_sent + self.packets_sent
        &&& to.bytes_sent == from.bytes_sent + self.bytes_sent
        &&& to.packets_lost == from.packets_lost + self.packets_lost
    }
}

/// The traffic of a history.
pub open spec fn traffic_of(s: SessionView, history: Seq<Happening>) -> Traffic
    decreases history.len(),
{
    if history.len() == 0 {
        Traffic::none()
    } else {
        traffic_of(s, history.drop_last()).plus(
            history.last().traffic(after_all(s, history.drop_last())),
        )
    }
}

proof fn lemma_no_wrap(a: u64, b: u64)
    requires
        a + b <= u64::MAX,
    ensures
        wrapping_sum(a, b) == a + b,
{
    lemma_small_mod((a + b) as nat, 0x1_0000_0000_0000_0000);
}

/// What the counters show after one happening.
proof fn lemma_counters_count(s: SessionView, happening: Happening)
    requires
        happening.traffic(s).fits(s.stats),
    ensures
        happening.traffic(s).leads(s.stats, happening.after(s).stats),
{
    let stats = s.stats;
    let traffic = happening.traffic(s);
    if traffic.packets_received == 1 {
        lemma_no_wrap(stats.packets_received, 1);
        lemma_no_wrap(stats.bytes_received, traffic.bytes_received as u64);
    }
    if traffic.packets_sent == 1 {
        lemma_no_wrap(stats.packets_sent, 1);
        lemma_no_wrap(stats.bytes_sent, traffic.bytes_sent as u64);
    }
    if traffic.packets_lost == 1 {
        lemma_no_wrap(stats.packets_lost, 1);
    }
}

/// The counters show the traffic of a session's history, as long as none of them passes the
/// largest 64-bit number.
pub proof fn law_counters_show_the_traffic(s: SessionView, history: Seq<Happening>)
    requires
        traffic_of(s, history).fits(s.stats),
    ensures
        traffic_of(s, history).leads(s.stats, after_all(s, history).stats),
    decreases history.len(),
{
    if history.len() > 0 {
        law_counters_show_the_traffic(s, history.drop_last());
        lemma_counters_count(after_all(s, history.drop_last()), history.last());
    }
}

proof fn lemma_traffic_grows(s: SessionView, history: Seq<Happening>, earlier: int, later: int)
    requires
        0 <= earlier <= later <= history.len(),
    ensures
        ({
            let a = traffic_of(s, history.take(earlier));
            let b = traffic_of(s, history.take(later));
            &&& a.packets_received <= b.packets_received
            &&& a.bytes_received <= b.bytes_received
            &&& a.packets_sent <= b.packets_sent
            &&& a.bytes_sent <= b.bytes_sent
            &&& a.packets_lost <= b.packets_lost
        }),
    decreases later - earlier,
{
    if earlier < later {
        lemma_traffic_grows(s, history, earlier, later - 1);
        assert(history.take(later).drop_last() =~= history.take(later - 1));
    }
}

/// A session reports its statistics where its configuration has an interval, and then at once
/// and after each further interval.
pub proof fn law_reports_come_at_once_and_every_interval(s: SessionView, number: nat)
    requires
        s.start_actions() is Ok,
    ensures
        ({
            let interval = s.config.stats_interval_seconds;
            let actions = s.start_actions()->Ok_0;
            &&& interval > 0 <==> exists|n: u32| #[trigger]
                actions.contains(StartActionView::ReportStats { interval_seconds: n })
            &&& interval > 0 ==> actions.contains(
                StartActionView::ReportStats { interval_seconds: interval },
            )
            &&& report_time(interval as nat, 0) == 0
            &&& report_time(interval as nat, number + 1) == report_time(interval as nat, number)
                + interval
        }),
{
    let interval = s.config.stats_interval_seconds;
    let actions = s.start_actions()->Ok_0;
    if interval > 0 {
        assert(actions.last() == StartActionView::ReportStats { interval_seconds: interval });
        assert(actions.contains(StartActionView::ReportStats { interval_seconds: interval }));
    }
    assert(0 * (interval as nat) == 0) by (nonlinear_arith);
    assert((number + 1) * (interval as nat) == number * (interval as nat) + interval)
        by (nonlinear_arith);
}

/// Of two statistics reports of a session, the later one shows no counter lower than the earlier
/// one, as long as none of them passes the largest 64-bit number.
pub proof fn law_reports_never_go_down(
    s: SessionView,
    history: Seq<Happening>,
    earlier: int,
    later: int,
)
    requires
        0 <= earlier <= later <= history.len(),
        traffic_of(s, history).fits(s.stats),
    ensures
        ({
            let a = after_all(s, history.take(earlier)).stats;
            let b = after_all(s, history.take(later)).stats;
            &&& a.packets_received <= b.packets_received
            &&& a.bytes_received <= b.bytes_received
            &&& a.packets_sent <= b.packets_sent
            &&& a.bytes_sent <= b.bytes_sent
            &&& a.packets_lost <= b.packets_lost
        }),
{
    assert(history.take(history.len() as int) =~= history);
    lemma_traffic_grows(s, history, earlier, later);
    lemma_traffic_grows(s, history, later, history.len() as int);
    law_counters_show_the_traffic(s, history.take(earlier));
    law_counters_show_the_traffic(s, history.take(later));
}

/// The session that comes out of a setup has the transport that its configuration asks for, and
/// begins as connecting, without traffic and without an error.
pub proof fn law_setup_opens_the_configured_session(
    setup: SessionSetupView,
    outcome: Result<(), Seq<char>>,
)
    requires
        setup.wf(),
    ensures
        match setup.after_bind(outcome) {
            Ok(SessionSetupStepView::Bind(next)) => next.wf() && next.session_id
                == setup.session_id && next.config == setup.config && next.created_at
                == setup.created_at,
            Ok(SessionSetupStepView::Open { session, event, transport }) => {
                &&& session == SessionView::fresh(
                    setup.session_id,
                    setup.config,
                    setup.config.protocol,
                    setup.created_at,
                )
                &&& transport.kind() == setup.config.protocol
                &&& event.session_id() == setup.session_id
            },
            Err(_) => true,
        },
{
}

/// A session over the transport that its configuration asks for can be brought up, unless it is
/// a UDP session whose destination has no port for RTCP.
pub proof fn law_session_can_be_brought_up(s: SessionView)
    requires
        s.transport == s.config.protocol,
    ensures
        s.start_actions() is Err <==> s.config.protocol == TransportType::Udp
            && !s.config.destination_addr.has_next_port(),
        s.start_actions() matches Err(e) ==> e == port_overflow(),
{
}

/// A session that was registered is found under its id, its id is taken, and nothing else
/// changes for those who ask.
pub proof fn law_registered_session_is_found(m: SessionManagerView, place: usize, other: Seq<char>)
    requires
        m.wf(),
        m.registration(place) is Ok,
        other != m.at(place as int).id,
    ensures
        ({
            let id = m.at(place as int).id;
            let after = m.after_registration(place);
            &&& after.wf()
            &&& after.registered.contains_key(id)
            &&& after.session_info(id) == Ok::<SessionInfoView, ProxyErrorView>(
                m.at(place as int).info(),
            )
            &&& after.session_info(other) == m.session_info(other)
        }),
{
}

/// An id names one session only: of two creations of one free id, whichever ends first succeeds,
/// and the other one is refused because the id is taken. The session that was registered stays
/// as it is, and the other one is gone.
pub proof fn law_one_of_two_creations_succeeds(m: SessionManagerView, first: usize, second: usize)
    requires
        m.wf(),
        first != second,
        m.creates(first),
        m.creates(second),
        m.at(first as int).id == m.at(second as int).id,
        !m.registered.contains_key(m.at(first as int).id),
    ensures
        ({
            let id = m.at(first as int).id;
            let between = m.after_registration(first);
            let after = between.after_registration(second);
            &&& m.registration(first) is Ok
            &&& m.registration(first)->Ok_0.session_id == id
            &&& between.registration(second) == Err::<RegisteredView, ProxyErrorView>(
                ProxyErrorView::SessionExists(id),
            )
            &&& after.wf()
            &&& after.session_info(id) == Ok::<SessionInfoView, ProxyErrorView>(
                m.at(first as int).info(),
            )
            &&& !after.holds(second as int)
        }),
{
    let between = m.after_registration(first);
    assert(between.creates(second));
    let after = between.after_registration(second);
    assert forall|id: Seq<char>| #[trigger] after.registered.contains_key(id) implies after.holds(
        after.registered[id] as int,
    ) && after.at(after.registered[id] as int).id == id by {
        if id != m.at(first as int).id {
            assert(m.registered.contains_key(id));
        }
    }
}

/// The reply to a request to create a session shows when the session was created, as does the
/// status of the session at any later time.
pub proof fn law_reply_shows_the_time_of_creation(
    m: SessionManagerView,
    place: usize,
    later: Session,
)
    requires
        m.wf(),
        m.registration(place) is Ok,
        same_session(later@, m.at(place as int)),
    ensures
        ({
            let reply = create_reply(m.registration(place));
            let shown = m.after_registration(place).with_session_at(place, later).session_info(
                m.at(place as int).id,
            );
            &&& reply is Ok && status_reply(shown) is Ok
            &&& reply->Ok_0.session_id == m.at(place as int).id
            &&& reply->Ok_0.created_at == m.at(place as int).created_at
            &&& status_reply(shown)->Ok_0.session is Some
            &&& status_reply(shown)->Ok_0.session->0.created_at == reply->Ok_0.created_at
        }),
{
}

/// A session that is being created, or whose creation failed, is not seen by those who ask.
pub proof fn law_unregistered_session_is_not_seen(
    m: SessionManagerView,
    session: Session,
    place: usize,
    id: Seq<char>,
)
    requires
        m.wf(),
        m.creates(place),
    ensures
        m.with_session(session).session_info(id) == m.session_info(id),
        m.with_session_at(place, session).session_info(id) == m.session_info(id),
        m.without_place(place).wf(),
        m.without_place(place).session_info(id) == m.session_info(id),
{
}

/// What happens to one registered session does not show in another.
pub proof fn law_sessions_do_not_interfere(
    m: SessionManagerView,
    id: Seq<char>,
    session: Session,
    other: Seq<char>,
)
    requires
        m.wf(),
        m.registered.contains_key(id),
        session@.id == id,
        other != id,
    ensures
        m.with_session_at(m.registered[id], session).wf(),
        m.with_session_at(m.registered[id], session).session_info(id) == Ok::<
            SessionInfoView,
            ProxyErrorView,
        >(session@.info()),
        m.with_session_at(m.registered[id], session).session_info(other) == m.session_info(other),
{
}

/// A destroyed session is not found any more, its id is free, and all other sessions stay as
/// they are.
pub proof fn law_destroyed_session_is_gone(
    m: SessionManagerView,
    id: Seq<char>,
    place: usize,
    other: Seq<char>,
)
    requires
        m.wf(),
        other != id,
    ensures
        m.after_stop(id, place).wf(),
        !m.after_stop(id, place).registered.contains_key(id),
        m.after_stop(id, place).session_info(id) == Err::<SessionInfoView, ProxyErrorView>(
            ProxyErrorView::SessionNotFound(id),
        ),
        m.after_stop(id, place).session_info(other) == m.session_info(other),
{
}

/// Nothing is reported of a session once it was stopped: there is no session at its place any
/// more.
pub proof fn law_stopped_session_is_silent(m: SessionManagerView, id: Seq<char>, place: usize)
    requires
        m.has_at(id, place as int),
    ensures
        !m.after_stop(id, place).holds(place as int),
{
}

/// The place of a session that is gone stays empty, whatever the manager does: it is not used
/// for another session.
pub proof fn law_empty_place_stays_empty(
    m: SessionManagerView,
    place: usize,
    opened: Session,
    changed: Session,
    other: usize,
    id: Seq<char>,
)
    requires
        place < m.places.len(),
        !m.holds(place as int),
        m.holds(other as int),
    ensures
        !m.with_session(opened).holds(place as int),
        !m.with_session_at(other, changed).holds(place as int),
        !m.after_registration(other).holds(place as int),
        !m.without_place(other).holds(place as int),
        !m.after_stop(id, other).holds(place as int),
{
}

/// A list without a filter shows as many sessions as are registered.
pub proof fn law_list_shows_every_session(m: SessionManagerView, infos: Seq<SessionInfoView>)
    requires
        m.lists(infos, None),
    ensures
        infos.len() == m.registered.dom().len(),
{
    let ids = infos.map_values(|info: SessionInfoView| info.session_id);
    assert(ids.no_duplicates());
    assert(ids.to_set() =~= m.registered.dom()) by {
        assert forall|id: Seq<char>| m.registered.dom().contains(id) implies ids.to_set().contains(
            id,
        ) by {
            assert(m.registered.contains_key(id));
            let i = choose|i: int| 0 <= i < infos.len() && (#[trigger] infos[i]).session_id == id;
            assert(ids[i] == id);
        }
        assert forall|id: Seq<char>| ids.to_set().contains(id) implies m.registered.dom().contains(
            id,
        ) by {
            let i = choose|i: int| 0 <= i < ids.len() && ids[i] == id;
            assert(infos[i].session_id == id);
        }
    }
    ids.unique_seq_to_set();
}

/// A list of the sessions in one state shows exactly those of the full list that are in it.
pub proof fn law_filter_selects_by_state(
    m: SessionManagerView,
    all: Seq<SessionInfoView>,
    some: Seq<SessionInfoView>,
    state: SessionState,
    info: SessionInfoView,
)
    requires
        m.lists(all, None),
        m.lists(some, Some(state)),
    ensures
        some.contains(info) <==> all.contains(info) && info.state == state,
{
    if some.contains(info) {
        let i = choose|i: int| 0 <= i < some.len() && some[i] == info;
        assert(m.registered.contains_key(some[i].session_id));
        let j = choose|j: int|
            0 <= j < all.len() && (#[trigger] all[j]).session_id == info.session_id;
        assert(all[j] == info);
    }
    if all.contains(info) && info.state == state {
        let i = choose|i: int| 0 <= i < all.len() && all[i] == info;
        assert(m.registered.contains_key(all[i].session_id));
        let j = choose|j: int|
            0 <= j < some.len() && (#[trigger] some[j]).session_id == info.session_id;
        assert(some[j] == info);
    }
}

/// States and protocols are told apart by their numbers, and a request that filters by the
/// number of a state gets that state.
pub proof fn law_numbers_stand_for_states_and_protocols(state: SessionState, protocol: Protocol)
    ensures
        spec_state_from_number(state.proto_number()) == Some(state),
        list_filter(Some(state.proto_number())) == Some(state),
        Protocol::spec_from_number(protocol.spec_number()) == Some(protocol),
{
}

/// The endpoints at which a session is shown can be used in a request again: as long as the
/// reader of socket addresses reads an address, a colon and the port back as what they were
/// written from, they come out as the session's addresses.
pub proof fn law_shown_endpoints_read_back(
    info: SessionInfoView,
    read: spec_fn(Seq<char>) -> Result<SocketAddrView, Seq<char>>,
)
    requires
        forall|addr: SocketAddrView|
            addr == info.config.listen_addr || addr == info.config.forward_addr || addr
                == info.config.destination_addr ==> #[trigger] read(addr_text(addr)) == Ok::<
                SocketAddrView,
                Seq<char>,
            >(addr),
    ensures
        ({
            let shown = session_info_proto(info);
            &&& endpoint_result(read(endpoint_text_of(shown.listen_endpoint->0))) == Ok::<
                SocketAddrView,
                StatusView,
            >(info.config.listen_addr)
            &&& endpoint_result(read(endpoint_text_of(shown.forward_endpoint->0))) == Ok::<
                SocketAddrView,
                StatusView,
            >(info.config.forward_addr)
            &&& endpoint_result(read(endpoint_text_of(shown.destination_endpoint->0))) == Ok::<
                SocketAddrView,
                StatusView,
            >(info.config.destination_addr)
        }),
{
    let shown = session_info_proto(info);
    assert(endpoint_text_of(shown.listen_endpoint->0) == addr_text(info.config.listen_addr));
    assert(endpoint_text_of(shown.forward_endpoint->0) == addr_text(info.config.forward_addr));
    assert(endpoint_text_of(shown.destination_endpoint->0) == addr_text(
        info.config.destination_addr,
    ));
}

/// A socket address as text: address, colon, port.
pub open spec fn addr_text(addr: SocketAddrView) -> Seq<char> {
    addr.ip + ":"@ + decimal(addr.port as nat)
}

/// A stream for no named session shows the events of all sessions, and any other stream those
/// of the named ones.
pub proof fn law_stream_shows_the_named_sessions(ids: Seq<Seq<char>>, id: Seq<char>)
    ensures
        streams(stream_filter(ids), id) <==> ids.len() == 0 || ids.contains(id),
{
}

/// All that a stream shows, event by event.
pub open spec fn streamed(filter: Option<Seq<Seq<char>>>, events: Seq<SessionEventView>) -> Seq<
    ProtoSessionEventView,
>
    decreases events.len(),
{
    if events.len() == 0 {
        Seq::empty()
    } else {
        let earlier = streamed(filter, events.drop_last());
        match shown_event(filter, events.last()) {
            Some(shown) => earlier.push(shown),
            None => earlier,
        }
    }
}

/// A stream shows exactly the events of the sessions it is for, in their order and each of them
/// once: those of the named sessions, or of all sessions where none is named.
pub proof fn law_stream_is_complete_and_in_order(
    ids: Seq<Seq<char>>,
    events: Seq<SessionEventView>,
)
    ensures
        streamed(stream_filter(ids), events) == events.filter(
            |event: SessionEventView| ids.len() == 0 || ids.contains(event.session_id()),
        ).map_values(|event: SessionEventView| event_proto(event)),
    decreases events.len(),
{
    reveal(Seq::filter);
    let wanted = |event: SessionEventView| ids.len() == 0 || ids.contains(event.session_id());
    let convert = |event: SessionEventView| event_proto(event);
    if events.len() > 0 {
        law_stream_is_complete_and_in_order(ids, events.drop_last());
        law_stream_shows_the_named_sessions(ids, events.last().session_id());
        let earlier = events.drop_last().filter(wanted);
        assert(earlier.push(events.last()).map_values(convert) =~= earlier.map_values(
            convert,
        ).push(convert(events.last())));
    }
    assert(streamed(stream_filter(ids), events) =~= events.filter(wanted).map_values(convert));
}

/// A request to create a session begins its creation exactly when it is complete, its endpoints
/// are socket addresses, its protocol is known and its id is free; it is refused as already
/// there exactly when only the last of these fails, and as invalid otherwise.
pub proof fn law_create_request_is_answered(
    m: SessionManagerView,
    request: CreateSessionRequestView,
    parsed: ParsedEndpointsView,
    now: i64,
)
    ensures
        ({
            let r = create_session_result(m, request, parsed, now);
            let complete = request.session_id.len() > 0 && request.listen_endpoint is Some
                && request.forward_endpoint is Some && request.destination_endpoint is Some;
            let readable = parsed.listen is Ok && parsed.forward is Ok && parsed.destination is Ok;
            let known = request.protocol == 1 || request.protocol == 2;
            let valid = complete && readable && known;
            let taken = m.registered.contains_key(request.session_id);
            &&& r is Ok <==> valid && !taken
            &&& valid && taken ==> r == Err::<SessionSetupView, StatusView>(
                StatusView::already_exists(
                    "Session "@ + request.session_id + " already exists"@,
                ),
            )
            &&& !valid ==> r is Err && r->Err_0.code == Code::InvalidArgument
        }),
{
}

/// A request about a session that is not there is refused alike, whether it asks for the
/// status of the session or for its destruction.
pub proof fn law_unknown_session_is_refused(m: SessionManagerView, id: Seq<char>)
    requires
        !m.registered.contains_key(id),
    ensures
        status_reply(m.session_info(id)) is Err,
        status_reply(m.session_info(id))->Err_0 == destroy_refusal(
            ProxyErrorView::SessionNotFound(id),
        ),
        destroy_refusal(ProxyErrorView::SessionNotFound(id)) == StatusView::not_found(
            "Session "@ + id + " not found"@,
        ),
{
}

/// The status of a session that was just created shows what the request asked for: its id, its
/// three endpoints and its protocol. It is active, as old as its creation, and has seen no
/// traffic and no error.
pub proof fn law_status_shows_what_was_requested(
    m: SessionManagerView,
    request: CreateSessionRequestView,
    parsed: ParsedEndpointsView,
    now: i64,
    created: Session,
    started: Session,
)
    requires
        m.wf(),
        m.places.len() < usize::MAX,
        create_session_result(m, request, parsed, now) is Ok,
        created@ == SessionView::fresh(
            request.session_id,
            request.config(parsed)->Ok_0,
            request.config(parsed)->Ok_0.protocol,
            now,
        ),
        started@ == created@.with_state(SessionState::Active),
    ensures
        ({
            let place = m.places.len() as usize;
            let active = m.with_session(created).with_session_at(place, started);
            let after = active.after_registration(place);
            let r = status_reply(after.session_info(request.session_id));
            &&& m.with_session(created).awaits_start(place)
            &&& active.registration(place) is Ok
            &&& after.wf()
            &&& r is Ok && r->Ok_0.session is Some
            &&& ({
                let shown = r->Ok_0.session->0;
                &&& shown.session_id == request.session_id
                &&& shown.state == SessionState::Active.proto_number()
                &&& shown.listen_endpoint == Some(addr_endpoint(parsed.listen->Ok_0))
                &&& shown.forward_endpoint == Some(addr_endpoint(parsed.forward->Ok_0))
                &&& shown.destination_endpoint == Some(addr_endpoint(parsed.destination->Ok_0))
                &&& shown.protocol == request.protocol
                &&& shown.created_at == now
                &&& shown.last_activity_at == now
                &&& shown.stats == Some(stats_proto(TrafficStatsSnapshot::zero()))
                &&& shown.error_message == Seq::<char>::empty()
            })
        }),
{
    let place = m.places.len() as usize;
    let active = m.with_session(created).with_session_at(place, started);
    assert(active.holds(place as int));
    assert(!active.registered.contains_key(request.session_id));
    assert forall|id: Seq<char>| #[trigger] active.registered.contains_key(id) implies active.holds(
        active.registered[id] as int,
    ) && active.at(active.registered[id] as int).id == id by {
        assert(m.registered.contains_key(id));
    }
    assert(active.creates(place));
    assert(active.after_registration(place).wf());
    assert(m.with_session(created).holds(place as int));
}

} // verus!

//! The session itself: what is known about it, and how each event of its tasks changes that.

use bytes::Bytes;
use vstd::prelude::*;

use super::event::{SessionEvent, SessionEventView};
use super::forwarding::{
    ForwardTarget, ForwardTargetView, StartAction, StartActionView, Started, StartedView,
    UdpForwarding, UdpForwardingView,
};
use super::stats::{SessionState, TrafficStats, TrafficStatsSnapshot};
use crate::addr::{increment_port, port_overflow, SocketAddr, SocketAddrView};
use crate::error::{ProxyError, ProxyErrorView};
use crate::model::{option_view, result_view, seq_view};
use crate::payload::{bytes_len, cut_to_received, payload, received_prefix, Packet, PacketView};
use crate::transport::{SocketRole, TransportType};

verus! {

/// The configuration of a session.
#[derive(Debug)]
pub struct SessionConfig {
    pub listen_addr: SocketAddr,
    pub forward_addr: SocketAddr,
    pub destination_addr: SocketAddr,
    pub protocol: TransportType,
    pub timeout_seconds: u32,
    pub stats_interval_seconds: u32,
}

/// The mathematical counterpart of [`SessionConfig`].
pub struct SessionConfigView {
    pub listen_addr: SocketAddrView,
    pub forward_addr: SocketAddrView,
    pub destination_addr: SocketAddrView,
    pub protocol: TransportType,
    pub timeout_seconds: u32,
    pub stats_interval_seconds: u32,
}

impl View for SessionConfig {
    type V = SessionConfigView;

    open spec fn view(&self) -> SessionConfigView {
        SessionConfigView {
            listen_addr: self.listen_addr@,
            forward_addr: self.forward_addr@,
            destination_addr: self.destination_addr@,
            protocol: self.protocol,
            timeout_seconds: self.timeout_seconds,
            stats_interval_seconds: self.stats_interval_seconds,
        }
    }
}

impl Clone for SessionConfig {
    fn clone(&self) -> (copy: SessionConfig)
        ensures
            copy@ == self@,
    {
        SessionConfig {
            listen_addr: self.listen_addr.clone(),
            forward_addr: self.forward_addr.clone(),
            destination_addr: self.destination_addr.clone(),
            protocol: self.protocol,
            timeout_seconds: self.timeout_seconds,
            stats_interval_seconds: self.stats_interval_seconds,
        }
    }
}

/// A session as it is shown to those who ask.
#[derive(Debug)]
pub struct SessionInfo {
    pub session_id: String,
    pub config: SessionConfig,
    pub state: SessionState,
    pub created_at: i64,
    pub last_activity: i64,
    pub stats: TrafficStatsSnapshot,
    pub error_message: Option<String>,
}

/// The mathematical counterpart of [`SessionInfo`].
pub struct SessionInfoView {
    pub session_id: Seq<char>,
    pub config: SessionConfigView,
    pub state: SessionState,
    pub created_at: i64,
    pub last_activity: i64,
    pub stats: TrafficStatsSnapshot,
    pub error_message: Option<Seq<char>>,
}

impl View for SessionInfo {
    type V = SessionInfoView;

    open spec fn view(&self) -> SessionInfoView {
        SessionInfoView {
            session_id: self.session_id@,
            config: self.config@,
            state: self.state,
            created_at: self.created_at,
            last_activity: self.last_activity,
            stats: self.stats,
            error_message: option_view(self.error_message),
        }
    }
}

/// A session of the proxy.
#[derive(Debug)]
pub struct Session {
    id: String,
    pub config: SessionConfig,
    pub state: SessionState,
    pub stats: TrafficStats,
    pub created_at: i64,
    pub last_activity: i64,
    pub error_message: Option<String>,
    /// The kind of transport that was set up for the session.
    pub transport: TransportType,
    /// Where the client's last RTP packet came from.
    client: Option<SocketAddr>,
    /// Where the client's last RTCP packet came from.
    rtcp_client: Option<SocketAddr>,
}

/// The mathematical counterpart of [`Session`].
pub struct SessionView {
    pub id: Seq<char>,
    pub config: SessionConfigView,
    pub state: SessionState,
    pub stats: TrafficStatsSnapshot,
    pub created_at: i64,
    pub last_activity: i64,
    pub error_message: Option<Seq<char>>,
    pub transport: TransportType,
    /// Where the client's last RTP packet came from.
    pub client: Option<SocketAddrView>,
    /// Where the client's last RTCP packet came from.
    pub rtcp_client: Option<SocketAddrView>,
}

impl View for Session {
    type V = SessionView;

    closed spec fn view(&self) -> SessionView {
        SessionView {
            id: self.id@,
            config: self.config@,
            state: self.state,
            stats: self.stats@,
            created_at: self.created_at,
            last_activity: self.last_activity,
            error_message: option_view(self.error_message),
            transport: self.transport,
            client: option_view(self.client),
            rtcp_client: option_view(self.rtcp_client),
        }
    }
}

/// What follows a receive of the RTP forwarding task.
#[derive(Debug)]
pub enum RtpStep {
    /// Send the data to the destination, then receive again.
    Forward { data: Bytes, destination: SocketAddr },
    /// Report the events and end the task.
    Stop(Vec<SessionEvent>),
}

/// The mathematical counterpart of [`RtpStep`].
pub enum RtpStepView {
    Forward { data: Seq<u8>, destination: SocketAddrView },
    Stop(Seq<SessionEventView>),
}

impl View for RtpStep {
    type V = RtpStepView;

    open spec fn view(&self) -> RtpStepView {
        match self {
            RtpStep::Forward { data, destination } => RtpStepView::Forward {
                data: payload(*data),
                destination: destination@,
            },
            RtpStep::Stop(events) => RtpStepView::Stop(seq_view(events@)),
        }
    }
}

/// What a task between two UDP sockets does after a receive.
#[derive(Debug)]
pub enum UdpStep {
    /// Send the data to an address, then receive again.
    Send { data: Vec<u8>, to: SocketAddr },
    /// Receive again: there is no client yet to send to.
    Skip,
    /// End the task.
    Stop,
}

/// The mathematical counterpart of [`UdpStep`].
pub enum UdpStepView {
    Send { data: Seq<u8>, to: SocketAddrView },
    Skip,
    Stop,
}

impl View for UdpStep {
    type V = UdpStepView;

    open spec fn view(&self) -> UdpStepView {
        match self {
            UdpStep::Send { data, to } => UdpStepView::Send { data: data@, to: to@ },
            UdpStep::Skip => UdpStepView::Skip,
            UdpStep::Stop => UdpStepView::Stop,
        }
    }
}

impl SessionView {
    /// A session that was just created.
    pub open spec fn fresh(
        id: Seq<char>,
        config: SessionConfigView,
        transport: TransportType,
        created_at: i64,
    ) -> SessionView {
        SessionView {
            id,
            config,
            state: SessionState::Connecting,
            stats: TrafficStatsSnapshot::zero(),
            created_at,
            last_activity: created_at,
            error_message: None,
            transport,
            client: None,
            rtcp_client: None,
        }
    }

    /// The session as it is shown to those who ask.
    pub open spec fn info(self) -> SessionInfoView {
        SessionInfoView {
            session_id: self.id,
            config: self.config,
            state: self.state,
            created_at: self.created_at,
            last_activity: self.last_activity,
            stats: self.stats,
            error_message: self.error_message,
        }
    }

    /// The session in another state.
    pub open spec fn with_state(self, state: SessionState) -> SessionView {
        SessionView { state, ..self }
    }

    /// The session after a packet of `bytes` bytes was received.
    pub open spec fn after_received(self, bytes: u64, now: i64) -> SessionView {
        SessionView { stats: self.stats.after_received(bytes), last_activity: now, ..self }
    }

    /// The session after a packet of `bytes` bytes was sent.
    pub open spec fn after_sent(self, bytes: u64) -> SessionView {
        SessionView { stats: self.stats.after_sent(bytes), ..self }
    }

    /// The session after a packet was lost.
    pub open spec fn after_lost(self) -> SessionView {
        SessionView { stats: self.stats.after_lost(), ..self }
    }

    /// The session after its RTP forwarding failed with the given message.
    pub open spec fn failed(self, message: Seq<char>) -> SessionView {
        SessionView { state: SessionState::Error, error_message: Some(message), ..self }
    }

    /// The report of a change to another state; nothing where the state stays as it is.
    pub open spec fn state_change(self, new_state: SessionState, now: i64) -> Seq<
        SessionEventView,
    > {
        if self.state == new_state {
            Seq::empty()
        } else {
            seq![
                SessionEventView::StateChanged {
                    session_id: self.id,
                    old_state: self.state,
                    new_state,
                    timestamp: now,
                },
            ]
        }
    }

    /// The report of a failure.
    pub open spec fn error_event(self, message: Seq<char>, now: i64) -> SessionEventView {
        SessionEventView::Error { session_id: self.id, error: message, timestamp: now }
    }

    /// What is reported where the RTP forwarding fails: the change of the state, where there is
    /// one, and the failure.
    pub open spec fn failure_events(self, message: Seq<char>, now: i64) -> Seq<SessionEventView> {
        self.state_change(SessionState::Error, now).push(self.error_event(message, now))
    }

    /// The session after a receive of the RTP forwarding task.
    pub open spec fn after_rtp_received(
        self,
        outcome: Result<PacketView, ProxyErrorView>,
        now: i64,
    ) -> SessionView {
        match outcome {
            Ok(packet) => SessionView {
                client: Some(packet.source),
                ..self.after_received(packet.data.len() as u64, now)
            },
            Err(e) => self.failed(e.text()),
        }
    }

    /// What follows a receive of the RTP forwarding task.
    pub open spec fn rtp_received_step(
        self,
        outcome: Result<PacketView, ProxyErrorView>,
        now: i64,
    ) -> RtpStepView {
        match outcome {
            Ok(packet) => RtpStepView::Forward {
                data: packet.data,
                destination: self.config.destination_addr,
            },
            Err(e) => RtpStepView::Stop(self.failure_events(e.text(), now)),
        }
    }

    /// The session after a send of the RTP forwarding task.
    pub open spec fn after_rtp_sent(self, outcome: Result<usize, ProxyErrorView>) -> SessionView {
        match outcome {
            Ok(sent) => self.after_sent(sent as u64),
            Err(e) => self.after_lost().failed(e.text()),
        }
    }

    /// What is reported after a send of the RTP forwarding task.
    pub open spec fn rtp_sent_events(self, outcome: Result<usize, ProxyErrorView>, now: i64) -> Seq<
        SessionEventView,
    > {
        match outcome {
            Ok(_) => Seq::empty(),
            Err(e) => self.failure_events(e.text(), now),
        }
    }

    /// Where a task sends a packet; `None` as long as the client to send to is not known.
    pub open spec fn destination(self, target: ForwardTargetView) -> Option<SocketAddrView> {
        match target {
            ForwardTargetView::Fixed(addr) => Some(addr),
            ForwardTargetView::Client => self.client,
            ForwardTargetView::RtcpClient => self.rtcp_client,
        }
    }

    /// What a task between two UDP sockets does after a receive into `buf`.
    pub open spec fn udp_step(
        self,
        task: UdpForwardingView,
        buf: Seq<u8>,
        outcome: Result<(usize, SocketAddrView), Seq<char>>,
    ) -> UdpStepView {
        match (outcome, self.destination(task.target)) {
            (Err(_), _) => UdpStepView::Stop,
            (Ok(_), None) => UdpStepView::Skip,
            (Ok((len, _)), Some(to)) => UdpStepView::Send {
                data: received_prefix(buf, len as int),
                to,
            },
        }
    }

    /// The session after a receive of a task between two UDP sockets. A packet that cannot be
    /// sent on because the client is not known is lost.
    pub open spec fn after_udp_received(
        self,
        task: UdpForwardingView,
        outcome: Result<(usize, SocketAddrView), Seq<char>>,
        now: i64,
    ) -> SessionView {
        match outcome {
            Ok((len, source)) => SessionView {
                stats: if !task.counts_traffic {
                    self.stats
                } else if self.destination(task.target) is None {
                    self.stats.after_received(len as u64).after_lost()
                } else {
                    self.stats.after_received(len as u64)
                },
                last_activity: if task.counts_activity {
                    now
                } else {
                    self.last_activity
                },
                rtcp_client: if task.learns_rtcp_client {
                    Some(source)
                } else {
                    self.rtcp_client
                },
                ..self
            },
            Err(_) => self,
        }
    }

    /// The session after a send of a task between two UDP sockets.
    pub open spec fn after_udp_sent(
        self,
        task: UdpForwardingView,
        outcome: Result<usize, Seq<char>>,
    ) -> SessionView {
        if task.counts_traffic {
            match outcome {
                Ok(sent) => self.after_sent(sent as u64),
                Err(_) => self.after_lost(),
            }
        } else {
            self
        }
    }

    /// The session after a read from the TCP destination; `None` where there is no stream.
    pub open spec fn after_reverse_tcp_read(
        self,
        outcome: Option<Result<usize, Seq<char>>>,
        now: i64,
    ) -> SessionView {
        match outcome {
            Some(Ok(len)) => if len == 0 {
                self
            } else {
                self.after_received(len as u64, now)
            },
            _ => self,
        }
    }

    /// The session after a write of `len` bytes to the TCP client; `None` where there is no
    /// stream.
    pub open spec fn after_reverse_tcp_written(
        self,
        len: usize,
        outcome: Option<Result<(), Seq<char>>>,
    ) -> SessionView {
        match outcome {
            Some(Ok(_)) => self.after_sent(len as u64),
            Some(Err(_)) => self.after_lost(),
            None => self,
        }
    }

    /// The tasks that the session's protocol calls for, or why they cannot be started.
    pub open spec fn forwarding_actions(self) -> Result<Seq<StartActionView>, ProxyErrorView> {
        match self.config.protocol {
            TransportType::Udp => if self.transport != TransportType::Udp {
                Err(ProxyErrorView::Transport("UDP transport not available for reverse RTP"@))
            } else if !self.config.destination_addr.has_next_port() {
                Err(port_overflow())
            } else {
                Ok(
                    seq![
                        StartActionView::forward_rtp(TransportType::Udp),
                        StartActionView::ForwardUdp(UdpForwardingView::reverse_rtp()),
                        StartActionView::ForwardUdp(
                            UdpForwardingView::rtcp(self.config.destination_addr),
                        ),
                        StartActionView::ForwardUdp(UdpForwardingView::reverse_rtcp()),
                    ],
                )
            },
            TransportType::Tcp => if self.transport == TransportType::Tcp {
                Ok(
                    seq![
                        StartActionView::forward_rtp(TransportType::Tcp),
                        StartActionView::AwaitConnections,
                        StartActionView::ForwardReverseTcp,
                    ],
                )
            } else {
                Ok(seq![StartActionView::forward_rtp(TransportType::Udp)])
            },
        }
    }

    /// All that has to be done to bring the session up, or why it cannot be.
    pub open spec fn start_actions(self) -> Result<Seq<StartActionView>, ProxyErrorView> {
        match self.forwarding_actions() {
            Ok(actions) => if self.config.stats_interval_seconds > 0 {
                Ok(
                    actions.push(
                        StartActionView::ReportStats {
                            interval_seconds: self.config.stats_interval_seconds,
                        },
                    ),
                )
            } else {
                Ok(actions)
            },
            Err(e) => Err(e),
        }
    }

    /// What making the session active comes to once its transport has started.
    pub open spec fn started(self, now: i64) -> Result<StartedView, ProxyErrorView> {
        match self.start_actions() {
            Ok(actions) => Ok(
                StartedView { actions, events: self.state_change(SessionState::Active, now) },
            ),
            Err(e) => Err(e),
        }
    }
}

/// What a read from the TCP destination gives to write to the client, or why the task ends.
pub open spec fn reverse_tcp_data(buf: Seq<u8>, outcome: Option<Result<usize, Seq<char>>>) -> Result<
    Seq<u8>,
    ProxyErrorView,
> {
    match outcome {
        None => Err(ProxyErrorView::Transport("Destination stream not available"@)),
        Some(Err(e)) => Err(ProxyErrorView::Io(e)),
        Some(Ok(len)) => if len == 0 {
            Err(ProxyErrorView::Transport("Connection closed by destination"@))
        } else {
            Ok(received_prefix(buf, len as int))
        },
    }
}

/// Whether the reverse TCP task goes on after a write to the client, or why it ends.
pub open spec fn reverse_tcp_result(outcome: Option<Result<(), Seq<char>>>) -> Result<
    (),
    ProxyErrorView,
> {
    match outcome {
        None => Err(ProxyErrorView::Transport("Client stream not available"@)),
        Some(Err(e)) => Err(ProxyErrorView::Io(e)),
        Some(Ok(_)) => Ok(()),
    }
}

/// The view of the result of an operation on a stream that may not be there.
pub open spec fn stream_outcome<T: View>(outcome: Option<Result<T, String>>) -> Option<
    Result<T::V, Seq<char>>,
> {
    match outcome {
        Some(r) => Some(result_view(r)),
        None => None,
    }
}

impl Session {
    /// Creates a session over a transport that was set up for it, and the report of its
    /// creation.
    pub fn new(
        session_id: String,
        config: SessionConfig,
        transport: TransportType,
        created_at: i64,
    ) -> (r: (Session, SessionEvent))
        ensures
            r.0@ == SessionView::fresh(session_id@, config@, transport, created_at),
            r.1@ == (SessionEventView::Created { session_id: session_id@, timestamp: created_at }),
    {
        let event = SessionEvent::Created { session_id: session_id.clone(), timestamp: created_at };
        let session = Session {
            id: session_id,
            config,
            state: SessionState::Connecting,
            stats: TrafficStats::new(),
            created_at,
            last_activity: created_at,
            error_message: None,
            transport,
            client: None,
            rtcp_client: None,
        };
        (session, event)
    }

    /// Makes the session active once its transport has started, and tells what has to be done
    /// to bring it up and what is to be reported.
    pub fn start(&mut self, transport_started: Result<(), ProxyError>, now: i64) -> (r: Result<
        Started,
        ProxyError,
    >)
        ensures
            match transport_started {
                Err(e) => *final(self) == *old(self) && r == Err::<Started, ProxyError>(e),
                Ok(_) => {
                    &&& final(self)@ == old(self)@.with_state(SessionState::Active)
                    &&& result_view(r) == old(self)@.started(now)
                },
            },
    {
        if let Err(e) = transport_started {
            return Err(e);
        }
        let events: Vec<SessionEvent> = self.set_state(SessionState::Active, now);
        let mut actions: Vec<StartAction> = Vec::new();
        actions.push(StartAction::forward_rtp(self.transport));
        match self.config.protocol {
            TransportType::Udp => {
                match self.start_reverse_rtp_forwarding() {
                    Ok(task) => actions.push(StartAction::ForwardUdp(task)),
                    Err(e) => return Err(e),
                }
                match self.start_rtcp_forwarding() {
                    Ok(task) => actions.push(StartAction::ForwardUdp(task)),
                    Err(e) => return Err(e),
                }
                match self.start_reverse_rtcp_forwarding() {
                    Ok(task) => actions.push(StartAction::ForwardUdp(task)),
                    Err(e) => return Err(e),
                }
            },
            TransportType::Tcp => {
                if self.transport == TransportType::Tcp {
                    actions.push(StartAction::AwaitConnections);
                    actions.push(StartAction::ForwardReverseTcp);
                }
            },
        }
        proof {
            let expected = old(self)@.forwarding_actions()->Ok_0;
            assert(seq_view(actions@) =~= expected);
        }
        let ghost forwarding = actions@;
        if self.config.stats_interval_seconds > 0 {
            actions.push(
                StartAction::ReportStats { interval_seconds: self.config.stats_interval_seconds },
            );
            assert(seq_view(actions@) =~= seq_view(forwarding).push(
                StartActionView::ReportStats {
                    interval_seconds: self.config.stats_interval_seconds,
                },
            ));
        }
        Ok(Started { actions, events })
    }

    /// Closes the session once its tasks have ended and its transport was closed, and tells what
    /// is to be reported.
    pub fn stop(&mut self, transport_closed: Result<(), ProxyError>, now: i64) -> (r: Result<
        Vec<SessionEvent>,
        ProxyError,
    >)
        ensures
            match transport_closed {
                Err(e) => *final(self) == *old(self) && r == Err::<Vec<SessionEvent>, ProxyError>(e),
                Ok(_) => {
                    &&& final(self)@ == old(self)@.with_state(SessionState::Closed)
                    &&& r is Ok
                    &&& seq_view(r->Ok_0@) == old(self)@.state_change(SessionState::Closed, now)
                },
            },
    {
        if let Err(e) = transport_closed {
            return Err(e);
        }
        Ok(self.set_state(SessionState::Closed, now))
    }

    /// Puts the session into a state, and reports this where it is another one.
    fn set_state(&mut self, new_state: SessionState, now: i64) -> (events: Vec<SessionEvent>)
        ensures
            final(self)@ == old(self)@.with_state(new_state),
            final(self).config == old(self).config,
            seq_view(events@) == old(self)@.state_change(new_state, now),
    {
        let mut events: Vec<SessionEvent> = Vec::new();
        if self.state != new_state {
            events.push(
                SessionEvent::StateChanged {
                    session_id: self.id.clone(),
                    old_state: self.state,
                    new_state,
                    timestamp: now,
                },
            );
        }
        self.state = new_state;
        events
    }

    /// The id of the session. It never changes.
    pub fn id(&self) -> (id: &String)
        ensures
            id@ == self@.id,
    {
        &self.id
    }

    /// When the session was created.
    pub fn created_at(&self) -> (timestamp: i64)
        ensures
            timestamp == self@.created_at,
    {
        self.created_at
    }

    /// The state of the session.
    pub fn get_state(&self) -> (state: SessionState)
        ensures
            state == self@.state,
    {
        self.state
    }

    /// When the session last saw a packet, or when it was created.
    pub fn get_last_activity(&self) -> (timestamp: i64)
        ensures
            timestamp == self@.last_activity,
    {
        self.last_activity
    }

    /// The message of the last failure.
    pub fn get_error_message(&self) -> (message: Option<String>)
        ensures
            option_view(message) == self@.error_message,
    {
        match &self.error_message {
            Some(message) => Some(message.clone()),
            None => None,
        }
    }

    /// The traffic counters as they are now.
    pub fn get_stats_snapshot(&self) -> (stats: TrafficStatsSnapshot)
        ensures
            stats == self@.stats,
    {
        self.stats.get_snapshot()
    }

    /// The session as it is shown to those who ask.
    pub fn info(&self) -> (info: SessionInfo)
        ensures
            info@ == self@.info(),
    {
        SessionInfo {
            session_id: self.id.clone(),
            config: self.config.clone(),
            state: self.get_state(),
            created_at: self.created_at,
            last_activity: self.get_last_activity(),
            stats: self.get_stats_snapshot(),
            error_message: self.get_error_message(),
        }
    }

    /// The periodic report of the traffic counters.
    pub fn stats_update(&self, now: i64) -> (event: SessionEvent)
        ensures
            event@ == (SessionEventView::StatsUpdate {
                session_id: self@.id,
                stats: self@.stats,
                timestamp: now,
            }),
    {
        SessionEvent::StatsUpdate {
            session_id: self.id.clone(),
            stats: self.stats.get_snapshot(),
            timestamp: now,
        }
    }

    /// Marks the session as failed and reports this.
    fn fail(&mut self, error: &ProxyError, now: i64) -> (events: Vec<SessionEvent>)
        ensures
            final(self)@ == old(self)@.failed(error@.text()),
            seq_view(events@) == old(self)@.failure_events(error@.text(), now),
    {
        self.error_message = Some(error.message());
        let mut events: Vec<SessionEvent> = self.set_state(SessionState::Error, now);
        let ghost changes = events@;
        events.push(
            SessionEvent::Error {
                session_id: self.id.clone(),
                error: error.message(),
                timestamp: now,
            },
        );
        assert(seq_view(events@) =~= seq_view(changes).push(events@.last()@));
        events
    }

    /// Takes what the RTP forwarding task received from the transport. A packet is counted and
    /// goes to the session's destination, and its source is where the client is; a failed
    /// receive ends the task.
    pub fn rtp_received(&mut self, outcome: Result<Packet, ProxyError>, now: i64) -> (step: RtpStep)
        ensures
            final(self)@ == old(self)@.after_rtp_received(result_view(outcome), now),
            step@ == old(self)@.rtp_received_step(result_view(outcome), now),
    {
        match outcome {
            Ok(packet) => {
                self.stats.record_received(bytes_len(&packet.data) as u64);
                self.last_activity = now;
                self.client = Some(packet.source);
                RtpStep::Forward {
                    data: packet.data,
                    destination: self.config.destination_addr.clone(),
                }
            },
            Err(e) => RtpStep::Stop(self.fail(&e, now)),
        }
    }

    /// Takes the result of the send that followed. A packet that could not be sent is lost, and
    /// the session fails; the task goes on either way.
    pub fn rtp_sent(&mut self, outcome: Result<usize, ProxyError>, now: i64) -> (events: Vec<
        SessionEvent,
    >)
        ensures
            final(self)@ == old(self)@.after_rtp_sent(result_view(outcome)),
            seq_view(events@) == old(self)@.rtp_sent_events(result_view(outcome), now),
    {
        match outcome {
            Ok(sent) => {
                self.stats.record_sent(sent as u64);
                Vec::new()
            },
            Err(e) => {
                self.stats.record_lost();
                self.fail(&e, now)
            },
        }
    }

    /// The task that forwards RTCP packets to the port after the destination's RTP port.
    pub fn start_rtcp_forwarding(&self) -> (r: Result<UdpForwarding, ProxyError>)
        ensures
            result_view(r) == (if self@.transport != TransportType::Udp {
                Err(ProxyErrorView::Transport("UDP transport not available for RTCP"@))
            } else if !self@.config.destination_addr.has_next_port() {
                Err(port_overflow())
            } else {
                Ok(UdpForwardingView::rtcp(self@.config.destination_addr))
            }),
    {
        if self.transport != TransportType::Udp {
            return Err(ProxyError::transport("UDP transport not available for RTCP"));
        }
        match increment_port(&self.config.destination_addr) {
            Ok(destination) => Ok(
                UdpForwarding {
                    name: "RTCP".to_string(),
                    recv_socket: SocketRole::RtcpListen,
                    send_socket: SocketRole::RtcpForward,
                    target: ForwardTarget::Fixed(destination),
                    counts_traffic: false,
                    counts_activity: false,
                    learns_rtcp_client: true,
                },
            ),
            Err(e) => Err(e),
        }
    }

    /// The task that forwards RTP packets from the destination to the client.
    pub fn start_reverse_rtp_forwarding(&self) -> (r: Result<UdpForwarding, ProxyError>)
        ensures
            result_view(r) == (if self@.transport != TransportType::Udp {
                Err(ProxyErrorView::Transport("UDP transport not available for reverse RTP"@))
            } else {
                Ok(UdpForwardingView::reverse_rtp())
            }),
    {
        if self.transport != TransportType::Udp {
            return Err(ProxyError::transport("UDP transport not available for reverse RTP"));
        }
        Ok(
            UdpForwarding {
                name: "reverse RTP".to_string(),
                recv_socket: SocketRole::RtpForward,
                send_socket: SocketRole::RtpListen,
                target: ForwardTarget::Client,
                counts_traffic: true,
                counts_activity: true,
                learns_rtcp_client: false,
            },
        )
    }

    /// The task that forwards RTCP packets from the destination to the client.
    pub fn start_reverse_rtcp_forwarding(&self) -> (r: Result<UdpForwarding, ProxyError>)
        ensures
            result_view(r) == (if self@.transport != TransportType::Udp {
                Err(ProxyErrorView::Transport("UDP transport not available for reverse RTCP"@))
            } else {
                Ok(UdpForwardingView::reverse_rtcp())
            }),
    {
        if self.transport != TransportType::Udp {
            return Err(ProxyError::transport("UDP transport not available for reverse RTCP"));
        }
        Ok(
            UdpForwarding {
                name: "reverse RTCP".to_string(),
                recv_socket: SocketRole::RtcpForward,
                send_socket: SocketRole::RtcpListen,
                target: ForwardTarget::RtcpClient,
                counts_traffic: false,
                counts_activity: false,
                learns_rtcp_client: false,
            },
        )
    }

    /// Whether the session has the connections that its reverse TCP task works on.
    pub fn start_reverse_tcp_forwarding(&self) -> (r: Result<(), ProxyError>)
        ensures
            result_view(r) == (if self@.transport != TransportType::Tcp {
                Err(
                    ProxyErrorView::Transport(
                        "TCP transport not available for reverse forwarding"@,
                    ),
                )
            } else {
                Ok(())
            }),
    {
        if self.transport != TransportType::Tcp {
            return Err(
                ProxyError::transport("TCP transport not available for reverse forwarding"),
            );
        }
        Ok(())
    }

    /// Where a task sends a packet; `None` as long as the client to send to is not known.
    fn destination(&self, target: &ForwardTarget) -> (to: Option<SocketAddr>)
        ensures
            option_view(to) == self@.destination(target@),
    {
        let known: &Option<SocketAddr> = match target {
            ForwardTarget::Fixed(addr) => return Some(addr.clone()),
            ForwardTarget::Client => &self.client,
            ForwardTarget::RtcpClient => &self.rtcp_client,
        };
        match known {
            Some(addr) => Some(addr.clone()),
            None => None,
        }
    }

    /// Takes what a task between two UDP sockets received into `buf`: a length and a source.
    /// Tells what to send and where to, unless the receive failed and the task ends, or the
    /// client to send to is not known yet and the packet is lost.
    pub fn udp_received(
        &mut self,
        task: &UdpForwarding,
        buf: Vec<u8>,
        outcome: Result<(usize, SocketAddr), String>,
        now: i64,
    ) -> (step: UdpStep)
        ensures
            final(self)@ == old(self)@.after_udp_received(task@, result_view(outcome), now),
            step@ == old(self)@.udp_step(task@, buf@, result_view(outcome)),
    {
        match outcome {
            Ok((len, source)) => {
                let destination: Option<SocketAddr> = self.destination(&task.target);
                if task.counts_traffic {
                    self.stats.record_received(len as u64);
                    if destination.is_none() {
                        self.stats.record_lost();
                    }
                }
                if task.counts_activity {
                    self.last_activity = now;
                }
                if task.learns_rtcp_client {
                    self.rtcp_client = Some(source);
                }
                match destination {
                    Some(to) => UdpStep::Send { data: cut_to_received(buf, len), to },
                    None => UdpStep::Skip,
                }
            },
            Err(_) => UdpStep::Stop,
        }
    }

    /// Takes the result of the send that followed. The task goes on either way.
    pub fn udp_sent(&mut self, task: &UdpForwarding, outcome: Result<usize, String>)
        ensures
            final(self)@ == old(self)@.after_udp_sent(task@, result_view(outcome)),
    {
        if task.counts_traffic {
            match outcome {
                Ok(sent) => self.stats.record_sent(sent as u64),
                Err(_) => self.stats.record_lost(),
            }
        }
    }

    /// Takes what the reverse TCP task read from the destination into `buf`, `None` where there
    /// is no stream. Gives the data to write to the client, or why the task ends.
    pub fn reverse_tcp_read(
        &mut self,
        buf: Vec<u8>,
        outcome: Option<Result<usize, String>>,
        now: i64,
    ) -> (r: Result<Vec<u8>, ProxyError>)
        ensures
            final(self)@ == old(self)@.after_reverse_tcp_read(stream_outcome(outcome), now),
            result_view(r) == reverse_tcp_data(buf@, stream_outcome(outcome)),
    {
        match outcome {
            None => Err(ProxyError::transport("Destination stream not available")),
            Some(Err(e)) => Err(ProxyError::Io(e)),
            Some(Ok(len)) => {
                if len == 0 {
                    Err(ProxyError::transport("Connection closed by destination"))
                } else {
                    self.stats.record_received(len as u64);
                    self.last_activity = now;
                    Ok(cut_to_received(buf, len))
                }
            },
        }
    }

    /// Takes the result of writing `len` bytes to the client, `None` where there is no stream.
    pub fn reverse_tcp_written(&mut self, len: usize, outcome: Option<Result<(), String>>) -> (r: Result<
        (),
        ProxyError,
    >)
        ensures
            final(self)@ == old(self)@.after_reverse_tcp_written(len, stream_outcome(outcome)),
            result_view(r) == reverse_tcp_result(stream_outcome(outcome)),
    {
        match outcome {
            None => Err(ProxyError::transport("Client stream not available")),
            Some(Err(e)) => {
                self.stats.record_lost();
                Err(ProxyError::Io(e))
            },
            Some(Ok(_)) => {
                self.stats.record_sent(len as u64);
                Ok(())
            },
        }
    }
}

} // verus!

//! Sessions: their configuration, state, traffic counters and events, what their forwarding
//! tasks do, and the manager that holds them.

pub mod event;
pub mod forwarding;
pub mod manager;
pub mod record;
pub mod setup;
pub mod stats;
pub mod table;

pub use event::{SessionEvent, SessionEventView};
pub use forwarding::{
    report_due, ForwardTarget, ForwardTargetView, StartAction, StartActionView, Started, StartedView,
    UdpForwarding, UdpForwardingView,
};
pub use manager::{
    CreationStep, Destroyed, Registered, RegisteredView, SessionManager, SessionManagerView,
};
pub use record::{
    RtpStep, RtpStepView, Session, SessionConfig, SessionConfigView, SessionInfo, SessionInfoView,
    SessionView, UdpStep, UdpStepView,
};
pub use setup::{SessionSetup, SessionSetupStep, SessionSetupStepView, SessionSetupView};
pub use stats::{PacketLossRate, SessionState, TrafficStats, TrafficStatsSnapshot};

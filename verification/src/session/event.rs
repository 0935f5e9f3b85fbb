//! What sessions report.

use vstd::prelude::*;

use super::stats::{SessionState, TrafficStatsSnapshot};

verus! {

/// Something that happened to a session.
#[derive(Debug)]
pub enum SessionEvent {
    Created { session_id: String, timestamp: i64 },
    StateChanged {
        session_id: String,
        old_state: SessionState,
        new_state: SessionState,
        timestamp: i64,
    },
    StatsUpdate { session_id: String, stats: TrafficStatsSnapshot, timestamp: i64 },
    Error { session_id: String, error: String, timestamp: i64 },
    Closed { session_id: String, timestamp: i64 },
}

/// The mathematical counterpart of [`SessionEvent`].
pub enum SessionEventView {
    Created { session_id: Seq<char>, timestamp: i64 },
    StateChanged {
        session_id: Seq<char>,
        old_state: SessionState,
        new_state: SessionState,
        timestamp: i64,
    },
    StatsUpdate { session_id: Seq<char>, stats: TrafficStatsSnapshot, timestamp: i64 },
    Error { session_id: Seq<char>, error: Seq<char>, timestamp: i64 },
    Closed { session_id: Seq<char>, timestamp: i64 },
}

impl View for SessionEvent {
    type V = SessionEventView;

    open spec fn view(&self) -> SessionEventView {
        match self {
            SessionEvent::Created { session_id, timestamp } => SessionEventView::Created {
                session_id: session_id@,
                timestamp: *timestamp,
            },
            SessionEvent::StateChanged { session_id, old_state, new_state, timestamp } =>
                SessionEventView::StateChanged {
                session_id: session_id@,
                old_state: *old_state,
                new_state: *new_state,
                timestamp: *timestamp,
            },
            SessionEvent::StatsUpdate { session_id, stats, timestamp } =>
                SessionEventView::StatsUpdate {
                session_id: session_id@,
                stats: *stats,
                timestamp: *timestamp,
            },
            SessionEvent::Error { session_id, error, timestamp } => SessionEventView::Error {
                session_id: session_id@,
                error: error@,
                timestamp: *timestamp,
            },
            SessionEvent::Closed { session_id, timestamp } => SessionEventView::Closed {
                session_id: session_id@,
                timestamp: *timestamp,
            },
        }
    }
}

impl Clone for SessionEvent {
    fn clone(&self) -> (copy: SessionEvent)
        ensures
            copy@ == self@,
    {
        match self {
            SessionEvent::Created { session_id, timestamp } => SessionEvent::Created {
                session_id: session_id.clone(),
                timestamp: *timestamp,
            },
            SessionEvent::StateChanged { session_id, old_state, new_state, timestamp } =>
                SessionEvent::StateChanged {
                session_id: session_id.clone(),
                old_state: *old_state,
                new_state: *new_state,
                timestamp: *timestamp,
            },
            SessionEvent::StatsUpdate { session_id, stats, timestamp } =>
                SessionEvent::StatsUpdate {
                session_id: session_id.clone(),
                stats: *stats,
                timestamp: *timestamp,
            },
            SessionEvent::Error { session_id, error, timestamp } => SessionEvent::Error {
                session_id: session_id.clone(),
                error: error.clone(),
                timestamp: *timestamp,
            },
            SessionEvent::Closed { session_id, timestamp } => SessionEvent::Closed {
                session_id: session_id.clone(),
                timestamp: *timestamp,
            },
        }
    }
}

impl SessionEventView {
    /// The session that the event is about.
    pub open spec fn session_id(self) -> Seq<char> {
        match self {
            SessionEventView::Created { session_id, .. } => session_id,
            SessionEventView::StateChanged { session_id, .. } => session_id,
            SessionEventView::StatsUpdate { session_id, .. } => session_id,
            SessionEventView::Error { session_id, .. } => session_id,
            SessionEventView::Closed { session_id, .. } => session_id,
        }
    }
}

impl SessionEvent {
    /// The session that the event is about.
    pub fn session_id(&self) -> (id: &String)
        ensures
            id@ == self@.session_id(),
    {
        match self {
            SessionEvent::Created { session_id, .. } => session_id,
            SessionEvent::StateChanged { session_id, .. } => session_id,
            SessionEvent::StatsUpdate { session_id, .. } => session_id,
            SessionEvent::Error { session_id, .. } => session_id,
            SessionEvent::Closed { session_id, .. } => session_id,
        }
    }
}

} // verus!

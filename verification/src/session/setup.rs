//! The creation of a session, from the accepted request to the session over bound sockets.

use vstd::prelude::*;

use super::event::{SessionEvent, SessionEventView};
use super::record::{Session, SessionConfig, SessionConfigView, SessionView};
use crate::addr::{SocketAddr, SocketAddrView};
use crate::error::{ProxyError, ProxyErrorView};
use crate::model::result_view;
use crate::transport::{
    create_transport, SetupStep, SetupStepView, SocketRole, Transport, TransportSetup,
    TransportSetupView, TransportView,
};

verus! {

/// A session whose sockets are being bound.
#[derive(Debug)]
pub struct SessionSetup {
    session_id: String,
    config: SessionConfig,
    created_at: i64,
    transport: TransportSetup,
}

/// The mathematical counterpart of [`SessionSetup`].
pub struct SessionSetupView {
    pub session_id: Seq<char>,
    pub config: SessionConfigView,
    pub created_at: i64,
    pub transport: TransportSetupView,
}

impl View for SessionSetup {
    type V = SessionSetupView;

    closed spec fn view(&self) -> SessionSetupView {
        SessionSetupView {
            session_id: self.session_id@,
            config: self.config@,
            created_at: self.created_at,
            transport: self.transport@,
        }
    }
}

/// What follows a bind.
#[derive(Debug)]
pub enum SessionSetupStep {
    /// There is another socket to bind.
    Bind(SessionSetup),
    /// The session is there, and its creation is to be reported.
    Open { session: Session, event: SessionEvent, transport: Transport },
}

/// The mathematical counterpart of [`SessionSetupStep`].
pub enum SessionSetupStepView {
    Bind(SessionSetupView),
    Open { session: SessionView, event: SessionEventView, transport: TransportView },
}

impl View for SessionSetupStep {
    type V = SessionSetupStepView;

    open spec fn view(&self) -> SessionSetupStepView {
        match self {
            SessionSetupStep::Bind(setup) => SessionSetupStepView::Bind(setup@),
            SessionSetupStep::Open { session, event, transport } => SessionSetupStepView::Open {
                session: session@,
                event: event@,
                transport: transport@,
            },
        }
    }
}

impl SessionSetupView {
    /// How the creation of a session begins.
    pub open spec fn begin(session_id: Seq<char>, config: SessionConfigView, now: i64) -> SessionSetupView {
        SessionSetupView {
            session_id,
            config,
            created_at: now,
            transport: crate::transport::transport_setup(
                config.protocol,
                config.listen_addr,
                config.forward_addr,
                config.destination_addr,
            ),
        }
    }

    /// The transport that is being set up is of the configured kind.
    pub open spec fn wf(self) -> bool {
        self.transport.kind() == self.config.protocol
    }

    /// What follows a bind: the next socket, the session, or the error.
    pub open spec fn after_bind(self, outcome: Result<(), Seq<char>>) -> Result<
        SessionSetupStepView,
        ProxyErrorView,
    > {
        match self.transport.after_bind(outcome) {
            Ok(SetupStepView::Bind(transport)) => Ok(
                SessionSetupStepView::Bind(SessionSetupView { transport, ..self }),
            ),
            Ok(SetupStepView::Ready(transport)) => Ok(
                SessionSetupStepView::Open {
                    session: SessionView::fresh(
                        self.session_id,
                        self.config,
                        transport.kind(),
                        self.created_at,
                    ),
                    event: SessionEventView::Created {
                        session_id: self.session_id,
                        timestamp: self.created_at,
                    },
                    transport,
                },
            ),
            Err(e) => Err(e),
        }
    }
}

impl SessionSetup {
    /// Begins to create a session at the time `now`.
    pub fn new(session_id: String, config: SessionConfig, now: i64) -> (setup: SessionSetup)
        ensures
            setup@ == SessionSetupView::begin(session_id@, config@, now),
            setup@.wf(),
    {
        let transport: TransportSetup = create_transport(
            config.protocol,
            config.listen_addr.clone(),
            config.forward_addr.clone(),
            config.destination_addr.clone(),
        );
        SessionSetup { session_id, config, created_at: now, transport }
    }

    /// The socket that has to be bound next, and the address to bind it to.
    pub fn bind_request(&self) -> (request: (SocketRole, SocketAddr))
        ensures
            request.0 == self@.transport.role(),
            request.1@ == self@.transport.bind_addr(),
    {
        self.transport.bind_request()
    }

    /// Takes the result of the bind that was asked for.
    pub fn bound(self, outcome: Result<(), String>) -> (r: Result<SessionSetupStep, ProxyError>)
        ensures
            result_view(r) == self@.after_bind(result_view(outcome)),
    {
        let SessionSetup { session_id, config, created_at, transport } = self;
        match transport.bound(outcome) {
            Ok(SetupStep::Bind(transport)) => Ok(
                SessionSetupStep::Bind(SessionSetup { session_id, config, created_at, transport }),
            ),
            Ok(SetupStep::Ready(transport)) => {
                let (session, event) = Session::new(
                    session_id,
                    config,
                    transport.kind(),
                    created_at,
                );
                Ok(SessionSetupStep::Open { session, event, transport })
            },
            Err(e) => Err(e),
        }
    }
}

} // verus!

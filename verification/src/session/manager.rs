//! The manager of all sessions.

use std::collections::hash_map::RandomState;

use dashmap::DashMap;
use vstd::prelude::*;

use super::event::{SessionEvent, SessionEventView};
use super::record::{Session, SessionConfig, SessionInfo, SessionInfoView, SessionView};
use super::forwarding::Started;
use super::setup::{SessionSetup, SessionSetupStep, SessionSetupStepView, SessionSetupView};
use super::stats::SessionState;
use super::table::{
    table_contains, table_contents, table_entries, table_get, table_insert, table_new, table_remove,
};
use crate::error::{ProxyError, ProxyErrorView};
use crate::model::{result_view, seq_view};
use crate::transport::Transport;

verus! {

/// Holds the sessions and knows which of them are registered under which id.
///
/// A session is kept at a place of its own from its creation on. It is registered once it has
/// been brought up, and unregistered when it is destroyed; its place is empty from then on. A
/// place is never used for another session, so a task that still knows the place of a session
/// that is gone cannot reach any other one. The list of places grows with every session.
pub struct SessionManager {
    sessions: DashMap<String, usize, RandomState>,
    places: Vec<Option<Box<Session>>>,
}

/// The mathematical counterpart of [`SessionManager`].
#[verifier::ext_equal]
pub struct SessionManagerView {
    /// The place of each registered session.
    pub registered: Map<Seq<char>, usize>,
    /// The sessions by place; `None` where the session is gone.
    pub places: Seq<Option<Box<Session>>>,
}

impl View for SessionManager {
    type V = SessionManagerView;

    closed spec fn view(&self) -> SessionManagerView {
        SessionManagerView { registered: table_contents(self.sessions), places: self.places@ }
    }
}

impl SessionManagerView {
    /// Nothing held, nothing registered.
    pub open spec fn empty() -> SessionManagerView {
        SessionManagerView { registered: Map::empty(), places: Seq::empty() }
    }

    /// Whether there is a session at a place.
    pub open spec fn holds(self, place: int) -> bool {
        0 <= place < self.places.len() && self.places[place] is Some
    }

    /// The session at a place.
    pub open spec fn at(self, place: int) -> SessionView {
        self.places[place]->0@
    }

    /// Each registered id leads to a session with that id.
    pub open spec fn wf(self) -> bool {
        forall|id: Seq<char>| #[trigger]
            self.registered.contains_key(id) ==> self.holds(self.registered[id] as int)
                && self.at(self.registered[id] as int).id == id
    }

    /// The session that is registered under an id.
    pub open spec fn session(self, id: Seq<char>) -> SessionView {
        self.at(self.registered[id] as int)
    }

    /// What is known of an id to those who ask.
    pub open spec fn session_info(self, id: Seq<char>) -> Result<SessionInfoView, ProxyErrorView> {
        if self.registered.contains_key(id) {
            Ok(self.session(id).info())
        } else {
            Err(ProxyErrorView::SessionNotFound(id))
        }
    }

    /// Whether a session in a state passes a filter.
    pub open spec fn passes(state: SessionState, filter: Option<SessionState>) -> bool {
        filter is None || filter == Some(state)
    }

    /// Whether `infos` shows each registered session that passes the filter once, and no other.
    pub open spec fn lists(self, infos: Seq<SessionInfoView>, filter: Option<SessionState>) -> bool {
        &&& forall|i: int| #![trigger infos[i]]
            0 <= i < infos.len() ==> {
                &&& self.registered.contains_key(infos[i].session_id)
                &&& infos[i] == self.session(infos[i].session_id).info()
                &&& Self::passes(infos[i].state, filter)
            }
        &&& forall|id: Seq<char>| #[trigger]
            self.registered.contains_key(id) && Self::passes(self.session(id).state, filter)
                ==> exists|i: int| 0 <= i < infos.len() && (#[trigger] infos[i]).session_id == id
        &&& forall|i: int, j: int|
            0 <= i < j < infos.len() ==> (#[trigger] infos[i]).session_id != (
            #[trigger] infos[j]).session_id
    }

    /// The manager with one more session, at the next place.
    pub open spec fn with_session(self, session: Session) -> SessionManagerView {
        SessionManagerView { places: self.places.push(Some(Box::new(session))), ..self }
    }

    /// The manager with another session at a place.
    pub open spec fn with_session_at(self, place: usize, session: Session) -> SessionManagerView {
        SessionManagerView {
            places: self.places.update(place as int, Some(Box::new(session))),
            ..self
        }
    }

    /// Whether the session at a place is registered under its id.
    pub open spec fn is_registered(self, place: usize) -> bool {
        &&& self.holds(place as int)
        &&& self.registered.contains_key(self.at(place as int).id)
        &&& self.registered[self.at(place as int).id] == place
    }

    /// The place of the session that an id is registered for.
    pub open spec fn place_of(self, id: Seq<char>) -> Option<usize> {
        if self.registered.contains_key(id) {
            Some(self.registered[id])
        } else {
            None
        }
    }

    /// The manager after the session at a place was registered under its id.
    pub open spec fn with_registered(self, place: usize) -> SessionManagerView {
        SessionManagerView {
            registered: self.registered.insert(self.at(place as int).id, place),
            ..self
        }
    }

    /// The manager without the session at a place.
    pub open spec fn without_place(self, place: usize) -> SessionManagerView {
        SessionManagerView { places: self.places.update(place as int, None), ..self }
    }

    /// Whether there is a session at a place that is not registered: one that is being created.
    pub open spec fn creates(self, place: usize) -> bool {
        self.holds(place as int) && !self.is_registered(place)
    }

    /// Whether the session at a place is being created and was not started yet.
    pub open spec fn awaits_start(self, place: usize) -> bool {
        self.creates(place) && self.at(place as int).state == SessionState::Connecting
    }

    /// What ending the creation of the session at a place comes to, where all that was to be
    /// done for it succeeded.
    pub open spec fn registration(self, place: usize) -> Result<RegisteredView, ProxyErrorView> {
        let session = self.at(place as int);
        if !self.creates(place) {
            Err(not_created())
        } else if self.registered.contains_key(session.id) {
            Err(ProxyErrorView::SessionExists(session.id))
        } else {
            Ok(RegisteredView { session_id: session.id, created_at: session.created_at })
        }
    }

    /// The manager after that: the session is registered, or gone where its id is taken.
    pub open spec fn after_registration(self, place: usize) -> SessionManagerView {
        if !self.creates(place) {
            self
        } else if self.registered.contains_key(self.at(place as int).id) {
            self.without_place(place)
        } else {
            self.with_registered(place)
        }
    }

    /// Whether a session with an id is at a place.
    pub open spec fn has_at(self, id: Seq<char>, place: int) -> bool {
        self.holds(place) && self.at(place).id == id
    }

    /// The manager after the session with an id that was found at a place has been stopped: the
    /// id is free, and neither that session nor one that has the id meanwhile is left.
    pub open spec fn after_stop(self, id: Seq<char>, place: usize) -> SessionManagerView {
        SessionManagerView {
            registered: self.registered.remove(id),
            places: Seq::new(
                self.places.len(),
                |p: int|
                    if self.has_at(id, p) && (p == place || (self.registered.contains_key(id) && p
                        == self.registered[id])) {
                        None
                    } else {
                        self.places[p]
                    },
            ),
        }
    }

    /// What is reported when the session with an id that was found at a place has been stopped:
    /// the change of its state, where it is still there, and its end.
    pub open spec fn stop_events(self, id: Seq<char>, place: usize, now: i64) -> Seq<
        SessionEventView,
    > {
        let changes = if self.has_at(id, place as int) {
            self.at(place as int).state_change(SessionState::Closed, now)
        } else {
            Seq::empty()
        };
        changes.push(SessionEventView::Closed { session_id: id, timestamp: now })
    }
}

/// The error where no session is being created at a place.
pub open spec fn not_created() -> ProxyErrorView {
    ProxyErrorView::Transport("No session is being created here"@)
}

/// The error where no session at a place is waiting to be started.
pub open spec fn not_waiting() -> ProxyErrorView {
    ProxyErrorView::Transport("No session is waiting to be started here"@)
}

/// Nothing to report where closing a transport succeeded.
fn no_events(closed: Result<(), ProxyError>) -> (r: Result<Vec<SessionEvent>, ProxyError>)
    ensures
        match closed {
            Ok(_) => r is Ok && r->Ok_0@.len() == 0,
            Err(e) => r == Err::<Vec<SessionEvent>, ProxyError>(e),
        },
{
    match closed {
        Ok(_) => Ok(Vec::new()),
        Err(e) => Err(e),
    }
}

/// What follows a bind for a session that is being created.
#[derive(Debug)]
pub enum CreationStep {
    /// There is another socket to bind.
    Bind(SessionSetup),
    /// The session was created and has its place. Its creation is to be reported, and its
    /// transport to be started.
    Opened { place: usize, event: SessionEvent, transport: Transport },
}

/// A session that was registered.
#[derive(Debug)]
pub struct Registered {
    pub session_id: String,
    /// When the session was created.
    pub created_at: i64,
}

/// The mathematical counterpart of [`Registered`].
pub struct RegisteredView {
    pub session_id: Seq<char>,
    pub created_at: i64,
}

impl View for Registered {
    type V = RegisteredView;

    open spec fn view(&self) -> RegisteredView {
        RegisteredView { session_id: self.session_id@, created_at: self.created_at }
    }
}

/// A session that was destroyed.
#[derive(Debug)]
pub struct Destroyed {
    /// What is to be reported.
    pub events: Vec<SessionEvent>,
    /// The place that its id was registered for at the end.
    pub unregistered: Option<usize>,
}

impl SessionManager {
    /// A manager without sessions.
    pub fn new() -> (m: SessionManager)
        ensures
            m@ == SessionManagerView::empty(),
            m@.wf(),
    {
        SessionManager { sessions: table_new(), places: Vec::new() }
    }

    /// Begins to create a session, unless its id is taken.
    pub fn create_session(&self, session_id: String, config: SessionConfig, now: i64) -> (r: Result<
        SessionSetup,
        ProxyError,
    >)
        ensures
            result_view(r) == (if self@.registered.contains_key(session_id@) {
                Err(ProxyErrorView::SessionExists(session_id@))
            } else {
                Ok(SessionSetupView::begin(session_id@, config@, now))
            }),
            r matches Ok(setup) ==> setup@.wf(),
    {
        if table_contains(&self.sessions, session_id.as_str()) {
            return Err(ProxyError::SessionExists(session_id));
        }
        Ok(SessionSetup::new(session_id, config, now))
    }

    /// Takes the result of a bind for a session that is being created. Where it was the last
    /// one, the session gets its place. It is not registered yet.
    pub fn socket_bound(&mut self, setup: SessionSetup, outcome: Result<(), String>) -> (r: Result<
        CreationStep,
        ProxyError,
    >)
        ensures
            match (setup@.after_bind(result_view(outcome)), r) {
                (Ok(SessionSetupStepView::Bind(next)), Ok(CreationStep::Bind(setup))) => {
                    setup@ == next && final(self)@ == old(self)@
                },
                (
                    Ok(SessionSetupStepView::Open { session, event, transport }),
                    Ok(CreationStep::Opened { place, event: e, transport: t }),
                ) => {
                    &&& e@ == event
                    &&& t@ == transport
                    &&& place == old(self)@.places.len()
                    &&& exists|s: Session|
                        s@ == session && final(self)@ == #[trigger] old(self)@.with_session(s)
                },
                (Err(error), Err(e)) => e@ == error && final(self)@ == old(self)@,
                _ => false,
            },
            old(self)@.wf() ==> final(self)@.wf(),
    {
        match setup.bound(outcome) {
            Ok(SessionSetupStep::Bind(setup)) => Ok(CreationStep::Bind(setup)),
            Ok(SessionSetupStep::Open { session, event, transport }) => {
                let place: usize = self.open_session(session);
                Ok(CreationStep::Opened { place, event, transport })
            },
            Err(e) => Err(e),
        }
    }

    /// Takes a new session in and tells its place.
    fn open_session(&mut self, session: Session) -> (place: usize)
        ensures
            place == old(self)@.places.len(),
            final(self)@ == old(self)@.with_session(session),
            old(self)@.wf() ==> final(self)@.wf(),
    {
        let place: usize = self.places.len();
        self.places.push(Some(Box::new(session)));
        place
    }

    /// Whether the session at a place is being created.
    fn is_created(&self, place: usize) -> (r: bool)
        ensures
            r == self@.creates(place),
    {
        match self.session(place) {
            Some(session) => match table_get(&self.sessions, session.id().as_str()) {
                Some(registered) => registered != place,
                None => true,
            },
            None => false,
        }
    }

    /// Makes a created session active once its transport has started, and tells what has to be
    /// done to bring it up and what is to be reported. A session that cannot be brought up is
    /// gone. Where no session waits to be started at the place, nothing changes.
    pub fn start_session(
        &mut self,
        place: usize,
        transport_started: Result<(), ProxyError>,
        now: i64,
    ) -> (r: Result<Started, ProxyError>)
        ensures
            if !old(self)@.awaits_start(place) {
                r is Err && r->Err_0@ == not_waiting() && final(self)@ == old(self)@
            } else {
                match transport_started {
                    Err(e) => {
                        &&& r == Err::<Started, ProxyError>(e)
                        &&& final(self)@ == old(self)@.without_place(place)
                    },
                    Ok(_) => {
                        &&& result_view(r) == old(self)@.at(place as int).started(now)
                        &&& r is Err ==> final(self)@ == old(self)@.without_place(place)
                        &&& r is Ok ==> exists|s: Session|
                            s@ == old(self)@.at(place as int).with_state(SessionState::Active)
                                && final(self)@ == #[trigger] old(self)@.with_session_at(place, s)
                    },
                }
            },
            old(self)@.wf() ==> final(self)@.wf(),
    {
        let connecting: bool = match self.session(place) {
            Some(session) => session.get_state() == SessionState::Connecting,
            None => false,
        };
        if !connecting || !self.is_created(place) {
            return Err(ProxyError::transport("No session is waiting to be started here"));
        }
        let started: Result<Started, ProxyError> = match self.session_mut(place) {
            Some(session) => session.start(transport_started, now),
            None => Err(ProxyError::transport("No session is waiting to be started here")),
        };
        if started.is_err() {
            self.places.set(place, None);
            assert(self@ =~= old(self)@.without_place(place));
        } else {
            assert(self@ =~= old(self)@.with_session_at(place, *(self@.places[place as int]->0)));
        }
        started
    }

    /// Ends the creation of a session once all that was to be done for it has been done: it is
    /// registered under its id. Where something failed, or where another session has taken the
    /// id meanwhile, the session is gone. Where no session is being created at the place,
    /// nothing changes.
    pub fn session_started(&mut self, place: usize, outcome: Result<(), ProxyError>) -> (r: Result<
        Registered,
        ProxyError,
    >)
        ensures
            match outcome {
                Ok(_) => {
                    &&& result_view(r) == old(self)@.registration(place)
                    &&& final(self)@ == old(self)@.after_registration(place)
                },
                Err(e) => if old(self)@.creates(place) {
                    &&& r == Err::<Registered, ProxyError>(e)
                    &&& final(self)@ == old(self)@.without_place(place)
                } else {
                    &&& r is Err && r->Err_0@ == not_created()
                    &&& final(self)@ == old(self)@
                },
            },
            old(self)@.wf() ==> final(self)@.wf(),
    {
        if !self.is_created(place) {
            return Err(ProxyError::transport("No session is being created here"));
        }
        if let Err(e) = outcome {
            self.places.set(place, None);
            return Err(e);
        }
        let registered: Registered = match self.session(place) {
            Some(session) => Registered {
                session_id: session.id().clone(),
                created_at: session.created_at(),
            },
            None => return Err(ProxyError::transport("No session is being created here")),
        };
        if table_contains(&self.sessions, registered.session_id.as_str()) {
            self.places.set(place, None);
            return Err(ProxyError::SessionExists(registered.session_id));
        }
        let _: Option<usize> = table_insert(
            &mut self.sessions,
            registered.session_id.clone(),
            place,
        );
        Ok(registered)
    }

    /// The session at a place.
    pub fn session(&self, place: usize) -> (r: Option<&Session>)
        ensures
            match r {
                Some(s) => self@.holds(place as int) && s@ == self@.at(place as int),
                None => !self@.holds(place as int),
            },
    {
        if place < self.places.len() {
            match &self.places[place] {
                Some(session) => Some(&**session),
                None => None,
            }
        } else {
            None
        }
    }

    /// The session at a place, to be changed. Its id has to stay as it is.
    pub fn session_mut(&mut self, place: usize) -> (r: Option<&mut Session>)
        ensures
            match r {
                Some(s) => {
                    &&& old(self)@.holds(place as int)
                    &&& *s == *(old(self)@.places[place as int]->0)
                    &&& final(self)@.registered == old(self)@.registered
                    &&& final(self)@.places == old(self)@.places.update(
                        place as int,
                        Some(Box::new(*final(s))),
                    )
                    &&& old(self)@.wf() && (*final(s))@.id == s@.id ==> final(self)@.wf()
                },
                None => !old(self)@.holds(place as int) && final(self)@ == old(self)@,
            },
    {
        if place < self.places.len() && self.places[place].is_some() {
            match &mut self.places[place] {
                Some(session) => Some(&mut **session),
                None => None,
            }
        } else {
            None
        }
    }

    /// Finds the session to be destroyed.
    pub fn destroy_session(&self, session_id: &str) -> (r: Result<usize, ProxyError>)
        ensures
            result_view(r) == (if self@.registered.contains_key(session_id@) {
                Ok(self@.registered[session_id@])
            } else {
                Err(ProxyErrorView::SessionNotFound(session_id@))
            }),
    {
        match table_get(&self.sessions, session_id) {
            Some(place) => Ok(place),
            None => Err(ProxyError::SessionNotFound(session_id.to_string())),
        }
    }

    /// Ends the destruction of a session, found at `place`, once its tasks have ended and its
    /// transport was closed: it is closed and gone, its id is free, and this is reported. Where
    /// closing the transport failed, nothing changes.
    pub fn session_stopped(
        &mut self,
        session_id: &str,
        place: usize,
        transport_closed: Result<(), ProxyError>,
        now: i64,
    ) -> (r: Result<Destroyed, ProxyError>)
        requires
            old(self)@.wf(),
        ensures
            match transport_closed {
                Err(e) => final(self)@ == old(self)@ && r == Err::<Destroyed, ProxyError>(e),
                Ok(_) => {
                    &&& r matches Ok(destroyed) && seq_view(destroyed.events@)
                        == old(self)@.stop_events(session_id@, place, now)
                        && destroyed.unregistered == old(self)@.place_of(session_id@)
                    &&& final(self)@ == old(self)@.after_stop(session_id@, place)
                },
            },
            final(self)@.wf(),
    {
        let ghost before = self@;
        let id: String = session_id.to_string();
        let same: bool = match self.session(place) {
            Some(session) => *session.id() == id,
            None => false,
        };
        let stopped: Result<Vec<SessionEvent>, ProxyError> = match self.session_mut(place) {
            Some(session) => if same {
                session.stop(transport_closed, now)
            } else {
                no_events(transport_closed)
            },
            None => no_events(transport_closed),
        };
        let mut events: Vec<SessionEvent> = match stopped {
            Ok(events) => events,
            Err(e) => {
                assert(self@ =~= before);
                return Err(e);
            },
        };
        let ghost changes = events@;
        let unregistered: Option<usize> = table_remove(&mut self.sessions, session_id);
        if let Some(current) = unregistered {
            assert(before.registered.contains_key(session_id@));
            self.places.set(current, None);
        }
        if same {
            self.places.set(place, None);
        }
        assert(self@ =~= before.after_stop(session_id@, place));
        events.push(SessionEvent::Closed { session_id: id, timestamp: now });
        assert(seq_view(events@) =~= seq_view(changes).push(events@.last()@));
        assert(seq_view(events@) =~= before.stop_events(session_id@, place, now));
        Ok(Destroyed { events, unregistered })
    }

    /// What is known of a registered session.
    pub fn get_session_info(&self, session_id: &str) -> (r: Result<SessionInfo, ProxyError>)
        requires
            self@.wf(),
        ensures
            result_view(r) == self@.session_info(session_id@),
    {
        match table_get(&self.sessions, session_id) {
            Some(place) => {
                assert(self@.registered.contains_key(session_id@));
                match self.session(place) {
                    Some(session) => Ok(session.info()),
                    None => Err(ProxyError::SessionNotFound(session_id.to_string())),
                }
            },
            None => Err(ProxyError::SessionNotFound(session_id.to_string())),
        }
    }

    /// The registered sessions, or those of them in one state. Their order is not fixed.
    pub fn list_sessions(&self, state_filter: Option<SessionState>) -> (infos: Vec<SessionInfo>)
        requires
            self@.wf(),
        ensures
            self@.lists(seq_view(infos@), state_filter),
    {
        let entries: Vec<(String, usize)> = table_entries(&self.sessions);
        let mut infos: Vec<SessionInfo> = Vec::new();
        let mut n: usize = 0;
        while n < entries.len()
            invariant
                n <= entries@.len(),
                self@.wf(),
                forall|i: int|
                    0 <= i < entries@.len() ==> self@.registered.contains_key(
                        (#[trigger] entries@[i]).0@,
                    ) && self@.registered[entries@[i].0@] == entries@[i].1,
                forall|i: int, j: int|
                    0 <= i < j < entries@.len() ==> (#[trigger] entries@[i]).0@ != (
                    #[trigger] entries@[j]).0@,
                forall|i: int|
                    #![trigger infos@[i]]
                    0 <= i < infos@.len() ==> {
                        &&& self@.registered.contains_key(infos@[i]@.session_id)
                        &&& infos@[i]@ == self@.session(infos@[i]@.session_id).info()
                        &&& SessionManagerView::passes(infos@[i]@.state, state_filter)
                        &&& exists|k: int|
                            0 <= k < n && (#[trigger] entries@[k]).0@ == infos@[i]@.session_id
                    },
                forall|k: int|
                    0 <= k < n && SessionManagerView::passes(
                        self@.session((#[trigger] entries@[k]).0@).state,
                        state_filter,
                    ) ==> exists|i: int|
                        0 <= i < infos@.len() && (#[trigger] infos@[i])@.session_id
                            == entries@[k].0@,
                forall|i: int, j: int|
                    0 <= i < j < infos@.len() ==> (#[trigger] infos@[i])@.session_id != (
                    #[trigger] infos@[j])@.session_id,
            decreases entries@.len() - n,
        {
            let place: usize = entries[n].1;
            if let Some(session) = self.session(place) {
                let state: SessionState = session.get_state();
                let shown: bool = match state_filter {
                    Some(filter) => state == filter,
                    None => true,
                };
                if shown {
                    let ghost before = infos@;
                    infos.push(session.info());
                    assert(infos@.last()@.session_id == entries@[n as int].0@);
                    assert(forall|i: int| 0 <= i < before.len() ==> infos@[i] == before[i]);
                }
            }
            n = n + 1;
        }
        proof {
            let shown = seq_view(infos@);
            assert forall|id: Seq<char>| #[trigger]
                self@.registered.contains_key(id) && SessionManagerView::passes(
                    self@.session(id).state,
                    state_filter,
                ) implies exists|i: int|
                0 <= i < shown.len() && (#[trigger] shown[i]).session_id == id by {
                let k = choose|k: int|
                    0 <= k < entries@.len() && (#[trigger] entries@[k]).0@ == id;
                let i = choose|i: int|
                    0 <= i < infos@.len() && (#[trigger] infos@[i])@.session_id == entries@[k].0@;
                assert(shown[i].session_id == id);
            }
        }
        infos
    }
}

} // verus!

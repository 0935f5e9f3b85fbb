//! The session manager: what each operation changes, and what it leaves as it is.

use vstd::prelude::*;

use crate::error::ProxyErrorView;
use crate::properties::{after_all, traffic_of, Happening};
use crate::session::{
    RegisteredView, Session, SessionConfigView, SessionEventView, SessionInfoView,
    SessionManagerView, SessionSetupStepView, SessionSetupView, SessionState,
};
use crate::transport::TransportType;

verus! {

/// A manager begins without sessions.
pub proof fn law_new_manager(id: Seq<char>, place: int)
    ensures
        !SessionManagerView::empty().registered.contains_key(id),
        !SessionManagerView::empty().holds(place),
        SessionManagerView::empty().wf(),
{
}

/// There is a session at a place exactly where the list of places has one; it is that one.
pub proof fn law_places(m: SessionManagerView, place: int)
    ensures
        m.holds(place) <==> 0 <= place < m.places.len() && m.places[place] is Some,
        m.holds(place) ==> m.at(place) == m.places[place]->0@,
{
}

/// In a well-formed manager each registered id leads to a session with that id.
pub proof fn law_registered_id_leads_to_its_session(m: SessionManagerView, id: Seq<char>)
    requires
        m.wf(),
        m.registered.contains_key(id),
    ensures
        ({
            let place = m.registered[id] as int;
            &&& 0 <= place < m.places.len()
            &&& m.places[place] is Some
            &&& m.places[place]->0@.id == id
        }),
{
}

/// Those who ask for a registered session get what that session holds, and those who ask for
/// another id are told that there is none.
pub proof fn law_answer_is_what_the_session_holds(m: SessionManagerView, id: Seq<char>)
    ensures
        m.session_info(id) is Ok <==> m.registered.contains_key(id),
        m.session_info(id) matches Ok(info) ==> {
            let s = m.places[m.registered[id] as int]->0@;
            &&& info.session_id == s.id
            &&& info.config == s.config
            &&& info.state == s.state
            &&& info.created_at == s.created_at
            &&& info.last_activity == s.last_activity
            &&& info.stats == s.stats
            &&& info.error_message == s.error_message
        },
        m.session_info(id) matches Err(e) ==> e == ProxyErrorView::SessionNotFound(id),
{
}

/// At any moment of a registered session's history, those who ask for it are told of the
/// packets and bytes that were received, sent and lost so far, as long as no counter passes the
/// largest 64-bit number.
pub proof fn law_answer_shows_the_traffic_so_far(
    m: SessionManagerView,
    id: Seq<char>,
    history: Seq<Happening>,
    later: Session,
)
    requires
        m.wf(),
        m.registered.contains_key(id),
        later@ == after_all(m.session(id), history),
        traffic_of(m.session(id), history).fits(m.session(id).stats),
    ensures
        ({
            let before = m.places[m.registered[id] as int]->0@.stats;
            let traffic = traffic_of(m.session(id), history);
            let r = m.with_session_at(m.registered[id], later).session_info(id);
            &&& r is Ok
            &&& r->Ok_0.stats.packets_received == before.packets_received
                + traffic.packets_received
            &&& r->Ok_0.stats.bytes_received == before.bytes_received + traffic.bytes_received
            &&& r->Ok_0.stats.packets_sent == before.packets_sent + traffic.packets_sent
            &&& r->Ok_0.stats.bytes_sent == before.bytes_sent + traffic.bytes_sent
            &&& r->Ok_0.stats.packets_lost == before.packets_lost + traffic.packets_lost
        }),
{
    crate::properties::law_counters_show_the_traffic(m.session(id), history);
}

/// A list shows exactly the registered sessions that are in the asked state, or all of them
/// where no state was asked for. Each is shown once, with what it holds.
pub proof fn law_list_shows_what_the_sessions_hold(
    m: SessionManagerView,
    infos: Seq<SessionInfoView>,
    filter: Option<SessionState>,
    id: Seq<char>,
)
    requires
        m.lists(infos, filter),
    ensures
        (exists|i: int| 0 <= i < infos.len() && (#[trigger] infos[i]).session_id == id)
            <==> m.registered.contains_key(id) && (match filter {
            Some(state) => m.places[m.registered[id] as int]->0@.state == state,
            None => true,
        }),
        forall|i: int, j: int|
            0 <= i < infos.len() && 0 <= j < infos.len() && (#[trigger] infos[i]).session_id == (
            #[trigger] infos[j]).session_id ==> i == j,
        forall|i: int| #![trigger infos[i]]
            0 <= i < infos.len() ==> {
                let s = m.places[m.registered[infos[i].session_id] as int]->0@;
                &&& infos[i].session_id == s.id
                &&& infos[i].config == s.config
                &&& infos[i].state == s.state
                &&& infos[i].created_at == s.created_at
                &&& infos[i].last_activity == s.last_activity
                &&& infos[i].stats == s.stats
                &&& infos[i].error_message == s.error_message
            },
{
    if m.registered.contains_key(id) && (match filter {
        Some(state) => m.places[m.registered[id] as int]->0@.state == state,
        None => true,
    }) {
        assert(m.registered.contains_key(id) && SessionManagerView::passes(
            m.session(id).state,
            filter,
        ));
    }
}

/// The creation of a session begins with the id, the configuration and the time that were
/// given, for the transport that the configuration asks for.
pub proof fn law_creation_begins(id: Seq<char>, config: SessionConfigView, now: i64)
    ensures
        ({
            let setup = SessionSetupView::begin(id, config, now);
            &&& setup.session_id == id
            &&& setup.config == config
            &&& setup.created_at == now
            &&& setup.transport.kind() == config.protocol
            &&& setup.transport.bind_addr() == config.listen_addr
            &&& setup.wf()
        }),
{
}

/// A bind that is not the last one leaves all but the transport as it was. The last one opens
/// the session, connecting and as old as its creation, and reports its creation.
pub proof fn law_creation_opens_the_session(
    setup: SessionSetupView,
    outcome: Result<(), Seq<char>>,
)
    requires
        setup.wf(),
    ensures
        match setup.after_bind(outcome) {
            Ok(SessionSetupStepView::Bind(next)) => {
                &&& outcome is Ok
                &&& next.session_id == setup.session_id
                &&& next.config == setup.config
                &&& next.created_at == setup.created_at
            },
            Ok(SessionSetupStepView::Open { session, event, transport }) => {
                &&& outcome is Ok
                &&& session.id == setup.session_id
                &&& session.config == setup.config
                &&& session.created_at == setup.created_at
                &&& session.last_activity == setup.created_at
                &&& session.transport == setup.config.protocol
                &&& session.state == SessionState::Connecting
                &&& session.error_message is None
                &&& session.stats.packets_received == 0 && session.stats.packets_sent == 0
                &&& event == SessionEventView::Created {
                    session_id: setup.session_id,
                    timestamp: setup.created_at,
                }
                &&& transport.kind() == setup.config.protocol
            },
            Err(e) => setup.transport.after_bind(outcome) is Err && e
                == setup.transport.after_bind(outcome)->Err_0,
        },
{
}

/// A session that is opened takes the next place. No other place and no registration changes.
pub proof fn law_opened_session_takes_the_next_place(m: SessionManagerView, session: Session)
    ensures
        ({
            let after = m.with_session(session);
            &&& after.registered == m.registered
            &&& after.places.len() == m.places.len() + 1
            &&& after.places[m.places.len() as int] == Some(Box::new(session))
            &&& forall|p: int|
                0 <= p < m.places.len() ==> (#[trigger] after.places[p]) == m.places[p]
        }),
{
}

/// A session that changes, or goes, does so at its place. No other place and no registration
/// changes.
pub proof fn law_session_changes_at_its_place(
    m: SessionManagerView,
    place: usize,
    session: Session,
)
    requires
        place < m.places.len(),
    ensures
        ({
            let changed = m.with_session_at(place, session);
            let gone = m.without_place(place);
            &&& changed.registered == m.registered && gone.registered == m.registered
            &&& changed.places.len() == m.places.len() && gone.places.len() == m.places.len()
            &&& changed.places[place as int] == Some(Box::new(session))
            &&& gone.places[place as int] is None
            &&& forall|p: int|
                0 <= p < m.places.len() && p != place ==> (#[trigger] changed.places[p])
                    == m.places[p] && gone.places[p] == m.places[p]
        }),
{
}

/// A session is being created as long as it is there and its id is not registered for its
/// place. It waits to be started as long as it is connecting besides.
pub proof fn law_being_created(m: SessionManagerView, place: usize)
    requires
        m.holds(place as int),
    ensures
        ({
            let s = m.places[place as int]->0@;
            &&& m.creates(place) <==> !(m.registered.contains_key(s.id) && m.registered[s.id]
                == place)
            &&& m.awaits_start(place) <==> m.creates(place) && s.state == SessionState::Connecting
        }),
{
}

/// The end of a creation registers the session under its id, with the time of its creation,
/// where the id is free. Where it is taken, the session is refused and goes. No other session
/// and no other registration changes.
pub proof fn law_end_of_creation(m: SessionManagerView, place: usize)
    requires
        m.creates(place),
    ensures
        ({
            let s = m.places[place as int]->0@;
            let after = m.after_registration(place);
            let free = !m.registered.contains_key(s.id);
            &&& free ==> m.registration(place) == Ok::<RegisteredView, ProxyErrorView>(
                RegisteredView { session_id: s.id, created_at: s.created_at },
            )
            &&& free ==> after.registered == m.registered.insert(s.id, place)
            &&& free ==> after.places == m.places
            &&& !free ==> m.registration(place) == Err::<RegisteredView, ProxyErrorView>(
                ProxyErrorView::SessionExists(s.id),
            )
            &&& !free ==> after.registered == m.registered
            &&& !free ==> after.places == m.places.update(place as int, None)
        }),
{
}

/// Where no session is being created, the end of a creation is refused and changes nothing.
pub proof fn law_end_of_no_creation(m: SessionManagerView, place: usize)
    requires
        !m.creates(place),
    ensures
        m.registration(place) == Err::<RegisteredView, ProxyErrorView>(
            ProxyErrorView::Transport("No session is being created here"@),
        ),
        m.after_registration(place) == m,
{
}

/// The end of a session frees its id. The session at the given place goes where it has the id,
/// and so does the one that is registered under it. No other place and no other registration
/// changes.
pub proof fn law_end_of_a_session(m: SessionManagerView, id: Seq<char>, place: usize)
    requires
        m.wf(),
    ensures
        ({
            let after = m.after_stop(id, place);
            &&& after.registered == m.registered.remove(id)
            &&& after.places.len() == m.places.len()
            &&& m.holds(place as int) && m.places[place as int]->0@.id == id
                ==> after.places[place as int] is None
            &&& m.registered.contains_key(id) ==> after.places[m.registered[id] as int] is None
            &&& forall|p: int|
                0 <= p < m.places.len() && (p != place || (m.holds(p) && m.places[p]->0@.id != id))
                    && !(m.registered.contains_key(id) && m.registered[id] == p) ==> (
                #[trigger] after.places[p]) == m.places[p]
        }),
{
}

/// The end of a session is reported last. Where the session is still there and not closed yet,
/// its change to closed is reported before.
pub proof fn law_end_of_a_session_is_reported(
    m: SessionManagerView,
    id: Seq<char>,
    place: usize,
    now: i64,
)
    ensures
        ({
            let events = m.stop_events(id, place, now);
            let s = m.places[place as int]->0@;
            let changes = m.holds(place as int) && s.id == id && s.state != SessionState::Closed;
            &&& events.len() == (if changes {
                2int
            } else {
                1int
            })
            &&& changes ==> events[0] == SessionEventView::StateChanged {
                session_id: id,
                old_state: s.state,
                new_state: SessionState::Closed,
                timestamp: now,
            }
            &&& events.last() == SessionEventView::Closed { session_id: id, timestamp: now }
        }),
{
}

/// The place of an id is the one it is registered for.
pub proof fn law_place_of_an_id(m: SessionManagerView, id: Seq<char>)
    ensures
        m.place_of(id) is Some <==> m.registered.contains_key(id),
        m.place_of(id) matches Some(place) ==> place == m.registered[id],
{
}

} // verus!

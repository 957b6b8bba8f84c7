//! The store: sessions, agents and the event log in three tables held in
//! memory, with upserts, guarded status transitions, the active-session
//! listing and the retention purge.
//!
//! Every operation states its effect as a function on the tables of
//! `crate::tables`, and keeps their constraints where they held before. An
//! operation whose name ends in `_at` takes the stamp of the write; the one
//! without draws a fresh stamp and does the same.

use vstd::prelude::*;
use crate::filters::lemma_filter_keeps_order;
use crate::invariants::{
    law_purge_keeps_constraints, law_transition_keeps_constraints,
    law_upsert_agent_keeps_constraints, law_upsert_session_keeps_constraints,
};
use crate::laws::{law_purge_removes_the_expired_only, purge_rules_hold};
use crate::models::{
    text_of, Agent, AgentView, Event, EventView, Session, SessionView, SessionWithAgents,
    SessionWithAgentsView, Status,
};
use crate::stamp::{clock_micros, is_random_uuid, WriteStamp};
use crate::tables::{
    agent_slot, agent_transition, agent_update, belongs_to, guard_admits, is_agent_slot,
    is_first_agent, is_first_session, is_live, is_session_slot, session_slot, session_transition,
    session_update, StoreError, StoreView,
};

verus! {

/// The views of the rows of a sessions table.
pub open spec fn session_views(rows: Seq<Session>) -> Seq<SessionView> {
    rows.map_values(|row: Session| row@)
}

/// The views of the rows of an agents table.
pub open spec fn agent_views(rows: Seq<Agent>) -> Seq<AgentView> {
    rows.map_values(|row: Agent| row@)
}

/// The views of the entries of an event log.
pub open spec fn event_views(rows: Seq<Event>) -> Seq<EventView> {
    rows.map_values(|row: Event| row@)
}

/// The views of the entries of a listing.
pub open spec fn listing_views(rows: Seq<SessionWithAgents>) -> Seq<SessionWithAgentsView> {
    rows.map_values(|row: SessionWithAgents| row@)
}

/// The view of an optional borrowed text.
pub open spec fn str_view(value: Option<&str>) -> Option<Seq<char>> {
    match value {
        Some(s) => Some(s@),
        None => None,
    }
}

/// An owned copy of an optional borrowed text.
fn owned_text(value: Option<&str>) -> (copy: Option<String>)
    ensures
        text_of(copy) == str_view(value),
{
    match value {
        Some(s) => Some(s.to_owned()),
        None => None,
    }
}

/// The tables. A store is only ever changed through the operations of this
/// module.
pub struct Store {
    sessions: Vec<Session>,
    agents: Vec<Agent>,
    events: Vec<Event>,
}

impl View for Store {
    type V = StoreView;

    closed spec fn view(&self) -> StoreView {
        StoreView {
            sessions: session_views(self.sessions@),
            agents: agent_views(self.agents@),
            events: event_views(self.events@),
        }
    }
}

/// How the result of a write and the store after it follow from what the
/// write does to the tables: on success the store holds the new tables, on
/// refusal the error is returned and the store is unchanged.
pub open spec fn write_outcome(
    expected: Result<StoreView, StoreError>,
    before: StoreView,
    after: StoreView,
    result: Result<(), StoreError>,
) -> bool {
    match expected {
        Ok(store) => result is Ok && after == store,
        Err(error) => result == Err::<(), StoreError>(error) && after == before,
    }
}

impl Store {
    /// An empty store.
    pub fn new() -> (store: Store)
        ensures
            store@ == StoreView::empty(),
            store@.wf(),
    {
        let store = Store { sessions: Vec::new(), agents: Vec::new(), events: Vec::new() };
        assert(store@.sessions =~= Seq::empty());
        assert(store@.agents =~= Seq::empty());
        assert(store@.events =~= Seq::empty());
        store
    }
}

/// Whether the store holds a session with this session id.
pub fn has_session(store: &Store, session_id: &str) -> (found: bool)
    ensures
        found == store@.has_session(session_id@),
{
    let wanted: String = session_id.to_owned();
    let mut i: usize = 0;
    while i < store.sessions.len()
        invariant
            i <= store.sessions.len(),
            wanted@ == session_id@,
            forall|k: int| 0 <= k < i ==> (#[trigger] store.sessions[k]).session_id@ != session_id@,
        decreases store.sessions.len() - i,
    {
        if store.sessions[i].session_id == wanted {
            assert(store@.sessions[i as int].session_id == session_id@);
            return true;
        }
        i = i + 1;
    }
    assert forall|k: int| 0 <= k < store@.sessions.len() implies (#[trigger] store@.sessions[
        k
    ]).session_id != session_id@ by {
    }
    false
}

/// Whether the store holds this agent of this session.
pub fn has_agent(store: &Store, session_id: &str, agent_name: &str) -> (found: bool)
    ensures
        found == store@.has_agent(session_id@, agent_name@),
{
    let wanted_session: String = session_id.to_owned();
    let wanted_name: String = agent_name.to_owned();
    let mut i: usize = 0;
    while i < store.agents.len()
        invariant
            i <= store.agents.len(),
            wanted_session@ == session_id@,
            wanted_name@ == agent_name@,
            forall|k: int|
                0 <= k < i ==> (#[trigger] store.agents[k]).session_id@ != session_id@
                    || store.agents[k].agent_name@ != agent_name@,
        decreases store.agents.len() - i,
    {
        if store.agents[i].session_id == wanted_session && store.agents[i].agent_name
            == wanted_name {
            assert(store@.agents[i as int] == store.agents[i as int]@);
            return true;
        }
        i = i + 1;
    }
    assert forall|k: int| 0 <= k < store@.agents.len() implies (#[trigger] store@.agents[
        k
    ]).session_id != session_id@ || store@.agents[k].agent_name != agent_name@ by {
    }
    false
}

fn session_id_in_use(store: &Store, id: u128) -> (found: bool)
    ensures
        found == store@.session_id_in_use(id),
{
    let mut i: usize = 0;
    while i < store.sessions.len()
        invariant
            i <= store.sessions.len(),
            forall|k: int| 0 <= k < i ==> (#[trigger] store.sessions[k]).id != id,
        decreases store.sessions.len() - i,
    {
        if store.sessions[i].id == id {
            assert(store@.sessions[i as int] == store.sessions[i as int]@);
            return true;
        }
        i = i + 1;
    }
    assert forall|k: int| 0 <= k < store@.sessions.len() implies (#[trigger] store@.sessions[
        k
    ]).id != id by {
    }
    false
}

fn agent_id_in_use(store: &Store, id: u128) -> (found: bool)
    ensures
        found == store@.agent_id_in_use(id),
{
    let mut i: usize = 0;
    while i < store.agents.len()
        invariant
            i <= store.agents.len(),
            forall|k: int| 0 <= k < i ==> (#[trigger] store.agents[k]).id != id,
        decreases store.agents.len() - i,
    {
        if store.agents[i].id == id {
            assert(store@.agents[i as int] == store.agents[i as int]@);
            return true;
        }
        i = i + 1;
    }
    assert forall|k: int| 0 <= k < store@.agents.len() implies (#[trigger] store@.agents[k]).id
        != id by {
    }
    false
}

fn event_id_in_use(store: &Store, id: u128) -> (found: bool)
    ensures
        found == store@.event_id_in_use(id),
{
    let mut i: usize = 0;
    while i < store.events.len()
        invariant
            i <= store.events.len(),
            forall|k: int| 0 <= k < i ==> (#[trigger] store.events[k]).id != id,
        decreases store.events.len() - i,
    {
        if store.events[i].id == id {
            assert(store@.events[i as int] == store.events[i as int]@);
            return true;
        }
        i = i + 1;
    }
    assert forall|k: int| 0 <= k < store@.events.len() implies (#[trigger] store@.events[k]).id
        != id by {
    }
    false
}

/// Where a session created at `now` goes in the sessions table.
fn find_session_slot(store: &Store, now: i64) -> (slot: usize)
    ensures
        slot <= store.sessions.len(),
        slot as int == session_slot(store@.sessions, now),
{
    let mut i: usize = 0;
    while i < store.sessions.len() && store.sessions[i].created_at > now
        invariant
            i <= store.sessions.len(),
            forall|k: int| 0 <= k < i ==> (#[trigger] store.sessions[k]).created_at > now,
        decreases store.sessions.len() - i,
    {
        i = i + 1;
    }
    proof {
        assert forall|k: int| 0 <= k < i implies (#[trigger] store@.sessions[k]).created_at
            > now by {
        }
        assert(is_session_slot(store@.sessions, now, i as int));
    }
    i
}

/// Where an agent created at `now` goes in the agents table.
fn find_agent_slot(store: &Store, now: i64) -> (slot: usize)
    ensures
        slot <= store.agents.len(),
        slot as int == agent_slot(store@.agents, now),
{
    let mut i: usize = 0;
    while i < store.agents.len() && store.agents[i].created_at <= now
        invariant
            i <= store.agents.len(),
            forall|k: int| 0 <= k < i ==> (#[trigger] store.agents[k]).created_at <= now,
        decreases store.agents.len() - i,
    {
        i = i + 1;
    }
    proof {
        assert forall|k: int| 0 <= k < i implies (#[trigger] store@.agents[k]).created_at
            <= now by {
        }
        assert(is_agent_slot(store@.agents, now, i as int));
    }
    i
}

/// Insert the session, or overwrite its project path, project name, status
/// and update time if the store holds it. A new session is refused with
/// `DuplicateId` when a session row carries the stamp's identifier.
pub fn upsert_session_at(
    store: &mut Store,
    stamp: WriteStamp,
    session_id: &str,
    project_path: &str,
    project_name: &str,
    status: Status,
) -> (result: Result<(), StoreError>)
    ensures
        write_outcome(
            old(store)@.upsert_session(stamp, session_id@, project_path@, project_name@, status),
            old(store)@,
            final(store)@,
            result,
        ),
        old(store)@.wf() ==> final(store)@.wf(),
{
    proof {
        if old(store)@.wf() {
            law_upsert_session_keeps_constraints(
                old(store)@,
                stamp,
                session_id@,
                project_path@,
                project_name@,
                status,
            );
        }
    }
    if has_session(store, session_id) {
        let wanted: String = session_id.to_owned();
        let mut i: usize = 0;
        while i < store.sessions.len()
            invariant
                i <= store.sessions.len(),
                wanted@ == session_id@,
                store.sessions.len() == old(store).sessions.len(),
                store.agents == old(store).agents,
                store.events == old(store).events,
                forall|k: int|
                    0 <= k < i ==> (#[trigger] store.sessions[k])@ == session_update(
                        session_id@,
                        project_path@,
                        project_name@,
                        status,
                        stamp.now,
                    )(old(store).sessions[k]@),
                forall|k: int|
                    i <= k < store.sessions.len() ==> store.sessions[k] == old(store).sessions[k],
            decreases store.sessions.len() - i,
        {
            if store.sessions[i].session_id == wanted {
                store.sessions[i].project_path = project_path.to_owned();
                store.sessions[i].project_name = project_name.to_owned();
                store.sessions[i].status = status;
                store.sessions[i].updated_at = stamp.now;
            }
            i = i + 1;
        }
        proof {
            let expected = old(store)@.upsert_session(
                stamp,
                session_id@,
                project_path@,
                project_name@,
                status,
            )->Ok_0;
            assert(store@.sessions =~= expected.sessions);
        }
        Ok(())
    } else if session_id_in_use(store, stamp.id) {
        Err(StoreError::DuplicateId)
    } else {
        let slot = find_session_slot(store, stamp.now);
        let row = Session {
            id: stamp.id,
            session_id: session_id.to_owned(),
            project_path: project_path.to_owned(),
            project_name: project_name.to_owned(),
            status,
            created_at: stamp.now,
            updated_at: stamp.now,
        };
        store.sessions.insert(slot, row);
        proof {
            let expected = old(store)@.upsert_session(
                stamp,
                session_id@,
                project_path@,
                project_name@,
                status,
            )->Ok_0;
            assert(store@.sessions =~= expected.sessions);
        }
        Ok(())
    }
}

/// Insert the agent, or overwrite its parent session, status and update time
/// if the store holds it. A new agent is refused with `DuplicateId` when an
/// agent row carries the stamp's identifier, and otherwise with
/// `UnknownSession` when the store does not hold its session.
pub fn upsert_agent_at(
    store: &mut Store,
    stamp: WriteStamp,
    session_id: &str,
    agent_name: &str,
    parent_session_id: Option<&str>,
    status: Status,
) -> (result: Result<(), StoreError>)
    ensures
        write_outcome(
            old(store)@.upsert_agent(
                stamp,
                session_id@,
                agent_name@,
                str_view(parent_session_id),
                status,
            ),
            old(store)@,
            final(store)@,
            result,
        ),
        old(store)@.wf() ==> final(store)@.wf(),
{
    proof {
        if old(store)@.wf() {
            law_upsert_agent_keeps_constraints(
                old(store)@,
                stamp,
                session_id@,
                agent_name@,
                str_view(parent_session_id),
                status,
            );
        }
    }
    if has_agent(store, session_id, agent_name) {
        let wanted_session: String = session_id.to_owned();
        let wanted_name: String = agent_name.to_owned();
        let mut i: usize = 0;
        while i < store.agents.len()
            invariant
                i <= store.agents.len(),
                wanted_session@ == session_id@,
                wanted_name@ == agent_name@,
                store.agents.len() == old(store).agents.len(),
                store.sessions == old(store).sessions,
                store.events == old(store).events,
                forall|k: int|
                    0 <= k < i ==> (#[trigger] store.agents[k])@ == agent_update(
                        session_id@,
                        agent_name@,
                        str_view(parent_session_id),
                        status,
                        stamp.now,
                    )(old(store).agents[k]@),
                forall|k: int|
                    i <= k < store.agents.len() ==> store.agents[k] == old(store).agents[k],
            decreases store.agents.len() - i,
        {
            if store.agents[i].session_id == wanted_session && store.agents[i].agent_name
                == wanted_name {
                store.agents[i].parent_session_id = owned_text(parent_session_id);
                store.agents[i].status = status;
                store.agents[i].updated_at = stamp.now;
            }
            i = i + 1;
        }
        proof {
            let expected = old(store)@.upsert_agent(
                stamp,
                session_id@,
                agent_name@,
                str_view(parent_session_id),
                status,
            )->Ok_0;
            assert(store@.agents =~= expected.agents);
        }
        Ok(())
    } else if agent_id_in_use(store, stamp.id) {
        Err(StoreError::DuplicateId)
    } else if !has_session(store, session_id) {
        Err(StoreError::UnknownSession)
    } else {
        let slot = find_agent_slot(store, stamp.now);
        let row = Agent {
            id: stamp.id,
            session_id: session_id.to_owned(),
            agent_name: agent_name.to_owned(),
            parent_session_id: owned_text(parent_session_id),
            status,
            created_at: stamp.now,
            updated_at: stamp.now,
        };
        store.agents.insert(slot, row);
        proof {
            let expected = old(store)@.upsert_agent(
                stamp,
                session_id@,
                agent_name@,
                str_view(parent_session_id),
                status,
            )->Ok_0;
            assert(store@.agents =~= expected.agents);
        }
        Ok(())
    }
}

/// Append an event to the log. It is refused with `DuplicateId` when a
/// logged event carries the stamp's identifier; events that are equal in
/// content are logged each.
pub fn insert_event_at(
    store: &mut Store,
    stamp: WriteStamp,
    session_id: &str,
    agent_name: Option<&str>,
    event_type: &str,
    payload: &str,
) -> (result: Result<(), StoreError>)
    ensures
        write_outcome(
            old(store)@.insert_event(
                stamp,
                session_id@,
                str_view(agent_name),
                event_type@,
                payload@,
            ),
            old(store)@,
            final(store)@,
            result,
        ),
        old(store)@.wf() ==> final(store)@.wf(),
{
    if event_id_in_use(store, stamp.id) {
        Err(StoreError::DuplicateId)
    } else {
        let row = Event {
            id: stamp.id,
            session_id: session_id.to_owned(),
            agent_name: owned_text(agent_name),
            event_type: event_type.to_owned(),
            payload: payload.to_owned(),
            timestamp: stamp.now,
        };
        store.events.push(row);
        proof {
            let expected = old(store)@.insert_event(
                stamp,
                session_id@,
                str_view(agent_name),
                event_type@,
                payload@,
            )->Ok_0;
            assert(store@.events =~= expected.events);
        }
        Ok(())
    }
}

/// Whether a guarded transition applies to a row with this status.
fn admits(from: Option<Status>, current: Status) -> (applies: bool)
    ensures
        applies == guard_admits(from, current),
{
    match from {
        Some(expected) => current == expected,
        None => true,
    }
}

/// Set the status of the session and of its agents to `to`, row by row,
/// wherever the row's status is `from` (everywhere, if `from` is `None`), and
/// set the update time of each changed row to `now`. Other rows are left as
/// they are.
pub fn transition_at(
    store: &mut Store,
    now: i64,
    session_id: &str,
    from: Option<Status>,
    to: Status,
)
    ensures
        final(store)@ == old(store)@.transition(session_id@, from, to, now),
        old(store)@.wf() ==> final(store)@.wf(),
{
    let wanted: String = session_id.to_owned();
    let mut i: usize = 0;
    while i < store.sessions.len()
        invariant
            i <= store.sessions.len(),
            wanted@ == session_id@,
            store.sessions.len() == old(store).sessions.len(),
            store.agents == old(store).agents,
            store.events == old(store).events,
            forall|k: int|
                0 <= k < i ==> (#[trigger] store.sessions[k])@ == session_transition(
                    session_id@,
                    from,
                    to,
                    now,
                )(old(store).sessions[k]@),
            forall|k: int|
                i <= k < store.sessions.len() ==> store.sessions[k] == old(store).sessions[k],
        decreases store.sessions.len() - i,
    {
        if store.sessions[i].session_id == wanted && admits(from, store.sessions[i].status) {
            store.sessions[i].status = to;
            store.sessions[i].updated_at = now;
        }
        i = i + 1;
    }
    let mut j: usize = 0;
    while j < store.agents.len()
        invariant
            j <= store.agents.len(),
            wanted@ == session_id@,
            store.agents.len() == old(store).agents.len(),
            store.events == old(store).events,
            store.sessions.len() == old(store).sessions.len(),
            forall|k: int|
                0 <= k < store.sessions.len() ==> (#[trigger] store.sessions[k])@
                    == session_transition(session_id@, from, to, now)(old(store).sessions[k]@),
            forall|k: int|
                0 <= k < j ==> (#[trigger] store.agents[k])@ == agent_transition(
                    session_id@,
                    from,
                    to,
                    now,
                )(old(store).agents[k]@),
            forall|k: int| j <= k < store.agents.len() ==> store.agents[k] == old(store).agents[k],
        decreases store.agents.len() - j,
    {
        if store.agents[j].session_id == wanted && admits(from, store.agents[j].status) {
            store.agents[j].status = to;
            store.agents[j].updated_at = now;
        }
        j = j + 1;
    }
    proof {
        let expected = old(store)@.transition(session_id@, from, to, now);
        assert(store@.sessions =~= expected.sessions);
        assert(store@.agents =~= expected.agents);
        if old(store)@.wf() {
            law_transition_keeps_constraints(old(store)@, session_id@, from, to, now);
        }
    }
}

/// Set the session and all its agents to `completed`, whatever their status.
pub fn mark_session_completed_at(store: &mut Store, now: i64, session_id: &str)
    ensures
        final(store)@ == old(store)@.mark_session_completed(session_id@, now),
        old(store)@.wf() ==> final(store)@.wf(),
{
    transition_at(store, now, session_id, None, Status::Completed)
}

/// Set the session to `idle` if it is `active`, and each of its agents that
/// is `active` to `idle`. A session or agent in any other status, such as one
/// that waits for input or for a permission, is left as it is.
pub fn mark_active_session_idle_at(store: &mut Store, now: i64, session_id: &str)
    ensures
        final(store)@ == old(store)@.mark_active_session_idle(session_id@, now),
        old(store)@.wf() ==> final(store)@.wf(),
{
    transition_at(store, now, session_id, Some(Status::Active), Status::Idle)
}

/// Set the session to `completed` if it is `active`, and each of its agents
/// that is `active` to `completed`. Other rows are left as they are.
pub fn mark_active_session_completed_at(store: &mut Store, now: i64, session_id: &str)
    ensures
        final(store)@ == old(store)@.mark_active_session_completed(session_id@, now),
        old(store)@.wf() ==> final(store)@.wf(),
{
    transition_at(store, now, session_id, Some(Status::Active), Status::Completed)
}

/// `upsert_session_at` with a fresh stamp.
pub fn upsert_session(
    store: &mut Store,
    session_id: &str,
    project_path: &str,
    project_name: &str,
    status: Status,
) -> (result: Result<(), StoreError>)
    ensures
        exists|stamp: WriteStamp|
            is_random_uuid(stamp.id) && 0 <= stamp.now && write_outcome(
                #[trigger] old(store)@.upsert_session(
                    stamp,
                    session_id@,
                    project_path@,
                    project_name@,
                    status,
                ),
                old(store)@,
                final(store)@,
                result,
            ),
        old(store)@.wf() ==> final(store)@.wf(),
{
    let stamp = WriteStamp::fresh();
    upsert_session_at(store, stamp, session_id, project_path, project_name, status)
}

/// `upsert_agent_at` with a fresh stamp.
pub fn upsert_agent(
    store: &mut Store,
    session_id: &str,
    agent_name: &str,
    parent_session_id: Option<&str>,
    status: Status,
) -> (result: Result<(), StoreError>)
    ensures
        exists|stamp: WriteStamp|
            is_random_uuid(stamp.id) && 0 <= stamp.now && write_outcome(
                #[trigger] old(store)@.upsert_agent(
                    stamp,
                    session_id@,
                    agent_name@,
                    str_view(parent_session_id),
                    status,
                ),
                old(store)@,
                final(store)@,
                result,
            ),
        old(store)@.wf() ==> final(store)@.wf(),
{
    let stamp = WriteStamp::fresh();
    upsert_agent_at(store, stamp, session_id, agent_name, parent_session_id, status)
}

/// `insert_event_at` with a fresh stamp.
pub fn insert_event(
    store: &mut Store,
    session_id: &str,
    agent_name: Option<&str>,
    event_type: &str,
    payload: &str,
) -> (result: Result<(), StoreError>)
    ensures
        exists|stamp: WriteStamp|
            is_random_uuid(stamp.id) && 0 <= stamp.now && write_outcome(
                #[trigger] old(store)@.insert_event(
                    stamp,
                    session_id@,
                    str_view(agent_name),
                    event_type@,
                    payload@,
                ),
                old(store)@,
                final(store)@,
                result,
            ),
        old(store)@.wf() ==> final(store)@.wf(),
{
    let stamp = WriteStamp::fresh();
    insert_event_at(store, stamp, session_id, agent_name, event_type, payload)
}

/// `mark_session_completed_at` at the current time.
pub fn mark_session_completed(store: &mut Store, session_id: &str)
    ensures
        exists|now: i64|
            0 <= now && final(store)@ == #[trigger] old(store)@.mark_session_completed(
                session_id@,
                now,
            ),
        old(store)@.wf() ==> final(store)@.wf(),
{
    let now = clock_micros();
    mark_session_completed_at(store, now, session_id)
}

/// `mark_active_session_idle_at` at the current time.
pub fn mark_active_session_idle(store: &mut Store, session_id: &str)
    ensures
        exists|now: i64|
            0 <= now && final(store)@ == #[trigger] old(store)@.mark_active_session_idle(
                session_id@,
                now,
            ),
        old(store)@.wf() ==> final(store)@.wf(),
{
    let now = clock_micros();
    mark_active_session_idle_at(store, now, session_id)
}

/// `mark_active_session_completed_at` at the current time.
pub fn mark_active_session_completed(store: &mut Store, session_id: &str)
    ensures
        exists|now: i64|
            0 <= now && final(store)@ == #[trigger] old(store)@.mark_active_session_completed(
                session_id@,
                now,
            ),
        old(store)@.wf() ==> final(store)@.wf(),
{
    let now = clock_micros();
    mark_active_session_completed_at(store, now, session_id)
}

/// Remove every event, every agent and every session.
pub fn clear_all_sessions(store: &mut Store)
    ensures
        final(store)@ == StoreView::empty(),
        final(store)@.wf(),
{
    store.events.clear();
    store.agents.clear();
    store.sessions.clear();
    assert(store@.sessions =~= Seq::empty());
    assert(store@.agents =~= Seq::empty());
    assert(store@.events =~= Seq::empty());
}

/// Whether a row of the sessions table is expired at `now`.
fn row_expired(row: &Session, now: i64, ttl: u64) -> (expired: bool)
    ensures
        expired == row@.is_expired(now, ttl),
{
    match row.status {
        Status::Completed => row.updated_at as i128 + ttl as i128 <= now as i128,
        _ => false,
    }
}

/// Whether the store holds an expired session with this session id.
fn session_expired(store: &Store, session_id: &str, now: i64, ttl: u64) -> (expired: bool)
    ensures
        expired == store@.is_expired(session_id@, now, ttl),
{
    let wanted: String = session_id.to_owned();
    let mut i: usize = 0;
    while i < store.sessions.len()
        invariant
            i <= store.sessions.len(),
            wanted@ == session_id@,
            forall|k: int|
                0 <= k < i ==> (#[trigger] store.sessions[k]).session_id@ != session_id@
                    || !store.sessions[k]@.is_expired(now, ttl),
        decreases store.sessions.len() - i,
    {
        if store.sessions[i].session_id == wanted && row_expired(&store.sessions[i], now, ttl) {
            assert(store@.sessions[i as int] == store.sessions[i as int]@);
            return true;
        }
        i = i + 1;
    }
    assert forall|k: int| 0 <= k < store@.sessions.len() implies (#[trigger] store@.sessions[
        k
    ]).session_id != session_id@ || !store@.sessions[k].is_expired(now, ttl) by {
    }
    false
}

/// Remove every session that is `completed` and was last updated at least
/// `ttl` microseconds before `now`, together with all its events and all its
/// agents. Events go first, then agents, sessions last. Every other row
/// stays, in its place.
pub fn cleanup_old_completed_at(store: &mut Store, now: i64, ttl: u64)
    ensures
        final(store)@ == old(store)@.purge_expired(now, ttl),
        purge_rules_hold(old(store)@, final(store)@, now, ttl),
        old(store)@.wf() ==> final(store)@.wf(),
{
    let ghost before = store@;
    proof {
        law_purge_removes_the_expired_only(before, now, ttl);
    }
    let ghost keep_event = before.event_survives(now, ttl);
    let ghost keep_agent = before.agent_survives(now, ttl);
    let ghost keep_session = before.session_survives(now, ttl);

    let mut events: Vec<Event> = Vec::new();
    core::mem::swap(&mut store.events, &mut events);
    assert(store@.events =~= before.events.take(0).filter(keep_event));
    for row in it: events
        invariant
            event_views(it.seq()) == before.events,
            store@.sessions == before.sessions,
            store@.agents == before.agents,
            keep_event == before.event_survives(now, ttl),
            store@.events == before.events.take(it.index() as int).filter(keep_event),
    {
        proof {
            reveal(Seq::filter);
            assert(before.events.take(it.index() + 1).drop_last() =~= before.events.take(
                it.index() as int,
            ));
        }
        let ghost so_far = store@.events;
        if !session_expired(store, row.session_id.as_str(), now, ttl) {
            store.events.push(row);
        }
    }
    assert(before.events.take(before.events.len() as int) =~= before.events);

    let mut agents: Vec<Agent> = Vec::new();
    core::mem::swap(&mut store.agents, &mut agents);
    assert(store@.agents =~= before.agents.take(0).filter(keep_agent));
    for row in it: agents
        invariant
            agent_views(it.seq()) == before.agents,
            store@.sessions == before.sessions,
            store@.events == before.events.filter(keep_event),
            keep_agent == before.agent_survives(now, ttl),
            store@.agents == before.agents.take(it.index() as int).filter(keep_agent),
    {
        proof {
            reveal(Seq::filter);
            assert(before.agents.take(it.index() + 1).drop_last() =~= before.agents.take(
                it.index() as int,
            ));
        }
        if !session_expired(store, row.session_id.as_str(), now, ttl) {
            store.agents.push(row);
        }
    }
    assert(before.agents.take(before.agents.len() as int) =~= before.agents);

    let mut sessions: Vec<Session> = Vec::new();
    core::mem::swap(&mut store.sessions, &mut sessions);
    assert(store@.sessions =~= before.sessions.take(0).filter(keep_session));
    for row in it: sessions
        invariant
            session_views(it.seq()) == before.sessions,
            store@.events == before.events.filter(keep_event),
            store@.agents == before.agents.filter(keep_agent),
            keep_session == before.session_survives(now, ttl),
            store@.sessions == before.sessions.take(it.index() as int).filter(keep_session),
    {
        proof {
            reveal(Seq::filter);
            assert(before.sessions.take(it.index() + 1).drop_last() =~= before.sessions.take(
                it.index() as int,
            ));
        }
        if !row_expired(&row, now, ttl) {
            store.sessions.push(row);
        }
    }
    assert(before.sessions.take(before.sessions.len() as int) =~= before.sessions);
    proof {
        if before.wf() {
            law_purge_keeps_constraints(before, now, ttl);
        }
    }
}

/// `cleanup_old_completed_at` at the current time.
pub fn cleanup_old_completed(store: &mut Store, ttl: u64)
    ensures
        exists|now: i64|
            0 <= now && final(store)@ == #[trigger] old(store)@.purge_expired(now, ttl)
                && purge_rules_hold(old(store)@, final(store)@, now, ttl),
        old(store)@.wf() ==> final(store)@.wf(),
{
    let now = clock_micros();
    cleanup_old_completed_at(store, now, ttl)
}

/// The agents of one session, oldest first.
pub fn get_agents_for_session(store: &Store, session_id: &str) -> (agents: Vec<Agent>)
    ensures
        agent_views(agents@) == store@.agents_of(session_id@),
{
    let wanted: String = session_id.to_owned();
    let mut agents: Vec<Agent> = Vec::new();
    let mut i: usize = 0;
    assert(agent_views(agents@) =~= store@.agents.take(0).filter(belongs_to(session_id@)));
    while i < store.agents.len()
        invariant
            i <= store.agents.len(),
            wanted@ == session_id@,
            agent_views(agents@) == store@.agents.take(i as int).filter(belongs_to(session_id@)),
        decreases store.agents.len() - i,
    {
        proof {
            reveal(Seq::filter);
            assert(store@.agents.take(i + 1).drop_last() =~= store@.agents.take(i as int));
        }
        if store.agents[i].session_id == wanted {
            let copy = store.agents[i].clone();
            agents.push(copy);
        }
        i = i + 1;
    }
    assert(store@.agents.take(store@.agents.len() as int) =~= store@.agents);
    agents
}

/// Every session that is not `completed`, newest first, each with its agents,
/// oldest first.
pub fn get_active_sessions(store: &Store) -> (sessions: Vec<SessionWithAgents>)
    ensures
        listing_views(sessions@) == store@.active_sessions(),
        forall|i: int|
            0 <= i < sessions.len() ==> (#[trigger] sessions[i]).status != Status::Completed,
        store@.wf() ==> forall|i: int, j: int|
            #![trigger sessions[i], sessions[j]]
            0 <= i < j < sessions.len() ==> sessions[i].created_at >= sessions[j].created_at,
{
    let mut sessions: Vec<SessionWithAgents> = Vec::new();
    let mut i: usize = 0;
    assert(listing_views(sessions@) =~= store@.sessions.take(0).filter(is_live()).map_values(
        store@.with_agents(),
    ));
    while i < store.sessions.len()
        invariant
            i <= store.sessions.len(),
            listing_views(sessions@) == store@.sessions.take(i as int).filter(
                is_live(),
            ).map_values(store@.with_agents()),
            forall|k: int|
                0 <= k < sessions.len() ==> (#[trigger] sessions[k]).status != Status::Completed,
        decreases store.sessions.len() - i,
    {
        proof {
            reveal(Seq::filter);
            assert(store@.sessions.take(i + 1).drop_last() =~= store@.sessions.take(i as int));
        }
        let ghost so_far = listing_views(sessions@);
        let row = &store.sessions[i];
        if !row.status.is_completed() {
            let agents = get_agents_for_session(store, row.session_id.as_str());
            let entry = SessionWithAgents {
                id: row.id,
                session_id: row.session_id.clone(),
                project_name: row.project_name.clone(),
                project_path: row.project_path.clone(),
                status: row.status,
                created_at: row.created_at,
                updated_at: row.updated_at,
                agents,
            };
            sessions.push(entry);
            assert(listing_views(sessions@) =~= so_far.push(entry@));
        }
        i = i + 1;
    }
    assert(store@.sessions.take(store@.sessions.len() as int) =~= store@.sessions);
    proof {
        if store@.wf() {
            assert forall|i: int, j: int|
                #![trigger sessions[i], sessions[j]]
                0 <= i < j < sessions.len() implies sessions[i].created_at
                >= sessions[j].created_at by {
                assert(listing_views(sessions@)[i] == sessions[i]@);
                assert(listing_views(sessions@)[j] == sessions[j]@);
                lemma_filter_keeps_order(store@.sessions, is_live(), i, j);
            }
        }
    }
    sessions
}

/// The status of a session, or `None` where the store does not hold it.
pub fn session_status(store: &Store, session_id: &str) -> (status: Option<Status>)
    ensures
        status == store@.session_status(session_id@),
{
    let wanted: String = session_id.to_owned();
    let mut i: usize = 0;
    while i < store.sessions.len()
        invariant
            i <= store.sessions.len(),
            wanted@ == session_id@,
            forall|k: int| 0 <= k < i ==> (#[trigger] store@.sessions[k]).session_id != session_id@,
        decreases store.sessions.len() - i,
    {
        if store.sessions[i].session_id == wanted {
            proof {
                assert(is_first_session(store@.sessions, session_id@, i as int));
            }
            return Some(store.sessions[i].status);
        }
        i = i + 1;
    }
    None
}

/// The status of an agent, or `None` where the store does not hold it.
pub fn agent_status(store: &Store, session_id: &str, agent_name: &str) -> (status: Option<Status>)
    ensures
        status == store@.agent_status(session_id@, agent_name@),
{
    let wanted_session: String = session_id.to_owned();
    let wanted_name: String = agent_name.to_owned();
    let mut i: usize = 0;
    while i < store.agents.len()
        invariant
            i <= store.agents.len(),
            wanted_session@ == session_id@,
            wanted_name@ == agent_name@,
            forall|k: int|
                0 <= k < i ==> (#[trigger] store@.agents[k]).session_id != session_id@
                    || store@.agents[k].agent_name != agent_name@,
        decreases store.agents.len() - i,
    {
        if store.agents[i].session_id == wanted_session && store.agents[i].agent_name
            == wanted_name {
            proof {
                assert(is_first_agent(store@.agents, session_id@, agent_name@, i as int));
            }
            return Some(store.agents[i].status);
        }
        i = i + 1;
    }
    None
}

/// The number of sessions in the store, completed ones included.
pub fn session_count(store: &Store) -> (count: usize)
    ensures
        count == store@.sessions.len(),
{
    store.sessions.len()
}

/// The number of agents in the store.
pub fn agent_count(store: &Store) -> (count: usize)
    ensures
        count == store@.agents.len(),
{
    store.agents.len()
}

/// The number of events in the log.
pub fn event_count(store: &Store) -> (count: usize)
    ensures
        count == store@.events.len(),
{
    store.events.len()
}

/// A copy of the event log, in the order of logging.
pub fn get_events(store: &Store) -> (events: Vec<Event>)
    ensures
        event_views(events@) == store@.events,
{
    let mut events: Vec<Event> = Vec::new();
    let mut i: usize = 0;
    while i < store.events.len()
        invariant
            i <= store.events.len(),
            events.len() == i,
            forall|k: int| 0 <= k < i ==> (#[trigger] events[k]) == store.events[k],
        decreases store.events.len() - i,
    {
        events.push(store.events[i].clone());
        i = i + 1;
    }
    events
}

} // verus!

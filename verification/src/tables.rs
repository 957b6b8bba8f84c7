//! The tables as mathematical values: three sequences of rows, and every
//! operation of the store as a function on them.
//!
//! The operations are defined for every value. `wf` states the constraints
//! that the tables keep: unique keys, unique row identifiers, rows ordered
//! by creation time, and no agent without its session.

use vstd::prelude::*;
use crate::models::{AgentView, EventView, SessionView, SessionWithAgentsView, Status};
use crate::stamp::WriteStamp;

verus! {

/// Why a write was refused.
#[derive(Clone, Copy, Debug, PartialEq, Eq, Structural)]
pub enum StoreError {
    /// A new row would carry the identifier of another row of its table.
    DuplicateId,
    /// A new agent names a session that the store does not hold.
    UnknownSession,
}

impl SessionView {
    /// The row with another status, updated at `now`.
    pub open spec fn with_status(self, status: Status, now: i64) -> SessionView {
        SessionView { status, updated_at: now, ..self }
    }

    /// The row with other details, updated at `now`.
    pub open spec fn with_details(
        self,
        project_path: Seq<char>,
        project_name: Seq<char>,
        status: Status,
        now: i64,
    ) -> SessionView {
        SessionView { project_path, project_name, status, updated_at: now, ..self }
    }

    /// A session is expired at `now` when it is completed and was last
    /// updated at least `ttl` microseconds ago.
    pub open spec fn is_expired(self, now: i64, ttl: u64) -> bool {
        self.status == Status::Completed && self.updated_at + ttl <= now
    }
}

impl AgentView {
    /// The row with another status, updated at `now`.
    pub open spec fn with_status(self, status: Status, now: i64) -> AgentView {
        AgentView { status, updated_at: now, ..self }
    }

    /// The row with other details, updated at `now`.
    pub open spec fn with_details(
        self,
        parent_session_id: Option<Seq<char>>,
        status: Status,
        now: i64,
    ) -> AgentView {
        AgentView { parent_session_id, status, updated_at: now, ..self }
    }
}

/// A guarded transition applies to a row when there is no guard or the row's
/// status equals the guard.
pub open spec fn guard_admits(from: Option<Status>, current: Status) -> bool {
    match from {
        Some(expected) => current == expected,
        None => true,
    }
}

/// The row of a session that is seen for the first time.
pub open spec fn new_session(
    stamp: WriteStamp,
    session_id: Seq<char>,
    project_path: Seq<char>,
    project_name: Seq<char>,
    status: Status,
) -> SessionView {
    SessionView {
        id: stamp.id,
        session_id,
        project_path,
        project_name,
        status,
        created_at: stamp.now,
        updated_at: stamp.now,
    }
}

/// The row of an agent that is seen for the first time.
pub open spec fn new_agent(
    stamp: WriteStamp,
    session_id: Seq<char>,
    agent_name: Seq<char>,
    parent_session_id: Option<Seq<char>>,
    status: Status,
) -> AgentView {
    AgentView {
        id: stamp.id,
        session_id,
        agent_name,
        parent_session_id,
        status,
        created_at: stamp.now,
        updated_at: stamp.now,
    }
}

/// The row of a logged event.
pub open spec fn new_event(
    stamp: WriteStamp,
    session_id: Seq<char>,
    agent_name: Option<Seq<char>>,
    event_type: Seq<char>,
    payload: Seq<char>,
) -> EventView {
    EventView { id: stamp.id, session_id, agent_name, event_type, payload, timestamp: stamp.now }
}

/// What an upsert does to each row of the sessions table when the session
/// exists.
pub open spec fn session_update(
    session_id: Seq<char>,
    project_path: Seq<char>,
    project_name: Seq<char>,
    status: Status,
    now: i64,
) -> spec_fn(SessionView) -> SessionView {
    |row: SessionView|
        if row.session_id == session_id {
            row.with_details(project_path, project_name, status, now)
        } else {
            row
        }
}

/// What an upsert does to each row of the agents table when the agent exists.
pub open spec fn agent_update(
    session_id: Seq<char>,
    agent_name: Seq<char>,
    parent_session_id: Option<Seq<char>>,
    status: Status,
    now: i64,
) -> spec_fn(AgentView) -> AgentView {
    |row: AgentView|
        if row.session_id == session_id && row.agent_name == agent_name {
            row.with_details(parent_session_id, status, now)
        } else {
            row
        }
}

/// What a guarded transition does to each row of the sessions table.
pub open spec fn session_transition(
    session_id: Seq<char>,
    from: Option<Status>,
    to: Status,
    now: i64,
) -> spec_fn(SessionView) -> SessionView {
    |row: SessionView|
        if row.session_id == session_id && guard_admits(from, row.status) {
            row.with_status(to, now)
        } else {
            row
        }
}

/// What a guarded transition does to each row of the agents table.
pub open spec fn agent_transition(
    session_id: Seq<char>,
    from: Option<Status>,
    to: Status,
    now: i64,
) -> spec_fn(AgentView) -> AgentView {
    |row: AgentView|
        if row.session_id == session_id && guard_admits(from, row.status) {
            row.with_status(to, now)
        } else {
            row
        }
}

/// The agents of one session.
pub open spec fn belongs_to(session_id: Seq<char>) -> spec_fn(AgentView) -> bool {
    |row: AgentView| row.session_id == session_id
}

/// The sessions that observers see: all but the completed.
pub open spec fn is_live() -> spec_fn(SessionView) -> bool {
    |row: SessionView| row.status != Status::Completed
}

/// `slot` is where a session created at `now` goes in a table that lists the
/// newest session first: behind every row that is newer, before the first
/// that is not.
pub open spec fn is_session_slot(rows: Seq<SessionView>, now: i64, slot: int) -> bool {
    &&& 0 <= slot <= rows.len()
    &&& forall|k: int| 0 <= k < slot ==> (#[trigger] rows[k]).created_at > now
    &&& slot < rows.len() ==> rows[slot].created_at <= now
}

/// The slot of a session created at `now`.
pub open spec fn session_slot(rows: Seq<SessionView>, now: i64) -> int {
    choose|slot: int| is_session_slot(rows, now, slot)
}

/// `slot` is where an agent created at `now` goes in a table that lists the
/// oldest agent first: behind every row that is not newer, before the first
/// that is.
pub open spec fn is_agent_slot(rows: Seq<AgentView>, now: i64, slot: int) -> bool {
    &&& 0 <= slot <= rows.len()
    &&& forall|k: int| 0 <= k < slot ==> (#[trigger] rows[k]).created_at <= now
    &&& slot < rows.len() ==> rows[slot].created_at > now
}

/// The slot of an agent created at `now`.
pub open spec fn agent_slot(rows: Seq<AgentView>, now: i64) -> int {
    choose|slot: int| is_agent_slot(rows, now, slot)
}

/// `i` is the first row of the table with this session id.
pub open spec fn is_first_session(rows: Seq<SessionView>, session_id: Seq<char>, i: int) -> bool {
    &&& 0 <= i < rows.len()
    &&& rows[i].session_id == session_id
    &&& forall|k: int| 0 <= k < i ==> (#[trigger] rows[k]).session_id != session_id
}

/// The first row of the table with this session id, if there is one.
pub open spec fn find_session(rows: Seq<SessionView>, session_id: Seq<char>) -> Option<
    SessionView,
> {
    if exists|i: int| is_first_session(rows, session_id, i) {
        Some(rows[choose|i: int| is_first_session(rows, session_id, i)])
    } else {
        None
    }
}

/// `i` is the first row of the table with this session id and agent name.
pub open spec fn is_first_agent(
    rows: Seq<AgentView>,
    session_id: Seq<char>,
    agent_name: Seq<char>,
    i: int,
) -> bool {
    &&& 0 <= i < rows.len()
    &&& rows[i].session_id == session_id
    &&& rows[i].agent_name == agent_name
    &&& forall|k: int|
        0 <= k < i ==> (#[trigger] rows[k]).session_id != session_id || rows[k].agent_name
            != agent_name
}

/// The first row of the table with this session id and agent name, if there
/// is one.
pub open spec fn find_agent(
    rows: Seq<AgentView>,
    session_id: Seq<char>,
    agent_name: Seq<char>,
) -> Option<AgentView> {
    if exists|i: int| is_first_agent(rows, session_id, agent_name, i) {
        Some(rows[choose|i: int| is_first_agent(rows, session_id, agent_name, i)])
    } else {
        None
    }
}

/// The contents of the store.
pub struct StoreView {
    /// Sessions, newest first.
    pub sessions: Seq<SessionView>,
    /// Agents of all sessions, oldest first.
    pub agents: Seq<AgentView>,
    /// The event log, in the order of logging.
    pub events: Seq<EventView>,
}

impl StoreView {
    /// Three empty tables.
    pub open spec fn empty() -> StoreView {
        StoreView { sessions: Seq::empty(), agents: Seq::empty(), events: Seq::empty() }
    }

    /// Some row of the sessions table has this session id.
    pub open spec fn has_session(self, session_id: Seq<char>) -> bool {
        exists|i: int|
            0 <= i < self.sessions.len() && (#[trigger] self.sessions[i]).session_id == session_id
    }

    /// Some row of the agents table has this session id and agent name.
    pub open spec fn has_agent(self, session_id: Seq<char>, agent_name: Seq<char>) -> bool {
        exists|i: int|
            0 <= i < self.agents.len() && (#[trigger] self.agents[i]).session_id == session_id
                && self.agents[i].agent_name == agent_name
    }

    /// Some row of the sessions table has this identifier.
    pub open spec fn session_id_in_use(self, id: u128) -> bool {
        exists|i: int| 0 <= i < self.sessions.len() && (#[trigger] self.sessions[i]).id == id
    }

    /// Some row of the agents table has this identifier.
    pub open spec fn agent_id_in_use(self, id: u128) -> bool {
        exists|i: int| 0 <= i < self.agents.len() && (#[trigger] self.agents[i]).id == id
    }

    /// Some entry of the event log has this identifier.
    pub open spec fn event_id_in_use(self, id: u128) -> bool {
        exists|i: int| 0 <= i < self.events.len() && (#[trigger] self.events[i]).id == id
    }

    /// The row of a session, if the store holds it.
    pub open spec fn session(self, session_id: Seq<char>) -> Option<SessionView> {
        find_session(self.sessions, session_id)
    }

    /// The status of a session, if the store holds it.
    pub open spec fn session_status(self, session_id: Seq<char>) -> Option<Status> {
        match self.session(session_id) {
            Some(row) => Some(row.status),
            None => None,
        }
    }

    /// The row of an agent, if the store holds it.
    pub open spec fn agent(self, session_id: Seq<char>, agent_name: Seq<char>) -> Option<
        AgentView,
    > {
        find_agent(self.agents, session_id, agent_name)
    }

    /// The status of an agent, if the store holds it.
    pub open spec fn agent_status(self, session_id: Seq<char>, agent_name: Seq<char>) -> Option<
        Status,
    > {
        match self.agent(session_id, agent_name) {
            Some(row) => Some(row.status),
            None => None,
        }
    }

    /// Insert the session, or overwrite its path, name, status and update
    /// time if it exists.
    pub open spec fn upsert_session(
        self,
        stamp: WriteStamp,
        session_id: Seq<char>,
        project_path: Seq<char>,
        project_name: Seq<char>,
        status: Status,
    ) -> Result<StoreView, StoreError> {
        if self.has_session(session_id) {
            Ok(
                StoreView {
                    sessions: self.sessions.map_values(
                        session_update(session_id, project_path, project_name, status, stamp.now),
                    ),
                    ..self
                },
            )
        } else if self.session_id_in_use(stamp.id) {
            Err(StoreError::DuplicateId)
        } else {
            Ok(
                StoreView {
                    sessions: self.sessions.insert(
                        session_slot(self.sessions, stamp.now),
                        new_session(stamp, session_id, project_path, project_name, status),
                    ),
                    ..self
                },
            )
        }
    }

    /// Insert the agent, or overwrite its parent, status and update time if
    /// it exists. A new agent needs its session.
    pub open spec fn upsert_agent(
        self,
        stamp: WriteStamp,
        session_id: Seq<char>,
        agent_name: Seq<char>,
        parent_session_id: Option<Seq<char>>,
        status: Status,
    ) -> Result<StoreView, StoreError> {
        if self.has_agent(session_id, agent_name) {
            Ok(
                StoreView {
                    agents: self.agents.map_values(
                        agent_update(session_id, agent_name, parent_session_id, status, stamp.now),
                    ),
                    ..self
                },
            )
        } else if self.agent_id_in_use(stamp.id) {
            Err(StoreError::DuplicateId)
        } else if !self.has_session(session_id) {
            Err(StoreError::UnknownSession)
        } else {
            Ok(
                StoreView {
                    agents: self.agents.insert(
                        agent_slot(self.agents, stamp.now),
                        new_agent(stamp, session_id, agent_name, parent_session_id, status),
                    ),
                    ..self
                },
            )
        }
    }

    /// Append an event to the log.
    pub open spec fn insert_event(
        self,
        stamp: WriteStamp,
        session_id: Seq<char>,
        agent_name: Option<Seq<char>>,
        event_type: Seq<char>,
        payload: Seq<char>,
    ) -> Result<StoreView, StoreError> {
        if self.event_id_in_use(stamp.id) {
            Err(StoreError::DuplicateId)
        } else {
            Ok(
                StoreView {
                    events: self.events.push(
                        new_event(stamp, session_id, agent_name, event_type, payload),
                    ),
                    ..self
                },
            )
        }
    }

    /// Set the status of a session and of its agents to `to`, row by row,
    /// wherever the guard `from` admits the row's current status.
    pub open spec fn transition(
        self,
        session_id: Seq<char>,
        from: Option<Status>,
        to: Status,
        now: i64,
    ) -> StoreView {
        StoreView {
            sessions: self.sessions.map_values(session_transition(session_id, from, to, now)),
            agents: self.agents.map_values(agent_transition(session_id, from, to, now)),
            events: self.events,
        }
    }

    /// The session and all its agents `completed`, whatever they were.
    pub open spec fn mark_session_completed(self, session_id: Seq<char>, now: i64) -> StoreView {
        self.transition(session_id, None, Status::Completed, now)
    }

    /// The session and its agents `idle`, each row only if it was `active`.
    pub open spec fn mark_active_session_idle(self, session_id: Seq<char>, now: i64) -> StoreView {
        self.transition(session_id, Some(Status::Active), Status::Idle, now)
    }

    /// The session and its agents `completed`, each row only if it was
    /// `active`.
    pub open spec fn mark_active_session_completed(
        self,
        session_id: Seq<char>,
        now: i64,
    ) -> StoreView {
        self.transition(session_id, Some(Status::Active), Status::Completed, now)
    }

    /// The store holds an expired session with this session id.
    pub open spec fn is_expired(self, session_id: Seq<char>, now: i64, ttl: u64) -> bool {
        exists|i: int|
            0 <= i < self.sessions.len() && (#[trigger] self.sessions[i]).session_id == session_id
                && self.sessions[i].is_expired(now, ttl)
    }

    /// The sessions that the purge keeps: those that are not expired.
    pub open spec fn session_survives(self, now: i64, ttl: u64) -> spec_fn(SessionView) -> bool {
        |row: SessionView| !row.is_expired(now, ttl)
    }

    /// The agents that the purge keeps: those of no expired session.
    pub open spec fn agent_survives(self, now: i64, ttl: u64) -> spec_fn(AgentView) -> bool {
        |row: AgentView| !self.is_expired(row.session_id, now, ttl)
    }

    /// The events that the purge keeps: those of no expired session.
    pub open spec fn event_survives(self, now: i64, ttl: u64) -> spec_fn(EventView) -> bool {
        |row: EventView| !self.is_expired(row.session_id, now, ttl)
    }

    /// Remove every expired session with its agents and its events.
    pub open spec fn purge_expired(self, now: i64, ttl: u64) -> StoreView {
        StoreView {
            sessions: self.sessions.filter(self.session_survives(now, ttl)),
            agents: self.agents.filter(self.agent_survives(now, ttl)),
            events: self.events.filter(self.event_survives(now, ttl)),
        }
    }

    /// The agents of one session, oldest first.
    pub open spec fn agents_of(self, session_id: Seq<char>) -> Seq<AgentView> {
        self.agents.filter(belongs_to(session_id))
    }

    /// A session row with the agents of its session.
    pub open spec fn with_agents(self) -> spec_fn(SessionView) -> SessionWithAgentsView {
        |row: SessionView|
            SessionWithAgentsView { session: row, agents: self.agents_of(row.session_id) }
    }

    /// Every session that is not completed, newest first, each with its
    /// agents.
    pub open spec fn active_sessions(self) -> Seq<SessionWithAgentsView> {
        self.sessions.filter(is_live()).map_values(self.with_agents())
    }

    /// The constraints that the tables keep.
    pub open spec fn wf(self) -> bool {
        &&& forall|i: int, j: int|
            #![trigger self.sessions[i], self.sessions[j]]
            0 <= i < j < self.sessions.len() ==> {
                &&& self.sessions[i].session_id != self.sessions[j].session_id
                &&& self.sessions[i].id != self.sessions[j].id
                &&& self.sessions[i].created_at >= self.sessions[j].created_at
            }
        &&& forall|i: int, j: int|
            #![trigger self.agents[i], self.agents[j]]
            0 <= i < j < self.agents.len() ==> {
                &&& (self.agents[i].session_id != self.agents[j].session_id
                    || self.agents[i].agent_name != self.agents[j].agent_name)
                &&& self.agents[i].id != self.agents[j].id
                &&& self.agents[i].created_at <= self.agents[j].created_at
            }
        &&& forall|i: int|
            0 <= i < self.agents.len() ==> self.has_session((#[trigger] self.agents[i]).session_id)
        &&& forall|i: int, j: int|
            #![trigger self.events[i], self.events[j]]
            0 <= i < j < self.events.len() ==> self.events[i].id != self.events[j].id
    }
}

} // verus!

//! The data model: statuses, sessions, agents, logged events and the hook
//! events that drive them.
//!
//! Every exec type has a view in which text is a `Seq<char>`; contracts in the
//! other modules are stated over those views. Timestamps are microseconds
//! since the Unix epoch and row identifiers are 128-bit integers.

use vstd::prelude::*;

verus! {

/// What a session or an agent is doing. `Completed` is terminal.
#[derive(Clone, Copy, Debug, PartialEq, Eq, Structural)]
pub enum Status {
    Active,
    Idle,
    WaitingInput,
    NeedsPermission,
    Completed,
}

impl Status {
    /// The name under which a status is stored and sent.
    pub open spec fn text(self) -> Seq<char> {
        match self {
            Status::Active => "active"@,
            Status::Idle => "idle"@,
            Status::WaitingInput => "waiting_input"@,
            Status::NeedsPermission => "needs_permission"@,
            Status::Completed => "completed"@,
        }
    }

    /// The status that a name stands for, if it is one of the five names.
    pub open spec fn from_text(text: Seq<char>) -> Option<Status> {
        if text == "active"@ {
            Some(Status::Active)
        } else if text == "idle"@ {
            Some(Status::Idle)
        } else if text == "waiting_input"@ {
            Some(Status::WaitingInput)
        } else if text == "needs_permission"@ {
            Some(Status::NeedsPermission)
        } else if text == "completed"@ {
            Some(Status::Completed)
        } else {
            None
        }
    }

    /// A status that still asks for the user's attention: `stop` must not
    /// overwrite it.
    pub open spec fn needs_attention(self) -> bool {
        self == Status::WaitingInput || self == Status::NeedsPermission
    }

    /// The name under which the status is stored and sent.
    pub fn as_str(&self) -> (text: &'static str)
        ensures
            text@ == self.text(),
    {
        match self {
            Status::Active => "active",
            Status::Idle => "idle",
            Status::WaitingInput => "waiting_input",
            Status::NeedsPermission => "needs_permission",
            Status::Completed => "completed",
        }
    }

    /// The status that a name stands for, or `None` where it is none of the
    /// five names.
    pub fn parse(text: &str) -> (status: Option<Status>)
        ensures
            status == Status::from_text(text@),
    {
        let owned: String = text.to_owned();
        if owned == "active".to_owned() {
            Some(Status::Active)
        } else if owned == "idle".to_owned() {
            Some(Status::Idle)
        } else if owned == "waiting_input".to_owned() {
            Some(Status::WaitingInput)
        } else if owned == "needs_permission".to_owned() {
            Some(Status::NeedsPermission)
        } else if owned == "completed".to_owned() {
            Some(Status::Completed)
        } else {
            None
        }
    }

    /// Whether the status is the terminal one.
    pub fn is_completed(&self) -> (terminal: bool)
        ensures
            terminal == (*self == Status::Completed),
    {
        match self {
            Status::Completed => true,
            _ => false,
        }
    }
}

/// The five names are pairwise different, so a status can be read back from
/// its name.
pub proof fn law_status_name_round_trip(status: Status)
    ensures
        Status::from_text(status.text()) == Some(status),
{
    reveal_strlit("active");
    reveal_strlit("idle");
    reveal_strlit("waiting_input");
    reveal_strlit("needs_permission");
    reveal_strlit("completed");
    assert("active"@.len() == 6);
    assert("idle"@.len() == 4);
    assert("waiting_input"@.len() == 13);
    assert("needs_permission"@.len() == 16);
}

/// The view of an optional text.
pub open spec fn text_of(value: Option<String>) -> Option<Seq<char>> {
    match value {
        Some(s) => Some(s@),
        None => None,
    }
}

/// A copy of an optional text.
pub fn clone_text(value: &Option<String>) -> (copy: Option<String>)
    ensures
        copy == *value,
{
    match value {
        Some(s) => Some(s.clone()),
        None => None,
    }
}

/// One tracked unit of work, keyed by the producer's `session_id`.
#[derive(Debug)]
pub struct Session {
    pub id: u128,
    pub session_id: String,
    pub project_path: String,
    pub project_name: String,
    pub status: Status,
    pub created_at: i64,
    pub updated_at: i64,
}

/// A session, with its texts as sequences of characters.
pub struct SessionView {
    pub id: u128,
    pub session_id: Seq<char>,
    pub project_path: Seq<char>,
    pub project_name: Seq<char>,
    pub status: Status,
    pub created_at: i64,
    pub updated_at: i64,
}

impl View for Session {
    type V = SessionView;

    open spec fn view(&self) -> SessionView {
        SessionView {
            id: self.id,
            session_id: self.session_id@,
            project_path: self.project_path@,
            project_name: self.project_name@,
            status: self.status,
            created_at: self.created_at,
            updated_at: self.updated_at,
        }
    }
}

impl Clone for Session {
    fn clone(&self) -> (copy: Self)
        ensures
            copy == *self,
    {
        Session {
            id: self.id,
            session_id: self.session_id.clone(),
            project_path: self.project_path.clone(),
            project_name: self.project_name.clone(),
            status: self.status,
            created_at: self.created_at,
            updated_at: self.updated_at,
        }
    }
}

/// One named actor within a session, keyed by `(session_id, agent_name)`.
#[derive(Debug)]
pub struct Agent {
    pub id: u128,
    pub session_id: String,
    pub agent_name: String,
    pub parent_session_id: Option<String>,
    pub status: Status,
    pub created_at: i64,
    pub updated_at: i64,
}

/// An agent, with its texts as sequences of characters.
pub struct AgentView {
    pub id: u128,
    pub session_id: Seq<char>,
    pub agent_name: Seq<char>,
    pub parent_session_id: Option<Seq<char>>,
    pub status: Status,
    pub created_at: i64,
    pub updated_at: i64,
}

impl View for Agent {
    type V = AgentView;

    open spec fn view(&self) -> AgentView {
        AgentView {
            id: self.id,
            session_id: self.session_id@,
            agent_name: self.agent_name@,
            parent_session_id: text_of(self.parent_session_id),
            status: self.status,
            created_at: self.created_at,
            updated_at: self.updated_at,
        }
    }
}

impl Clone for Agent {
    fn clone(&self) -> (copy: Self)
        ensures
            copy == *self,
    {
        Agent {
            id: self.id,
            session_id: self.session_id.clone(),
            agent_name: self.agent_name.clone(),
            parent_session_id: clone_text(&self.parent_session_id),
            status: self.status,
            created_at: self.created_at,
            updated_at: self.updated_at,
        }
    }
}

/// One entry of the append-only event log.
#[derive(Debug)]
pub struct Event {
    pub id: u128,
    pub session_id: String,
    pub agent_name: Option<String>,
    pub event_type: String,
    pub payload: String,
    pub timestamp: i64,
}

/// A logged event, with its texts as sequences of characters.
pub struct EventView {
    pub id: u128,
    pub session_id: Seq<char>,
    pub agent_name: Option<Seq<char>>,
    pub event_type: Seq<char>,
    pub payload: Seq<char>,
    pub timestamp: i64,
}

impl View for Event {
    type V = EventView;

    open spec fn view(&self) -> EventView {
        EventView {
            id: self.id,
            session_id: self.session_id@,
            agent_name: text_of(self.agent_name),
            event_type: self.event_type@,
            payload: self.payload@,
            timestamp: self.timestamp,
        }
    }
}

impl Clone for Event {
    fn clone(&self) -> (copy: Self)
        ensures
            copy == *self,
    {
        Event {
            id: self.id,
            session_id: self.session_id.clone(),
            agent_name: clone_text(&self.agent_name),
            event_type: self.event_type.clone(),
            payload: self.payload.clone(),
            timestamp: self.timestamp,
        }
    }
}

/// A session together with its agents, as observers receive it.
#[derive(Debug)]
pub struct SessionWithAgents {
    pub id: u128,
    pub session_id: String,
    pub project_name: String,
    pub project_path: String,
    pub status: Status,
    pub created_at: i64,
    pub updated_at: i64,
    pub agents: Vec<Agent>,
}

/// A listed session: its row and the rows of its agents.
pub struct SessionWithAgentsView {
    pub session: SessionView,
    pub agents: Seq<AgentView>,
}

impl View for SessionWithAgents {
    type V = SessionWithAgentsView;

    open spec fn view(&self) -> SessionWithAgentsView {
        SessionWithAgentsView {
            session: SessionView {
                id: self.id,
                session_id: self.session_id@,
                project_path: self.project_path@,
                project_name: self.project_name@,
                status: self.status,
                created_at: self.created_at,
                updated_at: self.updated_at,
            },
            agents: self.agents@.map_values(|a: Agent| a@),
        }
    }
}

/// An incoming hook event. Only `event_type` and `session_id` are required.
#[derive(Debug)]
pub struct HookEvent {
    pub event_type: String,
    pub session_id: String,
    pub project_path: Option<String>,
    pub project_name: Option<String>,
    pub agent_name: Option<String>,
    pub parent_session_id: Option<String>,
    pub needs_input: Option<bool>,
    pub tool_name: Option<String>,
    pub transcript_path: Option<String>,
    pub message: Option<String>,
}

/// A hook event, with its texts as sequences of characters.
pub struct HookEventView {
    pub event_type: Seq<char>,
    pub session_id: Seq<char>,
    pub project_path: Option<Seq<char>>,
    pub project_name: Option<Seq<char>>,
    pub agent_name: Option<Seq<char>>,
    pub parent_session_id: Option<Seq<char>>,
    pub needs_input: Option<bool>,
    pub tool_name: Option<Seq<char>>,
    pub transcript_path: Option<Seq<char>>,
    pub message: Option<Seq<char>>,
}

impl View for HookEvent {
    type V = HookEventView;

    open spec fn view(&self) -> HookEventView {
        HookEventView {
            event_type: self.event_type@,
            session_id: self.session_id@,
            project_path: text_of(self.project_path),
            project_name: text_of(self.project_name),
            agent_name: text_of(self.agent_name),
            parent_session_id: text_of(self.parent_session_id),
            needs_input: self.needs_input,
            tool_name: text_of(self.tool_name),
            transcript_path: text_of(self.transcript_path),
            message: text_of(self.message),
        }
    }
}

/// The answer of the liveness probe.
#[derive(Debug)]
pub struct HealthResponse {
    pub status: &'static str,
    pub version: &'static str,
}

} // verus!

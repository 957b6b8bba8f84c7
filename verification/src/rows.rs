//! Rows as a text-based storage engine hands them back: every column a
//! text. An identifier or a timestamp that cannot be read is replaced, as a
//! fresh identifier or the current time; a row whose status is none of the
//! five names is not a row of this system.

use vstd::prelude::*;
use crate::models::{text_of, Agent, SessionWithAgents, Status};
use crate::stamp::{clock_micros, is_random_uuid, random_row_id};

verus! {

/// The number that `uuid` reads from a text, if the text is a UUID in one of
/// the forms that `Uuid::parse_str` accepts.
pub uninterp spec fn uuid_of_text(text: Seq<char>) -> Option<u128>;

/// The microseconds since the Unix epoch that `chrono` reads from a text, if
/// the text is a date and time with an offset in the relaxed RFC 3339 form
/// that `DateTime<Utc>` parses.
pub uninterp spec fn timestamp_of_text(text: Seq<char>) -> Option<i64>;

/// Calls `uuid::Uuid::parse_str` and returns the identifier as a number
/// (`Uuid::as_u128`), or `None` where the text is refused. The result
/// depends on the text alone and is named `uuid_of_text`.
#[verifier::external_body]
fn parse_uuid(text: &str) -> (id: Option<u128>)
    ensures
        id == uuid_of_text(text@),
{
    match uuid::Uuid::parse_str(text) {
        Ok(id) => Some(id.as_u128()),
        Err(_) => None,
    }
}

/// Parses the text as a `chrono::DateTime<chrono::Utc>` (`str::parse`) and
/// returns its `timestamp_micros`, or `None` where the text is refused. The
/// result depends on the text alone and is named `timestamp_of_text`.
#[verifier::external_body]
fn parse_timestamp(text: &str) -> (micros: Option<i64>)
    ensures
        micros == timestamp_of_text(text@),
{
    match text.parse::<chrono::DateTime<chrono::Utc>>() {
        Ok(time) => Some(time.timestamp_micros()),
        Err(_) => None,
    }
}

/// How an identifier follows from what was read: the identifier that was
/// read, or a random one where none was.
pub open spec fn identifier_from(read: Option<u128>, id: u128) -> bool {
    match read {
        Some(value) => id == value,
        None => is_random_uuid(id),
    }
}

/// How a timestamp follows from what was read: the time that was read, or a
/// time that is not negative where none was.
pub open spec fn timestamp_from(read: Option<i64>, micros: i64) -> bool {
    match read {
        Some(value) => micros == value,
        None => 0 <= micros,
    }
}

/// The identifier that was read, or a fresh one.
pub fn identifier_or_fresh(read: Option<u128>) -> (id: u128)
    ensures
        identifier_from(read, id),
{
    match read {
        Some(value) => value,
        None => random_row_id(),
    }
}

/// The time that was read, or the current time.
pub fn timestamp_or_now(read: Option<i64>) -> (micros: i64)
    ensures
        timestamp_from(read, micros),
{
    match read {
        Some(value) => value,
        None => clock_micros(),
    }
}

/// The identifier that a text stands for, or a fresh one.
pub fn read_identifier(text: &str) -> (id: u128)
    ensures
        identifier_from(uuid_of_text(text@), id),
{
    identifier_or_fresh(parse_uuid(text))
}

/// The time that a text stands for, or the current time.
pub fn read_timestamp(text: &str) -> (micros: i64)
    ensures
        timestamp_from(timestamp_of_text(text@), micros),
{
    timestamp_or_now(parse_timestamp(text))
}

/// A row of the sessions table.
#[derive(Debug)]
pub struct SessionRow {
    pub id: String,
    pub session_id: String,
    pub project_path: String,
    pub project_name: String,
    pub status: String,
    pub created_at: String,
    pub updated_at: String,
}

/// A row of the agents table.
#[derive(Debug)]
pub struct AgentRow {
    pub id: String,
    pub session_id: String,
    pub agent_name: String,
    pub parent_session_id: Option<String>,
    pub status: String,
    pub created_at: String,
    pub updated_at: String,
}

/// The agent that a row holds: `None` exactly where the row's status is none
/// of the five names. The texts are taken over as they are; the identifier
/// and the two timestamps are read from their columns, or replaced where
/// they cannot be read.
pub fn agent_from_row(row: AgentRow) -> (agent: Option<Agent>)
    ensures
        agent is Some <==> Status::from_text(row.status@) is Some,
        agent matches Some(a) ==> {
            &&& a.session_id@ == row.session_id@
            &&& a.agent_name@ == row.agent_name@
            &&& text_of(a.parent_session_id) == text_of(row.parent_session_id)
            &&& Some(a.status) == Status::from_text(row.status@)
            &&& identifier_from(uuid_of_text(row.id@), a.id)
            &&& timestamp_from(timestamp_of_text(row.created_at@), a.created_at)
            &&& timestamp_from(timestamp_of_text(row.updated_at@), a.updated_at)
        },
{
    match Status::parse(row.status.as_str()) {
        None => None,
        Some(status) => {
            let id = read_identifier(row.id.as_str());
            let created_at = read_timestamp(row.created_at.as_str());
            let updated_at = read_timestamp(row.updated_at.as_str());
            Some(
                Agent {
                    id,
                    session_id: row.session_id,
                    agent_name: row.agent_name,
                    parent_session_id: row.parent_session_id,
                    status,
                    created_at,
                    updated_at,
                },
            )
        },
    }
}

/// The session that a row holds, with the agents given: `None` exactly where
/// the row's status is none of the five names. The texts are taken over as
/// they are; the identifier and the two timestamps are read from their
/// columns, or replaced where they cannot be read.
pub fn session_from_row(row: SessionRow, agents: Vec<Agent>) -> (session: Option<
    SessionWithAgents,
>)
    ensures
        session is Some <==> Status::from_text(row.status@) is Some,
        session matches Some(s) ==> {
            &&& s.session_id@ == row.session_id@
            &&& s.project_path@ == row.project_path@
            &&& s.project_name@ == row.project_name@
            &&& Some(s.status) == Status::from_text(row.status@)
            &&& identifier_from(uuid_of_text(row.id@), s.id)
            &&& timestamp_from(timestamp_of_text(row.created_at@), s.created_at)
            &&& timestamp_from(timestamp_of_text(row.updated_at@), s.updated_at)
            &&& s.agents == agents
        },
{
    match Status::parse(row.status.as_str()) {
        None => None,
        Some(status) => {
            let id = read_identifier(row.id.as_str());
            let created_at = read_timestamp(row.created_at.as_str());
            let updated_at = read_timestamp(row.updated_at.as_str());
            Some(
                SessionWithAgents {
                    id,
                    session_id: row.session_id,
                    project_name: row.project_name,
                    project_path: row.project_path,
                    status,
                    created_at,
                    updated_at,
                    agents,
                },
            )
        },
    }
}

} // verus!

//! The event normaliser: from a hook event to the writes it asks for, and
//! from the outcome of each write to what happens next.
//!
//! `plan_event` lists the writes of an event with what a failure of each
//! means; `first_step` and `after_write` walk such a plan. A caller that owns
//! another kind of storage performs the writes itself and reports how each
//! went. `post_event_at` walks the plan against a `Store`; what that does to
//! the store is `after_event`.

use vstd::prelude::*;
use crate::db::{
    cleanup_old_completed_at, get_active_sessions, insert_event_at, listing_views,
    mark_session_completed_at, str_view, transition_at, upsert_agent_at, upsert_session_at,
    write_outcome, Store,
};
use crate::isolation::{
    law_events_leave_other_sessions_alone, law_events_touch_their_own_rows_only, others_untouched,
};
use crate::laws::{
    law_accepted_event_sets_status, law_session_end_completes, law_stop_idles_the_active,
    law_stop_spares_what_is_not_active, law_terminate_completes_one_session, purge_rules_hold,
    termination_rules_hold,
};
use crate::models::{
    clone_text, text_of, HealthResponse, HookEvent, HookEventView, SessionWithAgents, Status,
};
use crate::stamp::{clock_micros, EventStamps, WriteStamp};
use crate::tables::{new_event, StoreError, StoreView};

verus! {

/// What a hook event means for the status of its session and agent.
#[derive(Clone, Copy, Debug, PartialEq, Eq, Structural)]
pub enum EventKind {
    /// `stop`: the turn is over.
    Stop,
    /// `session_end`: the run is over.
    SessionEnd,
    /// `notification` with the `needs_input` flag set.
    AwaitingInput,
    /// `needs_permission`.
    NeedsPermission,
    /// `subagent_stop`: a sub-agent is done, its session goes on.
    SubagentStop,
    /// Any other event: the session is at work.
    Activity,
}

/// The kind of an event, by its type and its `needs_input` flag. The types
/// are tried in this order; a `notification` without the flag is `Activity`.
pub open spec fn kind_of(event_type: Seq<char>, needs_input: bool) -> EventKind {
    if event_type == "stop"@ {
        EventKind::Stop
    } else if event_type == "session_end"@ {
        EventKind::SessionEnd
    } else if event_type == "notification"@ && needs_input {
        EventKind::AwaitingInput
    } else if event_type == "needs_permission"@ {
        EventKind::NeedsPermission
    } else if event_type == "subagent_stop"@ {
        EventKind::SubagentStop
    } else {
        EventKind::Activity
    }
}

impl EventKind {
    /// The status that the event gives its session.
    pub open spec fn session_status(self) -> Status {
        match self {
            EventKind::Stop => Status::Idle,
            EventKind::SessionEnd => Status::Completed,
            EventKind::AwaitingInput => Status::WaitingInput,
            EventKind::NeedsPermission => Status::NeedsPermission,
            EventKind::SubagentStop => Status::Active,
            EventKind::Activity => Status::Active,
        }
    }

    /// The status that the event gives its agent.
    pub open spec fn agent_status(self) -> Status {
        match self {
            EventKind::Stop => Status::Idle,
            EventKind::SessionEnd => Status::Completed,
            EventKind::AwaitingInput => Status::WaitingInput,
            EventKind::NeedsPermission => Status::NeedsPermission,
            EventKind::SubagentStop => Status::Completed,
            EventKind::Activity => Status::Active,
        }
    }

    /// The status that the event gives its session.
    pub fn target_session_status(&self) -> (status: Status)
        ensures
            status == self.session_status(),
    {
        match self {
            EventKind::Stop => Status::Idle,
            EventKind::SessionEnd => Status::Completed,
            EventKind::AwaitingInput => Status::WaitingInput,
            EventKind::NeedsPermission => Status::NeedsPermission,
            EventKind::SubagentStop => Status::Active,
            EventKind::Activity => Status::Active,
        }
    }

    /// The status that the event gives its agent.
    pub fn target_agent_status(&self) -> (status: Status)
        ensures
            status == self.agent_status(),
    {
        match self {
            EventKind::Stop => Status::Idle,
            EventKind::SessionEnd => Status::Completed,
            EventKind::AwaitingInput => Status::WaitingInput,
            EventKind::NeedsPermission => Status::NeedsPermission,
            EventKind::SubagentStop => Status::Completed,
            EventKind::Activity => Status::Active,
        }
    }
}

/// The kind of an event with this type and flag.
pub fn classify(event_type: &str, needs_input: bool) -> (kind: EventKind)
    ensures
        kind == kind_of(event_type@, needs_input),
{
    let given: String = event_type.to_owned();
    if given == "stop".to_owned() {
        EventKind::Stop
    } else if given == "session_end".to_owned() {
        EventKind::SessionEnd
    } else if given == "notification".to_owned() && needs_input {
        EventKind::AwaitingInput
    } else if given == "needs_permission".to_owned() {
        EventKind::NeedsPermission
    } else if given == "subagent_stop".to_owned() {
        EventKind::SubagentStop
    } else {
        EventKind::Activity
    }
}

/// A text, or a default where there is none.
pub open spec fn text_or_default(value: Option<Seq<char>>, default: Seq<char>) -> Seq<char> {
    match value {
        Some(text) => text,
        None => default,
    }
}

fn text_or<'a>(value: &'a Option<String>, default: &'a str) -> (text: &'a str)
    ensures
        text@ == text_or_default(text_of(*value), default@),
{
    match value {
        Some(text) => text.as_str(),
        None => default,
    }
}

fn borrowed(value: &Option<String>) -> (text: Option<&str>)
    ensures
        str_view(text) == text_of(*value),
{
    match value {
        Some(text) => Some(text.as_str()),
        None => None,
    }
}

impl HookEventView {
    /// The project path, empty where the event gives none.
    pub open spec fn path(self) -> Seq<char> {
        text_or_default(self.project_path, ""@)
    }

    /// The project name, `unknown` where the event gives none.
    pub open spec fn name(self) -> Seq<char> {
        text_or_default(self.project_name, "unknown"@)
    }

    /// The agent, `main` where the event names none.
    pub open spec fn agent(self) -> Seq<char> {
        text_or_default(self.agent_name, "main"@)
    }

    /// The `needs_input` flag, unset where the event has none.
    pub open spec fn flag(self) -> bool {
        self.needs_input == Some(true)
    }

    /// The kind of the event.
    pub open spec fn kind(self) -> EventKind {
        kind_of(self.event_type, self.flag())
    }

    /// The payload that is logged with the event, of whatever kind: the
    /// event's flag, tool name, transcript reference and message as one JSON
    /// object.
    pub open spec fn payload(self) -> Seq<char> {
        payload_or_empty(
            json_object_text(
                "needs_input"@,
                self.needs_input,
                "tool_name"@,
                self.tool_name,
                "transcript_path"@,
                self.transcript_path,
                "message"@,
                self.message,
            ),
        )
    }
}

/// The text that `serde_json` writes for an object of one optional flag and
/// three optional texts under the given keys, or `None` where it reports an
/// error.
pub uninterp spec fn json_object_text(
    flag_key: Seq<char>,
    flag: Option<bool>,
    first_key: Seq<char>,
    first: Option<Seq<char>>,
    second_key: Seq<char>,
    second: Option<Seq<char>>,
    third_key: Seq<char>,
    third: Option<Seq<char>>,
) -> Option<Seq<char>>;

/// Builds a `serde_json::Map` with the four entries, an absent value as
/// `null` (`Value::from` of an `Option`), and writes it with
/// `serde_json::to_string`. The text depends on the arguments alone; it is
/// not spelled out here but named `json_object_text`.
#[verifier::external_body]
fn json_object(
    flag_key: &str,
    flag: Option<bool>,
    first_key: &str,
    first: &Option<String>,
    second_key: &str,
    second: &Option<String>,
    third_key: &str,
    third: &Option<String>,
) -> (text: Option<String>)
    ensures
        text_of(text) == json_object_text(
            flag_key@,
            flag,
            first_key@,
            text_of(*first),
            second_key@,
            text_of(*second),
            third_key@,
            text_of(*third),
        ),
{
    let mut map = serde_json::Map::new();
    map.insert(flag_key.to_owned(), serde_json::Value::from(flag));
    map.insert(first_key.to_owned(), serde_json::Value::from(first.clone()));
    map.insert(second_key.to_owned(), serde_json::Value::from(second.clone()));
    map.insert(third_key.to_owned(), serde_json::Value::from(third.clone()));
    serde_json::to_string(&serde_json::Value::Object(map)).ok()
}

/// The encoded payload, or an empty object where encoding failed.
pub open spec fn payload_or_empty(encoded: Option<Seq<char>>) -> Seq<char> {
    match encoded {
        Some(text) => text,
        None => "{}"@,
    }
}

/// The payload to log, given what the encoder returned.
pub fn payload_or_default(encoded: Option<String>) -> (payload: String)
    ensures
        payload@ == payload_or_empty(text_of(encoded)),
{
    match encoded {
        Some(text) => text,
        None => "{}".to_owned(),
    }
}

/// The payload that is logged with an event, of whatever kind.
pub fn event_payload(event: &HookEvent) -> (payload: String)
    ensures
        payload@ == event@.payload(),
{
    payload_or_default(
        json_object(
            "needs_input",
            event.needs_input,
            "tool_name",
            &event.tool_name,
            "transcript_path",
            &event.transcript_path,
            "message",
            &event.message,
        ),
    )
}

/// One write to the store.
#[derive(Debug)]
#[allow(inconsistent_fields)]
pub enum StoreOp {
    /// Insert the session or overwrite its details.
    UpsertSession { session_id: String, project_path: String, project_name: String, status: Status },
    /// Insert the agent or overwrite its details.
    UpsertAgent {
        session_id: String,
        agent_name: String,
        parent_session_id: Option<String>,
        status: Status,
    },
    /// Set the session and its agents to `to`, each row only if its status is
    /// `from`, or whatever its status if `from` is `None`.
    Transition { session_id: String, from: Option<Status>, to: Status },
    /// Append to the event log.
    InsertEvent {
        session_id: String,
        agent_name: Option<String>,
        event_type: String,
        payload: String,
    },
}

/// A write, with its texts as sequences of characters.
#[allow(inconsistent_fields)]
pub enum StoreOpView {
    UpsertSession {
        session_id: Seq<char>,
        project_path: Seq<char>,
        project_name: Seq<char>,
        status: Status,
    },
    UpsertAgent {
        session_id: Seq<char>,
        agent_name: Seq<char>,
        parent_session_id: Option<Seq<char>>,
        status: Status,
    },
    Transition { session_id: Seq<char>, from: Option<Status>, to: Status },
    InsertEvent {
        session_id: Seq<char>,
        agent_name: Option<Seq<char>>,
        event_type: Seq<char>,
        payload: Seq<char>,
    },
}

impl View for StoreOp {
    type V = StoreOpView;

    open spec fn view(&self) -> StoreOpView {
        match self {
            StoreOp::UpsertSession { session_id, project_path, project_name, status } => {
                StoreOpView::UpsertSession {
                    session_id: session_id@,
                    project_path: project_path@,
                    project_name: project_name@,
                    status: *status,
                }
            },
            StoreOp::UpsertAgent { session_id, agent_name, parent_session_id, status } => {
                StoreOpView::UpsertAgent {
                    session_id: session_id@,
                    agent_name: agent_name@,
                    parent_session_id: text_of(*parent_session_id),
                    status: *status,
                }
            },
            StoreOp::Transition { session_id, from, to } => {
                StoreOpView::Transition { session_id: session_id@, from: *from, to: *to }
            },
            StoreOp::InsertEvent { session_id, agent_name, event_type, payload } => {
                StoreOpView::InsertEvent {
                    session_id: session_id@,
                    agent_name: text_of(*agent_name),
                    event_type: event_type@,
                    payload: payload@,
                }
            },
        }
    }
}

/// What the failure of a write means for the event it belongs to.
#[derive(Clone, Copy, Debug, PartialEq, Eq, Structural)]
pub enum FailurePolicy {
    /// The event is refused: no further write, no broadcast.
    Abort,
    /// The failure is noted and the event goes on.
    Continue,
}

/// A write with what its failure means.
#[derive(Debug)]
pub struct PlannedWrite {
    pub op: StoreOp,
    pub on_failure: FailurePolicy,
}

/// A planned write, with its texts as sequences of characters.
pub struct PlannedWriteView {
    pub op: StoreOpView,
    pub on_failure: FailurePolicy,
}

impl View for PlannedWrite {
    type V = PlannedWriteView;

    open spec fn view(&self) -> PlannedWriteView {
        PlannedWriteView { op: self.op@, on_failure: self.on_failure }
    }
}

/// The views of the steps of a plan.
pub open spec fn plan_views(plan: Seq<PlannedWrite>) -> Seq<PlannedWriteView> {
    plan.map_values(|step: PlannedWrite| step@)
}

/// The log entry of an event. Its failure never stops the event.
pub open spec fn log_step(event: HookEventView) -> PlannedWriteView {
    PlannedWriteView {
        op: StoreOpView::InsertEvent {
            session_id: event.session_id,
            agent_name: Some(event.agent()),
            event_type: event.event_type,
            payload: event.payload(),
        },
        on_failure: FailurePolicy::Continue,
    }
}

/// The writes of an event, in order.
///
/// `stop` moves the session and its agents from `active` to `idle` and
/// touches no row in another status. `session_end` completes them whatever
/// their status. Every other event upserts the session, then the agent, with
/// the statuses of its kind; a failure of either refuses the event. Each
/// event is logged last.
pub open spec fn event_plan(event: HookEventView) -> Seq<PlannedWriteView> {
    match event.kind() {
        EventKind::Stop => seq![
            PlannedWriteView {
                op: StoreOpView::Transition {
                    session_id: event.session_id,
                    from: Some(Status::Active),
                    to: Status::Idle,
                },
                on_failure: FailurePolicy::Continue,
            },
            log_step(event),
        ],
        EventKind::SessionEnd => seq![
            PlannedWriteView {
                op: StoreOpView::Transition {
                    session_id: event.session_id,
                    from: None,
                    to: Status::Completed,
                },
                on_failure: FailurePolicy::Continue,
            },
            log_step(event),
        ],
        kind => seq![
            PlannedWriteView {
                op: StoreOpView::UpsertSession {
                    session_id: event.session_id,
                    project_path: event.path(),
                    project_name: event.name(),
                    status: kind.session_status(),
                },
                on_failure: FailurePolicy::Abort,
            },
            PlannedWriteView {
                op: StoreOpView::UpsertAgent {
                    session_id: event.session_id,
                    agent_name: event.agent(),
                    parent_session_id: event.parent_session_id,
                    status: kind.agent_status(),
                },
                on_failure: FailurePolicy::Abort,
            },
            log_step(event),
        ],
    }
}

/// The writes of an event, in order, each with what its failure means.
pub fn plan_event(event: &HookEvent) -> (plan: Vec<PlannedWrite>)
    ensures
        plan_views(plan@) == event_plan(event@),
{
    let flag = match event.needs_input {
        Some(set) => set,
        None => false,
    };
    let kind = classify(event.event_type.as_str(), flag);
    let log = PlannedWrite {
        op: StoreOp::InsertEvent {
            session_id: event.session_id.clone(),
            agent_name: Some(text_or(&event.agent_name, "main").to_owned()),
            event_type: event.event_type.clone(),
            payload: event_payload(event),
        },
        on_failure: FailurePolicy::Continue,
    };
    let mut plan: Vec<PlannedWrite> = Vec::new();
    match kind {
        EventKind::Stop => {
            plan.push(
                PlannedWrite {
                    op: StoreOp::Transition {
                        session_id: event.session_id.clone(),
                        from: Some(Status::Active),
                        to: Status::Idle,
                    },
                    on_failure: FailurePolicy::Continue,
                },
            );
        },
        EventKind::SessionEnd => {
            plan.push(
                PlannedWrite {
                    op: StoreOp::Transition {
                        session_id: event.session_id.clone(),
                        from: None,
                        to: Status::Completed,
                    },
                    on_failure: FailurePolicy::Continue,
                },
            );
        },
        _ => {
            plan.push(
                PlannedWrite {
                    op: StoreOp::UpsertSession {
                        session_id: event.session_id.clone(),
                        project_path: text_or(&event.project_path, "").to_owned(),
                        project_name: text_or(&event.project_name, "unknown").to_owned(),
                        status: kind.target_session_status(),
                    },
                    on_failure: FailurePolicy::Abort,
                },
            );
            plan.push(
                PlannedWrite {
                    op: StoreOp::UpsertAgent {
                        session_id: event.session_id.clone(),
                        agent_name: text_or(&event.agent_name, "main").to_owned(),
                        parent_session_id: clone_text(&event.parent_session_id),
                        status: kind.target_agent_status(),
                    },
                    on_failure: FailurePolicy::Abort,
                },
            );
        },
    }
    plan.push(log);
    plan
}

/// Where the handling of an event stands.
#[derive(Clone, Copy, Debug, PartialEq, Eq, Structural)]
pub enum Progress {
    /// The write at this place of the plan is next.
    Write(usize),
    /// All writes are dealt with: publish a fresh snapshot and accept.
    Publish,
    /// A write failed that the event cannot do without: refuse, publish
    /// nothing.
    Reject,
}

/// The step after the write at `index` succeeded or failed.
pub open spec fn next_step(plan: Seq<PlannedWriteView>, index: int, succeeded: bool) -> Progress {
    if 0 <= index < plan.len() && !succeeded && plan[index].on_failure == FailurePolicy::Abort {
        Progress::Reject
    } else if 0 <= index && index + 1 < plan.len() {
        Progress::Write((index + 1) as usize)
    } else {
        Progress::Publish
    }
}

/// The first step of a plan.
pub fn first_step(plan: &Vec<PlannedWrite>) -> (progress: Progress)
    ensures
        progress == (if plan.len() > 0 {
            Progress::Write(0)
        } else {
            Progress::Publish
        }),
{
    if plan.len() > 0 {
        Progress::Write(0)
    } else {
        Progress::Publish
    }
}

/// The step after the write at `index` succeeded or failed: `Reject` if it
/// failed and its policy is `Abort`, else the next write, or `Publish` after
/// the last.
pub fn after_write(plan: &Vec<PlannedWrite>, index: usize, succeeded: bool) -> (progress: Progress)
    ensures
        progress == next_step(plan_views(plan@), index as int, succeeded),
{
    if index < plan.len() && !succeeded && plan[index].on_failure == FailurePolicy::Abort {
        return Progress::Reject;
    }
    if index < plan.len() && index + 1 < plan.len() {
        Progress::Write(index + 1)
    } else {
        Progress::Publish
    }
}

/// The stamp of the three that a write takes: by the table it writes to.
pub open spec fn stamp_for(op: StoreOpView, stamps: EventStamps) -> WriteStamp {
    match op {
        StoreOpView::UpsertSession { .. } => stamps.session,
        StoreOpView::UpsertAgent { .. } => stamps.agent,
        StoreOpView::Transition { .. } => stamps.session,
        StoreOpView::InsertEvent { .. } => stamps.event,
    }
}

/// What one write does to the store.
pub open spec fn apply(store: StoreView, op: StoreOpView, stamp: WriteStamp) -> Result<
    StoreView,
    StoreError,
> {
    match op {
        StoreOpView::UpsertSession { session_id, project_path, project_name, status } => {
            store.upsert_session(stamp, session_id, project_path, project_name, status)
        },
        StoreOpView::UpsertAgent { session_id, agent_name, parent_session_id, status } => {
            store.upsert_agent(stamp, session_id, agent_name, parent_session_id, status)
        },
        StoreOpView::Transition { session_id, from, to } => {
            Ok(store.transition(session_id, from, to, stamp.now))
        },
        StoreOpView::InsertEvent { session_id, agent_name, event_type, payload } => {
            store.insert_event(stamp, session_id, agent_name, event_type, payload)
        },
    }
}

/// What walking a plan from `index` on does to the store, and whether the
/// event is accepted.
pub open spec fn run_from(
    store: StoreView,
    plan: Seq<PlannedWriteView>,
    stamps: EventStamps,
    index: int,
) -> (StoreView, Result<(), StoreError>)
    decreases plan.len() - index,
{
    if index < 0 || index >= plan.len() {
        (store, Ok(()))
    } else {
        match apply(store, plan[index].op, stamp_for(plan[index].op, stamps)) {
            Ok(next) => run_from(next, plan, stamps, index + 1),
            Err(error) => if plan[index].on_failure == FailurePolicy::Abort {
                (store, Err(error))
            } else {
                run_from(store, plan, stamps, index + 1)
            },
        }
    }
}

/// The store after an attempt to log an event: with the entry, or unchanged
/// where the log refused it.
pub open spec fn logged(store: StoreView, event: HookEventView, stamp: WriteStamp) -> StoreView {
    match store.insert_event(
        stamp,
        event.session_id,
        Some(event.agent()),
        event.event_type,
        event.payload(),
    ) {
        Ok(next) => next,
        Err(_) => store,
    }
}

/// What an event does to the store, and whether it is accepted.
///
/// `stop` and `session_end` are always accepted. Another event is refused
/// with the error of its session upsert or of its agent upsert; what was
/// written before the failure stays.
pub open spec fn after_event(store: StoreView, event: HookEventView, stamps: EventStamps) -> (
    StoreView,
    Result<(), StoreError>,
) {
    match event.kind() {
        EventKind::Stop => (
            logged(
                store.mark_active_session_idle(event.session_id, stamps.session.now),
                event,
                stamps.event,
            ),
            Ok(()),
        ),
        EventKind::SessionEnd => (
            logged(
                store.mark_session_completed(event.session_id, stamps.session.now),
                event,
                stamps.event,
            ),
            Ok(()),
        ),
        kind => match store.upsert_session(
            stamps.session,
            event.session_id,
            event.path(),
            event.name(),
            kind.session_status(),
        ) {
            Err(error) => (store, Err(error)),
            Ok(with_session) => match with_session.upsert_agent(
                stamps.agent,
                event.session_id,
                event.agent(),
                event.parent_session_id,
                kind.agent_status(),
            ) {
                Err(error) => (with_session, Err(error)),
                Ok(with_agent) => (logged(with_agent, event, stamps.event), Ok(())),
            },
        },
    }
}

/// Walking the plan of an event does to the store what `after_event` says.
pub proof fn law_plan_is_event(store: StoreView, event: HookEventView, stamps: EventStamps)
    ensures
        run_from(store, event_plan(event), stamps, 0) == after_event(store, event, stamps),
{
    reveal_with_fuel(run_from, 4);
}

/// The stamp of the three that a write takes.
fn stamp_of(op: &StoreOp, stamps: EventStamps) -> (stamp: WriteStamp)
    ensures
        stamp == stamp_for(op@, stamps),
{
    match op {
        StoreOp::UpsertSession { .. } => stamps.session,
        StoreOp::UpsertAgent { .. } => stamps.agent,
        StoreOp::Transition { .. } => stamps.session,
        StoreOp::InsertEvent { .. } => stamps.event,
    }
}

/// Perform one write on the store.
pub fn apply_write(store: &mut Store, op: &StoreOp, stamp: WriteStamp) -> (result: Result<
    (),
    StoreError,
>)
    ensures
        write_outcome(apply(old(store)@, op@, stamp), old(store)@, final(store)@, result),
        old(store)@.wf() ==> final(store)@.wf(),
{
    match op {
        StoreOp::UpsertSession { session_id, project_path, project_name, status } => {
            upsert_session_at(
                store,
                stamp,
                session_id.as_str(),
                project_path.as_str(),
                project_name.as_str(),
                *status,
            )
        },
        StoreOp::UpsertAgent { session_id, agent_name, parent_session_id, status } => {
            upsert_agent_at(
                store,
                stamp,
                session_id.as_str(),
                agent_name.as_str(),
                borrowed(parent_session_id),
                *status,
            )
        },
        StoreOp::Transition { session_id, from, to } => {
            transition_at(store, stamp.now, session_id.as_str(), *from, *to);
            Ok(())
        },
        StoreOp::InsertEvent { session_id, agent_name, event_type, payload } => {
            insert_event_at(
                store,
                stamp,
                session_id.as_str(),
                borrowed(agent_name),
                event_type.as_str(),
                payload.as_str(),
            )
        },
    }
}

/// How the answer to an event follows from what `after_event` says: an
/// accepted event is answered with the snapshot of the store after it, a
/// refused one with its error.
pub open spec fn event_answer(
    expected: Result<(), StoreError>,
    after: StoreView,
    answer: Result<Vec<SessionWithAgents>, StoreError>,
) -> bool {
    match answer {
        Ok(snapshot) => expected is Ok && listing_views(snapshot@) == after.active_sessions(),
        Err(error) => expected == Err::<(), StoreError>(error),
    }
}

/// What holds of the status of every session after an event, whatever the
/// stamps: a `stop` leaves a session that waits for input or for a
/// permission as it was and makes its own session `idle` if it was `active`;
/// a `session_end` leaves its session `completed`, whatever it was; an
/// accepted event of another kind leaves its session with the status of its
/// kind; and no event changes a session other than its own.
pub open spec fn transition_rules_hold(
    before: StoreView,
    event: HookEventView,
    after: StoreView,
    accepted: bool,
) -> bool {
    &&& forall|session_id: Seq<char>|
        session_id != event.session_id ==> #[trigger] after.session(session_id) == before.session(
            session_id,
        )
    &&& event.kind() == EventKind::Stop ==> {
        &&& accepted
        &&& forall|session_id: Seq<char>|
            #[trigger] before.session_status(session_id) matches Some(status)
                && status.needs_attention() ==> after.session(session_id) == before.session(
                session_id,
            )
        &&& before.session_status(event.session_id) == Some(Status::Active)
            ==> after.session_status(event.session_id) == Some(Status::Idle)
    }
    &&& event.kind() == EventKind::SessionEnd ==> {
        &&& accepted
        &&& after.session_status(event.session_id) == (if before.has_session(event.session_id) {
            Some(Status::Completed)
        } else {
            None
        })
    }
    &&& event.kind() != EventKind::Stop && event.kind() != EventKind::SessionEnd && accepted
        ==> after.session_status(event.session_id) == Some(event.kind().session_status())
}

/// Every event keeps the transition rules, with whatever stamps it is
/// handled.
pub proof fn law_events_keep_the_rules(
    store: StoreView,
    event: HookEventView,
    stamps: EventStamps,
)
    ensures
        transition_rules_hold(
            store,
            event,
            after_event(store, event, stamps).0,
            after_event(store, event, stamps).1 is Ok,
        ),
{
    let after = after_event(store, event, stamps).0;
    assert forall|session_id: Seq<char>| session_id != event.session_id implies #[trigger]
        after.session(session_id) == store.session(session_id) by {
        law_events_leave_other_sessions_alone(store, event, stamps, session_id, session_id);
    }
    if event.kind() == EventKind::Stop {
        assert forall|session_id: Seq<char>|
            #[trigger] store.session_status(session_id) matches Some(status)
                && status.needs_attention() implies after.session(session_id) == store.session(
            session_id,
        ) by {
            law_stop_spares_what_is_not_active(store, event, stamps, session_id, session_id);
        }
        law_stop_idles_the_active(store, event, stamps, event.session_id);
    } else if event.kind() == EventKind::SessionEnd {
        law_session_end_completes(store, event, stamps, event.session_id);
    } else if after_event(store, event, stamps).1 is Ok {
        law_accepted_event_sets_status(store, event, stamps);
    }
}

/// Where the event log stands after an event: an accepted event is logged as
/// the last entry, with its session, its agent (`main` where it names none),
/// its type and its payload, unless an entry already carries the stamp's
/// identifier; a refused event is not logged; and no earlier entry changes.
pub open spec fn log_rules_hold(
    before: StoreView,
    event: HookEventView,
    stamps: EventStamps,
    after: StoreView,
    accepted: bool,
) -> bool {
    after.events == (if accepted && !before.event_id_in_use(stamps.event.id) {
        before.events.push(
            new_event(
                stamps.event,
                event.session_id,
                Some(event.agent()),
                event.event_type,
                event.payload(),
            ),
        )
    } else {
        before.events
    })
}

/// Every event keeps the rules of the log.
pub proof fn law_events_are_logged(store: StoreView, event: HookEventView, stamps: EventStamps)
    ensures
        log_rules_hold(
            store,
            event,
            stamps,
            after_event(store, event, stamps).0,
            after_event(store, event, stamps).1 is Ok,
        ),
{
}

/// Handle one hook event with the given stamps: perform its writes in order
/// and answer with the snapshot to publish, or with the error that refused
/// the event, in which case nothing is to be published.
pub fn post_event_at(store: &mut Store, event: &HookEvent, stamps: EventStamps) -> (answer: Result<
    Vec<SessionWithAgents>,
    StoreError,
>)
    ensures
        final(store)@ == after_event(old(store)@, event@, stamps).0,
        event_answer(after_event(old(store)@, event@, stamps).1, final(store)@, answer),
        transition_rules_hold(old(store)@, event@, final(store)@, answer is Ok),
        log_rules_hold(old(store)@, event@, stamps, final(store)@, answer is Ok),
        others_untouched(old(store)@, final(store)@, event@.session_id),
        old(store)@.wf() ==> final(store)@.wf(),
{
    let plan = plan_event(event);
    let ghost steps = plan_views(plan@);
    let ghost whole = run_from(old(store)@, steps, stamps, 0);
    proof {
        law_plan_is_event(old(store)@, event@, stamps);
        law_events_keep_the_rules(old(store)@, event@, stamps);
        law_events_touch_their_own_rows_only(old(store)@, event@, stamps);
    }
    let mut progress = first_step(&plan);
    loop
        invariant
            steps == plan_views(plan@),
            whole == after_event(old(store)@, event@, stamps),
            transition_rules_hold(old(store)@, event@, whole.0, whole.1 is Ok),
            log_rules_hold(old(store)@, event@, stamps, whole.0, whole.1 is Ok),
            others_untouched(old(store)@, whole.0, event@.session_id),
            old(store)@.wf() ==> store@.wf(),
            match progress {
                Progress::Write(index) => index < plan.len() && run_from(
                    store@,
                    steps,
                    stamps,
                    index as int,
                ) == whole,
                Progress::Publish => whole == (store@, Ok::<(), StoreError>(())),
                Progress::Reject => false,
            },
        ensures
            old(store)@.wf() ==> store@.wf(),
            whole == (store@, Ok::<(), StoreError>(())),
        decreases
            match progress {
                Progress::Write(index) => plan.len() - index,
                _ => 0,
            },
    {
        match progress {
            Progress::Write(index) => {
                let ghost before = store@;
                let ghost step = steps[index as int];
                let outcome = apply_write(store, &plan[index].op, stamp_of(&plan[index].op, stamps));
                progress = after_write(&plan, index, outcome.is_ok());
                proof {
                    let applied = apply(before, step.op, stamp_for(step.op, stamps));
                    assert(run_from(before, steps, stamps, index as int) == (match applied {
                        Ok(next) => run_from(next, steps, stamps, index + 1),
                        Err(error) => if step.on_failure == FailurePolicy::Abort {
                            (before, Err::<(), StoreError>(error))
                        } else {
                            run_from(before, steps, stamps, index + 1)
                        },
                    }));
                }
                if let Err(error) = outcome {
                    if progress == Progress::Reject {
                        return Err(error);
                    }
                }
            },
            _ => {
                break ;
            },
        }
    }
    Ok(get_active_sessions(store))
}

/// Handle one hook event with fresh stamps.
pub fn post_event(store: &mut Store, event: &HookEvent) -> (answer: Result<
    Vec<SessionWithAgents>,
    StoreError,
>)
    ensures
        exists|stamps: EventStamps|
            {
                &&& final(store)@ == (#[trigger] after_event(old(store)@, event@, stamps)).0
                &&& event_answer(after_event(old(store)@, event@, stamps).1, final(store)@, answer)
                &&& log_rules_hold(old(store)@, event@, stamps, final(store)@, answer is Ok)
            },
        transition_rules_hold(old(store)@, event@, final(store)@, answer is Ok),
        others_untouched(old(store)@, final(store)@, event@.session_id),
        old(store)@.wf() ==> final(store)@.wf(),
{
    let stamps = EventStamps::fresh();
    post_event_at(store, event, stamps)
}

/// End a session at `now`: the session and all its agents are `completed`,
/// whatever they were, and every row of another session is as it was.
/// Answers with the snapshot to publish, in which the session is not.
pub fn delete_session_at(store: &mut Store, now: i64, session_id: &str) -> (snapshot: Vec<
    SessionWithAgents,
>)
    ensures
        final(store)@ == old(store)@.mark_session_completed(session_id@, now),
        termination_rules_hold(old(store)@, final(store)@, session_id@),
        listing_views(snapshot@) == final(store)@.active_sessions(),
        forall|i: int|
            0 <= i < snapshot.len() ==> (#[trigger] snapshot[i]).session_id@ != session_id@,
        old(store)@.wf() ==> final(store)@.wf(),
{
    mark_session_completed_at(store, now, session_id);
    let snapshot = get_active_sessions(store);
    proof {
        law_terminate_completes_one_session(old(store)@, session_id@, now);
        assert forall|i: int| 0 <= i < snapshot.len() implies (#[trigger] snapshot[i]).session_id@
            != session_id@ by {
            assert(listing_views(snapshot@)[i] == snapshot[i]@);
        }
    }
    snapshot
}

/// End a session at the current time.
pub fn delete_session(store: &mut Store, session_id: &str) -> (snapshot: Vec<SessionWithAgents>)
    ensures
        exists|now: i64|
            0 <= now && final(store)@ == #[trigger] old(store)@.mark_session_completed(
                session_id@,
                now,
            ),
        termination_rules_hold(old(store)@, final(store)@, session_id@),
        listing_views(snapshot@) == final(store)@.active_sessions(),
        forall|i: int|
            0 <= i < snapshot.len() ==> (#[trigger] snapshot[i]).session_id@ != session_id@,
        old(store)@.wf() ==> final(store)@.wf(),
{
    let now = clock_micros();
    delete_session_at(store, now, session_id)
}

/// Forget everything. Answers with the snapshot to publish, which is empty.
pub fn clear_all_sessions(store: &mut Store) -> (snapshot: Vec<SessionWithAgents>)
    ensures
        final(store)@ == StoreView::empty(),
        final(store)@.wf(),
        snapshot@.len() == 0,
        listing_views(snapshot@) == final(store)@.active_sessions(),
{
    crate::db::clear_all_sessions(store);
    let snapshot = get_active_sessions(store);
    proof {
        assert(listing_views(snapshot@).len() == 0);
    }
    snapshot
}

/// One tick of the retention sweeper at `now`: remove every session that is
/// `completed` and was last updated at least `ttl` microseconds ago, with
/// its agents and events, and answer with the snapshot to publish, whether
/// or not anything was removed.
pub fn sweep_at(store: &mut Store, now: i64, ttl: u64) -> (snapshot: Vec<SessionWithAgents>)
    ensures
        final(store)@ == old(store)@.purge_expired(now, ttl),
        purge_rules_hold(old(store)@, final(store)@, now, ttl),
        listing_views(snapshot@) == final(store)@.active_sessions(),
        old(store)@.wf() ==> final(store)@.wf(),
{
    cleanup_old_completed_at(store, now, ttl);
    get_active_sessions(store)
}

/// One tick of the retention sweeper at the current time.
pub fn sweep(store: &mut Store, ttl: u64) -> (snapshot: Vec<SessionWithAgents>)
    ensures
        exists|now: i64|
            0 <= now && final(store)@ == #[trigger] old(store)@.purge_expired(now, ttl)
                && purge_rules_hold(old(store)@, final(store)@, now, ttl),
        listing_views(snapshot@) == final(store)@.active_sessions(),
        old(store)@.wf() ==> final(store)@.wf(),
{
    let now = clock_micros();
    sweep_at(store, now, ttl)
}

/// The sessions that observers see: every session that is not `completed`,
/// newest first, each with its agents.
pub fn get_sessions(store: &Store) -> (sessions: Vec<SessionWithAgents>)
    ensures
        listing_views(sessions@) == store@.active_sessions(),
        forall|i: int|
            0 <= i < sessions.len() ==> (#[trigger] sessions[i]).status != Status::Completed,
{
    get_active_sessions(store)
}

/// The answer of the liveness probe.
pub fn health() -> (response: HealthResponse)
    ensures
        response.status@ == "ok"@,
        response.version@ == "0.1.0"@,
{
    HealthResponse { status: "ok", version: "0.1.0" }
}

} // verus!

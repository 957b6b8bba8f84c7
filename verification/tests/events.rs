use session_monitor::api::{
    after_write, apply_write, classify, clear_all_sessions, delete_session, delete_session_at,
    event_payload, first_step, get_sessions, health, payload_or_default, plan_event, post_event,
    post_event_at, EventKind, FailurePolicy, Progress, StoreOp,
};
use session_monitor::db::{
    agent_count, agent_status, event_count, get_agents_for_session, get_events, has_session,
    insert_event_at, session_count, session_status, upsert_agent_at, upsert_session_at, Store,
};
use session_monitor::tables::StoreError;
use session_monitor::models::{HookEvent, Status};
use session_monitor::stamp::{EventStamps, WriteStamp};

fn hook(event_type: &str, session_id: &str) -> HookEvent {
    HookEvent {
        event_type: event_type.to_string(),
        session_id: session_id.to_string(),
        project_path: None,
        project_name: None,
        agent_name: None,
        parent_session_id: None,
        needs_input: None,
        tool_name: None,
        transcript_path: None,
        message: None,
    }
}

fn stamps(base: u128, now: i64) -> EventStamps {
    EventStamps {
        session: WriteStamp { id: base, now },
        agent: WriteStamp { id: base + 1, now: now + 1 },
        event: WriteStamp { id: base + 2, now: now + 2 },
    }
}

#[test]
fn waiting_session_survives_stop_and_ends_on_session_end() {
    let mut store = Store::new();
    let mut notification = hook("notification", "s1");
    notification.needs_input = Some(true);
    assert!(post_event(&mut store, &notification).is_ok());
    assert_eq!(session_status(&store, "s1"), Some(Status::WaitingInput));
    assert!(post_event(&mut store, &hook("stop", "s1")).is_ok());
    assert_eq!(session_status(&store, "s1"), Some(Status::WaitingInput));
    assert!(post_event(&mut store, &hook("session_end", "s1")).is_ok());
    assert_eq!(session_status(&store, "s1"), Some(Status::Completed));
}

#[test]
fn same_tool_use_twice_keeps_one_agent_row() {
    let mut store = Store::new();
    let mut tool_use = hook("tool_use", "s2");
    tool_use.agent_name = Some("worker".to_string());
    assert!(post_event(&mut store, &tool_use).is_ok());
    assert_eq!(agent_status(&store, "s2", "worker"), Some(Status::Active));
    assert_eq!(get_agents_for_session(&store, "s2").len(), 1);
    assert!(post_event(&mut store, &tool_use).is_ok());
    assert_eq!(agent_status(&store, "s2", "worker"), Some(Status::Active));
    let agents = get_agents_for_session(&store, "s2");
    assert_eq!(agents.len(), 1);
    assert_eq!(agents[0].agent_name, "worker");
    assert_eq!(agent_count(&store), 1);
    assert_eq!(session_count(&store), 1);
    assert_eq!(event_count(&store), 2);
}

#[test]
fn event_types_are_classified_in_order() {
    assert_eq!(classify("stop", false), EventKind::Stop);
    assert_eq!(classify("stop", true), EventKind::Stop);
    assert_eq!(classify("session_end", false), EventKind::SessionEnd);
    assert_eq!(classify("notification", true), EventKind::AwaitingInput);
    assert_eq!(classify("notification", false), EventKind::Activity);
    assert_eq!(classify("needs_permission", false), EventKind::NeedsPermission);
    assert_eq!(classify("subagent_stop", true), EventKind::SubagentStop);
    assert_eq!(classify("tool_use", false), EventKind::Activity);
    assert_eq!(classify("", true), EventKind::Activity);
    assert_eq!(classify("Stop", false), EventKind::Activity);
}

#[test]
fn each_kind_has_its_target_statuses() {
    let table = [
        (EventKind::Stop, Status::Idle, Status::Idle),
        (EventKind::SessionEnd, Status::Completed, Status::Completed),
        (EventKind::AwaitingInput, Status::WaitingInput, Status::WaitingInput),
        (EventKind::NeedsPermission, Status::NeedsPermission, Status::NeedsPermission),
        (EventKind::SubagentStop, Status::Active, Status::Completed),
        (EventKind::Activity, Status::Active, Status::Active),
    ];
    for (kind, session, agent) in table {
        assert_eq!(kind.target_session_status(), session);
        assert_eq!(kind.target_agent_status(), agent);
    }
}

#[test]
fn first_event_creates_session_and_agent_with_defaults() {
    let mut store = Store::new();
    let answer = post_event_at(&mut store, &hook("tool_use", "s1"), stamps(10, 100));
    let snapshot = answer.unwrap();
    assert_eq!(snapshot.len(), 1);
    let session = &snapshot[0];
    assert_eq!(session.id, 10);
    assert_eq!(session.session_id, "s1");
    assert_eq!(session.project_path, "");
    assert_eq!(session.project_name, "unknown");
    assert_eq!(session.status, Status::Active);
    assert_eq!(session.created_at, 100);
    assert_eq!(session.updated_at, 100);
    assert_eq!(session.agents.len(), 1);
    let agent = &session.agents[0];
    assert_eq!(agent.id, 11);
    assert_eq!(agent.session_id, "s1");
    assert_eq!(agent.agent_name, "main");
    assert_eq!(agent.parent_session_id, None);
    assert_eq!(agent.status, Status::Active);
    assert_eq!(agent.created_at, 101);
    let events = get_events(&store);
    assert_eq!(events.len(), 1);
    assert_eq!(events[0].id, 12);
    assert_eq!(events[0].session_id, "s1");
    assert_eq!(events[0].agent_name.as_deref(), Some("main"));
    assert_eq!(events[0].event_type, "tool_use");
    assert_eq!(events[0].timestamp, 102);
}

#[test]
fn event_details_overwrite_the_session() {
    let mut store = Store::new();
    post_event_at(&mut store, &hook("tool_use", "s1"), stamps(10, 100)).unwrap();
    let mut event = hook("needs_permission", "s1");
    event.project_path = Some("/home/me/app".to_string());
    event.project_name = Some("app".to_string());
    event.agent_name = Some("planner".to_string());
    event.parent_session_id = Some("s0".to_string());
    let snapshot = post_event_at(&mut store, &event, stamps(20, 200)).unwrap();
    assert_eq!(snapshot.len(), 1);
    assert_eq!(snapshot[0].id, 10);
    assert_eq!(snapshot[0].project_path, "/home/me/app");
    assert_eq!(snapshot[0].project_name, "app");
    assert_eq!(snapshot[0].status, Status::NeedsPermission);
    assert_eq!(snapshot[0].created_at, 100);
    assert_eq!(snapshot[0].updated_at, 200);
    assert_eq!(snapshot[0].agents.len(), 2);
    assert_eq!(snapshot[0].agents[0].agent_name, "main");
    assert_eq!(snapshot[0].agents[0].status, Status::Active);
    assert_eq!(snapshot[0].agents[1].agent_name, "planner");
    assert_eq!(snapshot[0].agents[1].status, Status::NeedsPermission);
    assert_eq!(snapshot[0].agents[1].parent_session_id.as_deref(), Some("s0"));
}

#[test]
fn subagent_stop_completes_the_agent_and_keeps_the_session_active() {
    let mut store = Store::new();
    let mut start = hook("tool_use", "s1");
    start.agent_name = Some("helper".to_string());
    post_event_at(&mut store, &start, stamps(10, 100)).unwrap();
    let mut done = hook("subagent_stop", "s1");
    done.agent_name = Some("helper".to_string());
    post_event_at(&mut store, &done, stamps(20, 200)).unwrap();
    assert_eq!(session_status(&store, "s1"), Some(Status::Active));
    assert_eq!(agent_status(&store, "s1", "helper"), Some(Status::Completed));
}

#[test]
fn notification_without_the_flag_is_activity() {
    let mut store = Store::new();
    let mut unset = hook("notification", "s1");
    unset.needs_input = Some(false);
    post_event_at(&mut store, &unset, stamps(10, 100)).unwrap();
    assert_eq!(session_status(&store, "s1"), Some(Status::Active));
    post_event_at(&mut store, &hook("notification", "s1"), stamps(20, 200)).unwrap();
    assert_eq!(session_status(&store, "s1"), Some(Status::Active));
}

#[test]
fn stop_moves_active_to_idle_not_to_completed() {
    let mut store = Store::new();
    post_event_at(&mut store, &hook("tool_use", "s1"), stamps(10, 100)).unwrap();
    let snapshot = post_event_at(&mut store, &hook("stop", "s1"), stamps(20, 200)).unwrap();
    assert_eq!(session_status(&store, "s1"), Some(Status::Idle));
    assert_eq!(agent_status(&store, "s1", "main"), Some(Status::Idle));
    assert_eq!(snapshot.len(), 1);
    assert_eq!(snapshot[0].status, Status::Idle);
    assert_eq!(snapshot[0].updated_at, 200);
    assert_eq!(snapshot[0].agents[0].updated_at, 200);
}

#[test]
fn stop_leaves_sessions_that_need_attention() {
    for status in [Status::WaitingInput, Status::NeedsPermission, Status::Idle, Status::Completed]
    {
        let mut store = Store::new();
        upsert_session_at(&mut store, WriteStamp { id: 1, now: 5 }, "s1", "", "p", status)
            .unwrap();
        upsert_agent_at(&mut store, WriteStamp { id: 1, now: 6 }, "s1", "main", None, status)
            .unwrap();
        assert!(post_event_at(&mut store, &hook("stop", "s1"), stamps(20, 200)).is_ok());
        assert_eq!(session_status(&store, "s1"), Some(status));
        assert_eq!(agent_status(&store, "s1", "main"), Some(status));
        assert_eq!(event_count(&store), 1);
    }
}

#[test]
fn stop_and_session_end_create_no_session_but_are_logged() {
    let mut store = Store::new();
    let mut stop = hook("stop", "ghost");
    stop.message = Some("turn is over".to_string());
    stop.transcript_path = Some("/tmp/t.jsonl".to_string());
    let end = hook("session_end", "ghost");
    assert!(post_event_at(&mut store, &stop, stamps(10, 100)).unwrap().is_empty());
    assert!(post_event_at(&mut store, &end, stamps(20, 200)).unwrap().is_empty());
    assert!(!has_session(&store, "ghost"));
    assert_eq!(agent_count(&store), 0);
    let events = get_events(&store);
    assert_eq!(events.len(), 2);
    assert_eq!(events[0].event_type, "stop");
    assert_eq!(events[0].agent_name.as_deref(), Some("main"));
    assert_eq!(events[0].payload, event_payload(&stop));
    let logged: serde_json::Value = serde_json::from_str(&events[0].payload).unwrap();
    assert_eq!(logged["message"], serde_json::Value::String("turn is over".to_string()));
    assert_eq!(logged["transcript_path"], serde_json::Value::String("/tmp/t.jsonl".to_string()));
    assert_eq!(logged["needs_input"], serde_json::Value::Null);
    assert_eq!(logged["tool_name"], serde_json::Value::Null);
    assert_eq!(events[1].event_type, "session_end");
    assert_eq!(events[1].payload, event_payload(&end));
    let logged: serde_json::Value = serde_json::from_str(&events[1].payload).unwrap();
    assert_eq!(logged.as_object().unwrap().len(), 4);
    assert_eq!(logged["message"], serde_json::Value::Null);
}

#[test]
fn session_end_completes_from_every_status() {
    for status in [
        Status::Active,
        Status::Idle,
        Status::WaitingInput,
        Status::NeedsPermission,
        Status::Completed,
    ] {
        let mut store = Store::new();
        upsert_session_at(&mut store, WriteStamp { id: 1, now: 5 }, "s1", "", "p", status)
            .unwrap();
        upsert_agent_at(&mut store, WriteStamp { id: 1, now: 6 }, "s1", "main", None, status)
            .unwrap();
        let snapshot =
            post_event_at(&mut store, &hook("session_end", "s1"), stamps(20, 200)).unwrap();
        assert!(snapshot.is_empty());
        assert_eq!(session_status(&store, "s1"), Some(Status::Completed));
        assert_eq!(agent_status(&store, "s1", "main"), Some(Status::Completed));
    }
}

#[test]
fn event_is_refused_when_the_session_upsert_fails() {
    let mut store = Store::new();
    post_event_at(&mut store, &hook("tool_use", "s1"), stamps(10, 100)).unwrap();
    let answer = post_event_at(&mut store, &hook("tool_use", "s2"), stamps(10, 200));
    assert_eq!(answer.err(), Some(StoreError::DuplicateId));
    assert!(!has_session(&store, "s2"));
    assert_eq!(session_count(&store), 1);
    assert_eq!(agent_count(&store), 1);
    assert_eq!(event_count(&store), 1);
}

#[test]
fn event_is_refused_when_the_agent_upsert_fails() {
    let mut store = Store::new();
    post_event_at(&mut store, &hook("tool_use", "s1"), stamps(10, 100)).unwrap();
    let mut colliding = stamps(20, 200);
    colliding.agent.id = 11;
    let answer = post_event_at(&mut store, &hook("needs_permission", "s2"), colliding);
    assert_eq!(answer.err(), Some(StoreError::DuplicateId));
    assert_eq!(session_status(&store, "s2"), Some(Status::NeedsPermission));
    assert_eq!(agent_status(&store, "s2", "main"), None);
    assert_eq!(event_count(&store), 1);
}

#[test]
fn a_failed_log_entry_does_not_refuse_the_event() {
    let mut store = Store::new();
    insert_event_at(&mut store, WriteStamp { id: 12, now: 1 }, "x", None, "ping", "{}").unwrap();
    let answer = post_event_at(&mut store, &hook("tool_use", "s1"), stamps(10, 100));
    assert_eq!(answer.unwrap().len(), 1);
    assert_eq!(session_status(&store, "s1"), Some(Status::Active));
    assert_eq!(event_count(&store), 1);
    let answer = post_event_at(&mut store, &hook("stop", "s1"), stamps(10, 200));
    assert_eq!(answer.unwrap()[0].status, Status::Idle);
    assert_eq!(event_count(&store), 1);
}

#[test]
fn events_of_two_sessions_do_not_interfere() {
    let first = [hook("tool_use", "a"), hook("stop", "a")];
    let mut waiting = hook("notification", "b");
    waiting.needs_input = Some(true);
    let second = [waiting, hook("stop", "b")];

    let mut interleaved = Store::new();
    post_event_at(&mut interleaved, &first[0], stamps(10, 100)).unwrap();
    post_event_at(&mut interleaved, &second[0], stamps(20, 200)).unwrap();
    post_event_at(&mut interleaved, &second[1], stamps(30, 300)).unwrap();
    post_event_at(&mut interleaved, &first[1], stamps(40, 400)).unwrap();

    let mut other_order = Store::new();
    post_event_at(&mut other_order, &second[0], stamps(20, 200)).unwrap();
    post_event_at(&mut other_order, &first[0], stamps(10, 100)).unwrap();
    post_event_at(&mut other_order, &first[1], stamps(40, 400)).unwrap();
    post_event_at(&mut other_order, &second[1], stamps(30, 300)).unwrap();

    let mut only_a = Store::new();
    post_event_at(&mut only_a, &first[0], stamps(10, 100)).unwrap();
    post_event_at(&mut only_a, &first[1], stamps(40, 400)).unwrap();

    for store in [&interleaved, &other_order] {
        assert_eq!(session_status(store, "a"), Some(Status::Idle));
        assert_eq!(session_status(store, "b"), Some(Status::WaitingInput));
        assert_eq!(agent_status(store, "a", "main"), Some(Status::Idle));
        assert_eq!(agent_status(store, "b", "main"), Some(Status::WaitingInput));
        assert_eq!(session_status(store, "a"), session_status(&only_a, "a"));
        let agents = get_agents_for_session(store, "a");
        let alone = get_agents_for_session(&only_a, "a");
        assert_eq!(agents.len(), alone.len());
        assert_eq!(agents[0].id, alone[0].id);
        assert_eq!(agents[0].updated_at, alone[0].updated_at);
    }
}

#[test]
fn answer_is_the_snapshot_after_the_event() {
    let mut store = Store::new();
    post_event_at(&mut store, &hook("tool_use", "a"), stamps(10, 100)).unwrap();
    let snapshot = post_event_at(&mut store, &hook("tool_use", "b"), stamps(20, 200)).unwrap();
    let listed = get_sessions(&store);
    assert_eq!(snapshot.len(), 2);
    assert_eq!(listed.len(), 2);
    for (sent, read) in snapshot.iter().zip(listed.iter()) {
        assert_eq!(sent.session_id, read.session_id);
        assert_eq!(sent.status, read.status);
        assert_eq!(sent.agents.len(), read.agents.len());
    }
    assert_eq!(snapshot[0].session_id, "b");
    assert_eq!(snapshot[1].session_id, "a");
}

#[test]
fn payload_holds_the_four_optional_fields() {
    let mut event = hook("tool_use", "s1");
    event.needs_input = Some(true);
    event.tool_name = Some("Bash".to_string());
    event.message = Some("say \"hi\"".to_string());
    let payload = event_payload(&event);
    let value: serde_json::Value = serde_json::from_str(&payload).unwrap();
    let object = value.as_object().unwrap();
    assert_eq!(object.len(), 4);
    assert_eq!(object["needs_input"], serde_json::Value::Bool(true));
    assert_eq!(object["tool_name"], serde_json::Value::String("Bash".to_string()));
    assert_eq!(object["transcript_path"], serde_json::Value::Null);
    assert_eq!(object["message"], serde_json::Value::String("say \"hi\"".to_string()));
}

#[test]
fn payload_of_an_event_without_fields_is_all_null() {
    let payload = event_payload(&hook("tool_use", "s1"));
    let value: serde_json::Value = serde_json::from_str(&payload).unwrap();
    let object = value.as_object().unwrap();
    assert_eq!(object.len(), 4);
    for key in ["needs_input", "tool_name", "transcript_path", "message"] {
        assert_eq!(object[key], serde_json::Value::Null);
    }
}

#[test]
fn payload_of_stop_and_session_end_holds_the_four_fields_too() {
    for event_type in ["stop", "session_end"] {
        let mut event = hook(event_type, "s1");
        event.needs_input = Some(false);
        event.tool_name = Some("Bash".to_string());
        event.message = Some("done".to_string());
        let payload = event_payload(&event);
        let value: serde_json::Value = serde_json::from_str(&payload).unwrap();
        let object = value.as_object().unwrap();
        assert_eq!(object.len(), 4);
        assert_eq!(object["needs_input"], serde_json::Value::Bool(false));
        assert_eq!(object["tool_name"], serde_json::Value::String("Bash".to_string()));
        assert_eq!(object["transcript_path"], serde_json::Value::Null);
        assert_eq!(object["message"], serde_json::Value::String("done".to_string()));
        let mut other = hook("tool_use", "s1");
        other.needs_input = Some(false);
        other.tool_name = Some("Bash".to_string());
        other.message = Some("done".to_string());
        assert_eq!(payload, event_payload(&other));
    }
}

#[test]
fn payload_falls_back_to_an_empty_object() {
    assert_eq!(payload_or_default(None), "{}");
    assert_eq!(payload_or_default(Some("{\"a\":1}".to_string())), "{\"a\":1}");
}

#[test]
fn logged_payload_is_the_event_payload() {
    let mut store = Store::new();
    let mut event = hook("tool_use", "s1");
    event.transcript_path = Some("/tmp/t.jsonl".to_string());
    post_event_at(&mut store, &event, stamps(10, 100)).unwrap();
    let events = get_events(&store);
    assert_eq!(events[0].payload, event_payload(&event));
    let value: serde_json::Value = serde_json::from_str(&events[0].payload).unwrap();
    assert_eq!(value["transcript_path"], serde_json::Value::String("/tmp/t.jsonl".to_string()));
}

#[test]
fn plan_of_stop_is_a_guarded_transition_and_a_log_entry() {
    let mut stop = hook("stop", "s1");
    stop.message = Some("bye".to_string());
    let plan = plan_event(&stop);
    assert_eq!(plan.len(), 2);
    match &plan[0].op {
        StoreOp::Transition { session_id, from, to } => {
            assert_eq!(session_id, "s1");
            assert_eq!(*from, Some(Status::Active));
            assert_eq!(*to, Status::Idle);
        }
        other => panic!("unexpected write {:?}", other),
    }
    assert_eq!(plan[0].on_failure, FailurePolicy::Continue);
    match &plan[1].op {
        StoreOp::InsertEvent { session_id, agent_name, event_type, payload } => {
            assert_eq!(session_id, "s1");
            assert_eq!(agent_name.as_deref(), Some("main"));
            assert_eq!(event_type, "stop");
            assert_eq!(payload, &event_payload(&stop));
            let value: serde_json::Value = serde_json::from_str(payload).unwrap();
            assert_eq!(value["message"], serde_json::Value::String("bye".to_string()));
        }
        other => panic!("unexpected write {:?}", other),
    }
    assert_eq!(plan[1].on_failure, FailurePolicy::Continue);
}

#[test]
fn plan_of_session_end_is_an_unguarded_transition_and_a_log_entry() {
    let plan = plan_event(&hook("session_end", "s1"));
    assert_eq!(plan.len(), 2);
    match &plan[0].op {
        StoreOp::Transition { session_id, from, to } => {
            assert_eq!(session_id, "s1");
            assert_eq!(*from, None);
            assert_eq!(*to, Status::Completed);
        }
        other => panic!("unexpected write {:?}", other),
    }
    assert_eq!(plan[0].on_failure, FailurePolicy::Continue);
    assert!(matches!(plan[1].op, StoreOp::InsertEvent { .. }));
}

#[test]
fn plan_of_another_event_is_two_upserts_and_a_log_entry() {
    let mut event = hook("subagent_stop", "s1");
    event.agent_name = Some("helper".to_string());
    event.parent_session_id = Some("s0".to_string());
    event.project_name = Some("app".to_string());
    let plan = plan_event(&event);
    assert_eq!(plan.len(), 3);
    match &plan[0].op {
        StoreOp::UpsertSession { session_id, project_path, project_name, status } => {
            assert_eq!(session_id, "s1");
            assert_eq!(project_path, "");
            assert_eq!(project_name, "app");
            assert_eq!(*status, Status::Active);
        }
        other => panic!("unexpected write {:?}", other),
    }
    assert_eq!(plan[0].on_failure, FailurePolicy::Abort);
    match &plan[1].op {
        StoreOp::UpsertAgent { session_id, agent_name, parent_session_id, status } => {
            assert_eq!(session_id, "s1");
            assert_eq!(agent_name, "helper");
            assert_eq!(parent_session_id.as_deref(), Some("s0"));
            assert_eq!(*status, Status::Completed);
        }
        other => panic!("unexpected write {:?}", other),
    }
    assert_eq!(plan[1].on_failure, FailurePolicy::Abort);
    match &plan[2].op {
        StoreOp::InsertEvent { agent_name, event_type, payload, .. } => {
            assert_eq!(agent_name.as_deref(), Some("helper"));
            assert_eq!(event_type, "subagent_stop");
            assert_eq!(payload, &event_payload(&event));
        }
        other => panic!("unexpected write {:?}", other),
    }
    assert_eq!(plan[2].on_failure, FailurePolicy::Continue);
}

#[test]
fn walking_a_plan_stops_at_a_failed_write_that_aborts() {
    let plan = plan_event(&hook("tool_use", "s1"));
    assert_eq!(first_step(&plan), Progress::Write(0));
    assert_eq!(after_write(&plan, 0, true), Progress::Write(1));
    assert_eq!(after_write(&plan, 0, false), Progress::Reject);
    assert_eq!(after_write(&plan, 1, true), Progress::Write(2));
    assert_eq!(after_write(&plan, 1, false), Progress::Reject);
    assert_eq!(after_write(&plan, 2, true), Progress::Publish);
    assert_eq!(after_write(&plan, 2, false), Progress::Publish);
    assert_eq!(after_write(&plan, 3, false), Progress::Publish);
    assert_eq!(after_write(&plan, usize::MAX, false), Progress::Publish);
}

#[test]
fn walking_the_plan_of_stop_never_rejects() {
    let plan = plan_event(&hook("stop", "s1"));
    assert_eq!(first_step(&plan), Progress::Write(0));
    assert_eq!(after_write(&plan, 0, false), Progress::Write(1));
    assert_eq!(after_write(&plan, 1, false), Progress::Publish);
    assert_eq!(first_step(&Vec::new()), Progress::Publish);
}

#[test]
fn a_write_can_be_applied_on_its_own() {
    let mut store = Store::new();
    let plan = plan_event(&hook("needs_permission", "s1"));
    let stamp = WriteStamp { id: 3, now: 30 };
    assert_eq!(apply_write(&mut store, &plan[1].op, stamp), Err(StoreError::UnknownSession));
    assert_eq!(apply_write(&mut store, &plan[0].op, stamp), Ok(()));
    assert_eq!(apply_write(&mut store, &plan[1].op, stamp), Ok(()));
    assert_eq!(apply_write(&mut store, &plan[2].op, stamp), Ok(()));
    assert_eq!(apply_write(&mut store, &plan[2].op, stamp), Err(StoreError::DuplicateId));
    assert_eq!(session_status(&store, "s1"), Some(Status::NeedsPermission));
    let stop = plan_event(&hook("session_end", "s1"));
    assert_eq!(apply_write(&mut store, &stop[0].op, stamp), Ok(()));
    assert_eq!(session_status(&store, "s1"), Some(Status::Completed));
}

#[test]
fn ending_a_session_answers_with_the_rest() {
    let mut store = Store::new();
    post_event_at(&mut store, &hook("tool_use", "a"), stamps(10, 100)).unwrap();
    post_event_at(&mut store, &hook("tool_use", "b"), stamps(20, 200)).unwrap();
    let snapshot = delete_session_at(&mut store, 300, "a");
    assert_eq!(snapshot.len(), 1);
    assert_eq!(snapshot[0].session_id, "b");
    assert_eq!(snapshot[0].status, Status::Active);
    assert_eq!(snapshot[0].updated_at, 200);
    assert_eq!(session_status(&store, "a"), Some(Status::Completed));
    assert_eq!(agent_status(&store, "a", "main"), Some(Status::Completed));
    assert_eq!(agent_status(&store, "b", "main"), Some(Status::Active));
    let snapshot = delete_session(&mut store, "b");
    assert!(snapshot.is_empty());
    assert_eq!(session_status(&store, "b"), Some(Status::Completed));
}

#[test]
fn reset_forgets_everything() {
    let mut store = Store::new();
    post_event_at(&mut store, &hook("tool_use", "a"), stamps(10, 100)).unwrap();
    let snapshot = clear_all_sessions(&mut store);
    assert!(snapshot.is_empty());
    assert_eq!(session_count(&store), 0);
    assert_eq!(agent_count(&store), 0);
    assert_eq!(event_count(&store), 0);
    assert!(get_sessions(&store).is_empty());
}

#[test]
fn health_reports_ok_and_the_version() {
    let response = health();
    assert_eq!(response.status, "ok");
    assert_eq!(response.version, "0.1.0");
}

#[test]
fn accepted_event_is_logged_last_and_earlier_entries_stay() {
    let mut store = Store::new();
    let mut first = hook("tool_use", "a");
    first.tool_name = Some("Read".to_string());
    post_event_at(&mut store, &first, stamps(10, 100)).unwrap();
    let mut second = hook("stop", "b");
    second.agent_name = Some("worker".to_string());
    second.message = Some("halt".to_string());
    post_event_at(&mut store, &second, stamps(20, 200)).unwrap();
    let events = get_events(&store);
    assert_eq!(events.len(), 2);
    assert_eq!(events[0].id, 12);
    assert_eq!(events[0].session_id, "a");
    assert_eq!(events[0].payload, event_payload(&first));
    assert_eq!(events[0].timestamp, 102);
    assert_eq!(events[1].id, 22);
    assert_eq!(events[1].session_id, "b");
    assert_eq!(events[1].agent_name.as_deref(), Some("worker"));
    assert_eq!(events[1].event_type, "stop");
    assert_eq!(events[1].payload, event_payload(&second));
    assert_eq!(events[1].timestamp, 202);
}

#[test]
fn refused_event_is_not_logged() {
    let mut store = Store::new();
    post_event_at(&mut store, &hook("tool_use", "a"), stamps(10, 100)).unwrap();
    assert!(post_event_at(&mut store, &hook("tool_use", "b"), stamps(10, 200)).is_err());
    let events = get_events(&store);
    assert_eq!(events.len(), 1);
    assert_eq!(events[0].session_id, "a");
}

#[test]
fn accepted_events_do_not_interfere_whatever_their_stamps() {
    let mut waiting = hook("notification", "b");
    waiting.needs_input = Some(true);
    let run_a = [hook("tool_use", "a"), hook("stop", "a"), hook("needs_permission", "a")];
    let run_b = [waiting, hook("stop", "b"), hook("session_end", "b")];

    let mut alone = Store::new();
    post_event_at(&mut alone, &run_a[0], stamps(10, 100)).unwrap();
    post_event_at(&mut alone, &run_a[1], stamps(10, 300)).unwrap();
    post_event_at(&mut alone, &run_a[2], stamps(10, 500)).unwrap();

    let mut mixed = Store::new();
    post_event_at(&mut mixed, &run_a[0], stamps(10, 100)).unwrap();
    post_event_at(&mut mixed, &run_b[0], stamps(20, 200)).unwrap();
    post_event_at(&mut mixed, &run_a[1], stamps(10, 300)).unwrap();
    post_event_at(&mut mixed, &run_b[1], stamps(10, 400)).unwrap();
    post_event_at(&mut mixed, &run_a[2], stamps(10, 500)).unwrap();
    post_event_at(&mut mixed, &run_b[2], stamps(10, 600)).unwrap();

    assert_eq!(session_status(&mixed, "a"), Some(Status::NeedsPermission));
    assert_eq!(session_status(&mixed, "a"), session_status(&alone, "a"));
    assert_eq!(agent_status(&mixed, "a", "main"), agent_status(&alone, "a", "main"));
    let here = get_agents_for_session(&mixed, "a");
    let there = get_agents_for_session(&alone, "a");
    assert_eq!(here.len(), there.len());
    assert_eq!(here[0].id, there[0].id);
    assert_eq!(here[0].created_at, there[0].created_at);
    assert_eq!(here[0].updated_at, there[0].updated_at);
    let listed_here = get_sessions(&mixed);
    let listed_there = get_sessions(&alone);
    assert_eq!(listed_here.len(), 1);
    assert_eq!(listed_here[0].id, listed_there[0].id);
    assert_eq!(listed_here[0].updated_at, listed_there[0].updated_at);
    assert_eq!(session_status(&mixed, "b"), Some(Status::Completed));
}

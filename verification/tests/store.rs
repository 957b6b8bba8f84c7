use session_monitor::db::{
    agent_count, agent_status, cleanup_old_completed, cleanup_old_completed_at,
    clear_all_sessions, event_count, get_active_sessions, get_agents_for_session, get_events,
    has_agent, has_session, insert_event, insert_event_at, mark_active_session_completed,
    mark_active_session_completed_at, mark_active_session_idle, mark_active_session_idle_at,
    mark_session_completed, mark_session_completed_at, session_count, session_status,
    transition_at, upsert_agent, upsert_agent_at, upsert_session, upsert_session_at, Store,
};
use session_monitor::tables::StoreError;
use session_monitor::models::Status;
use session_monitor::stamp::WriteStamp;

fn stamp(id: u128, now: i64) -> WriteStamp {
    WriteStamp { id, now }
}

fn store_with(sessions: &[(&str, Status, i64)]) -> Store {
    let mut store = Store::new();
    let mut id: u128 = 1;
    for (session_id, status, now) in sessions {
        upsert_session_at(&mut store, stamp(id, *now), session_id, "/work", "work", *status)
            .unwrap();
        id += 1;
    }
    store
}

#[test]
fn new_store_is_empty() {
    let store = Store::new();
    assert!(get_active_sessions(&store).is_empty());
    assert_eq!(session_count(&store), 0);
    assert_eq!(agent_count(&store), 0);
    assert_eq!(event_count(&store), 0);
    assert!(!has_session(&store, "s1"));
    assert_eq!(session_status(&store, "s1"), None);
}

#[test]
fn upsert_session_inserts_with_the_stamp() {
    let mut store = Store::new();
    let result =
        upsert_session_at(&mut store, stamp(7, 1_000), "s1", "/tmp/p", "p", Status::Active);
    assert_eq!(result, Ok(()));
    let listed = get_active_sessions(&store);
    assert_eq!(listed.len(), 1);
    assert_eq!(listed[0].id, 7);
    assert_eq!(listed[0].session_id, "s1");
    assert_eq!(listed[0].project_path, "/tmp/p");
    assert_eq!(listed[0].project_name, "p");
    assert_eq!(listed[0].status, Status::Active);
    assert_eq!(listed[0].created_at, 1_000);
    assert_eq!(listed[0].updated_at, 1_000);
    assert!(listed[0].agents.is_empty());
}

#[test]
fn upsert_session_overwrites_details_and_keeps_identity() {
    let mut store = Store::new();
    upsert_session_at(&mut store, stamp(7, 1_000), "s1", "/tmp/p", "p", Status::Active).unwrap();
    let result =
        upsert_session_at(&mut store, stamp(8, 2_000), "s1", "/tmp/q", "q", Status::WaitingInput);
    assert_eq!(result, Ok(()));
    assert_eq!(session_count(&store), 1);
    let listed = get_active_sessions(&store);
    assert_eq!(listed[0].id, 7);
    assert_eq!(listed[0].project_path, "/tmp/q");
    assert_eq!(listed[0].project_name, "q");
    assert_eq!(listed[0].status, Status::WaitingInput);
    assert_eq!(listed[0].created_at, 1_000);
    assert_eq!(listed[0].updated_at, 2_000);
}

#[test]
fn upsert_session_refuses_an_identifier_in_use() {
    let mut store = Store::new();
    upsert_session_at(&mut store, stamp(7, 1_000), "s1", "", "p", Status::Active).unwrap();
    let result = upsert_session_at(&mut store, stamp(7, 2_000), "s2", "", "p", Status::Active);
    assert_eq!(result, Err(StoreError::DuplicateId));
    assert_eq!(session_count(&store), 1);
    assert!(!has_session(&store, "s2"));
}

#[test]
fn upsert_agent_needs_its_session() {
    let mut store = Store::new();
    let result = upsert_agent_at(&mut store, stamp(1, 10), "s1", "main", None, Status::Active);
    assert_eq!(result, Err(StoreError::UnknownSession));
    assert_eq!(agent_count(&store), 0);
}

#[test]
fn upsert_agent_refuses_an_identifier_in_use() {
    let mut store = store_with(&[("s1", Status::Active, 10)]);
    upsert_agent_at(&mut store, stamp(5, 11), "s1", "main", None, Status::Active).unwrap();
    let result = upsert_agent_at(&mut store, stamp(5, 12), "s1", "worker", None, Status::Active);
    assert_eq!(result, Err(StoreError::DuplicateId));
    assert_eq!(agent_count(&store), 1);
}

#[test]
fn upsert_agent_twice_keeps_one_row() {
    let mut store = store_with(&[("s2", Status::Active, 10)]);
    upsert_agent_at(&mut store, stamp(5, 11), "s2", "worker", None, Status::Active).unwrap();
    upsert_agent_at(&mut store, stamp(6, 12), "s2", "worker", Some("s0"), Status::Idle).unwrap();
    let agents = get_agents_for_session(&store, "s2");
    assert_eq!(agents.len(), 1);
    assert_eq!(agents[0].id, 5);
    assert_eq!(agents[0].agent_name, "worker");
    assert_eq!(agents[0].parent_session_id.as_deref(), Some("s0"));
    assert_eq!(agents[0].status, Status::Idle);
    assert_eq!(agents[0].created_at, 11);
    assert_eq!(agents[0].updated_at, 12);
    assert!(has_agent(&store, "s2", "worker"));
    assert!(!has_agent(&store, "s2", "main"));
}

#[test]
fn insert_event_appends_and_accepts_equal_content() {
    let mut store = Store::new();
    assert_eq!(insert_event_at(&mut store, stamp(1, 5), "s1", Some("main"), "stop", "{}"), Ok(()));
    assert_eq!(insert_event_at(&mut store, stamp(2, 5), "s1", Some("main"), "stop", "{}"), Ok(()));
    assert_eq!(insert_event_at(&mut store, stamp(3, 6), "s1", None, "ping", "{\"a\":1}"), Ok(()));
    let events = get_events(&store);
    assert_eq!(events.len(), 3);
    assert_eq!(events[0].id, 1);
    assert_eq!(events[1].id, 2);
    assert_eq!(events[2].agent_name, None);
    assert_eq!(events[2].event_type, "ping");
    assert_eq!(events[2].payload, "{\"a\":1}");
    assert_eq!(events[2].timestamp, 6);
}

#[test]
fn insert_event_refuses_an_identifier_in_use() {
    let mut store = Store::new();
    insert_event_at(&mut store, stamp(1, 5), "s1", Some("main"), "stop", "{}").unwrap();
    let result = insert_event_at(&mut store, stamp(1, 6), "s2", Some("main"), "stop", "{}");
    assert_eq!(result, Err(StoreError::DuplicateId));
    assert_eq!(event_count(&store), 1);
}

#[test]
fn sessions_are_listed_newest_first() {
    let mut store = Store::new();
    upsert_session_at(&mut store, stamp(1, 100), "old", "", "p", Status::Active).unwrap();
    upsert_session_at(&mut store, stamp(2, 300), "new", "", "p", Status::Idle).unwrap();
    upsert_session_at(&mut store, stamp(3, 200), "mid", "", "p", Status::Active).unwrap();
    upsert_session_at(&mut store, stamp(4, 200), "mid2", "", "p", Status::Active).unwrap();
    let listed = get_active_sessions(&store);
    let order: Vec<&str> = listed.iter().map(|s| s.session_id.as_str()).collect();
    assert_eq!(order, vec!["new", "mid2", "mid", "old"]);
}

#[test]
fn agents_are_listed_oldest_first_under_their_session() {
    let mut store = store_with(&[("s1", Status::Active, 10), ("s2", Status::Active, 20)]);
    upsert_agent_at(&mut store, stamp(1, 50), "s1", "late", None, Status::Active).unwrap();
    upsert_agent_at(&mut store, stamp(2, 30), "s1", "early", None, Status::Active).unwrap();
    upsert_agent_at(&mut store, stamp(3, 40), "s2", "other", None, Status::Active).unwrap();
    upsert_agent_at(&mut store, stamp(4, 50), "s1", "later", None, Status::Active).unwrap();
    let listed = get_active_sessions(&store);
    assert_eq!(listed[0].session_id, "s2");
    assert_eq!(listed[0].agents.len(), 1);
    assert_eq!(listed[0].agents[0].agent_name, "other");
    let names: Vec<&str> = listed[1].agents.iter().map(|a| a.agent_name.as_str()).collect();
    assert_eq!(names, vec!["early", "late", "later"]);
}

#[test]
fn listing_never_includes_a_completed_session() {
    let store = store_with(&[
        ("a", Status::Active, 1),
        ("b", Status::Completed, 2),
        ("c", Status::Idle, 3),
        ("d", Status::WaitingInput, 4),
        ("e", Status::NeedsPermission, 5),
        ("f", Status::Completed, 6),
    ]);
    let listed = get_active_sessions(&store);
    let order: Vec<&str> = listed.iter().map(|s| s.session_id.as_str()).collect();
    assert_eq!(order, vec!["e", "d", "c", "a"]);
    assert!(listed.iter().all(|s| s.status != Status::Completed));
    assert_eq!(session_count(&store), 6);
}

#[test]
fn idle_guard_moves_only_active_rows() {
    let mut store = store_with(&[
        ("s1", Status::Active, 1),
        ("s2", Status::WaitingInput, 2),
        ("s3", Status::NeedsPermission, 3),
        ("s4", Status::Active, 4),
    ]);
    upsert_agent_at(&mut store, stamp(1, 5), "s1", "main", None, Status::Active).unwrap();
    upsert_agent_at(&mut store, stamp(2, 6), "s1", "asks", None, Status::NeedsPermission).unwrap();
    mark_active_session_idle_at(&mut store, 100, "s1");
    mark_active_session_idle_at(&mut store, 100, "s2");
    mark_active_session_idle_at(&mut store, 100, "s3");
    assert_eq!(session_status(&store, "s1"), Some(Status::Idle));
    assert_eq!(session_status(&store, "s2"), Some(Status::WaitingInput));
    assert_eq!(session_status(&store, "s3"), Some(Status::NeedsPermission));
    assert_eq!(session_status(&store, "s4"), Some(Status::Active));
    assert_eq!(agent_status(&store, "s1", "main"), Some(Status::Idle));
    assert_eq!(agent_status(&store, "s1", "asks"), Some(Status::NeedsPermission));
    let listed = get_active_sessions(&store);
    let s1 = listed.iter().find(|s| s.session_id == "s1").unwrap();
    assert_eq!(s1.updated_at, 100);
    let s2 = listed.iter().find(|s| s.session_id == "s2").unwrap();
    assert_eq!(s2.updated_at, 2);
}

#[test]
fn completed_guard_moves_only_active_rows() {
    let mut store =
        store_with(&[("s1", Status::Active, 1), ("s2", Status::Idle, 2)]);
    upsert_agent_at(&mut store, stamp(1, 5), "s2", "main", None, Status::Active).unwrap();
    mark_active_session_completed_at(&mut store, 50, "s1");
    mark_active_session_completed_at(&mut store, 50, "s2");
    assert_eq!(session_status(&store, "s1"), Some(Status::Completed));
    assert_eq!(session_status(&store, "s2"), Some(Status::Idle));
    assert_eq!(agent_status(&store, "s2", "main"), Some(Status::Completed));
}

#[test]
fn guarded_transition_takes_any_pair_of_statuses() {
    let mut store = store_with(&[("s1", Status::Idle, 1)]);
    transition_at(&mut store, 9, "s1", Some(Status::Active), Status::WaitingInput);
    assert_eq!(session_status(&store, "s1"), Some(Status::Idle));
    transition_at(&mut store, 9, "s1", Some(Status::Idle), Status::Active);
    assert_eq!(session_status(&store, "s1"), Some(Status::Active));
    transition_at(&mut store, 9, "s1", None, Status::NeedsPermission);
    assert_eq!(session_status(&store, "s1"), Some(Status::NeedsPermission));
}

#[test]
fn completing_a_session_completes_its_agents_and_no_other() {
    let mut store = store_with(&[
        ("s1", Status::WaitingInput, 1),
        ("s2", Status::Active, 2),
    ]);
    upsert_agent_at(&mut store, stamp(1, 5), "s1", "main", None, Status::WaitingInput).unwrap();
    upsert_agent_at(&mut store, stamp(2, 6), "s1", "sub", Some("s1"), Status::Idle).unwrap();
    upsert_agent_at(&mut store, stamp(3, 7), "s2", "main", None, Status::Active).unwrap();
    mark_session_completed_at(&mut store, 70, "s1");
    assert_eq!(session_status(&store, "s1"), Some(Status::Completed));
    assert_eq!(agent_status(&store, "s1", "main"), Some(Status::Completed));
    assert_eq!(agent_status(&store, "s1", "sub"), Some(Status::Completed));
    assert_eq!(session_status(&store, "s2"), Some(Status::Active));
    assert_eq!(agent_status(&store, "s2", "main"), Some(Status::Active));
    let listed = get_active_sessions(&store);
    assert_eq!(listed.len(), 1);
    assert_eq!(listed[0].session_id, "s2");
    assert_eq!(listed[0].updated_at, 2);
    assert_eq!(listed[0].agents[0].updated_at, 7);
    let gone = get_agents_for_session(&store, "s1");
    assert!(gone.iter().all(|a| a.updated_at == 70));
}

#[test]
fn completing_an_unknown_session_changes_nothing() {
    let mut store = store_with(&[("s1", Status::Active, 1)]);
    mark_session_completed_at(&mut store, 70, "nobody");
    assert_eq!(session_count(&store), 1);
    assert_eq!(session_status(&store, "s1"), Some(Status::Active));
    assert_eq!(session_status(&store, "nobody"), None);
}

#[test]
fn purge_removes_completed_sessions_at_or_past_the_ttl() {
    let mut store = Store::new();
    upsert_session_at(&mut store, stamp(1, 1_000), "old_done", "", "p", Status::Completed)
        .unwrap();
    upsert_session_at(&mut store, stamp(2, 1_040), "edge_done", "", "p", Status::Completed)
        .unwrap();
    upsert_session_at(&mut store, stamp(3, 1_041), "young_done", "", "p", Status::Completed)
        .unwrap();
    upsert_session_at(&mut store, stamp(4, 10), "old_active", "", "p", Status::Active).unwrap();
    upsert_session_at(&mut store, stamp(5, 10), "old_waiting", "", "p", Status::WaitingInput)
        .unwrap();
    cleanup_old_completed_at(&mut store, 1_100, 60);
    assert!(!has_session(&store, "old_done"));
    assert!(!has_session(&store, "edge_done"));
    assert_eq!(session_status(&store, "young_done"), Some(Status::Completed));
    assert_eq!(session_status(&store, "old_active"), Some(Status::Active));
    assert_eq!(session_status(&store, "old_waiting"), Some(Status::WaitingInput));
    assert_eq!(session_count(&store), 3);
}

#[test]
fn purge_takes_the_agents_and_events_of_what_it_removes() {
    let mut store = store_with(&[("done", Status::Active, 1), ("live", Status::Active, 2)]);
    upsert_agent_at(&mut store, stamp(1, 3), "done", "main", None, Status::Active).unwrap();
    upsert_agent_at(&mut store, stamp(2, 4), "live", "main", None, Status::Active).unwrap();
    upsert_agent_at(&mut store, stamp(3, 5), "done", "sub", None, Status::Active).unwrap();
    insert_event_at(&mut store, stamp(1, 3), "done", Some("main"), "tool_use", "{}").unwrap();
    insert_event_at(&mut store, stamp(2, 4), "live", Some("main"), "tool_use", "{}").unwrap();
    insert_event_at(&mut store, stamp(3, 5), "done", None, "session_end", "{}").unwrap();
    insert_event_at(&mut store, stamp(4, 6), "stray", None, "ping", "{}").unwrap();
    mark_session_completed_at(&mut store, 10, "done");
    cleanup_old_completed_at(&mut store, 9, 5);
    assert_eq!(session_count(&store), 2);
    cleanup_old_completed_at(&mut store, 15, 5);
    assert_eq!(session_count(&store), 1);
    assert!(has_session(&store, "live"));
    assert_eq!(agent_count(&store), 1);
    assert!(has_agent(&store, "live", "main"));
    let events = get_events(&store);
    let left: Vec<&str> = events.iter().map(|e| e.session_id.as_str()).collect();
    assert_eq!(left, vec!["live", "stray"]);
}

#[test]
fn purge_does_not_overflow_at_the_ends_of_time() {
    let mut store = Store::new();
    upsert_session_at(&mut store, stamp(1, i64::MAX), "late", "", "p", Status::Completed)
        .unwrap();
    upsert_session_at(&mut store, stamp(2, i64::MIN), "early", "", "p", Status::Completed)
        .unwrap();
    cleanup_old_completed_at(&mut store, i64::MAX, u64::MAX);
    assert!(has_session(&store, "late"));
    assert!(!has_session(&store, "early"));
    cleanup_old_completed_at(&mut store, i64::MAX, 0);
    assert!(!has_session(&store, "late"));
}

#[test]
fn clearing_empties_all_three_tables() {
    let mut store = store_with(&[("s1", Status::Active, 1)]);
    upsert_agent_at(&mut store, stamp(1, 3), "s1", "main", None, Status::Active).unwrap();
    insert_event_at(&mut store, stamp(1, 3), "s1", Some("main"), "tool_use", "{}").unwrap();
    clear_all_sessions(&mut store);
    assert_eq!(session_count(&store), 0);
    assert_eq!(agent_count(&store), 0);
    assert_eq!(event_count(&store), 0);
    assert!(get_active_sessions(&store).is_empty());
}

#[test]
fn writes_with_fresh_stamps_take_random_identifiers_and_the_clock() {
    let mut store = Store::new();
    assert_eq!(upsert_session(&mut store, "s1", "/p", "p", Status::Active), Ok(()));
    assert_eq!(upsert_session(&mut store, "s2", "/p", "p", Status::Active), Ok(()));
    assert_eq!(upsert_agent(&mut store, "s1", "main", None, Status::Active), Ok(()));
    assert_eq!(insert_event(&mut store, "s1", Some("main"), "tool_use", "{}"), Ok(()));
    let listed = get_active_sessions(&store);
    assert_eq!(listed.len(), 2);
    assert_ne!(listed[0].id, listed[1].id);
    for session in &listed {
        assert_eq!((session.id >> 76) & 0xf, 4);
        assert_eq!((session.id >> 62) & 0x3, 2);
        assert!(session.created_at > 1_600_000_000_000_000);
        assert_eq!(session.created_at, session.updated_at);
    }
    assert!(listed[0].created_at >= listed[1].created_at);
    let events = get_events(&store);
    assert!(events[0].timestamp > 1_600_000_000_000_000);
}

#[test]
fn marks_at_the_current_time_set_the_update_time() {
    let mut store = store_with(&[
        ("s1", Status::Active, 1),
        ("s2", Status::Active, 2),
        ("s3", Status::Active, 3),
    ]);
    mark_active_session_idle(&mut store, "s1");
    mark_active_session_completed(&mut store, "s2");
    mark_session_completed(&mut store, "s3");
    assert_eq!(session_status(&store, "s1"), Some(Status::Idle));
    assert_eq!(session_status(&store, "s2"), Some(Status::Completed));
    assert_eq!(session_status(&store, "s3"), Some(Status::Completed));
    let listed = get_active_sessions(&store);
    assert_eq!(listed.len(), 1);
    assert!(listed[0].updated_at > 1_600_000_000_000_000);
    assert_eq!(listed[0].created_at, 1);
}

#[test]
fn purge_at_the_current_time_uses_the_ttl() {
    let mut store = store_with(&[("ancient", Status::Completed, 0)]);
    mark_session_completed(&mut store, "fresh");
    upsert_session(&mut store, "fresh", "", "p", Status::Completed).unwrap();
    cleanup_old_completed(&mut store, 60_000_000);
    assert!(!has_session(&store, "ancient"));
    assert!(has_session(&store, "fresh"));
}

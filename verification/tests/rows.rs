use session_monitor::models::{Agent, Status};
use session_monitor::rows::{
    agent_from_row, identifier_or_fresh, read_identifier, read_timestamp, session_from_row,
    timestamp_or_now, AgentRow, SessionRow,
};
use session_monitor::stamp::{EventStamps, WriteStamp};

fn is_version_4(id: u128) -> bool {
    (id >> 76) & 0xf == 4 && (id >> 62) & 0x3 == 2
}

fn session_row(status: &str) -> SessionRow {
    SessionRow {
        id: "550e8400-e29b-41d4-a716-446655440000".to_string(),
        session_id: "s1".to_string(),
        project_path: "/work/app".to_string(),
        project_name: "app".to_string(),
        status: status.to_string(),
        created_at: "2022-09-11T18:34:48+00:00".to_string(),
        updated_at: "2022-09-11T18:34:49.250+00:00".to_string(),
    }
}

fn agent_row(status: &str) -> AgentRow {
    AgentRow {
        id: "a1a2a3a4-b1b2-c1c2-d1d2-d3d4d5d6d7d8".to_string(),
        session_id: "s1".to_string(),
        agent_name: "main".to_string(),
        parent_session_id: Some("s0".to_string()),
        status: status.to_string(),
        created_at: "1970-01-01T00:00:01.000444Z".to_string(),
        updated_at: "1970-01-01 00:00:02Z".to_string(),
    }
}

#[test]
fn identifier_is_read_from_a_uuid() {
    assert_eq!(
        read_identifier("a1a2a3a4-b1b2-c1c2-d1d2-d3d4d5d6d7d8"),
        0xa1a2a3a4b1b2c1c2d1d2d3d4d5d6d7d8
    );
    assert_eq!(
        read_identifier("a1a2a3a4b1b2c1c2d1d2d3d4d5d6d7d8"),
        0xa1a2a3a4b1b2c1c2d1d2d3d4d5d6d7d8
    );
    assert_eq!(read_identifier("00000000-0000-0000-0000-000000000000"), 0);
}

#[test]
fn unreadable_identifier_is_replaced_by_a_random_one() {
    let first = read_identifier("not a uuid");
    let second = read_identifier("");
    assert!(is_version_4(first));
    assert!(is_version_4(second));
    assert_ne!(first, second);
}

#[test]
fn identifier_that_was_read_is_kept() {
    assert_eq!(identifier_or_fresh(Some(42)), 42);
    assert!(is_version_4(identifier_or_fresh(None)));
}

#[test]
fn timestamp_is_read_in_microseconds() {
    assert_eq!(read_timestamp("1970-01-01T00:00:01.000444Z"), 1_000_444);
    assert_eq!(read_timestamp("2022-09-11T18:34:48+00:00"), 1_662_921_288_000_000);
    assert_eq!(read_timestamp("2022-09-11 20:34:48+02:00"), 1_662_921_288_000_000);
    assert_eq!(read_timestamp("1900-01-01T14:38:45Z"), -2_208_936_075_000_000);
}

#[test]
fn unreadable_timestamp_is_replaced_by_the_current_time() {
    assert!(read_timestamp("yesterday") > 1_600_000_000_000_000);
    assert!(read_timestamp("") > 1_600_000_000_000_000);
}

#[test]
fn timestamp_that_was_read_is_kept() {
    assert_eq!(timestamp_or_now(Some(-5)), -5);
    assert!(timestamp_or_now(None) > 1_600_000_000_000_000);
}

#[test]
fn agent_row_is_decoded() {
    let agent = agent_from_row(agent_row("needs_permission")).unwrap();
    assert_eq!(agent.id, 0xa1a2a3a4b1b2c1c2d1d2d3d4d5d6d7d8);
    assert_eq!(agent.session_id, "s1");
    assert_eq!(agent.agent_name, "main");
    assert_eq!(agent.parent_session_id.as_deref(), Some("s0"));
    assert_eq!(agent.status, Status::NeedsPermission);
    assert_eq!(agent.created_at, 1_000_444);
    assert_eq!(agent.updated_at, 2_000_000);
}

#[test]
fn session_row_is_decoded_with_its_agents() {
    let agent: Agent = agent_from_row(agent_row("active")).unwrap();
    let session = session_from_row(session_row("waiting_input"), vec![agent]).unwrap();
    assert_eq!(session.id, 0x550e8400e29b41d4a716446655440000);
    assert_eq!(session.session_id, "s1");
    assert_eq!(session.project_path, "/work/app");
    assert_eq!(session.project_name, "app");
    assert_eq!(session.status, Status::WaitingInput);
    assert_eq!(session.created_at, 1_662_921_288_000_000);
    assert_eq!(session.updated_at, 1_662_921_289_250_000);
    assert_eq!(session.agents.len(), 1);
    assert_eq!(session.agents[0].agent_name, "main");
}

#[test]
fn row_with_an_unknown_status_is_no_row() {
    assert!(agent_from_row(agent_row("paused")).is_none());
    assert!(agent_from_row(agent_row("")).is_none());
    assert!(session_from_row(session_row("ACTIVE"), Vec::new()).is_none());
}

#[test]
fn row_with_unreadable_columns_gets_replacements() {
    let mut row = session_row("idle");
    row.id = "?".to_string();
    row.created_at = "?".to_string();
    let session = session_from_row(row, Vec::new()).unwrap();
    assert!(is_version_4(session.id));
    assert!(session.created_at > 1_600_000_000_000_000);
    assert_eq!(session.updated_at, 1_662_921_289_250_000);
}

#[test]
fn fresh_stamps_are_random_and_timed() {
    let first = WriteStamp::fresh();
    let second = WriteStamp::fresh();
    assert!(is_version_4(first.id));
    assert!(is_version_4(second.id));
    assert_ne!(first.id, second.id);
    assert!(first.now > 1_600_000_000_000_000);
    assert!(second.now > 1_600_000_000_000_000);
    let three = EventStamps::fresh();
    assert!(is_version_4(three.session.id));
    assert!(is_version_4(three.agent.id));
    assert!(is_version_4(three.event.id));
    assert_ne!(three.session.id, three.agent.id);
    assert_ne!(three.agent.id, three.event.id);
    assert!(three.session.now > 1_600_000_000_000_000);
    assert!(three.agent.now > 1_600_000_000_000_000);
    assert!(three.event.now > 1_600_000_000_000_000);
}

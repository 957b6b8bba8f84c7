use session_monitor::models::{clone_text, Agent, Event, Session, Status};

const ALL: [Status; 5] = [
    Status::Active,
    Status::Idle,
    Status::WaitingInput,
    Status::NeedsPermission,
    Status::Completed,
];

#[test]
fn statuses_have_their_names() {
    assert_eq!(Status::Active.as_str(), "active");
    assert_eq!(Status::Idle.as_str(), "idle");
    assert_eq!(Status::WaitingInput.as_str(), "waiting_input");
    assert_eq!(Status::NeedsPermission.as_str(), "needs_permission");
    assert_eq!(Status::Completed.as_str(), "completed");
}

#[test]
fn status_is_read_back_from_its_name() {
    for status in ALL {
        assert_eq!(Status::parse(status.as_str()), Some(status));
    }
}

#[test]
fn other_names_are_no_status() {
    for name in ["", "Active", "active ", "done", "waiting", "needs permission"] {
        assert_eq!(Status::parse(name), None);
    }
}

#[test]
fn only_completed_is_terminal() {
    for status in ALL {
        assert_eq!(status.is_completed(), status == Status::Completed);
    }
}

#[test]
fn clones_keep_every_field() {
    let session = Session {
        id: 1,
        session_id: "s1".to_string(),
        project_path: "/p".to_string(),
        project_name: "p".to_string(),
        status: Status::Idle,
        created_at: 2,
        updated_at: 3,
    };
    let copy = session.clone();
    assert_eq!(copy.id, 1);
    assert_eq!(copy.session_id, "s1");
    assert_eq!(copy.project_path, "/p");
    assert_eq!(copy.project_name, "p");
    assert_eq!(copy.status, Status::Idle);
    assert_eq!((copy.created_at, copy.updated_at), (2, 3));

    let agent = Agent {
        id: 4,
        session_id: "s1".to_string(),
        agent_name: "main".to_string(),
        parent_session_id: Some("s0".to_string()),
        status: Status::Active,
        created_at: 5,
        updated_at: 6,
    };
    let copy = agent.clone();
    assert_eq!(copy.id, 4);
    assert_eq!(copy.agent_name, "main");
    assert_eq!(copy.parent_session_id.as_deref(), Some("s0"));
    assert_eq!((copy.created_at, copy.updated_at), (5, 6));

    let event = Event {
        id: 7,
        session_id: "s1".to_string(),
        agent_name: None,
        event_type: "stop".to_string(),
        payload: "{}".to_string(),
        timestamp: 8,
    };
    let copy = event.clone();
    assert_eq!(copy.id, 7);
    assert_eq!(copy.agent_name, None);
    assert_eq!(copy.event_type, "stop");
    assert_eq!(copy.payload, "{}");
    assert_eq!(copy.timestamp, 8);
}

#[test]
fn optional_text_is_copied() {
    assert_eq!(clone_text(&None), None);
    assert_eq!(clone_text(&Some("x".to_string())).as_deref(), Some("x"));
}

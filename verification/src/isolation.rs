//! Sessions are isolated from one another: an event changes nothing of
//! another session, and what a run of events leaves of a session is what the
//! session's own events leave of it.

use vstd::prelude::*;
use crate::api::{after_event, EventKind};
use crate::filters::{lemma_filter_skips_inserted, lemma_filter_untouched};
use crate::invariants::{lemma_agent_slot_exists, lemma_session_slot_exists};
use crate::lookup::{
    lemma_find_agent_none, lemma_find_session_none, lemma_transition_lookup,
    lemma_upsert_agent_lookup, lemma_upsert_session_lookup,
};
use crate::models::{AgentView, EventView, HookEventView, SessionView, Status};
use crate::stamp::{EventStamps, WriteStamp};
use crate::tables::{
    agent_slot, agent_transition, agent_update, belongs_to, new_agent, new_event, new_session,
    session_slot, session_transition, session_update, StoreView,
};

verus! {

/// An event changes nothing of another session: the session and each of its
/// agents are found as they were, and the session has the agents it had,
/// whether the event is accepted or refused.
pub proof fn law_events_leave_other_sessions_alone(
    store: StoreView,
    event: HookEventView,
    stamps: EventStamps,
    other: Seq<char>,
    agent_name: Seq<char>,
)
    requires
        other != event.session_id,
    ensures
        after_event(store, event, stamps).0.session(other) == store.session(other),
        after_event(store, event, stamps).0.agent(other, agent_name) == store.agent(
            other,
            agent_name,
        ),
        after_event(store, event, stamps).0.agents_of(other) == store.agents_of(other),
{
    let kind = event.kind();
    let sid = event.session_id;
    if kind == EventKind::Stop || kind == EventKind::SessionEnd {
        let from = if kind == EventKind::Stop {
            Some(Status::Active)
        } else {
            None
        };
        let to = if kind == EventKind::Stop {
            Status::Idle
        } else {
            Status::Completed
        };
        let now = stamps.session.now;
        lemma_transition_lookup(store, sid, from, to, now, other, agent_name);
        lemma_filter_untouched(
            store.agents,
            agent_transition(sid, from, to, now),
            belongs_to(other),
        );
    } else {
        lemma_upsert_session_lookup(
            store,
            stamps.session,
            sid,
            event.path(),
            event.name(),
            kind.session_status(),
            other,
        );
        match store.upsert_session(
            stamps.session,
            sid,
            event.path(),
            event.name(),
            kind.session_status(),
        ) {
            Ok(with_session) => {
                lemma_upsert_agent_lookup(
                    with_session,
                    stamps.agent,
                    sid,
                    event.agent(),
                    event.parent_session_id,
                    kind.agent_status(),
                    other,
                    agent_name,
                );
            },
            Err(_) => {},
        }
    }
}

/// A guarded transition changes no identifier.
pub proof fn lemma_transition_identifiers(
    store: StoreView,
    session_id: Seq<char>,
    from: Option<Status>,
    to: Status,
    now: i64,
    id: u128,
)
    ensures
        store.transition(session_id, from, to, now).session_id_in_use(id)
            == store.session_id_in_use(id),
        store.transition(session_id, from, to, now).agent_id_in_use(id) == store.agent_id_in_use(
            id,
        ),
{
    let after = store.transition(session_id, from, to, now);
    if store.session_id_in_use(id) {
        let i = choose|i: int|
            0 <= i < store.sessions.len() && (#[trigger] store.sessions[i]).id == id;
        assert(after.sessions[i].id == id);
    }
    if after.session_id_in_use(id) {
        let i = choose|i: int|
            0 <= i < after.sessions.len() && (#[trigger] after.sessions[i]).id == id;
    }
    if store.agent_id_in_use(id) {
        let i = choose|i: int| 0 <= i < store.agents.len() && (#[trigger] store.agents[i]).id == id;
        assert(after.agents[i].id == id);
    }
}

/// An upsert of a session takes no identifier out of the sessions table, and
/// brings in that of its stamp exactly where the session is new.
pub proof fn lemma_upsert_session_identifiers(
    store: StoreView,
    stamp: WriteStamp,
    session_id: Seq<char>,
    project_path: Seq<char>,
    project_name: Seq<char>,
    status: Status,
    id: u128,
)
    ensures
        store.upsert_session(stamp, session_id, project_path, project_name, status) matches Ok(
            after,
        ) ==> after.session_id_in_use(id) == (store.session_id_in_use(id) || (id == stamp.id
            && !store.has_session(session_id))),
{
    match store.upsert_session(stamp, session_id, project_path, project_name, status) {
        Ok(after) => {
            if store.has_session(session_id) {
                if store.session_id_in_use(id) {
                    let i = choose|i: int|
                        0 <= i < store.sessions.len() && (#[trigger] store.sessions[i]).id == id;
                    assert(after.sessions[i].id == id);
                }
                if after.session_id_in_use(id) {
                    let i = choose|i: int|
                        0 <= i < after.sessions.len() && (#[trigger] after.sessions[i]).id == id;
                }
            } else {
                lemma_session_slot_exists(store.sessions, stamp.now);
                let slot = session_slot(store.sessions, stamp.now);
                assert(after.sessions[slot].id == stamp.id);
                if store.session_id_in_use(id) {
                    let i = choose|i: int|
                        0 <= i < store.sessions.len() && (#[trigger] store.sessions[i]).id == id;
                    let moved = if i < slot { i } else { i + 1 };
                    assert(after.sessions[moved] == store.sessions[i]);
                }
            }
        },
        Err(_) => {},
    }
}

/// An upsert of an agent takes no identifier out of the agents table, and
/// brings in that of its stamp exactly where the agent is new.
pub proof fn lemma_upsert_agent_identifiers(
    store: StoreView,
    stamp: WriteStamp,
    session_id: Seq<char>,
    agent_name: Seq<char>,
    parent_session_id: Option<Seq<char>>,
    status: Status,
    id: u128,
)
    ensures
        store.upsert_agent(stamp, session_id, agent_name, parent_session_id, status) matches Ok(
            after,
        ) ==> after.agent_id_in_use(id) == (store.agent_id_in_use(id) || (id == stamp.id
            && !store.has_agent(session_id, agent_name))),
{
    match store.upsert_agent(stamp, session_id, agent_name, parent_session_id, status) {
        Ok(after) => {
            if store.has_agent(session_id, agent_name) {
                if store.agent_id_in_use(id) {
                    let i = choose|i: int|
                        0 <= i < store.agents.len() && (#[trigger] store.agents[i]).id == id;
                    assert(after.agents[i].id == id);
                }
                if after.agent_id_in_use(id) {
                    let i = choose|i: int|
                        0 <= i < after.agents.len() && (#[trigger] after.agents[i]).id == id;
                }
            } else {
                lemma_agent_slot_exists(store.agents, stamp.now);
                let slot = agent_slot(store.agents, stamp.now);
                assert(after.agents[slot].id == stamp.id);
                if store.agent_id_in_use(id) {
                    let i = choose|i: int|
                        0 <= i < store.agents.len() && (#[trigger] store.agents[i]).id == id;
                    let moved = if i < slot { i } else { i + 1 };
                    assert(after.agents[moved] == store.agents[i]);
                }
            }
        },
        Err(_) => {},
    }
}

/// Whether the session upsert of an event goes through: the session exists,
/// or the stamp's identifier is free.
pub open spec fn session_step_passes(
    store: StoreView,
    event: HookEventView,
    stamps: EventStamps,
) -> bool {
    store.has_session(event.session_id) || !store.session_id_in_use(stamps.session.id)
}

/// An event takes no identifier out of the sessions and agents tables, and
/// brings in that of a stamp exactly where it asks for a new row: a session
/// that the store does not hold, or, once the session is there, an agent
/// that the store does not hold.
pub proof fn lemma_event_identifiers(
    store: StoreView,
    event: HookEventView,
    stamps: EventStamps,
    id: u128,
)
    ensures
        after_event(store, event, stamps).0.session_id_in_use(id) == (store.session_id_in_use(id)
            || (id == stamps.session.id && event.kind() != EventKind::Stop && event.kind()
            != EventKind::SessionEnd && !store.has_session(event.session_id))),
        after_event(store, event, stamps).0.agent_id_in_use(id) == (store.agent_id_in_use(id) || (
        id == stamps.agent.id && event.kind() != EventKind::Stop && event.kind()
            != EventKind::SessionEnd && session_step_passes(store, event, stamps)
            && !store.has_agent(event.session_id, event.agent()))),
{
    let kind = event.kind();
    let sid = event.session_id;
    if kind == EventKind::Stop {
        lemma_transition_identifiers(
            store,
            sid,
            Some(Status::Active),
            Status::Idle,
            stamps.session.now,
            id,
        );
    } else if kind == EventKind::SessionEnd {
        lemma_transition_identifiers(store, sid, None, Status::Completed, stamps.session.now, id);
    } else {
        lemma_upsert_session_identifiers(
            store,
            stamps.session,
            sid,
            event.path(),
            event.name(),
            kind.session_status(),
            id,
        );
        match store.upsert_session(
            stamps.session,
            sid,
            event.path(),
            event.name(),
            kind.session_status(),
        ) {
            Ok(with_session) => {
                lemma_upsert_session_lookup(
                    store,
                    stamps.session,
                    sid,
                    event.path(),
                    event.name(),
                    kind.session_status(),
                    sid,
                );
                lemma_upsert_agent_identifiers(
                    with_session,
                    stamps.agent,
                    sid,
                    event.agent(),
                    event.parent_session_id,
                    kind.agent_status(),
                    id,
                );
            },
            Err(_) => {},
        }
    }
}

/// Whether an event is accepted, and what it leaves of its session and of an
/// agent of its session, depends on the store only through the rows of that
/// session, of that agent and of the event's own agent, and, where the
/// event asks for a new row, through whether the stamp's identifier for that
/// row is in use.
pub proof fn lemma_event_is_local(
    one: StoreView,
    other: StoreView,
    event: HookEventView,
    stamps: EventStamps,
    agent_name: Seq<char>,
)
    requires
        one.session(event.session_id) == other.session(event.session_id),
        one.agent(event.session_id, event.agent()) == other.agent(event.session_id, event.agent()),
        one.agent(event.session_id, agent_name) == other.agent(event.session_id, agent_name),
        event.kind() == EventKind::Stop || event.kind() == EventKind::SessionEnd || one.has_session(
            event.session_id,
        ) || one.session_id_in_use(stamps.session.id) == other.session_id_in_use(
            stamps.session.id,
        ),
        event.kind() == EventKind::Stop || event.kind() == EventKind::SessionEnd || one.has_agent(
            event.session_id,
            event.agent(),
        ) || one.agent_id_in_use(stamps.agent.id) == other.agent_id_in_use(stamps.agent.id),
    ensures
        after_event(one, event, stamps).1 == after_event(other, event, stamps).1,
        after_event(one, event, stamps).0.session(event.session_id) == after_event(
            other,
            event,
            stamps,
        ).0.session(event.session_id),
        after_event(one, event, stamps).0.agent(event.session_id, agent_name) == after_event(
            other,
            event,
            stamps,
        ).0.agent(event.session_id, agent_name),
{
    let kind = event.kind();
    let sid = event.session_id;
    lemma_find_session_none(one.sessions, sid);
    lemma_find_session_none(other.sessions, sid);
    lemma_find_agent_none(one.agents, sid, event.agent());
    lemma_find_agent_none(other.agents, sid, event.agent());
    if kind == EventKind::Stop || kind == EventKind::SessionEnd {
        let from = if kind == EventKind::Stop {
            Some(Status::Active)
        } else {
            None
        };
        let to = if kind == EventKind::Stop {
            Status::Idle
        } else {
            Status::Completed
        };
        lemma_transition_lookup(one, sid, from, to, stamps.session.now, sid, agent_name);
        lemma_transition_lookup(other, sid, from, to, stamps.session.now, sid, agent_name);
    } else {
        lemma_upsert_session_lookup(
            one,
            stamps.session,
            sid,
            event.path(),
            event.name(),
            kind.session_status(),
            sid,
        );
        lemma_upsert_session_lookup(
            other,
            stamps.session,
            sid,
            event.path(),
            event.name(),
            kind.session_status(),
            sid,
        );
        let one_next = one.upsert_session(
            stamps.session,
            sid,
            event.path(),
            event.name(),
            kind.session_status(),
        );
        let other_next = other.upsert_session(
            stamps.session,
            sid,
            event.path(),
            event.name(),
            kind.session_status(),
        );
        if one_next is Ok {
            let one_with = one_next->Ok_0;
            let other_with = other_next->Ok_0;
            lemma_upsert_agent_lookup(
                one_with,
                stamps.agent,
                sid,
                event.agent(),
                event.parent_session_id,
                kind.agent_status(),
                sid,
                agent_name,
            );
            lemma_upsert_agent_lookup(
                other_with,
                stamps.agent,
                sid,
                event.agent(),
                event.parent_session_id,
                kind.agent_status(),
                sid,
                agent_name,
            );
        }
    }
}

/// Two events of different sessions, stamped with different identifiers, do
/// not interfere. Handled one after the other, in either order, each is
/// accepted or refused as it would be alone, and each session and agent ends
/// as its own event alone leaves it.
pub proof fn law_events_of_two_sessions_commute(
    store: StoreView,
    first: HookEventView,
    second: HookEventView,
    first_stamps: EventStamps,
    second_stamps: EventStamps,
)
    requires
        first.session_id != second.session_id,
        first_stamps.session.id != second_stamps.session.id,
        first_stamps.agent.id != second_stamps.agent.id,
    ensures
        after_event(after_event(store, first, first_stamps).0, second, second_stamps).1
            == after_event(store, second, second_stamps).1,
        after_event(after_event(store, second, second_stamps).0, first, first_stamps).1
            == after_event(store, first, first_stamps).1,
        after_event(after_event(store, first, first_stamps).0, second, second_stamps).0.session(
            first.session_id,
        ) == after_event(store, first, first_stamps).0.session(first.session_id),
        after_event(after_event(store, first, first_stamps).0, second, second_stamps).0.session(
            second.session_id,
        ) == after_event(store, second, second_stamps).0.session(second.session_id),
        after_event(after_event(store, second, second_stamps).0, first, first_stamps).0.session(
            first.session_id,
        ) == after_event(store, first, first_stamps).0.session(first.session_id),
        after_event(after_event(store, second, second_stamps).0, first, first_stamps).0.session(
            second.session_id,
        ) == after_event(store, second, second_stamps).0.session(second.session_id),
        after_event(after_event(store, first, first_stamps).0, second, second_stamps).0.agent(
            first.session_id,
            first.agent(),
        ) == after_event(after_event(store, second, second_stamps).0, first, first_stamps).0.agent(
            first.session_id,
            first.agent(),
        ),
        after_event(after_event(store, first, first_stamps).0, second, second_stamps).0.agent(
            second.session_id,
            second.agent(),
        ) == after_event(after_event(store, second, second_stamps).0, first, first_stamps).0.agent(
            second.session_id,
            second.agent(),
        ),
{
    let after_first = after_event(store, first, first_stamps).0;
    let after_second = after_event(store, second, second_stamps).0;
    law_events_leave_other_sessions_alone(
        store,
        first,
        first_stamps,
        second.session_id,
        second.agent(),
    );
    law_events_leave_other_sessions_alone(
        store,
        second,
        second_stamps,
        first.session_id,
        first.agent(),
    );
    law_events_leave_other_sessions_alone(
        after_first,
        second,
        second_stamps,
        first.session_id,
        first.agent(),
    );
    law_events_leave_other_sessions_alone(
        after_second,
        first,
        first_stamps,
        second.session_id,
        second.agent(),
    );
    lemma_event_identifiers(store, first, first_stamps, second_stamps.session.id);
    lemma_event_identifiers(store, first, first_stamps, second_stamps.agent.id);
    lemma_event_identifiers(store, second, second_stamps, first_stamps.session.id);
    lemma_event_identifiers(store, second, second_stamps, first_stamps.agent.id);
    lemma_event_is_local(store, after_first, second, second_stamps, second.agent());
    lemma_event_is_local(store, after_second, first, first_stamps, first.agent());
}

/// A hook event with the stamps that it is handled with.
pub struct Stamped {
    pub event: HookEventView,
    pub stamps: EventStamps,
}

/// The store after a sequence of events, handled in order.
pub open spec fn after_events(store: StoreView, events: Seq<Stamped>) -> StoreView
    decreases events.len(),
{
    if events.len() == 0 {
        store
    } else {
        after_event(
            after_events(store, events.drop_last()),
            events.last().event,
            events.last().stamps,
        ).0
    }
}

/// The events of one session.
pub open spec fn of_session(session_id: Seq<char>) -> spec_fn(Stamped) -> bool {
    |stamped: Stamped| stamped.event.session_id == session_id
}

/// No event of the session is stamped with an identifier that an event of
/// another session is stamped with for the same table.
pub open spec fn stamped_apart(events: Seq<Stamped>, session_id: Seq<char>) -> bool {
    forall|i: int, j: int|
        #![trigger events[i], events[j]]
        0 <= i < events.len() && 0 <= j < events.len() && events[i].event.session_id == session_id
            && events[j].event.session_id != session_id ==> events[i].stamps.session.id
            != events[j].stamps.session.id && events[i].stamps.agent.id
            != events[j].stamps.agent.id
}

/// An event of another session is stamped with this identifier for the
/// sessions table.
pub open spec fn is_foreign_session_id(
    events: Seq<Stamped>,
    session_id: Seq<char>,
    id: u128,
) -> bool {
    exists|j: int|
        0 <= j < events.len() && (#[trigger] events[j]).event.session_id != session_id
            && events[j].stamps.session.id == id
}

/// An event of another session is stamped with this identifier for the
/// agents table.
pub open spec fn is_foreign_agent_id(events: Seq<Stamped>, session_id: Seq<char>, id: u128) -> bool {
    exists|j: int|
        0 <= j < events.len() && (#[trigger] events[j]).event.session_id != session_id
            && events[j].stamps.agent.id == id
}

/// What a sequence of events leaves of one session is what the events of
/// that session alone leave of it, together with which identifiers are in
/// use, but for those that events of other sessions brought.
pub proof fn lemma_interleaving(store: StoreView, events: Seq<Stamped>, session_id: Seq<char>)
    requires
        stamped_apart(events, session_id),
    ensures
        after_events(store, events).session(session_id) == after_events(
            store,
            events.filter(of_session(session_id)),
        ).session(session_id),
        forall|agent_name: Seq<char>|
            #[trigger] after_events(store, events).agent(session_id, agent_name) == after_events(
                store,
                events.filter(of_session(session_id)),
            ).agent(session_id, agent_name),
        forall|id: u128|
            !is_foreign_session_id(events, session_id, id) ==> #[trigger] after_events(
                store,
                events,
            ).session_id_in_use(id) == after_events(
                store,
                events.filter(of_session(session_id)),
            ).session_id_in_use(id),
        forall|id: u128|
            !is_foreign_agent_id(events, session_id, id) ==> #[trigger] after_events(
                store,
                events,
            ).agent_id_in_use(id) == after_events(
                store,
                events.filter(of_session(session_id)),
            ).agent_id_in_use(id),
    decreases events.len(),
{
    reveal(Seq::filter);
    let own = events.filter(of_session(session_id));
    if events.len() > 0 {
        let front = events.drop_last();
        let last = events.last();
        let own_front = front.filter(of_session(session_id));
        assert(stamped_apart(front, session_id)) by {
        }
        lemma_interleaving(store, front, session_id);
        let all_before = after_events(store, front);
        let own_before = after_events(store, own_front);
        let all_after = after_events(store, events);
        let own_after = after_events(store, own);
        assert forall|id: u128| is_foreign_session_id(front, session_id, id) implies
            is_foreign_session_id(events, session_id, id) by {
        }
        assert forall|id: u128| is_foreign_agent_id(front, session_id, id) implies
            is_foreign_agent_id(events, session_id, id) by {
        }
        if last.event.session_id == session_id {
            assert(own.drop_last() == own_front);
            lemma_event_is_local(
                all_before,
                own_before,
                last.event,
                last.stamps,
                last.event.agent(),
            );
            assert forall|agent_name: Seq<char>| #[trigger]
                all_after.agent(session_id, agent_name) == own_after.agent(
                    session_id,
                    agent_name,
                ) by {
                lemma_event_is_local(all_before, own_before, last.event, last.stamps, agent_name);
            }
            assert forall|id: u128|
                !is_foreign_session_id(events, session_id, id) implies #[trigger]
                all_after.session_id_in_use(id) == own_after.session_id_in_use(id) by {
                lemma_event_identifiers(all_before, last.event, last.stamps, id);
                lemma_event_identifiers(own_before, last.event, last.stamps, id);
                lemma_find_session_none(all_before.sessions, session_id);
                lemma_find_session_none(own_before.sessions, session_id);
            }
            assert forall|id: u128|
                !is_foreign_agent_id(events, session_id, id) implies #[trigger]
                all_after.agent_id_in_use(id) == own_after.agent_id_in_use(id) by {
                lemma_event_identifiers(all_before, last.event, last.stamps, id);
                lemma_event_identifiers(own_before, last.event, last.stamps, id);
                lemma_find_session_none(all_before.sessions, session_id);
                lemma_find_agent_none(all_before.agents, session_id, last.event.agent());
                lemma_find_agent_none(own_before.agents, session_id, last.event.agent());
            }
        } else {
            law_events_leave_other_sessions_alone(
                all_before,
                last.event,
                last.stamps,
                session_id,
                session_id,
            );
            assert forall|agent_name: Seq<char>| #[trigger]
                all_after.agent(session_id, agent_name) == own_after.agent(
                    session_id,
                    agent_name,
                ) by {
                law_events_leave_other_sessions_alone(
                    all_before,
                    last.event,
                    last.stamps,
                    session_id,
                    agent_name,
                );
            }
            assert forall|id: u128|
                !is_foreign_session_id(events, session_id, id) implies #[trigger]
                all_after.session_id_in_use(id) == own_after.session_id_in_use(id) by {
                lemma_event_identifiers(all_before, last.event, last.stamps, id);
            }
            assert forall|id: u128|
                !is_foreign_agent_id(events, session_id, id) implies #[trigger]
                all_after.agent_id_in_use(id) == own_after.agent_id_in_use(id) by {
                lemma_event_identifiers(all_before, last.event, last.stamps, id);
            }
        }
    }
}

/// Events of different sessions never interfere: however the events of a
/// session are interleaved with those of other sessions, the session and
/// each of its agents end as the session's own events leave them, handled
/// alone in the order in which they arrived. This holds where no event of
/// the session shares a stamp identifier with an event of another session.
pub proof fn law_sessions_do_not_interfere(
    store: StoreView,
    events: Seq<Stamped>,
    session_id: Seq<char>,
    agent_name: Seq<char>,
)
    requires
        stamped_apart(events, session_id),
    ensures
        after_events(store, events).session(session_id) == after_events(
            store,
            events.filter(of_session(session_id)),
        ).session(session_id),
        after_events(store, events).agent(session_id, agent_name) == after_events(
            store,
            events.filter(of_session(session_id)),
        ).agent(session_id, agent_name),
{
    lemma_interleaving(store, events, session_id);
}

/// The rows of sessions other than this one.
pub open spec fn other_sessions(session_id: Seq<char>) -> spec_fn(SessionView) -> bool {
    |row: SessionView| row.session_id != session_id
}

/// The rows of agents of sessions other than this one.
pub open spec fn other_agents(session_id: Seq<char>) -> spec_fn(AgentView) -> bool {
    |row: AgentView| row.session_id != session_id
}

/// The log entries of sessions other than this one.
pub open spec fn other_events(session_id: Seq<char>) -> spec_fn(EventView) -> bool {
    |row: EventView| row.session_id != session_id
}

/// Every row of the three tables that belongs to another session is as it
/// was, and in its place among such rows.
pub open spec fn others_untouched(
    before: StoreView,
    after: StoreView,
    session_id: Seq<char>,
) -> bool {
    &&& after.sessions.filter(other_sessions(session_id)) == before.sessions.filter(
        other_sessions(session_id),
    )
    &&& after.agents.filter(other_agents(session_id)) == before.agents.filter(
        other_agents(session_id),
    )
    &&& after.events.filter(other_events(session_id)) == before.events.filter(
        other_events(session_id),
    )
}

/// An event touches the rows of its own session only: every session row,
/// agent row and log entry of another session is as it was, whether the
/// event is accepted or refused and whatever its stamps.
pub proof fn law_events_touch_their_own_rows_only(
    store: StoreView,
    event: HookEventView,
    stamps: EventStamps,
)
    ensures
        others_untouched(store, after_event(store, event, stamps).0, event.session_id),
{
    let kind = event.kind();
    let sid = event.session_id;
    let after = after_event(store, event, stamps).0;
    let entry = new_event(stamps.event, sid, Some(event.agent()), event.event_type, event.payload());
    if after.events != store.events {
        assert(store.events.push(entry) =~= store.events.insert(store.events.len() as int, entry));
        lemma_filter_skips_inserted(
            store.events,
            store.events.len() as int,
            entry,
            other_events(sid),
        );
    }
    if kind == EventKind::Stop || kind == EventKind::SessionEnd {
        let from = if kind == EventKind::Stop {
            Some(Status::Active)
        } else {
            None
        };
        let to = if kind == EventKind::Stop {
            Status::Idle
        } else {
            Status::Completed
        };
        let now = stamps.session.now;
        lemma_filter_untouched(
            store.sessions,
            session_transition(sid, from, to, now),
            other_sessions(sid),
        );
        lemma_filter_untouched(store.agents, agent_transition(sid, from, to, now), other_agents(sid));
    } else {
        match store.upsert_session(
            stamps.session,
            sid,
            event.path(),
            event.name(),
            kind.session_status(),
        ) {
            Ok(with_session) => {
                if store.has_session(sid) {
                    lemma_filter_untouched(
                        store.sessions,
                        session_update(
                            sid,
                            event.path(),
                            event.name(),
                            kind.session_status(),
                            stamps.session.now,
                        ),
                        other_sessions(sid),
                    );
                } else {
                    lemma_session_slot_exists(store.sessions, stamps.session.now);
                    lemma_filter_skips_inserted(
                        store.sessions,
                        session_slot(store.sessions, stamps.session.now),
                        new_session(
                            stamps.session,
                            sid,
                            event.path(),
                            event.name(),
                            kind.session_status(),
                        ),
                        other_sessions(sid),
                    );
                }
                match with_session.upsert_agent(
                    stamps.agent,
                    sid,
                    event.agent(),
                    event.parent_session_id,
                    kind.agent_status(),
                ) {
                    Ok(with_agent) => {
                        if with_session.has_agent(sid, event.agent()) {
                            lemma_filter_untouched(
                                store.agents,
                                agent_update(
                                    sid,
                                    event.agent(),
                                    event.parent_session_id,
                                    kind.agent_status(),
                                    stamps.agent.now,
                                ),
                                other_agents(sid),
                            );
                        } else {
                            lemma_agent_slot_exists(store.agents, stamps.agent.now);
                            lemma_filter_skips_inserted(
                                store.agents,
                                agent_slot(store.agents, stamps.agent.now),
                                new_agent(
                                    stamps.agent,
                                    sid,
                                    event.agent(),
                                    event.parent_session_id,
                                    kind.agent_status(),
                                ),
                                other_agents(sid),
                            );
                        }
                    },
                    Err(_) => {},
                }
            },
            Err(_) => {},
        }
    }
}

/// No event of the sequence meets a storage fault: each is accepted by the
/// store that the events before it left.
pub open spec fn all_accepted(store: StoreView, events: Seq<Stamped>) -> bool
    decreases events.len(),
{
    events.len() == 0 || (all_accepted(store, events.drop_last()) && after_event(
        after_events(store, events.drop_last()),
        events.last().event,
        events.last().stamps,
    ).1 is Ok)
}

/// Where no event of a sequence is refused, what the sequence leaves of one
/// session is what the events of that session alone leave of it, none of
/// them is refused alone either, and alone they bring no identifier into
/// use that the whole sequence does not.
pub proof fn lemma_faultless_interleaving(
    store: StoreView,
    events: Seq<Stamped>,
    session_id: Seq<char>,
)
    requires
        all_accepted(store, events),
    ensures
        all_accepted(store, events.filter(of_session(session_id))),
        after_events(store, events).session(session_id) == after_events(
            store,
            events.filter(of_session(session_id)),
        ).session(session_id),
        forall|agent_name: Seq<char>|
            #[trigger] after_events(store, events).agent(session_id, agent_name) == after_events(
                store,
                events.filter(of_session(session_id)),
            ).agent(session_id, agent_name),
        forall|id: u128|
            #[trigger] after_events(
                store,
                events.filter(of_session(session_id)),
            ).session_id_in_use(id) ==> after_events(store, events).session_id_in_use(id),
        forall|id: u128|
            #[trigger] after_events(store, events.filter(of_session(session_id))).agent_id_in_use(
                id,
            ) ==> after_events(store, events).agent_id_in_use(id),
    decreases events.len(),
{
    reveal(Seq::filter);
    let own = events.filter(of_session(session_id));
    if events.len() > 0 {
        let front = events.drop_last();
        let last = events.last();
        let own_front = front.filter(of_session(session_id));
        lemma_faultless_interleaving(store, front, session_id);
        let all_before = after_events(store, front);
        let own_before = after_events(store, own_front);
        let all_after = after_events(store, events);
        let own_after = after_events(store, own);
        if last.event.session_id == session_id {
            assert(own.drop_last() == own_front);
            lemma_find_session_none(all_before.sessions, session_id);
            lemma_find_agent_none(all_before.agents, session_id, last.event.agent());
            lemma_event_is_local(
                all_before,
                own_before,
                last.event,
                last.stamps,
                last.event.agent(),
            );
            assert forall|agent_name: Seq<char>| #[trigger]
                all_after.agent(session_id, agent_name) == own_after.agent(
                    session_id,
                    agent_name,
                ) by {
                lemma_event_is_local(all_before, own_before, last.event, last.stamps, agent_name);
            }
            assert forall|id: u128| #[trigger]
                own_after.session_id_in_use(id) implies all_after.session_id_in_use(id) by {
                lemma_event_identifiers(all_before, last.event, last.stamps, id);
                lemma_event_identifiers(own_before, last.event, last.stamps, id);
            }
            assert forall|id: u128| #[trigger]
                own_after.agent_id_in_use(id) implies all_after.agent_id_in_use(id) by {
                lemma_event_identifiers(all_before, last.event, last.stamps, id);
                lemma_event_identifiers(own_before, last.event, last.stamps, id);
            }
        } else {
            law_events_leave_other_sessions_alone(
                all_before,
                last.event,
                last.stamps,
                session_id,
                session_id,
            );
            assert forall|agent_name: Seq<char>| #[trigger]
                all_after.agent(session_id, agent_name) == own_after.agent(
                    session_id,
                    agent_name,
                ) by {
                law_events_leave_other_sessions_alone(
                    all_before,
                    last.event,
                    last.stamps,
                    session_id,
                    agent_name,
                );
            }
            assert forall|id: u128| #[trigger]
                own_after.session_id_in_use(id) implies all_after.session_id_in_use(id) by {
                lemma_event_identifiers(all_before, last.event, last.stamps, id);
            }
            assert forall|id: u128| #[trigger]
                own_after.agent_id_in_use(id) implies all_after.agent_id_in_use(id) by {
                lemma_event_identifiers(all_before, last.event, last.stamps, id);
            }
        }
    }
}

/// Events of different sessions never interfere where none meets a storage
/// fault: however the events of a session are interleaved with those of
/// other sessions, if every event is accepted then the session and each of
/// its agents end as the session's own events leave them, handled alone in
/// the order in which they arrived, and alone none of them is refused
/// either. Nothing is asked of the stamps.
pub proof fn law_faultless_sessions_do_not_interfere(
    store: StoreView,
    events: Seq<Stamped>,
    session_id: Seq<char>,
    agent_name: Seq<char>,
)
    requires
        all_accepted(store, events),
    ensures
        all_accepted(store, events.filter(of_session(session_id))),
        after_events(store, events).session(session_id) == after_events(
            store,
            events.filter(of_session(session_id)),
        ).session(session_id),
        after_events(store, events).agent(session_id, agent_name) == after_events(
            store,
            events.filter(of_session(session_id)),
        ).agent(session_id, agent_name),
{
    lemma_faultless_interleaving(store, events, session_id);
}

} // verus!

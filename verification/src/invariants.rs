//! The constraints of the tables are kept by every operation on them.

use vstd::prelude::*;
use crate::filters::{lemma_filter_keeps_order, lemma_filter_row};
use crate::models::{AgentView, SessionView, Status};
use crate::stamp::WriteStamp;
use crate::tables::{agent_slot, is_agent_slot, is_session_slot, session_slot, StoreView};

verus! {

/// A guarded transition changes no key, no identifier and no creation time,
/// so it keeps the constraints.
pub proof fn law_transition_keeps_constraints(
    store: StoreView,
    session_id: Seq<char>,
    from: Option<Status>,
    to: Status,
    now: i64,
)
    requires
        store.wf(),
    ensures
        store.transition(session_id, from, to, now).wf(),
{
    let after = store.transition(session_id, from, to, now);
    assert forall|i: int| 0 <= i < after.agents.len() implies after.has_session(
        (#[trigger] after.agents[i]).session_id,
    ) by {
        let j = choose|j: int|
            0 <= j < store.sessions.len() && (#[trigger] store.sessions[j]).session_id
                == store.agents[i].session_id;
        assert(after.sessions[j].session_id == after.agents[i].session_id);
    }
}

/// Every table has a slot for a session created at a given time.
pub proof fn lemma_session_slot_exists(rows: Seq<SessionView>, now: i64)
    ensures
        is_session_slot(rows, now, session_slot(rows, now)),
    decreases rows.len(),
{
    if rows.len() == 0 {
        assert(is_session_slot(rows, now, 0));
    } else {
        let front = rows.drop_last();
        lemma_session_slot_exists(front, now);
        let slot = session_slot(front, now);
        if slot < front.len() {
            assert forall|k: int| 0 <= k < slot implies (#[trigger] rows[k]).created_at > now by {
                assert(rows[k] == front[k]);
            }
            assert(is_session_slot(rows, now, slot));
        } else if rows.last().created_at <= now {
            assert forall|k: int| 0 <= k < slot implies (#[trigger] rows[k]).created_at > now by {
                assert(rows[k] == front[k]);
            }
            assert(is_session_slot(rows, now, slot));
        } else {
            assert forall|k: int| 0 <= k < rows.len() implies (#[trigger] rows[k]).created_at
                > now by {
                if k < slot {
                    assert(rows[k] == front[k]);
                }
            }
            assert(is_session_slot(rows, now, rows.len() as int));
        }
    }
}

/// Every table has a slot for an agent created at a given time.
pub proof fn lemma_agent_slot_exists(rows: Seq<AgentView>, now: i64)
    ensures
        is_agent_slot(rows, now, agent_slot(rows, now)),
    decreases rows.len(),
{
    if rows.len() == 0 {
        assert(is_agent_slot(rows, now, 0));
    } else {
        let front = rows.drop_last();
        lemma_agent_slot_exists(front, now);
        let slot = agent_slot(front, now);
        if slot < front.len() {
            assert forall|k: int| 0 <= k < slot implies (#[trigger] rows[k]).created_at <= now by {
                assert(rows[k] == front[k]);
            }
            assert(is_agent_slot(rows, now, slot));
        } else if rows.last().created_at > now {
            assert forall|k: int| 0 <= k < slot implies (#[trigger] rows[k]).created_at <= now by {
                assert(rows[k] == front[k]);
            }
            assert(is_agent_slot(rows, now, slot));
        } else {
            assert forall|k: int| 0 <= k < rows.len() implies (#[trigger] rows[k]).created_at
                <= now by {
                if k < slot {
                    assert(rows[k] == front[k]);
                }
            }
            assert(is_agent_slot(rows, now, rows.len() as int));
        }
    }
}

/// An upsert of a session keeps the constraints: an existing session keeps
/// its key, its identifier and its place, and a new one has a key and an
/// identifier that no row has, and goes where its creation time belongs.
pub proof fn law_upsert_session_keeps_constraints(
    store: StoreView,
    stamp: WriteStamp,
    session_id: Seq<char>,
    project_path: Seq<char>,
    project_name: Seq<char>,
    status: Status,
)
    requires
        store.wf(),
    ensures
        store.upsert_session(stamp, session_id, project_path, project_name, status) matches Ok(
            after,
        ) ==> after.wf(),
{
    match store.upsert_session(stamp, session_id, project_path, project_name, status) {
        Ok(after) => {
            if store.has_session(session_id) {
                assert forall|i: int| 0 <= i < after.agents.len() implies after.has_session(
                    (#[trigger] after.agents[i]).session_id,
                ) by {
                    let j = choose|j: int|
                        0 <= j < store.sessions.len() && (#[trigger] store.sessions[j]).session_id
                            == store.agents[i].session_id;
                    assert(after.sessions[j].session_id == after.agents[i].session_id);
                }
            } else {
                lemma_session_slot_exists(store.sessions, stamp.now);
                let slot = session_slot(store.sessions, stamp.now);
                assert forall|k: int| slot <= k < store.sessions.len() implies (
                #[trigger] store.sessions[k]).created_at <= stamp.now by {
                }
                assert forall|i: int, j: int|
                    #![trigger after.sessions[i], after.sessions[j]]
                    0 <= i < j < after.sessions.len() implies {
                    &&& after.sessions[i].session_id != after.sessions[j].session_id
                    &&& after.sessions[i].id != after.sessions[j].id
                    &&& after.sessions[i].created_at >= after.sessions[j].created_at
                } by {
                }
                assert forall|i: int| 0 <= i < after.agents.len() implies after.has_session(
                    (#[trigger] after.agents[i]).session_id,
                ) by {
                    let j = choose|j: int|
                        0 <= j < store.sessions.len() && (#[trigger] store.sessions[j]).session_id
                            == store.agents[i].session_id;
                    let moved = if j < slot { j } else { j + 1 };
                    assert(after.sessions[moved] == store.sessions[j]);
                }
            }
        },
        Err(_) => {},
    }
}

/// An upsert of an agent keeps the constraints.
pub proof fn law_upsert_agent_keeps_constraints(
    store: StoreView,
    stamp: WriteStamp,
    session_id: Seq<char>,
    agent_name: Seq<char>,
    parent_session_id: Option<Seq<char>>,
    status: Status,
)
    requires
        store.wf(),
    ensures
        store.upsert_agent(stamp, session_id, agent_name, parent_session_id, status) matches Ok(
            after,
        ) ==> after.wf(),
{
    match store.upsert_agent(stamp, session_id, agent_name, parent_session_id, status) {
        Ok(after) => {
            if store.has_agent(session_id, agent_name) {
                assert forall|i: int| 0 <= i < after.agents.len() implies after.has_session(
                    (#[trigger] after.agents[i]).session_id,
                ) by {
                }
            } else {
                lemma_agent_slot_exists(store.agents, stamp.now);
                let slot = agent_slot(store.agents, stamp.now);
                assert forall|k: int| slot <= k < store.agents.len() implies (
                #[trigger] store.agents[k]).created_at > stamp.now by {
                }
                assert forall|i: int, j: int|
                    #![trigger after.agents[i], after.agents[j]]
                    0 <= i < j < after.agents.len() implies {
                    &&& (after.agents[i].session_id != after.agents[j].session_id
                        || after.agents[i].agent_name != after.agents[j].agent_name)
                    &&& after.agents[i].id != after.agents[j].id
                    &&& after.agents[i].created_at <= after.agents[j].created_at
                } by {
                }
                assert forall|i: int| 0 <= i < after.agents.len() implies after.has_session(
                    (#[trigger] after.agents[i]).session_id,
                ) by {
                }
            }
        },
        Err(_) => {},
    }
}

/// Logging an event keeps the constraints.
pub proof fn law_insert_event_keeps_constraints(
    store: StoreView,
    stamp: WriteStamp,
    session_id: Seq<char>,
    agent_name: Option<Seq<char>>,
    event_type: Seq<char>,
    payload: Seq<char>,
)
    requires
        store.wf(),
    ensures
        store.insert_event(stamp, session_id, agent_name, event_type, payload) matches Ok(after)
            ==> after.wf(),
{
    match store.insert_event(stamp, session_id, agent_name, event_type, payload) {
        Ok(after) => {
            assert forall|i: int| 0 <= i < after.agents.len() implies after.has_session(
                (#[trigger] after.agents[i]).session_id,
            ) by {
            }
        },
        Err(_) => {},
    }
}

/// The purge keeps the constraints: what stays keeps its order, and an agent
/// that stays belongs to a session that stays.
pub proof fn law_purge_keeps_constraints(store: StoreView, now: i64, ttl: u64)
    requires
        store.wf(),
    ensures
        store.purge_expired(now, ttl).wf(),
{
    let after = store.purge_expired(now, ttl);
    assert forall|i: int, j: int|
        #![trigger after.sessions[i], after.sessions[j]]
        0 <= i < j < after.sessions.len() implies {
        &&& after.sessions[i].session_id != after.sessions[j].session_id
        &&& after.sessions[i].id != after.sessions[j].id
        &&& after.sessions[i].created_at >= after.sessions[j].created_at
    } by {
        lemma_filter_keeps_order(store.sessions, store.session_survives(now, ttl), i, j);
    }
    assert forall|i: int, j: int|
        #![trigger after.agents[i], after.agents[j]]
        0 <= i < j < after.agents.len() implies {
        &&& (after.agents[i].session_id != after.agents[j].session_id || after.agents[i].agent_name
            != after.agents[j].agent_name)
        &&& after.agents[i].id != after.agents[j].id
        &&& after.agents[i].created_at <= after.agents[j].created_at
    } by {
        lemma_filter_keeps_order(store.agents, store.agent_survives(now, ttl), i, j);
    }
    assert forall|i: int, j: int|
        #![trigger after.events[i], after.events[j]]
        0 <= i < j < after.events.len() implies after.events[i].id != after.events[j].id by {
        lemma_filter_keeps_order(store.events, store.event_survives(now, ttl), i, j);
    }
    assert forall|i: int| 0 <= i < after.agents.len() implies after.has_session(
        (#[trigger] after.agents[i]).session_id,
    ) by {
        lemma_filter_row(store.agents, store.agent_survives(now, ttl), i);
        let a = choose|a: int|
            0 <= a < store.agents.len() && #[trigger] store.agents[a] == after.agents[i];
        let s = choose|s: int|
            0 <= s < store.sessions.len() && (#[trigger] store.sessions[s]).session_id
                == store.agents[a].session_id;
        store.sessions.lemma_filter_contains(store.session_survives(now, ttl), s);
    }
}

} // verus!

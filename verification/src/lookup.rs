//! Facts about looking a session or an agent up by its key, and about what
//! is found after an operation on the tables.

use vstd::prelude::*;
use crate::filters::{lemma_filter_skips_inserted, lemma_filter_untouched};
use crate::invariants::{lemma_agent_slot_exists, lemma_session_slot_exists};
use crate::models::{AgentView, SessionView, Status};
use crate::stamp::WriteStamp;
use crate::tables::{
    agent_slot, agent_transition, agent_update, belongs_to, find_agent, find_session,
    is_first_agent, is_first_session, new_agent, new_session, session_slot, session_transition,
    session_update, StoreView,
};

verus! {

/// Where a row with the session id stands at `at`, a first such row stands
/// at or before it.
pub proof fn lemma_first_session_exists(rows: Seq<SessionView>, session_id: Seq<char>, at: int)
    requires
        0 <= at < rows.len(),
        rows[at].session_id == session_id,
    ensures
        exists|i: int| is_first_session(rows, session_id, i) && i <= at,
    decreases at,
{
    if exists|k: int| 0 <= k < at && (#[trigger] rows[k]).session_id == session_id {
        let k = choose|k: int| 0 <= k < at && (#[trigger] rows[k]).session_id == session_id;
        lemma_first_session_exists(rows, session_id, k);
    } else {
        assert(is_first_session(rows, session_id, at));
    }
}

/// The lookup finds nothing exactly where no row has the session id.
pub proof fn lemma_find_session_none(rows: Seq<SessionView>, session_id: Seq<char>)
    ensures
        find_session(rows, session_id) is None <==> forall|k: int|
            0 <= k < rows.len() ==> (#[trigger] rows[k]).session_id != session_id,
{
    if exists|k: int| 0 <= k < rows.len() && (#[trigger] rows[k]).session_id == session_id {
        let k = choose|k: int| 0 <= k < rows.len() && (#[trigger] rows[k]).session_id == session_id;
        lemma_first_session_exists(rows, session_id, k);
    }
}

/// Where a row with the key stands at `at`, a first such row stands at or
/// before it.
pub proof fn lemma_first_agent_exists(
    rows: Seq<AgentView>,
    session_id: Seq<char>,
    agent_name: Seq<char>,
    at: int,
)
    requires
        0 <= at < rows.len(),
        rows[at].session_id == session_id,
        rows[at].agent_name == agent_name,
    ensures
        exists|i: int| is_first_agent(rows, session_id, agent_name, i) && i <= at,
    decreases at,
{
    if exists|k: int|
        0 <= k < at && (#[trigger] rows[k]).session_id == session_id && rows[k].agent_name
            == agent_name {
        let k = choose|k: int|
            0 <= k < at && (#[trigger] rows[k]).session_id == session_id && rows[k].agent_name
                == agent_name;
        lemma_first_agent_exists(rows, session_id, agent_name, k);
    } else {
        assert(is_first_agent(rows, session_id, agent_name, at));
    }
}

/// The lookup finds nothing exactly where no row has the key.
pub proof fn lemma_find_agent_none(
    rows: Seq<AgentView>,
    session_id: Seq<char>,
    agent_name: Seq<char>,
)
    ensures
        find_agent(rows, session_id, agent_name) is None <==> forall|k: int|
            0 <= k < rows.len() ==> (#[trigger] rows[k]).session_id != session_id
                || rows[k].agent_name != agent_name,
{
    if exists|k: int|
        0 <= k < rows.len() && (#[trigger] rows[k]).session_id == session_id && rows[k].agent_name
            == agent_name {
        let k = choose|k: int|
            0 <= k < rows.len() && (#[trigger] rows[k]).session_id == session_id
                && rows[k].agent_name == agent_name;
        lemma_first_agent_exists(rows, session_id, agent_name, k);
    }
}

/// A change to each row that keeps the row's session id changes what the
/// lookup finds in the same way.
pub proof fn lemma_find_session_mapped(
    rows: Seq<SessionView>,
    change: spec_fn(SessionView) -> SessionView,
    session_id: Seq<char>,
)
    requires
        forall|row: SessionView| (#[trigger] change(row)).session_id == row.session_id,
    ensures
        find_session(rows.map_values(change), session_id) == match find_session(rows, session_id) {
            Some(row) => Some(change(row)),
            None => None,
        },
{
    let changed = rows.map_values(change);
    lemma_find_session_none(rows, session_id);
    if find_session(rows, session_id) is Some {
        let i = choose|i: int|
            is_first_session(rows, session_id, i) && find_session(rows, session_id) == Some(
                rows[i],
            );
        assert forall|k: int| 0 <= k < i implies (#[trigger] changed[k]).session_id
            != session_id by {
        }
        assert(is_first_session(changed, session_id, i));
    } else {
        assert forall|k: int| 0 <= k < changed.len() implies (#[trigger] changed[k]).session_id
            != session_id by {
        }
    }
}

/// A change to each row that keeps the row's key changes what the lookup
/// finds in the same way.
pub proof fn lemma_find_agent_mapped(
    rows: Seq<AgentView>,
    change: spec_fn(AgentView) -> AgentView,
    session_id: Seq<char>,
    agent_name: Seq<char>,
)
    requires
        forall|row: AgentView|
            (#[trigger] change(row)).session_id == row.session_id && change(row).agent_name
                == row.agent_name,
    ensures
        find_agent(rows.map_values(change), session_id, agent_name) == match find_agent(
            rows,
            session_id,
            agent_name,
        ) {
            Some(row) => Some(change(row)),
            None => None,
        },
{
    let changed = rows.map_values(change);
    lemma_find_agent_none(rows, session_id, agent_name);
    if find_agent(rows, session_id, agent_name) is Some {
        let i = choose|i: int| is_first_agent(rows, session_id, agent_name, i);
        assert forall|k: int| 0 <= k < i implies (#[trigger] changed[k]).session_id != session_id
            || changed[k].agent_name != agent_name by {
        }
        assert(is_first_agent(changed, session_id, agent_name, i));
    } else {
        assert forall|k: int| 0 <= k < changed.len() implies (#[trigger] changed[k]).session_id
            != session_id || changed[k].agent_name != agent_name by {
        }
    }
}

/// A new row changes what the lookup finds for its own session id only, and
/// only where the table had no such row.
pub proof fn lemma_find_session_inserted(
    rows: Seq<SessionView>,
    at: int,
    row: SessionView,
    session_id: Seq<char>,
)
    requires
        0 <= at <= rows.len(),
        forall|k: int| 0 <= k < rows.len() ==> (#[trigger] rows[k]).session_id != row.session_id,
    ensures
        find_session(rows.insert(at, row), session_id) == (if session_id == row.session_id {
            Some(row)
        } else {
            find_session(rows, session_id)
        }),
{
    let grown = rows.insert(at, row);
    lemma_find_session_none(rows, session_id);
    lemma_find_session_none(grown, session_id);
    if session_id == row.session_id {
        assert forall|k: int| 0 <= k < at implies (#[trigger] grown[k]).session_id
            != session_id by {
        }
        assert(is_first_session(grown, session_id, at));
    } else if find_session(rows, session_id) is Some {
        let i = choose|i: int|
            is_first_session(rows, session_id, i) && find_session(rows, session_id) == Some(
                rows[i],
            );
        let moved = if i < at { i } else { i + 1 };
        assert(grown[moved] == rows[i]);
        assert forall|k: int| 0 <= k < moved implies (#[trigger] grown[k]).session_id
            != session_id by {
        }
    } else {
        assert forall|k: int| 0 <= k < grown.len() implies (#[trigger] grown[k]).session_id
            != session_id by {
        }
    }
}

/// A new row changes what the lookup finds for its own key only, and only
/// where the table had no such row.
pub proof fn lemma_find_agent_inserted(
    rows: Seq<AgentView>,
    at: int,
    row: AgentView,
    session_id: Seq<char>,
    agent_name: Seq<char>,
)
    requires
        0 <= at <= rows.len(),
        forall|k: int|
            0 <= k < rows.len() ==> (#[trigger] rows[k]).session_id != row.session_id
                || rows[k].agent_name != row.agent_name,
    ensures
        find_agent(rows.insert(at, row), session_id, agent_name) == (if session_id
            == row.session_id && agent_name == row.agent_name {
            Some(row)
        } else {
            find_agent(rows, session_id, agent_name)
        }),
{
    let grown = rows.insert(at, row);
    lemma_find_agent_none(rows, session_id, agent_name);
    lemma_find_agent_none(grown, session_id, agent_name);
    if session_id == row.session_id && agent_name == row.agent_name {
        assert forall|k: int| 0 <= k < at implies (#[trigger] grown[k]).session_id != session_id
            || grown[k].agent_name != agent_name by {
        }
        assert(is_first_agent(grown, session_id, agent_name, at));
    } else if find_agent(rows, session_id, agent_name) is Some {
        let i = choose|i: int| is_first_agent(rows, session_id, agent_name, i);
        let moved = if i < at { i } else { i + 1 };
        assert(grown[moved] == rows[i]);
        assert forall|k: int| 0 <= k < moved implies (#[trigger] grown[k]).session_id
            != session_id || grown[k].agent_name != agent_name by {
        }
    } else {
        assert forall|k: int| 0 <= k < grown.len() implies (#[trigger] grown[k]).session_id
            != session_id || grown[k].agent_name != agent_name by {
        }
    }
}

/// A guarded transition changes the row that a session is looked up by as it
/// changes every row, and so for an agent.
pub proof fn lemma_transition_lookup(
    store: StoreView,
    session_id: Seq<char>,
    from: Option<Status>,
    to: Status,
    now: i64,
    looked_up: Seq<char>,
    agent_name: Seq<char>,
)
    ensures
        store.transition(session_id, from, to, now).session(looked_up) == match store.session(
            looked_up,
        ) {
            Some(row) => Some(session_transition(session_id, from, to, now)(row)),
            None => None,
        },
        store.transition(session_id, from, to, now).agent(looked_up, agent_name)
            == match store.agent(looked_up, agent_name) {
            Some(row) => Some(agent_transition(session_id, from, to, now)(row)),
            None => None,
        },
{
    lemma_find_session_mapped(
        store.sessions,
        session_transition(session_id, from, to, now),
        looked_up,
    );
    lemma_find_agent_mapped(
        store.agents,
        agent_transition(session_id, from, to, now),
        looked_up,
        agent_name,
    );
}

/// After an upsert the session is found with the details that were given,
/// with its identifier and creation time if it existed and with the stamp's
/// if not. No other session is found changed, and no agent is.
pub proof fn lemma_upsert_session_lookup(
    store: StoreView,
    stamp: WriteStamp,
    session_id: Seq<char>,
    project_path: Seq<char>,
    project_name: Seq<char>,
    status: Status,
    looked_up: Seq<char>,
)
    ensures
        store.upsert_session(stamp, session_id, project_path, project_name, status) matches Ok(
            after,
        ) ==> {
            &&& after.agents == store.agents
            &&& after.events == store.events
            &&& after.session(session_id) == Some(
                match store.session(session_id) {
                    Some(row) => row.with_details(project_path, project_name, status, stamp.now),
                    None => new_session(stamp, session_id, project_path, project_name, status),
                },
            )
            &&& looked_up != session_id ==> after.session(looked_up) == store.session(looked_up)
            &&& after.has_session(session_id)
        },
{
    match store.upsert_session(stamp, session_id, project_path, project_name, status) {
        Ok(after) => {
            lemma_find_session_none(store.sessions, session_id);
            if store.has_session(session_id) {
                let change = session_update(
                    session_id,
                    project_path,
                    project_name,
                    status,
                    stamp.now,
                );
                lemma_find_session_mapped(store.sessions, change, session_id);
                lemma_find_session_mapped(store.sessions, change, looked_up);
            } else {
                lemma_session_slot_exists(store.sessions, stamp.now);
                let slot = session_slot(store.sessions, stamp.now);
                let row = new_session(stamp, session_id, project_path, project_name, status);
                lemma_find_session_inserted(store.sessions, slot, row, session_id);
                lemma_find_session_inserted(store.sessions, slot, row, looked_up);
            }
        },
        Err(_) => {},
    }
}

/// After an upsert the agent is found with the details that were given. No
/// other agent is found changed, the agents of every other session are as
/// they were, and no session is changed.
pub proof fn lemma_upsert_agent_lookup(
    store: StoreView,
    stamp: WriteStamp,
    session_id: Seq<char>,
    agent_name: Seq<char>,
    parent_session_id: Option<Seq<char>>,
    status: Status,
    other_session: Seq<char>,
    other_agent: Seq<char>,
)
    ensures
        store.upsert_agent(stamp, session_id, agent_name, parent_session_id, status) matches Ok(
            after,
        ) ==> {
            &&& after.sessions == store.sessions
            &&& after.events == store.events
            &&& after.agent(session_id, agent_name) == Some(
                match store.agent(session_id, agent_name) {
                    Some(row) => row.with_details(parent_session_id, status, stamp.now),
                    None => new_agent(stamp, session_id, agent_name, parent_session_id, status),
                },
            )
            &&& (other_session != session_id || other_agent != agent_name) ==> after.agent(
                other_session,
                other_agent,
            ) == store.agent(other_session, other_agent)
            &&& other_session != session_id ==> after.agents_of(other_session) == store.agents_of(
                other_session,
            )
        },
{
    match store.upsert_agent(stamp, session_id, agent_name, parent_session_id, status) {
        Ok(after) => {
            lemma_find_agent_none(store.agents, session_id, agent_name);
            if store.has_agent(session_id, agent_name) {
                let change = agent_update(
                    session_id,
                    agent_name,
                    parent_session_id,
                    status,
                    stamp.now,
                );
                lemma_find_agent_mapped(store.agents, change, session_id, agent_name);
                lemma_find_agent_mapped(store.agents, change, other_session, other_agent);
                if other_session != session_id {
                    lemma_filter_untouched(store.agents, change, belongs_to(other_session));
                }
            } else {
                lemma_agent_slot_exists(store.agents, stamp.now);
                let slot = agent_slot(store.agents, stamp.now);
                let row = new_agent(stamp, session_id, agent_name, parent_session_id, status);
                lemma_find_agent_inserted(store.agents, slot, row, session_id, agent_name);
                lemma_find_agent_inserted(store.agents, slot, row, other_session, other_agent);
                if other_session != session_id {
                    lemma_filter_skips_inserted(
                        store.agents,
                        slot,
                        row,
                        belongs_to(other_session),
                    );
                }
            }
        },
        Err(_) => {},
    }
}

} // verus!

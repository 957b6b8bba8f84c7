//! What holds of the store and of the event normaliser for every store,
//! every event and every stamp.

use vstd::prelude::*;
use crate::api::{after_event, EventKind};
use crate::filters::{lemma_filter_keeps_order, lemma_filter_row};
use crate::invariants::{
    law_transition_keeps_constraints, law_upsert_agent_keeps_constraints,
    law_upsert_session_keeps_constraints, lemma_agent_slot_exists, lemma_session_slot_exists,
};
use crate::lookup::{
    lemma_find_agent_none, lemma_find_session_none, lemma_transition_lookup,
    lemma_upsert_agent_lookup, lemma_upsert_session_lookup,
};
use crate::models::{HookEventView, Status};
use crate::stamp::EventStamps;
use crate::tables::{belongs_to, is_live, new_event, StoreView};

verus! {

/// A `stop` event is always accepted and changes no session and no agent
/// that is not `active`: one that waits for input or for a permission keeps
/// its status, and every other field, until another event changes it.
pub proof fn law_stop_spares_what_is_not_active(
    store: StoreView,
    event: HookEventView,
    stamps: EventStamps,
    session_id: Seq<char>,
    agent_name: Seq<char>,
)
    requires
        event.kind() == EventKind::Stop,
    ensures
        after_event(store, event, stamps).1 is Ok,
        after_event(store, event, stamps).0.sessions.len() == store.sessions.len(),
        after_event(store, event, stamps).0.agents.len() == store.agents.len(),
        forall|i: int|
            0 <= i < store.sessions.len() && (#[trigger] store.sessions[i]).status
                != Status::Active ==> after_event(store, event, stamps).0.sessions[i]
                == store.sessions[i],
        forall|i: int|
            0 <= i < store.agents.len() && (#[trigger] store.agents[i]).status != Status::Active
                ==> after_event(store, event, stamps).0.agents[i] == store.agents[i],
        store.session_status(session_id) matches Some(status) && status.needs_attention()
            ==> after_event(store, event, stamps).0.session(session_id) == store.session(
            session_id,
        ),
        store.agent_status(session_id, agent_name) matches Some(status) && status.needs_attention()
            ==> after_event(store, event, stamps).0.agent(session_id, agent_name) == store.agent(
            session_id,
            agent_name,
        ),
{
    lemma_transition_lookup(
        store,
        event.session_id,
        Some(Status::Active),
        Status::Idle,
        stamps.session.now,
        session_id,
        agent_name,
    );
}

/// A `stop` event on an `active` session makes it `idle`, not `completed`,
/// and so for each `active` agent of the session.
pub proof fn law_stop_idles_the_active(
    store: StoreView,
    event: HookEventView,
    stamps: EventStamps,
    agent_name: Seq<char>,
)
    requires
        event.kind() == EventKind::Stop,
    ensures
        store.session_status(event.session_id) == Some(Status::Active) ==> after_event(
            store,
            event,
            stamps,
        ).0.session_status(event.session_id) == Some(Status::Idle),
        store.agent_status(event.session_id, agent_name) == Some(Status::Active) ==> after_event(
            store,
            event,
            stamps,
        ).0.agent_status(event.session_id, agent_name) == Some(Status::Idle),
{
    lemma_transition_lookup(
        store,
        event.session_id,
        Some(Status::Active),
        Status::Idle,
        stamps.session.now,
        event.session_id,
        agent_name,
    );
}

/// A `session_end` event is always accepted and leaves its session and all
/// the session's agents `completed`, whatever their status was. It creates
/// no session.
pub proof fn law_session_end_completes(
    store: StoreView,
    event: HookEventView,
    stamps: EventStamps,
    agent_name: Seq<char>,
)
    requires
        event.kind() == EventKind::SessionEnd,
    ensures
        after_event(store, event, stamps).1 is Ok,
        after_event(store, event, stamps).0.session_status(event.session_id) == (
        if store.has_session(event.session_id) {
            Some(Status::Completed)
        } else {
            None
        }),
        store.has_agent(event.session_id, agent_name) ==> after_event(
            store,
            event,
            stamps,
        ).0.agent_status(event.session_id, agent_name) == Some(Status::Completed),
        forall|i: int|
            0 <= i < after_event(store, event, stamps).0.sessions.len() && (
            #[trigger] after_event(store, event, stamps).0.sessions[i]).session_id
                == event.session_id ==> after_event(store, event, stamps).0.sessions[i].status
                == Status::Completed,
        forall|i: int|
            0 <= i < after_event(store, event, stamps).0.agents.len() && (#[trigger] after_event(
                store,
                event,
                stamps,
            ).0.agents[i]).session_id == event.session_id ==> after_event(
                store,
                event,
                stamps,
            ).0.agents[i].status == Status::Completed,
{
    lemma_transition_lookup(
        store,
        event.session_id,
        None,
        Status::Completed,
        stamps.session.now,
        event.session_id,
        agent_name,
    );
    lemma_find_session_none(store.sessions, event.session_id);
    lemma_find_agent_none(store.agents, event.session_id, agent_name);
}

/// What ending a session does: the session and all its agents are
/// `completed`, the session is not among the sessions that observers see,
/// and every row of another session, and the event log, is as it was.
pub open spec fn termination_rules_hold(
    before: StoreView,
    after: StoreView,
    session_id: Seq<char>,
) -> bool {
    &&& after.session_status(session_id) == (if before.has_session(session_id) {
        Some(Status::Completed)
    } else {
        None
    })
    &&& after.sessions.len() == before.sessions.len()
    &&& after.agents.len() == before.agents.len()
    &&& forall|i: int|
        0 <= i < before.agents.len() && (#[trigger] before.agents[i]).session_id == session_id
            ==> after.agents[i].status == Status::Completed
    &&& forall|agent_name: Seq<char>|
        before.has_agent(session_id, agent_name) ==> #[trigger] after.agent_status(
            session_id,
            agent_name,
        ) == Some(Status::Completed)
    &&& forall|k: int|
        0 <= k < after.active_sessions().len() ==> (#[trigger] after.active_sessions()[
            k
        ]).session.session_id != session_id
    &&& forall|other: Seq<char>|
        other != session_id ==> #[trigger] after.session(other) == before.session(other)
    &&& forall|other: Seq<char>, agent_name: Seq<char>|
        other != session_id ==> #[trigger] after.agent(other, agent_name) == before.agent(
            other,
            agent_name,
        )
    &&& forall|i: int|
        0 <= i < before.sessions.len() && (#[trigger] before.sessions[i]).session_id != session_id
            ==> after.sessions[i] == before.sessions[i]
    &&& forall|i: int|
        0 <= i < before.agents.len() && (#[trigger] before.agents[i]).session_id != session_id
            ==> after.agents[i] == before.agents[i]
    &&& after.events == before.events
}

/// After a session is ended, it and all its agents are `completed`, it is
/// not among the sessions that observers see, and every row of another
/// session is as it was.
pub proof fn law_terminate_completes_one_session(
    store: StoreView,
    session_id: Seq<char>,
    now: i64,
)
    ensures
        termination_rules_hold(store, store.mark_session_completed(session_id, now), session_id),
{
    let after = store.mark_session_completed(session_id, now);
    lemma_transition_lookup(store, session_id, None, Status::Completed, now, session_id, session_id);
    lemma_find_session_none(store.sessions, session_id);
    assert forall|agent_name: Seq<char>| store.has_agent(session_id, agent_name) implies #[trigger]
        after.agent_status(session_id, agent_name) == Some(Status::Completed) by {
        lemma_transition_lookup(
            store,
            session_id,
            None,
            Status::Completed,
            now,
            session_id,
            agent_name,
        );
        lemma_find_agent_none(store.agents, session_id, agent_name);
    }
    assert forall|k: int| 0 <= k < after.active_sessions().len() implies (
    #[trigger] after.active_sessions()[k]).session.session_id != session_id by {
        lemma_filter_row(after.sessions, is_live(), k);
    }
    assert forall|other: Seq<char>| other != session_id implies #[trigger] after.session(other)
        == store.session(other) by {
        lemma_transition_lookup(store, session_id, None, Status::Completed, now, other, other);
    }
    assert forall|other: Seq<char>, agent_name: Seq<char>| other != session_id implies #[trigger]
        after.agent(other, agent_name) == store.agent(other, agent_name) by {
        lemma_transition_lookup(store, session_id, None, Status::Completed, now, other, agent_name);
    }
}

/// What the purge may do: a session goes exactly when it is `completed` and
/// was last updated at least `ttl` before `now`, so no session in another
/// status goes, none that is younger goes, and every one that is neither
/// stays; with a session go all its agents and all its events, and no
/// others.
pub open spec fn purge_rules_hold(before: StoreView, after: StoreView, now: i64, ttl: u64) -> bool {
    &&& forall|i: int|
        0 <= i < before.sessions.len() && !(#[trigger] before.sessions[i]).is_expired(now, ttl)
            ==> after.sessions.contains(before.sessions[i])
    &&& forall|k: int|
        0 <= k < after.sessions.len() ==> before.sessions.contains(#[trigger] after.sessions[k])
            && !after.sessions[k].is_expired(now, ttl)
    &&& forall|i: int|
        0 <= i < before.agents.len() && !before.is_expired(
            (#[trigger] before.agents[i]).session_id,
            now,
            ttl,
        ) ==> after.agents.contains(before.agents[i])
    &&& forall|k: int|
        0 <= k < after.agents.len() ==> before.agents.contains(#[trigger] after.agents[k])
            && !before.is_expired(after.agents[k].session_id, now, ttl)
    &&& forall|i: int|
        0 <= i < before.events.len() && !before.is_expired(
            (#[trigger] before.events[i]).session_id,
            now,
            ttl,
        ) ==> after.events.contains(before.events[i])
    &&& forall|k: int|
        0 <= k < after.events.len() ==> before.events.contains(#[trigger] after.events[k])
            && !before.is_expired(after.events[k].session_id, now, ttl)
}

/// The purge removes the expired sessions with their agents and events, and
/// nothing else.
pub proof fn law_purge_removes_the_expired_only(store: StoreView, now: i64, ttl: u64)
    ensures
        purge_rules_hold(store, store.purge_expired(now, ttl), now, ttl),
{
    let after = store.purge_expired(now, ttl);
    assert forall|i: int|
        0 <= i < store.sessions.len() && !(#[trigger] store.sessions[i]).is_expired(
            now,
            ttl,
        ) implies after.sessions.contains(store.sessions[i]) by {
    }
    assert forall|k: int| 0 <= k < after.sessions.len() implies store.sessions.contains(
        #[trigger] after.sessions[k],
    ) && !after.sessions[k].is_expired(now, ttl) by {
        lemma_filter_row(store.sessions, store.session_survives(now, ttl), k);
    }
    assert forall|i: int|
        0 <= i < store.agents.len() && !store.is_expired(
            (#[trigger] store.agents[i]).session_id,
            now,
            ttl,
        ) implies after.agents.contains(store.agents[i]) by {
    }
    assert forall|k: int| 0 <= k < after.agents.len() implies store.agents.contains(
        #[trigger] after.agents[k],
    ) && !store.is_expired(after.agents[k].session_id, now, ttl) by {
        lemma_filter_row(store.agents, store.agent_survives(now, ttl), k);
    }
    assert forall|i: int|
        0 <= i < store.events.len() && !store.is_expired(
            (#[trigger] store.events[i]).session_id,
            now,
            ttl,
        ) implies after.events.contains(store.events[i]) by {
    }
    assert forall|k: int| 0 <= k < after.events.len() implies store.events.contains(
        #[trigger] after.events[k],
    ) && !store.is_expired(after.events[k].session_id, now, ttl) by {
        lemma_filter_row(store.events, store.event_survives(now, ttl), k);
    }
}

/// After the purge the store holds no session that was expired, and nothing
/// of one: where session ids are unique, an expired session's id is gone
/// from all three tables.
pub proof fn law_purge_leaves_nothing_of_the_expired(
    store: StoreView,
    now: i64,
    ttl: u64,
    session_id: Seq<char>,
)
    requires
        store.wf(),
        store.is_expired(session_id, now, ttl),
    ensures
        !store.purge_expired(now, ttl).has_session(session_id),
        forall|k: int|
            0 <= k < store.purge_expired(now, ttl).agents.len() ==> (
            #[trigger] store.purge_expired(now, ttl).agents[k]).session_id != session_id,
        forall|k: int|
            0 <= k < store.purge_expired(now, ttl).events.len() ==> (
            #[trigger] store.purge_expired(now, ttl).events[k]).session_id != session_id,
{
    law_purge_removes_the_expired_only(store, now, ttl);
}

/// The sessions that observers see are the rows of the sessions table that
/// are not `completed`: none is `completed`, none is missing, and each comes
/// with exactly the agents of its session.
pub proof fn law_listing_is_the_live_sessions(store: StoreView)
    ensures
        forall|k: int|
            0 <= k < store.active_sessions().len() ==> {
                &&& (#[trigger] store.active_sessions()[k]).session.status != Status::Completed
                &&& store.sessions.contains(store.active_sessions()[k].session)
                &&& store.active_sessions()[k].agents == store.agents_of(
                    store.active_sessions()[k].session.session_id,
                )
            },
        forall|i: int|
            0 <= i < store.sessions.len() && (#[trigger] store.sessions[i]).status
                != Status::Completed ==> exists|k: int|
                0 <= k < store.active_sessions().len() && (#[trigger] store.active_sessions()[
                    k
                ]).session == store.sessions[i],
        forall|session_id: Seq<char>, j: int|
            0 <= j < store.agents_of(session_id).len() ==> (#[trigger] store.agents_of(
                session_id,
            )[j]).session_id == session_id && store.agents.contains(
                store.agents_of(session_id)[j],
            ),
{
    let live = store.sessions.filter(is_live());
    assert forall|k: int| 0 <= k < store.active_sessions().len() implies {
        &&& (#[trigger] store.active_sessions()[k]).session.status != Status::Completed
        &&& store.sessions.contains(store.active_sessions()[k].session)
        &&& store.active_sessions()[k].agents == store.agents_of(
            store.active_sessions()[k].session.session_id,
        )
    } by {
        lemma_filter_row(store.sessions, is_live(), k);
    }
    assert forall|i: int|
        0 <= i < store.sessions.len() && (#[trigger] store.sessions[i]).status
            != Status::Completed implies exists|k: int|
        0 <= k < store.active_sessions().len() && (#[trigger] store.active_sessions()[k]).session
            == store.sessions[i] by {
        store.sessions.lemma_filter_contains(is_live(), i);
        let k = choose|k: int| 0 <= k < live.len() && live[k] == store.sessions[i];
        assert(store.active_sessions()[k].session == store.sessions[i]);
    }
    assert forall|session_id: Seq<char>, j: int|
        0 <= j < store.agents_of(session_id).len() implies (#[trigger] store.agents_of(
        session_id,
    )[j]).session_id == session_id && store.agents.contains(store.agents_of(session_id)[j]) by {
        lemma_filter_row(store.agents, belongs_to(session_id), j);
    }
}

/// In a store that meets its constraints the sessions that observers see
/// come newest first, no session twice, and the agents of each oldest first.
pub proof fn law_listing_order(store: StoreView)
    requires
        store.wf(),
    ensures
        forall|i: int, j: int|
            #![trigger store.active_sessions()[i], store.active_sessions()[j]]
            0 <= i < j < store.active_sessions().len() ==> {
                &&& store.active_sessions()[i].session.created_at
                    >= store.active_sessions()[j].session.created_at
                &&& store.active_sessions()[i].session.session_id
                    != store.active_sessions()[j].session.session_id
            },
        forall|session_id: Seq<char>, i: int, j: int|
            #![trigger store.agents_of(session_id)[i], store.agents_of(session_id)[j]]
            0 <= i < j < store.agents_of(session_id).len() ==> {
                &&& store.agents_of(session_id)[i].created_at <= store.agents_of(
                    session_id,
                )[j].created_at
                &&& store.agents_of(session_id)[i].agent_name != store.agents_of(
                    session_id,
                )[j].agent_name
            },
{
    assert forall|i: int, j: int|
        #![trigger store.active_sessions()[i], store.active_sessions()[j]]
        0 <= i < j < store.active_sessions().len() implies {
        &&& store.active_sessions()[i].session.created_at
            >= store.active_sessions()[j].session.created_at
        &&& store.active_sessions()[i].session.session_id
            != store.active_sessions()[j].session.session_id
    } by {
        lemma_filter_keeps_order(store.sessions, is_live(), i, j);
    }
    assert forall|session_id: Seq<char>, i: int, j: int|
        #![trigger store.agents_of(session_id)[i], store.agents_of(session_id)[j]]
        0 <= i < j < store.agents_of(session_id).len() implies {
        &&& store.agents_of(session_id)[i].created_at <= store.agents_of(session_id)[j].created_at
        &&& store.agents_of(session_id)[i].agent_name != store.agents_of(
            session_id,
        )[j].agent_name
    } by {
        lemma_filter_keeps_order(store.agents, belongs_to(session_id), i, j);
    }
}

/// An event that is neither `stop` nor `session_end`, once accepted, leaves
/// its session and its agent with the statuses of its kind, whatever they
/// were, and creates them where the store did not hold them.
pub proof fn law_accepted_event_sets_status(
    store: StoreView,
    event: HookEventView,
    stamps: EventStamps,
)
    requires
        event.kind() != EventKind::Stop,
        event.kind() != EventKind::SessionEnd,
        after_event(store, event, stamps).1 is Ok,
    ensures
        after_event(store, event, stamps).0.session_status(event.session_id) == Some(
            event.kind().session_status(),
        ),
        after_event(store, event, stamps).0.agent_status(event.session_id, event.agent()) == Some(
            event.kind().agent_status(),
        ),
        after_event(store, event, stamps).0.has_session(event.session_id),
        after_event(store, event, stamps).0.has_agent(event.session_id, event.agent()),
{
    let kind = event.kind();
    lemma_upsert_session_lookup(
        store,
        stamps.session,
        event.session_id,
        event.path(),
        event.name(),
        kind.session_status(),
        event.session_id,
    );
    let with_session = store.upsert_session(
        stamps.session,
        event.session_id,
        event.path(),
        event.name(),
        kind.session_status(),
    )->Ok_0;
    lemma_upsert_agent_lookup(
        with_session,
        stamps.agent,
        event.session_id,
        event.agent(),
        event.parent_session_id,
        kind.agent_status(),
        event.session_id,
        event.agent(),
    );
}

/// An event is refused only for an identifier that is already in use: never
/// a `stop` or a `session_end`, and no event whose stamps carry identifiers
/// that no row of the sessions and agents tables has.
pub proof fn law_event_is_refused_for_a_used_identifier_only(
    store: StoreView,
    event: HookEventView,
    stamps: EventStamps,
)
    ensures
        after_event(store, event, stamps).1 is Err ==> {
            &&& event.kind() != EventKind::Stop
            &&& event.kind() != EventKind::SessionEnd
            &&& after_event(store, event, stamps).1 == Err::<(), crate::tables::StoreError>(
                crate::tables::StoreError::DuplicateId,
            )
            &&& store.session_id_in_use(stamps.session.id) || store.agent_id_in_use(
                stamps.agent.id,
            )
        },
{
    let kind = event.kind();
    lemma_upsert_session_lookup(
        store,
        stamps.session,
        event.session_id,
        event.path(),
        event.name(),
        kind.session_status(),
        event.session_id,
    );
}

/// Every event keeps the store's constraints, whether it is accepted or
/// refused.
pub proof fn law_events_keep_constraints(
    store: StoreView,
    event: HookEventView,
    stamps: EventStamps,
)
    requires
        store.wf(),
    ensures
        after_event(store, event, stamps).0.wf(),
{
    let kind = event.kind();
    let sid = event.session_id;
    if kind == EventKind::Stop {
        law_transition_keeps_constraints(store, sid, Some(Status::Active), Status::Idle, stamps.session.now);
    } else if kind == EventKind::SessionEnd {
        law_transition_keeps_constraints(store, sid, None, Status::Completed, stamps.session.now);
    } else {
        law_upsert_session_keeps_constraints(
            store,
            stamps.session,
            sid,
            event.path(),
            event.name(),
            kind.session_status(),
        );
        match store.upsert_session(
            stamps.session,
            sid,
            event.path(),
            event.name(),
            kind.session_status(),
        ) {
            Ok(with_session) => {
                law_upsert_agent_keeps_constraints(
                    with_session,
                    stamps.agent,
                    sid,
                    event.agent(),
                    event.parent_session_id,
                    kind.agent_status(),
                );
            },
            Err(_) => {},
        }
    }
}

/// No event deletes: the sessions and agents tables never shrink, and the
/// event log only grows at its end, by at most the entry of the event.
pub proof fn law_events_delete_nothing(store: StoreView, event: HookEventView, stamps: EventStamps)
    ensures
        after_event(store, event, stamps).0.sessions.len() >= store.sessions.len(),
        after_event(store, event, stamps).0.agents.len() >= store.agents.len(),
        after_event(store, event, stamps).0.events == store.events || after_event(
            store,
            event,
            stamps,
        ).0.events == store.events.push(
            new_event(
                stamps.event,
                event.session_id,
                Some(event.agent()),
                event.event_type,
                event.payload(),
            ),
        ),
{
    let kind = event.kind();
    if kind != EventKind::Stop && kind != EventKind::SessionEnd {
        lemma_session_slot_exists(store.sessions, stamps.session.now);
        lemma_agent_slot_exists(store.agents, stamps.agent.now);
    }
}

/// In a store that meets its constraints no two rows are of one session, and
/// no two of one agent: what the store holds, it holds in exactly one row.
pub proof fn law_one_row_per_key(store: StoreView)
    requires
        store.wf(),
    ensures
        forall|i: int, j: int|
            #![trigger store.sessions[i], store.sessions[j]]
            0 <= i < store.sessions.len() && 0 <= j < store.sessions.len()
                && store.sessions[i].session_id == store.sessions[j].session_id ==> i == j,
        forall|i: int, j: int|
            #![trigger store.agents[i], store.agents[j]]
            0 <= i < store.agents.len() && 0 <= j < store.agents.len()
                && store.agents[i].session_id == store.agents[j].session_id
                && store.agents[i].agent_name == store.agents[j].agent_name ==> i == j,
{
}

} // verus!

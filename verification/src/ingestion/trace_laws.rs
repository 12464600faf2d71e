use crate::ingestion::trace::{outcome, TraceHint, TraceOutcome};
use vstd::prelude::*;

verus! {

/// A trace as the graph store holds it.
pub struct TraceRecord {
    pub id: Seq<char>,
    pub session_id: Seq<char>,
    pub agent_id: Option<Seq<char>>,
    pub running: bool,
    pub start_time: int,
}

/// Whether `answer` is what a store that holds the given traces answers when it is
/// asked for the most recent trace of a session: a trace of the session that began no
/// earlier than any other of the session, or none where the session has no trace.
pub open spec fn answers_session(
    store: Seq<TraceRecord>,
    session: Seq<char>,
    answer: Option<Seq<char>>,
) -> bool {
    match answer {
        Some(id) => exists|i: int|
            0 <= i < store.len() && (#[trigger] store[i]).id == id && store[i].session_id
                == session && forall|j: int|
                0 <= j < store.len() && (#[trigger] store[j]).session_id == session
                    ==> store[j].start_time <= store[i].start_time,
        None => forall|i: int| 0 <= i < store.len() ==> (#[trigger] store[i]).session_id != session,
    }
}

/// Whether `answer` is what a store that holds the given traces answers when it is
/// asked for the most recent running trace of an agent that began after `since`.
pub open spec fn answers_agent(
    store: Seq<TraceRecord>,
    agent: Seq<char>,
    since: int,
    answer: Option<Seq<char>>,
) -> bool {
    match answer {
        Some(id) => exists|i: int|
            0 <= i < store.len() && (#[trigger] store[i]).id == id && store[i].agent_id
                == Some(agent) && store[i].running && store[i].start_time > since,
        None => forall|i: int|
            0 <= i < store.len() ==> !((#[trigger] store[i]).agent_id == Some(agent)
                && store[i].running && store[i].start_time > since),
    }
}

/// The traces that a store holds after the search for an event's trace has ended: one
/// more, the new running trace, where one was created.
pub open spec fn store_after(
    store: Seq<TraceRecord>,
    ended: TraceOutcome,
    fresh: Seq<char>,
    now: int,
) -> Seq<TraceRecord> {
    match ended {
        TraceOutcome::Create { session_id, agent_id } => store.push(
            TraceRecord { id: fresh, session_id, agent_id, running: true, start_time: now },
        ),
        _ => store,
    }
}

/// Two events of one session, ingested one after the other, add one trace at most.
///
/// The store answers the lookup of the session by what it holds at the time; what it
/// answers the lookups of the agents is left open.
pub proof fn one_session_adds_one_trace_at_most(
    store: Seq<TraceRecord>,
    first: TraceHint,
    second: TraceHint,
    first_by_session: Option<Seq<char>>,
    first_by_agent: Option<Seq<char>>,
    second_by_session: Option<Seq<char>>,
    second_by_agent: Option<Seq<char>>,
    auto_create: bool,
    first_fresh: Seq<char>,
    second_fresh: Seq<char>,
    first_now: int,
    second_now: int,
)
    requires
        first.session_id is Some,
        second.session_id is Some,
        first.session_id->0@ == second.session_id->0@,
        answers_session(store, first.session_id->0@, first_by_session),
        answers_session(
            store_after(
                store,
                outcome(first, first_by_session, first_by_agent, auto_create),
                first_fresh,
                first_now,
            ),
            second.session_id->0@,
            second_by_session,
        ),
    ensures
        ({
            let between = store_after(
                store,
                outcome(first, first_by_session, first_by_agent, auto_create),
                first_fresh,
                first_now,
            );
            let after = store_after(
                between,
                outcome(second, second_by_session, second_by_agent, auto_create),
                second_fresh,
                second_now,
            );
            &&& after.len() <= store.len() + 1
            &&& outcome(first, first_by_session, first_by_agent, auto_create) is Create ==> after
                == between
        }),
{
    let ended = outcome(first, first_by_session, first_by_agent, auto_create);
    let between = store_after(store, ended, first_fresh, first_now);
    if ended is Create {
        let at = store.len() as int;
        assert(between[at].session_id == second.session_id->0@);
        assert(second_by_session is Some);
    }
}

/// An event of a session that has a trace is added to a trace of that session, and no
/// trace is created for it, unless the event names a trace itself.
pub proof fn session_with_trace_is_taken_up(
    store: Seq<TraceRecord>,
    hint: TraceHint,
    by_session: Option<Seq<char>>,
    by_agent: Option<Seq<char>>,
    auto_create: bool,
    i: int,
)
    requires
        hint.trace_id is None,
        hint.session_id is Some,
        0 <= i < store.len(),
        store[i].session_id == hint.session_id->0@,
        answers_session(store, hint.session_id->0@, by_session),
    ensures
        outcome(hint, by_session, by_agent, auto_create) matches TraceOutcome::Use(id) && exists|
            k: int,
        |
            0 <= k < store.len() && (#[trigger] store[k]).id == id && store[k].session_id
                == hint.session_id->0@,
{
    assert(by_session is Some);
    let k = choose|k: int|
        0 <= k < store.len() && (#[trigger] store[k]).id == by_session->0 && store[k].session_id
            == hint.session_id->0@ && forall|j: int|
            0 <= j < store.len() && (#[trigger] store[j]).session_id == hint.session_id->0@
                ==> store[j].start_time <= store[k].start_time;
    assert(store[k].id == by_session->0);
}


/// Whether what a search asks for last is how the search was to end.
pub open spec fn ends_as(
    last: crate::ingestion::trace::TraceAction,
    ended: TraceOutcome,
) -> bool {
    match ended {
        TraceOutcome::Use(id) => last matches crate::ingestion::trace::TraceAction::Resolved(
            found,
        ) && found@ == id,
        TraceOutcome::Create { session_id, agent_id } => {
            &&& last matches crate::ingestion::trace::TraceAction::CreateTrace(trace)
            &&& trace.session_id@ == session_id
            &&& crate::ingestion::trace::opt_text(trace.agent_id) == agent_id
            &&& trace.status == crate::ingestion::trace::TraceStatus::Running
        },
        TraceOutcome::Fail => last is Fail,
    }
}

/// A search whose lookups are answered ends as decided: it asks for no lookup whose
/// answer does not matter, and what it asks for after the last lookup is the outcome
/// that the hint and the answers give.
pub proof fn search_ends_as_decided(
    hint: TraceHint,
    auto_create: bool,
    now: i64,
    first: (crate::ingestion::trace::TraceResolution, crate::ingestion::trace::TraceAction),
    second: (crate::ingestion::trace::TraceResolution, crate::ingestion::trace::TraceAction),
    third: (crate::ingestion::trace::TraceResolution, crate::ingestion::trace::TraceAction),
    session_answer: Option<String>,
    agent_answer: Option<String>,
)
    requires
        crate::ingestion::trace::TraceResolution::begins(hint, auto_create, now, first),
        first.1 is FindBySession ==> first.0.leads_to(
            crate::ingestion::trace::TraceEvent::Found(session_answer),
            second.0,
            second.1,
        ),
        first.1 is FindRecentByAgent ==> first.0.leads_to(
            crate::ingestion::trace::TraceEvent::Found(agent_answer),
            second.0,
            second.1,
        ),
        first.1 is FindBySession && second.1 is FindRecentByAgent ==> second.0.leads_to(
            crate::ingestion::trace::TraceEvent::Found(agent_answer),
            third.0,
            third.1,
        ),
    ensures
        ends_as(
            if first.1 is FindBySession && second.1 is FindRecentByAgent {
                third.1
            } else if first.1 is FindBySession || first.1 is FindRecentByAgent {
                second.1
            } else {
                first.1
            },
            outcome(
                hint,
                crate::ingestion::trace::opt_text(session_answer),
                crate::ingestion::trace::opt_text(agent_answer),
                auto_create,
            ),
        ),
{
}

} // verus!

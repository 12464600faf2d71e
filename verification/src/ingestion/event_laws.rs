use crate::api::types::EventIngestionRequest;
use crate::ingestion::event::{hint_of, EventStage, EventWrite, IngestAction, IngestEvent};
use crate::ingestion::trace::{
    opt_text, outcome, TraceAction, TraceEvent, TraceOutcome, TraceStage, TraceStatus,
};
use crate::ingestion::trace_laws::{answers_session, store_after, TraceRecord};
use vstd::prelude::*;

verus! {

/// An ingestion that has just begun knows the trace of its event wherever it has gone
/// beyond the search for it.
pub proof fn a_new_ingestion_is_well_formed(
    request: EventIngestionRequest,
    auto_create_traces: bool,
    generate_embeddings: bool,
    now: i64,
    fresh_event: String,
    fresh_trace: String,
    started: (EventWrite, IngestAction),
)
    requires
        EventWrite::begins(
            request,
            auto_create_traces,
            generate_embeddings,
            now,
            fresh_event,
            fresh_trace,
            started,
        ),
    ensures
        started.0.well_formed(),
{
}

/// Every step keeps the trace of the event known, and the same, once the search for
/// it is over.
pub proof fn every_step_keeps_the_trace_known(
    write: EventWrite,
    event: IngestEvent,
    next: EventWrite,
    action: IngestAction,
)
    requires
        write.well_formed(),
        write.leads_to(event, next, action),
    ensures
        next.well_formed(),
        write.stage != EventStage::ResolvingTrace ==> opt_text(next.trace_id) == opt_text(
            write.trace_id,
        ),
{
}

/// The answer that ends an ingestion well names the trace under which the event was
/// stored.
pub proof fn the_answer_names_the_trace_of_the_event(
    write: EventWrite,
    event: IngestEvent,
    next: EventWrite,
    action: IngestAction,
)
    requires
        write.well_formed(),
        write.leads_to(event, next, action),
        action is Finish,
    ensures
        write.trace_id is Some,
        action matches IngestAction::Finish(response) && response.trace_id@
            == write.trace_id->0@ && response.event_id@ == write.event_id@,
{
}

/// Whether `last` is where the ingestion of `request` stands when the search for the
/// trace has ended as `ended`: the event is stored under the trace that is used, and
/// that trace is the event's from then on; or a new running trace that begins at `now`
/// is to be stored under the identifier set aside for it; or the ingestion has failed.
pub open spec fn settles(
    request: EventIngestionRequest,
    now: i64,
    fresh_event: String,
    fresh_trace: String,
    ended: TraceOutcome,
    last: (EventWrite, IngestAction),
) -> bool {
    match ended {
        TraceOutcome::Use(id) => {
            &&& last.0.stage == EventStage::CreatingEvent
            &&& opt_text(last.0.trace_id) == Some(id)
            &&& last.1 matches IngestAction::CreateEvent(record)
            &&& record.id@ == fresh_event@
            &&& record.trace_id@ == id
            &&& record.timestamp == request.timestamp
        },
        TraceOutcome::Create { session_id, agent_id } => {
            &&& last.0.stage == EventStage::ResolvingTrace
            &&& last.0.resolution.stage == TraceStage::Creating
            &&& opt_text(last.0.resolution.new_trace_id) == Some(fresh_trace@)
            &&& last.1 matches IngestAction::Trace(TraceAction::CreateTrace(trace))
            &&& trace.id@ == fresh_trace@
            &&& trace.session_id@ == session_id
            &&& opt_text(trace.agent_id) == agent_id
            &&& trace.status == TraceStatus::Running
            &&& trace.start_time == now
        },
        TraceOutcome::Fail => last.0.stage == EventStage::Failed && last.1 is Fail,
    }
}

/// The last of the steps that the search for the trace takes within an ingestion:
/// the third where the session and then the agent is looked up, the second where one
/// of them is, else the first.
pub open spec fn last_of_search(
    first: (EventWrite, IngestAction),
    second: (EventWrite, IngestAction),
    third: (EventWrite, IngestAction),
) -> (EventWrite, IngestAction) {
    if asks_session(first.1) && asks_agent(second.1) {
        third
    } else if asks_session(first.1) || asks_agent(first.1) {
        second
    } else {
        first
    }
}

/// Whether `action` asks for the most recent trace of a session.
pub open spec fn asks_session(action: IngestAction) -> bool {
    action matches IngestAction::Trace(TraceAction::FindBySession(_))
}

/// Whether `action` asks for the recent running trace of an agent.
pub open spec fn asks_agent(action: IngestAction) -> bool {
    action matches IngestAction::Trace(TraceAction::FindRecentByAgent { .. })
}

/// An ingestion whose lookups are answered goes on as the search for the trace
/// decides: the event is stored under the trace that the event names, that its
/// session has, or that its agent has begun within the hour, in this order; a trace is
/// created only where none of these is there; and no lookup is asked for whose answer
/// does not matter.
pub proof fn ingestion_goes_on_as_the_search_decides(
    request: EventIngestionRequest,
    auto_create_traces: bool,
    generate_embeddings: bool,
    now: i64,
    fresh_event: String,
    fresh_trace: String,
    first: (EventWrite, IngestAction),
    second: (EventWrite, IngestAction),
    third: (EventWrite, IngestAction),
    session_answer: Option<String>,
    agent_answer: Option<String>,
)
    requires
        EventWrite::begins(
            request,
            auto_create_traces,
            generate_embeddings,
            now,
            fresh_event,
            fresh_trace,
            first,
        ),
        asks_session(first.1) ==> first.0.leads_to(
            IngestEvent::Trace(TraceEvent::Found(session_answer)),
            second.0,
            second.1,
        ),
        asks_agent(first.1) ==> first.0.leads_to(
            IngestEvent::Trace(TraceEvent::Found(agent_answer)),
            second.0,
            second.1,
        ),
        asks_session(first.1) && asks_agent(second.1) ==> second.0.leads_to(
            IngestEvent::Trace(TraceEvent::Found(agent_answer)),
            third.0,
            third.1,
        ),
    ensures
        settles(
            request,
            now,
            fresh_event,
            fresh_trace,
            outcome(
                hint_of(request),
                opt_text(session_answer),
                opt_text(agent_answer),
                auto_create_traces,
            ),
            last_of_search(first, second, third),
        ),
{
}

/// Once the new trace is stored, the event is stored under it.
pub proof fn a_created_trace_takes_the_event(
    write: EventWrite,
    next: EventWrite,
    action: IngestAction,
)
    requires
        write.stage == EventStage::ResolvingTrace,
        write.resolution.stage == TraceStage::Creating,
        write.resolution.new_trace_id is Some,
        write.leads_to(IngestEvent::Trace(TraceEvent::Created), next, action),
    ensures
        next.stage == EventStage::CreatingEvent,
        opt_text(next.trace_id) == opt_text(write.resolution.new_trace_id),
        action matches IngestAction::CreateEvent(record) && write.stores(
            write.resolution.new_trace_id->0@,
            record,
        ),
{
}

/// Two events of one session, ingested one after the other, add one trace at most:
/// where a trace is created for the first, the second is stored under that trace.
///
/// The store answers the lookup of the session by what it holds at the time; what it
/// answers the lookups of the agents is left open. The second event names no trace
/// itself.
pub proof fn two_events_of_one_session_add_one_trace_at_most(
    store: Seq<TraceRecord>,
    first: EventIngestionRequest,
    second: EventIngestionRequest,
    first_by_session: Option<Seq<char>>,
    first_by_agent: Option<Seq<char>>,
    second_by_session: Option<Seq<char>>,
    second_by_agent: Option<Seq<char>>,
    auto_create_traces: bool,
    first_now: i64,
    second_now: i64,
    first_event: String,
    second_event: String,
    first_trace: String,
    second_trace: String,
    first_last: (EventWrite, IngestAction),
    second_last: (EventWrite, IngestAction),
)
    requires
        first.session_id is Some,
        second.session_id is Some,
        first.session_id->0@ == second.session_id->0@,
        second.trace_id is None,
        answers_session(store, first.session_id->0@, first_by_session),
        settles(
            first,
            first_now,
            first_event,
            first_trace,
            outcome(hint_of(first), first_by_session, first_by_agent, auto_create_traces),
            first_last,
        ),
        answers_session(
            store_after(
                store,
                outcome(hint_of(first), first_by_session, first_by_agent, auto_create_traces),
                first_trace@,
                first_now as int,
            ),
            second.session_id->0@,
            second_by_session,
        ),
        settles(
            second,
            second_now,
            second_event,
            second_trace,
            outcome(hint_of(second), second_by_session, second_by_agent, auto_create_traces),
            second_last,
        ),
    ensures
        !(first_last.1 is Trace && second_last.1 is Trace),
        first_last.1 is Trace ==> (second_last.1 matches IngestAction::CreateEvent(record)
            && record.trace_id@ == first_trace@),
{
    let ended = outcome(hint_of(first), first_by_session, first_by_agent, auto_create_traces);
    let between = store_after(store, ended, first_trace@, first_now as int);
    if ended is Create {
        let at = store.len() as int;
        assert(between[at].session_id == second.session_id->0@);
        assert(second_by_session is Some);
        let i = choose|i: int|
            0 <= i < between.len() && (#[trigger] between[i]).id == second_by_session->0
                && between[i].session_id == second.session_id->0@;
        if i < at {
            assert(store[i].session_id == first.session_id->0@);
            assert(false);
        }
        assert(second_by_session->0 == first_trace@);
    }
}

/// An event whose session has a trace is stored under the most recent trace of the
/// session, and no trace is created for it, unless the event names a trace itself.
pub proof fn an_event_joins_the_trace_of_its_session(
    request: EventIngestionRequest,
    auto_create_traces: bool,
    generate_embeddings: bool,
    now: i64,
    fresh_event: String,
    fresh_trace: String,
    first: (EventWrite, IngestAction),
    found: String,
    next: EventWrite,
    action: IngestAction,
)
    requires
        request.trace_id is None,
        request.session_id is Some,
        EventWrite::begins(
            request,
            auto_create_traces,
            generate_embeddings,
            now,
            fresh_event,
            fresh_trace,
            first,
        ),
        first.0.leads_to(IngestEvent::Trace(TraceEvent::Found(Some(found))), next, action),
    ensures
        first.1 matches IngestAction::Trace(TraceAction::FindBySession(session)) && session@
            == request.session_id->0@,
        next.stage == EventStage::CreatingEvent,
        opt_text(next.trace_id) == Some(found@),
        action matches IngestAction::CreateEvent(record) && first.0.stores(found@, record),
{
}

/// An event that names only its agent is stored under the running trace that the
/// agent began within the last hour, where there is one, and no trace is created for
/// it.
pub proof fn an_event_joins_the_recent_trace_of_its_agent(
    request: EventIngestionRequest,
    auto_create_traces: bool,
    generate_embeddings: bool,
    now: i64,
    fresh_event: String,
    fresh_trace: String,
    first: (EventWrite, IngestAction),
    found: String,
    next: EventWrite,
    action: IngestAction,
)
    requires
        request.trace_id is None,
        request.session_id is None,
        request.agent_id is Some,
        EventWrite::begins(
            request,
            auto_create_traces,
            generate_embeddings,
            now,
            fresh_event,
            fresh_trace,
            first,
        ),
        first.0.leads_to(IngestEvent::Trace(TraceEvent::Found(Some(found))), next, action),
    ensures
        first.1 matches IngestAction::Trace(TraceAction::FindRecentByAgent { agent_id, since })
            && agent_id@ == request.agent_id->0@ && since == crate::ingestion::trace::recent_since(
            now,
        ),
        next.stage == EventStage::CreatingEvent,
        opt_text(next.trace_id) == Some(found@),
        action matches IngestAction::CreateEvent(record) && first.0.stores(found@, record),
{
}

/// Whether an event is what the vector side of an ingestion may answer: the text is
/// embedded or not, the collection is there or not, the vector store did what it was
/// asked or failed.
pub open spec fn of_the_vector_side(event: IngestEvent) -> bool {
    event is Embedded || event is EmbeddingFailed || event is CollectionExists || event
        is VectorDone || event is VectorFailed
}

/// Whether an ingestion waits for the vector side: for the embedding, or for the vector
/// store.
pub open spec fn waits_for_vectors(write: EventWrite) -> bool {
    write.stage == EventStage::Embedding || write.stage == EventStage::CheckingCollection
        || write.stage == EventStage::CreatingCollection || write.stage
        == EventStage::UpsertingVector
}

/// Once the event and its edge are stored, the ingestion ends well, under the trace
/// the event was stored under: at once where no text is to be embedded, and else
/// the ingestion goes on to the embedding.
pub proof fn a_stored_event_is_ingested(
    write: EventWrite,
    linked: EventWrite,
    link: IngestAction,
    next: EventWrite,
    action: IngestAction,
)
    requires
        write.stage == EventStage::CreatingEvent,
        write.trace_id is Some,
        write.leads_to(IngestEvent::Stored, linked, link),
        linked.leads_to(IngestEvent::Stored, next, action),
    ensures
        link matches IngestAction::LinkEvent { trace_id, event_id, created_at } && trace_id@
            == write.trace_id->0@ && event_id@ == write.event_id@,
        next.stage == EventStage::Done || next.stage == EventStage::Embedding,
        next.stage == EventStage::Done ==> (action matches IngestAction::Finish(response)
            && response.trace_id@ == write.trace_id->0@ && response.event_id@ == write.event_id@
            && response.created_at == write.request.timestamp),
        !write.generate_embeddings ==> next.stage == EventStage::Done,
{
}

/// No trouble on the vector side fails an event that is stored: whatever the
/// embedding and the vector store answer, the ingestion goes on or ends well, and
/// where it ends it names the trace of the event.
pub proof fn vector_trouble_fails_no_event(
    write: EventWrite,
    event: IngestEvent,
    next: EventWrite,
    action: IngestAction,
)
    requires
        write.well_formed(),
        waits_for_vectors(write),
        of_the_vector_side(event),
        write.leads_to(event, next, action),
    ensures
        !(action is Fail) || unexpected(write, event),
        next.stage == EventStage::Done ==> (action matches IngestAction::Finish(response)
            && response.trace_id@ == write.trace_id->0@ && response.event_id@ == write.event_id@),
        event is EmbeddingFailed || event is VectorFailed ==> (next.stage == EventStage::Done
            || unexpected(write, event)),
{
}

/// Whether an event of the vector side comes at a stage that does not wait for it.
pub open spec fn unexpected(write: EventWrite, event: IngestEvent) -> bool {
    match (write.stage, event) {
        (EventStage::Embedding, IngestEvent::Embedded { .. }) => false,
        (EventStage::Embedding, IngestEvent::EmbeddingFailed(_)) => false,
        (EventStage::CheckingCollection, IngestEvent::CollectionExists(_)) => false,
        (EventStage::CheckingCollection, IngestEvent::VectorFailed(_)) => false,
        (EventStage::CreatingCollection, IngestEvent::VectorDone) => false,
        (EventStage::CreatingCollection, IngestEvent::VectorFailed(_)) => false,
        (EventStage::UpsertingVector, IngestEvent::VectorDone) => false,
        (EventStage::UpsertingVector, IngestEvent::VectorFailed(_)) => false,
        _ => true,
    }
}

} // verus!

use crate::api::types::{EventIngestionRequest, EventIngestionResponse, EventPayload, LogSource};
use crate::ingestion::content::{extract_text_from_json, payload_text};
use crate::ingestion::trace::{
    opt_text, TraceAction, TraceEvent, TraceHint, TraceResolution, TraceStage,
};
use crate::runtime::fresh_uuid;
use crate::text::{clone_opt, concat2, owned};
use vstd::prelude::*;

verus! {

/// The collection that holds the vectors of all events.
pub open spec fn events_collection() -> Seq<char> {
    "agent_events"@
}

/// Where the ingestion of an event stands.
#[derive(Debug, Clone, Copy, PartialEq, Eq, Structural)]
pub enum EventStage {
    ResolvingTrace,
    CreatingEvent,
    LinkingTrace,
    Embedding,
    CheckingCollection,
    CreatingCollection,
    UpsertingVector,
    Done,
    Failed,
}

/// An event as the graph store holds it.
#[derive(Debug, Clone)]
pub struct EventRecord {
    pub id: String,
    pub trace_id: String,
    pub timestamp: i64,
    pub event_type: Option<String>,
    pub agent_id: Option<String>,
    pub session_id: Option<String>,
    pub properties: EventPayload,
    pub source: Option<LogSource>,
    pub created_at: i64,
    pub updated_at: i64,
}

/// What came back from the work that an ingestion asked for.
#[derive(Debug)]
pub enum IngestEvent {
    /// From the graph store, for the search for the trace.
    Trace(TraceEvent),
    /// The graph store stored what it was given.
    Stored,
    StoreFailed(String),
    /// The text was embedded; the caller holds the vector, which has this length.
    Embedded { dimension: usize },
    EmbeddingFailed(String),
    /// Whether the vector store has the collection.
    CollectionExists(bool),
    /// The vector store did what it was asked.
    VectorDone,
    VectorFailed(String),
}

/// What an ingestion asks for next.
#[derive(Debug)]
pub enum IngestAction {
    /// A lookup or the creation of a trace.
    Trace(TraceAction),
    /// Store this event.
    CreateEvent(EventRecord),
    /// Store the edge that says the trace contains the event.
    LinkEvent { trace_id: String, event_id: String, created_at: i64 },
    /// Embed this text.
    Embed(String),
    /// Say whether the vector store has this collection.
    CollectionExists(String),
    /// Create this collection for vectors of this length.
    CreateCollection { name: String, dimension: usize },
    /// Store the embedded vector in this collection under this identifier.
    Upsert { collection: String, id: String },
    /// The event is ingested.
    Finish(EventIngestionResponse),
    /// The event is not ingested; the text says why.
    Fail(String),
}

/// The ingestion of one event.
#[derive(Debug)]
pub struct EventWrite {
    pub request: EventIngestionRequest,
    pub generate_embeddings: bool,
    /// The time of the ingestion, in milliseconds since the start of 1970.
    pub now: i64,
    pub resolution: TraceResolution,
    /// The identifier of the trace that is created if one has to be.
    pub fresh_trace_id: String,
    /// The trace of the event, once it is known.
    pub trace_id: Option<String>,
    pub event_id: String,
    /// The length of the event's vector, once it is known.
    pub dimension: usize,
    pub stage: EventStage,
}

/// The characters of an optional string, or none where there is no string.
pub open spec fn text_or_empty(value: Option<String>) -> Seq<char> {
    match value {
        Some(s) => s@,
        None => Seq::empty(),
    }
}

/// Whether two payloads hold the same.
pub open spec fn same_payload(a: EventPayload, b: EventPayload) -> bool {
    match (a, b) {
        (EventPayload::Text(x), EventPayload::Text(y)) => x@ == y@,
        (EventPayload::Fields(x), EventPayload::Fields(y)) => x@ == y@,
        (EventPayload::Other { json: x }, EventPayload::Other { json: y }) => x@ == y@,
        _ => false,
    }
}

impl EventWrite {
    /// Whether the ingestion knows the trace of its event wherever it has gone beyond
    /// the search for it.
    pub open spec fn well_formed(&self) -> bool {
        self.stage != EventStage::ResolvingTrace && self.stage != EventStage::Failed
            ==> self.trace_id is Some
    }

    /// Whether `next` is an ingestion of the same event as this one: every step keeps
    /// the event, its identifier, the identifier set aside for a new trace, the time
    /// and whether embeddings are asked for.
    pub open spec fn carried(&self, next: Self) -> bool {
        &&& next.event_id@ == self.event_id@
        &&& next.request == self.request
        &&& next.generate_embeddings == self.generate_embeddings
        &&& next.now == self.now
        &&& next.fresh_trace_id@ == self.fresh_trace_id@
    }

    /// Whether `record` is the event of this ingestion as it is stored under the trace
    /// `trace`.
    pub open spec fn stores(&self, trace: Seq<char>, record: EventRecord) -> bool {
        &&& record.id@ == self.event_id@
        &&& record.trace_id@ == trace
        &&& record.timestamp == self.request.timestamp
        &&& opt_text(record.event_type) == opt_text(self.request.event_type)
        &&& opt_text(record.agent_id) == opt_text(self.request.agent_id)
        &&& opt_text(record.session_id) == opt_text(self.request.session_id)
        &&& same_payload(record.properties, self.request.properties)
        &&& record.source == self.request.source
        &&& record.created_at == self.now
        &&& record.updated_at == self.now
    }

    /// Whether `action` is the answer that ends the ingestion well: the event, its
    /// trace, and the time of the event.
    pub open spec fn finishes(&self, next: Self, action: IngestAction) -> bool {
        &&& next.stage == EventStage::Done
        &&& action matches IngestAction::Finish(response)
        &&& response.event_id@ == self.event_id@
        &&& response.trace_id@ == text_or_empty(self.trace_id)
        &&& response.created_at == self.request.timestamp
    }

    /// Whether `action` ends the ingestion with the given reason, after `lead`.
    pub open spec fn fails(next: Self, action: IngestAction, lead: Seq<char>, why: Seq<char>) -> bool {
        &&& next.stage == EventStage::Failed
        &&& action matches IngestAction::Fail(text)
        &&& text@ == lead + why
    }

    /// Whether `next` and `action` are what the ingestion comes to when the search for
    /// the trace has gone on to `after` and asks for `asked`: a lookup or a creation is
    /// passed on; a failure is the event's; a trace that is found becomes the trace of
    /// the event, and the event is stored under it.
    pub open spec fn after_trace(
        &self,
        after: TraceResolution,
        asked: TraceAction,
        next: Self,
        action: IngestAction,
    ) -> bool {
        &&& next.resolution == after
        &&& match asked {
            TraceAction::Resolved(trace) => {
                &&& next.stage == EventStage::CreatingEvent
                &&& opt_text(next.trace_id) == Some(trace@)
                &&& action matches IngestAction::CreateEvent(record)
                &&& self.stores(trace@, record)
            },
            TraceAction::Fail(why) => {
                &&& opt_text(next.trace_id) == opt_text(self.trace_id)
                &&& EventWrite::fails(next, action, "Failed to get/create trace: "@, why@)
            },
            _ => {
                &&& opt_text(next.trace_id) == opt_text(self.trace_id)
                &&& next.stage == EventStage::ResolvingTrace
                &&& action == IngestAction::Trace(asked)
            },
        }
    }

    /// Whether `next` and `action` are what the ingestion comes to once the event and
    /// its edge are stored: the text of the event is embedded, where embeddings are
    /// asked for and the event carries text; else the ingestion ends well.
    pub open spec fn after_persist(&self, next: Self, action: IngestAction) -> bool {
        if self.generate_embeddings && payload_text(self.request.properties).len() > 0 {
            &&& next.stage == EventStage::Embedding
            &&& action matches IngestAction::Embed(text)
            &&& text@ == payload_text(self.request.properties)
        } else {
            self.finishes(next, action)
        }
    }

    /// Whether `next` and `action` are what the ingestion comes to when the vector is
    /// to be stored.
    pub open spec fn upserts(&self, next: Self, action: IngestAction) -> bool {
        &&& next.stage == EventStage::UpsertingVector
        &&& action matches IngestAction::Upsert { collection, id }
        &&& collection@ == events_collection()
        &&& id@ == self.event_id@
    }

    /// Whether `event` is an answer to the search for the trace that comes while the
    /// search is on.
    pub open spec fn searches(&self, event: IngestEvent) -> bool {
        self.stage == EventStage::ResolvingTrace && event is Trace
    }

    /// Whether `event` says that the text is embedded, while the ingestion waits for
    /// that.
    pub open spec fn embeds(&self, event: IngestEvent) -> bool {
        self.stage == EventStage::Embedding && event is Embedded
    }

    /// Whether `next` and `action` are what the ingestion comes to on `event`.
    ///
    /// Only an answer to the search moves the search on, and only it makes the trace of
    /// the event known; once known the trace stays. A trace that is created has the
    /// identifier set aside for it. A failure of the graph store fails the event. A
    /// failure to embed, or of the vector store, is passed over: the event is ingested
    /// without a vector.
    pub open spec fn leads_to(&self, event: IngestEvent, next: Self, action: IngestAction) -> bool {
        &&& self.carried(next)
        &&& !self.searches(event) ==> next.resolution == self.resolution && opt_text(next.trace_id)
            == opt_text(self.trace_id)
        &&& !self.embeds(event) ==> next.dimension == self.dimension
        &&& match (self.stage, event) {
            (EventStage::ResolvingTrace, IngestEvent::Trace(e)) => exists|
                after: TraceResolution,
                asked: TraceAction,
            |
                #![trigger self.resolution.leads_to(e, after, asked)]
                self.resolution.leads_to(e, after, asked) && (asked matches TraceAction::CreateTrace(
                    trace,
                ) ==> trace.id@ == self.fresh_trace_id@) && self.after_trace(
                    after,
                    asked,
                    next,
                    action,
                ),
            (EventStage::CreatingEvent, IngestEvent::Stored) => {
                &&& next.stage == EventStage::LinkingTrace
                &&& action matches IngestAction::LinkEvent { trace_id, event_id, created_at }
                &&& trace_id@ == text_or_empty(self.trace_id)
                &&& event_id@ == self.event_id@
                &&& created_at == self.now
            },
            (EventStage::CreatingEvent, IngestEvent::StoreFailed(why)) => EventWrite::fails(
                next,
                action,
                "Failed to create event: "@,
                why@,
            ),
            (EventStage::LinkingTrace, IngestEvent::Stored) => self.after_persist(next, action),
            (EventStage::LinkingTrace, IngestEvent::StoreFailed(why)) => EventWrite::fails(
                next,
                action,
                "Failed to create event: "@,
                why@,
            ),
            (EventStage::Embedding, IngestEvent::Embedded { dimension }) => {
                &&& next.stage == EventStage::CheckingCollection
                &&& next.dimension == dimension
                &&& action matches IngestAction::CollectionExists(name)
                &&& name@ == events_collection()
            },
            (EventStage::Embedding, IngestEvent::EmbeddingFailed(_)) => self.finishes(
                next,
                action,
            ),
            (EventStage::CheckingCollection, IngestEvent::CollectionExists(true)) => self.upserts(
                next,
                action,
            ),
            (EventStage::CheckingCollection, IngestEvent::CollectionExists(false)) => {
                &&& next.stage == EventStage::CreatingCollection
                &&& action matches IngestAction::CreateCollection { name, dimension }
                &&& name@ == events_collection()
                &&& dimension == self.dimension
            },
            (EventStage::CheckingCollection, IngestEvent::VectorFailed(_)) => self.finishes(
                next,
                action,
            ),
            (EventStage::CreatingCollection, IngestEvent::VectorDone) => self.upserts(
                next,
                action,
            ),
            (EventStage::CreatingCollection, IngestEvent::VectorFailed(_)) => self.finishes(
                next,
                action,
            ),
            (EventStage::UpsertingVector, IngestEvent::VectorDone) => self.finishes(next, action),
            (EventStage::UpsertingVector, IngestEvent::VectorFailed(_)) => self.finishes(
                next,
                action,
            ),
            _ => EventWrite::fails(next, action, Seq::empty(), "unexpected event"@),
        }
    }

    fn finish(self) -> (next: (Self, IngestAction))
        ensures
            self.finishes(next.0, next.1),
            next.0 == (EventWrite { stage: next.0.stage, ..self }),
    {
        let response = EventIngestionResponse {
            event_id: self.event_id.clone(),
            trace_id: match &self.trace_id {
                Some(trace) => trace.clone(),
                None => String::new(),
            },
            created_at: self.request.timestamp,
        };
        (EventWrite { stage: EventStage::Done, ..self }, IngestAction::Finish(response))
    }

    fn fail(self, lead: &str, why: &str) -> (next: (Self, IngestAction))
        ensures
            EventWrite::fails(next.0, next.1, lead@, why@),
            next.0 == (EventWrite { stage: next.0.stage, ..self }),
    {
        (EventWrite { stage: EventStage::Failed, ..self }, IngestAction::Fail(concat2(lead, why)))
    }

    fn upsert(self) -> (next: (Self, IngestAction))
        ensures
            self.upserts(next.0, next.1),
            next.0 == (EventWrite { stage: next.0.stage, ..self }),
    {
        let action = IngestAction::Upsert {
            collection: owned("agent_events"),
            id: self.event_id.clone(),
        };
        (EventWrite { stage: EventStage::UpsertingVector, ..self }, action)
    }

    fn on_trace(self, asked: TraceAction) -> (next: (Self, IngestAction))
        ensures
            self.after_trace(self.resolution, asked, next.0, next.1),
            self.carried(next.0),
            next.0.dimension == self.dimension,
    {
        match asked {
            TraceAction::Resolved(trace) => {
                let record = EventRecord {
                    id: self.event_id.clone(),
                    trace_id: trace.clone(),
                    timestamp: self.request.timestamp,
                    event_type: clone_opt(&self.request.event_type),
                    agent_id: clone_opt(&self.request.agent_id),
                    session_id: clone_opt(&self.request.session_id),
                    properties: clone_payload(&self.request.properties),
                    source: clone_source(&self.request.source),
                    created_at: self.now,
                    updated_at: self.now,
                };
                (
                    EventWrite { trace_id: Some(trace), stage: EventStage::CreatingEvent, ..self },
                    IngestAction::CreateEvent(record),
                )
            },
            TraceAction::Fail(why) => self.fail("Failed to get/create trace: ", why.as_str()),
            _ => (
                EventWrite { stage: EventStage::ResolvingTrace, ..self },
                IngestAction::Trace(asked),
            ),
        }
    }

    /// Whether `started` is the ingestion of an event before its first step, and what
    /// it asks first: the search for the event's trace begins, and the event is stored
    /// at once where it names its trace. `fresh_event` is the identifier that the event
    /// gets, `fresh_trace` that of the trace that is created if one has to be.
    pub open spec fn begins(
        request: EventIngestionRequest,
        auto_create_traces: bool,
        generate_embeddings: bool,
        now: i64,
        fresh_event: String,
        fresh_trace: String,
        started: (Self, IngestAction),
    ) -> bool {
        let blank = EventWrite {
            request,
            generate_embeddings,
            now,
            resolution: first_search(request, auto_create_traces, now),
            fresh_trace_id: fresh_trace,
            trace_id: None,
            event_id: fresh_event,
            dimension: 0,
            stage: EventStage::ResolvingTrace,
        };
        &&& blank.carried(started.0)
        &&& started.0.dimension == 0
        &&& exists|first: (TraceResolution, TraceAction)|
            #![trigger TraceResolution::begins(hint_of(request), auto_create_traces, now, first)]
            TraceResolution::begins(hint_of(request), auto_create_traces, now, first) && (
            first.1 matches TraceAction::CreateTrace(trace) ==> trace.id@ == fresh_trace@)
                && blank.after_trace(first.0, first.1, started.0, started.1)
    }

    /// The start of the ingestion of an event with the given identifiers.
    pub fn begin_with(
        request: EventIngestionRequest,
        auto_create_traces: bool,
        generate_embeddings: bool,
        now: i64,
        fresh_event: String,
        fresh_trace: String,
    ) -> (started: (Self, IngestAction))
        ensures
            EventWrite::begins(
                request,
                auto_create_traces,
                generate_embeddings,
                now,
                fresh_event,
                fresh_trace,
                started,
            ),
    {
        let hint = TraceHint {
            trace_id: clone_opt(&request.trace_id),
            session_id: clone_opt(&request.session_id),
            agent_id: clone_opt(&request.agent_id),
        };
        let first = TraceResolution::begin_with(hint, auto_create_traces, now, fresh_trace.clone());
        proof {
            assert(TraceResolution::begins(hint_of(request), auto_create_traces, now, first));
        }
        let write = EventWrite {
            request,
            generate_embeddings,
            now,
            resolution: first.0,
            fresh_trace_id: fresh_trace,
            trace_id: None,
            event_id: fresh_event,
            dimension: 0,
            stage: EventStage::ResolvingTrace,
        };
        write.on_trace(first.1)
    }

    /// The start of the ingestion of an event, with fresh universally unique
    /// identifiers for the event and for the trace that is created if one has to be.
    pub fn begin(
        request: EventIngestionRequest,
        auto_create_traces: bool,
        generate_embeddings: bool,
        now: i64,
    ) -> (started: (Self, IngestAction))
        ensures
            exists|fresh_event: String, fresh_trace: String|
                #![trigger EventWrite::begins(request, auto_create_traces, generate_embeddings, now, fresh_event, fresh_trace, started)]
                crate::runtime::is_uuid_text(fresh_event@) && crate::runtime::is_uuid_text(
                    fresh_trace@,
                ) && EventWrite::begins(
                    request,
                    auto_create_traces,
                    generate_embeddings,
                    now,
                    fresh_event,
                    fresh_trace,
                    started,
                ),
    {
        let fresh_event = fresh_uuid();
        let fresh_trace = fresh_uuid();
        let started = EventWrite::begin_with(
            request,
            auto_create_traces,
            generate_embeddings,
            now,
            fresh_event,
            fresh_trace,
        );
        assert(EventWrite::begins(
            request,
            auto_create_traces,
            generate_embeddings,
            now,
            fresh_event,
            fresh_trace,
            started,
        ));
        started
    }

    /// Takes what came back from the work last asked for, and says what to do next.
    pub fn advance(self, event: IngestEvent) -> (next: (Self, IngestAction))
        ensures
            self.leads_to(event, next.0, next.1),
    {
        proof {
            reveal_strlit("");
            assert(""@ =~= Seq::<char>::empty());
        }
        match self.stage {
            EventStage::ResolvingTrace => match event {
                IngestEvent::Trace(e) => {
                    let EventWrite {
                        request,
                        generate_embeddings,
                        now,
                        resolution,
                        fresh_trace_id,
                        trace_id,
                        event_id,
                        dimension,
                        stage,
                    } = self;
                    let (after, asked) = resolution.advance_with(e, fresh_trace_id.clone());
                    assert(resolution.leads_to(e, after, asked));
                    let write = EventWrite {
                        request,
                        generate_embeddings,
                        now,
                        resolution: after,
                        fresh_trace_id,
                        trace_id,
                        event_id,
                        dimension,
                        stage,
                    };
                    let out = write.on_trace(asked);
                    assert(self.after_trace(after, asked, out.0, out.1));
                    out
                },
                _ => self.fail("", "unexpected event"),
            },
            EventStage::CreatingEvent => match event {
                IngestEvent::Stored => {
                    let action = IngestAction::LinkEvent {
                        trace_id: match &self.trace_id {
                            Some(trace) => trace.clone(),
                            None => String::new(),
                        },
                        event_id: self.event_id.clone(),
                        created_at: self.now,
                    };
                    (EventWrite { stage: EventStage::LinkingTrace, ..self }, action)
                },
                IngestEvent::StoreFailed(why) => self.fail(
                    "Failed to create event: ",
                    why.as_str(),
                ),
                _ => self.fail("", "unexpected event"),
            },
            EventStage::LinkingTrace => match event {
                IngestEvent::Stored => {
                    if self.generate_embeddings {
                        let text = extract_text_from_json(&self.request.properties);
                        if text.as_str().unicode_len() > 0 {
                            return (
                                EventWrite { stage: EventStage::Embedding, ..self },
                                IngestAction::Embed(text),
                            );
                        }
                    }
                    self.finish()
                },
                IngestEvent::StoreFailed(why) => self.fail(
                    "Failed to create event: ",
                    why.as_str(),
                ),
                _ => self.fail("", "unexpected event"),
            },
            EventStage::Embedding => match event {
                IngestEvent::Embedded { dimension } => (
                    EventWrite { dimension, stage: EventStage::CheckingCollection, ..self },
                    IngestAction::CollectionExists(owned("agent_events")),
                ),
                IngestEvent::EmbeddingFailed(_) => self.finish(),
                _ => self.fail("", "unexpected event"),
            },
            EventStage::CheckingCollection => match event {
                IngestEvent::CollectionExists(true) => self.upsert(),
                IngestEvent::CollectionExists(false) => {
                    let action = IngestAction::CreateCollection {
                        name: owned("agent_events"),
                        dimension: self.dimension,
                    };
                    (EventWrite { stage: EventStage::CreatingCollection, ..self }, action)
                },
                IngestEvent::VectorFailed(_) => self.finish(),
                _ => self.fail("", "unexpected event"),
            },
            EventStage::CreatingCollection => match event {
                IngestEvent::VectorDone => self.upsert(),
                IngestEvent::VectorFailed(_) => self.finish(),
                _ => self.fail("", "unexpected event"),
            },
            EventStage::UpsertingVector => match event {
                IngestEvent::VectorDone => self.finish(),
                IngestEvent::VectorFailed(_) => self.finish(),
                _ => self.fail("", "unexpected event"),
            },
            _ => self.fail("", "unexpected event"),
        }
    }
}

/// The search for the trace of an event before anything is known of it.
pub open spec fn first_search(
    request: EventIngestionRequest,
    auto_create: bool,
    now: i64,
) -> TraceResolution {
    TraceResolution {
        hint: hint_of(request),
        auto_create,
        now,
        new_trace_id: None,
        stage: TraceStage::BySession,
    }
}

/// What an event says of the trace it belongs to.
pub open spec fn hint_of(request: EventIngestionRequest) -> TraceHint {
    TraceHint {
        trace_id: request.trace_id,
        session_id: request.session_id,
        agent_id: request.agent_id,
    }
}

/// A copy of what an event carries.
pub fn clone_payload(payload: &EventPayload) -> (copy: EventPayload)
    ensures
        payload_text(copy) == payload_text(*payload),
        same_payload(copy, *payload),
{
    match payload {
        EventPayload::Text(s) => EventPayload::Text(s.clone()),
        EventPayload::Fields(fields) => EventPayload::Fields(
            crate::ontology::value::clone_properties(fields),
        ),
        EventPayload::Other { json } => EventPayload::Other { json: json.clone() },
    }
}

/// A copy of where an event came from.
pub fn clone_source(source: &Option<LogSource>) -> (copy: Option<LogSource>)
    ensures
        copy == *source,
{
    match source {
        Some(s) => Some(
            LogSource {
                system: s.system.clone(),
                log_group: s.log_group.clone(),
                log_stream: s.log_stream.clone(),
                log_id: s.log_id.clone(),
            },
        ),
        None => None,
    }
}

} // verus!

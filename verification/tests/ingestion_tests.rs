use vectadb::api::types::{
    default_true, BulkEventIngestionResponse, EventIngestionRequest, EventPayload, IngestionOptions,
    LogSource,
};
use vectadb::ingestion::content::{extract_text_from_json, extract_text_from_properties};
use vectadb::ingestion::event::{EventStage, EventWrite, IngestAction, IngestEvent};
use vectadb::ingestion::trace::{
    Trace, TraceAction, TraceEvent, TraceHint, TraceResolution, TraceStage, TraceStatus,
    RECENT_TRACE_MILLIS,
};
use vectadb::ontology::value::{Number, Property, PropertyValue};

fn s(text: &str) -> String {
    text.to_string()
}

fn hint(trace: Option<&str>, session: Option<&str>, agent: Option<&str>) -> TraceHint {
    TraceHint {
        trace_id: trace.map(s),
        session_id: session.map(s),
        agent_id: agent.map(s),
    }
}

fn request(trace: Option<&str>, session: Option<&str>, agent: Option<&str>, payload: EventPayload) -> EventIngestionRequest {
    EventIngestionRequest {
        trace_id: trace.map(s),
        timestamp: 1_700_000_000_000,
        event_type: Some(s("tool_call")),
        agent_id: agent.map(s),
        session_id: session.map(s),
        properties: payload,
        source: None,
    }
}

/// A store of traces that answers as the graph store does.
struct Traces {
    stored: Vec<Trace>,
}

impl Traces {
    fn answer(&mut self, action: TraceAction) -> TraceEvent {
        match action {
            TraceAction::FindBySession(session) => TraceEvent::Found(
                self.stored
                    .iter()
                    .filter(|t| t.session_id == session)
                    .max_by_key(|t| t.start_time)
                    .map(|t| t.id.clone()),
            ),
            TraceAction::FindRecentByAgent { agent_id, since } => TraceEvent::Found(
                self.stored
                    .iter()
                    .filter(|t| {
                        t.agent_id.as_deref() == Some(agent_id.as_str())
                            && t.status == TraceStatus::Running
                            && t.start_time > since
                    })
                    .max_by_key(|t| t.start_time)
                    .map(|t| t.id.clone()),
            ),
            TraceAction::CreateTrace(trace) => {
                self.stored.push(trace);
                TraceEvent::Created
            }
            other => panic!("nothing to answer to {:?}", other),
        }
    }

    fn resolve(&mut self, hint: TraceHint, auto_create: bool, now: i64) -> Result<String, String> {
        let (mut state, mut action) = TraceResolution::begin(hint, auto_create, now);
        loop {
            match action {
                TraceAction::Resolved(id) => {
                    assert_eq!(state.stage, TraceStage::Resolved);
                    return Ok(id);
                }
                TraceAction::Fail(why) => return Err(why),
                other => {
                    let event = self.answer(other);
                    let next = state.advance(event);
                    state = next.0;
                    action = next.1;
                }
            }
        }
    }
}

#[test]
fn two_events_of_one_session_share_one_new_trace() {
    let mut traces = Traces { stored: vec![] };
    let first = traces.resolve(hint(None, Some("s"), None), true, 1_000).unwrap();
    assert_eq!(traces.stored.len(), 1);
    assert_eq!(first.len(), 36);
    assert_eq!(traces.stored[0].session_id, "s");
    assert_eq!(traces.stored[0].status, TraceStatus::Running);
    assert_eq!(traces.stored[0].start_time, 1_000);
    let second = traces.resolve(hint(None, Some("s"), None), true, 2_000).unwrap();
    assert_eq!(second, first);
    assert_eq!(traces.stored.len(), 1);

    let mut response = BulkEventIngestionResponse::new();
    response.record_success(&first);
    response.record_success(&second);
    assert_eq!(response.trace_ids, vec![first]);
    assert_eq!(response.ingested, 2);
}

#[test]
fn a_trace_is_found_by_name_session_or_agent() {
    let mut traces = Traces { stored: vec![] };
    assert_eq!(traces.resolve(hint(Some("t-1"), Some("s"), Some("a")), false, 0).unwrap(), "t-1");
    assert!(traces.stored.is_empty());

    let by_agent = traces.resolve(hint(None, None, Some("bot")), true, 10_000_000).unwrap();
    assert_eq!(traces.stored[0].session_id, "default");
    assert_eq!(traces.stored[0].agent_id.as_deref(), Some("bot"));
    let again = traces.resolve(hint(None, None, Some("bot")), true, 10_000_000 + RECENT_TRACE_MILLIS - 1).unwrap();
    assert_eq!(again, by_agent);
    let later = traces.resolve(hint(None, None, Some("bot")), true, 10_000_000 + RECENT_TRACE_MILLIS).unwrap();
    assert_ne!(later, by_agent);
    assert_eq!(traces.stored.len(), 2);

    let other_session = traces.resolve(hint(None, Some("fresh"), Some("bot")), false, 10_000_000 + RECENT_TRACE_MILLIS).unwrap();
    assert_eq!(other_session, later);

    traces.stored[1].status = TraceStatus::Completed;
    let ended = traces.resolve(hint(None, Some("fresh"), Some("bot")), false, 10_000_000 + RECENT_TRACE_MILLIS);
    assert_eq!(ended.unwrap_err(), "Trace not found and auto-create disabled");
    let nothing = traces.resolve(hint(None, None, None), false, 0);
    assert_eq!(nothing.unwrap_err(), "No trace specified and auto-create disabled");
    let anonymous = traces.resolve(hint(None, None, None), true, 5).unwrap();
    assert_eq!(traces.stored.last().unwrap().id, anonymous);
    assert_eq!(traces.stored.last().unwrap().session_id, "default");
    assert_eq!(traces.stored.last().unwrap().agent_id, None);
}

#[test]
fn the_steps_of_a_search_for_a_trace() {
    let (state, action) = TraceResolution::begin_with(hint(None, Some("s"), Some("a")), true, 5_000_000, s("new"));
    assert!(matches!(&action, TraceAction::FindBySession(x) if x == "s"));
    let (state, action) = state.advance_with(TraceEvent::Found(None), s("new"));
    assert!(matches!(&action, TraceAction::FindRecentByAgent { agent_id, since } if agent_id == "a" && *since == 1_400_000));
    assert_eq!(state.stage, TraceStage::ByAgent);
    let (state, action) = state.advance_with(TraceEvent::Found(None), s("new"));
    match &action {
        TraceAction::CreateTrace(t) => {
            assert_eq!(t.id, "new");
            assert_eq!(t.session_id, "s");
            assert_eq!((t.start_time, t.created_at, t.updated_at), (5_000_000, 5_000_000, 5_000_000));
        }
        other => panic!("unexpected {:?}", other),
    }
    let (state, action) = state.advance_with(TraceEvent::Created, s("unused"));
    assert!(matches!(&action, TraceAction::Resolved(id) if id == "new"));
    let (_, action) = state.advance_with(TraceEvent::Created, s("unused"));
    assert!(matches!(&action, TraceAction::Fail(why) if why == "unexpected event"));

    let (state, _) = TraceResolution::begin_with(hint(None, Some("s"), None), true, i64::MIN, s("n"));
    let (_, action) = state.advance_with(TraceEvent::StoreFailed(s("down")), s("n"));
    assert!(matches!(&action, TraceAction::Fail(why) if why == "down"));
    let (_, action) = TraceResolution::begin_with(hint(None, None, Some("a")), true, i64::MIN + 5, s("n"));
    assert!(matches!(&action, TraceAction::FindRecentByAgent { since, .. } if *since == i64::MIN));
    assert_eq!(TraceStatus::Running.name(), "running");
    assert_eq!(TraceStatus::Completed.name(), "completed");
    assert_eq!(TraceStatus::Failed.name(), "failed");
}

fn fields() -> EventPayload {
    EventPayload::Fields(vec![
        Property { name: s("tool"), value: PropertyValue::String(s("search")) },
        Property { name: s("nested"), value: PropertyValue::Object { json: s("{}") } },
        Property { name: s("tokens"), value: PropertyValue::Number(Number { ordinal: Some(1), text: s("12") }) },
        Property { name: s("ok"), value: PropertyValue::Bool(true) },
        Property { name: s("tags"), value: PropertyValue::Array { len: 1, json: s("[1]") } },
        Property { name: s("none"), value: PropertyValue::Null },
    ])
}

#[test]
fn text_is_taken_from_scalars() {
    assert_eq!(extract_text_from_json(&fields()), "tool: search. tokens: 12. ok: true");
    assert_eq!(extract_text_from_json(&EventPayload::Text(s("plain"))), "plain");
    assert_eq!(extract_text_from_json(&EventPayload::Other { json: s("[1,2]") }), "");
    assert_eq!(extract_text_from_json(&EventPayload::Fields(vec![])), "");
    let one = vec![Property { name: s("off"), value: PropertyValue::Bool(false) }];
    assert_eq!(extract_text_from_properties(&one), "off: false");
}

#[test]
fn an_event_is_stored_linked_and_embedded() {
    let (state, action) = EventWrite::begin_with(
        request(None, Some("s"), None, fields()),
        true,
        true,
        77,
        s("event-1"),
        s("trace-1"),
    );
    assert_eq!(state.stage, EventStage::ResolvingTrace);
    assert!(matches!(&action, IngestAction::Trace(TraceAction::FindBySession(x)) if x == "s"));
    let (state, action) = state.advance(IngestEvent::Trace(TraceEvent::Found(None)));
    assert!(matches!(&action, IngestAction::Trace(TraceAction::CreateTrace(t)) if t.id == "trace-1" && t.start_time == 77));
    let (state, action) = state.advance(IngestEvent::Trace(TraceEvent::Created));
    match &action {
        IngestAction::CreateEvent(record) => {
            assert_eq!(record.id, "event-1");
            assert_eq!(record.trace_id, "trace-1");
            assert_eq!(record.timestamp, 1_700_000_000_000);
            assert_eq!(record.event_type.as_deref(), Some("tool_call"));
            assert_eq!(record.session_id.as_deref(), Some("s"));
            assert_eq!((record.created_at, record.updated_at), (77, 77));
        }
        other => panic!("unexpected {:?}", other),
    }
    let (state, action) = state.advance(IngestEvent::Stored);
    assert!(matches!(&action, IngestAction::LinkEvent { trace_id, event_id, created_at }
        if trace_id == "trace-1" && event_id == "event-1" && *created_at == 77));
    let (state, action) = state.advance(IngestEvent::Stored);
    assert!(matches!(&action, IngestAction::Embed(text) if text == "tool: search. tokens: 12. ok: true"));
    let (state, action) = state.advance(IngestEvent::Embedded { dimension: 384 });
    assert!(matches!(&action, IngestAction::CollectionExists(name) if name == "agent_events"));
    let (state, action) = state.advance(IngestEvent::CollectionExists(false));
    assert!(matches!(&action, IngestAction::CreateCollection { name, dimension } if name == "agent_events" && *dimension == 384));
    let (state, action) = state.advance(IngestEvent::VectorDone);
    assert!(matches!(&action, IngestAction::Upsert { collection, id } if collection == "agent_events" && id == "event-1"));
    let (state, action) = state.advance(IngestEvent::VectorFailed(s("full")));
    assert_eq!(state.stage, EventStage::Done);
    match action {
        IngestAction::Finish(response) => {
            assert_eq!(response.event_id, "event-1");
            assert_eq!(response.trace_id, "trace-1");
            assert_eq!(response.created_at, 1_700_000_000_000);
        }
        other => panic!("unexpected {:?}", other),
    }
}

/// Ingests one event against a store of traces; every other store call succeeds.
fn ingest(traces: &mut Traces, request: EventIngestionRequest, auto_create: bool, now: i64) -> Result<(String, String), String> {
    let (mut state, mut action) = EventWrite::begin(request, auto_create, false, now);
    let mut stored_under = None;
    loop {
        let event = match action {
            IngestAction::Trace(asked) => IngestEvent::Trace(traces.answer(asked)),
            IngestAction::CreateEvent(record) => {
                assert_eq!(record.id, state.event_id);
                stored_under = Some(record.trace_id.clone());
                IngestEvent::Stored
            }
            IngestAction::LinkEvent { trace_id, event_id, .. } => {
                assert_eq!(Some(&trace_id), stored_under.as_ref());
                assert_eq!(event_id, state.event_id);
                IngestEvent::Stored
            }
            IngestAction::Finish(response) => {
                assert_eq!(state.stage, EventStage::Done);
                assert_eq!(Some(&response.trace_id), stored_under.as_ref());
                assert_eq!(state.trace_id.as_ref(), stored_under.as_ref());
                return Ok((response.event_id, response.trace_id));
            }
            IngestAction::Fail(why) => return Err(why),
            other => panic!("unexpected {:?}", other),
        };
        let next = state.advance(event);
        state = next.0;
        action = next.1;
    }
}

#[test]
fn two_ingested_events_of_one_session_add_one_trace() {
    let mut traces = Traces { stored: vec![] };
    let mut response = BulkEventIngestionResponse::new();
    let (first_event, first_trace) = ingest(&mut traces, request(None, Some("s"), None, fields()), true, 1_000).unwrap();
    response.record_success(&first_trace);
    assert_eq!(traces.stored.len(), 1);
    assert_eq!(traces.stored[0].id, first_trace);
    assert_eq!(traces.stored[0].session_id, "s");
    let (second_event, second_trace) = ingest(&mut traces, request(None, Some("s"), None, fields()), true, 2_000).unwrap();
    response.record_success(&second_trace);
    assert_eq!(second_trace, first_trace);
    assert_ne!(second_event, first_event);
    assert_eq!(traces.stored.len(), 1);
    assert_eq!(response.trace_ids, vec![first_trace]);
    assert_eq!((response.ingested, response.failed), (2, 0));
    assert!(response.errors.is_empty());
}

#[test]
fn an_ingested_event_joins_the_trace_that_is_there() {
    let running = |id: &str, session: &str, agent: Option<&str>, start: i64| Trace {
        id: s(id),
        session_id: s(session),
        agent_id: agent.map(s),
        status: TraceStatus::Running,
        start_time: start,
        created_at: start,
        updated_at: start,
    };
    let now = 10_000_000;
    let mut traces = Traces {
        stored: vec![
            running("old", "s", None, 1),
            running("new", "s", None, 5),
            running("bot-trace", "other", Some("bot"), now - RECENT_TRACE_MILLIS + 1),
            running("stale", "third", Some("slow"), now - RECENT_TRACE_MILLIS),
        ],
    };
    let (_, by_session) = ingest(&mut traces, request(None, Some("s"), Some("bot"), fields()), true, now).unwrap();
    assert_eq!(by_session, "new");
    let (_, by_agent) = ingest(&mut traces, request(None, None, Some("bot"), fields()), true, now).unwrap();
    assert_eq!(by_agent, "bot-trace");
    let (_, named) = ingest(&mut traces, request(Some("given"), Some("s"), Some("bot"), fields()), false, now).unwrap();
    assert_eq!(named, "given");
    assert_eq!(traces.stored.len(), 4);
    let refused = ingest(&mut traces, request(None, None, Some("slow"), fields()), false, now);
    assert_eq!(refused.unwrap_err(), "Failed to get/create trace: Trace not found and auto-create disabled");
    let (_, created) = ingest(&mut traces, request(None, None, Some("slow"), fields()), true, now).unwrap();
    assert_eq!(traces.stored.len(), 5);
    assert_eq!(traces.stored[4].id, created);
    assert_eq!(traces.stored[4].session_id, "default");
    assert_eq!(traces.stored[4].agent_id.as_deref(), Some("slow"));
}

#[test]
fn every_step_of_an_ingestion_carries_the_event_along() {
    let source = LogSource {
        system: s("cloudwatch"),
        log_group: s("/aws/lambda/x"),
        log_stream: s("stream"),
        log_id: s("42"),
    };
    let mut asked = request(None, Some("s"), None, fields());
    asked.source = Some(source);
    let (state, _) = EventWrite::begin_with(asked, true, true, 77, s("event-1"), s("trace-1"));
    assert_eq!(state.resolution.stage, TraceStage::BySession);
    assert_eq!(state.fresh_trace_id, "trace-1");
    assert_eq!(state.trace_id, None);
    let (state, action) = state.advance(IngestEvent::Trace(TraceEvent::Found(Some(s("t-9")))));
    assert_eq!(state.resolution.stage, TraceStage::Resolved);
    assert_eq!(state.trace_id.as_deref(), Some("t-9"));
    match &action {
        IngestAction::CreateEvent(record) => {
            assert_eq!(record.trace_id, "t-9");
            let from = record.source.as_ref().unwrap();
            assert_eq!(
                (from.system.as_str(), from.log_group.as_str(), from.log_stream.as_str(), from.log_id.as_str()),
                ("cloudwatch", "/aws/lambda/x", "stream", "42")
            );
            assert!(matches!(&record.properties, EventPayload::Fields(f) if f.len() == 6));
        }
        other => panic!("unexpected {:?}", other),
    }
    let (state, _) = state.advance(IngestEvent::Stored);
    let (state, _) = state.advance(IngestEvent::Stored);
    assert_eq!(state.stage, EventStage::Embedding);
    assert_eq!(state.trace_id.as_deref(), Some("t-9"));
    assert_eq!(state.request.session_id.as_deref(), Some("s"));
    assert_eq!(state.fresh_trace_id, "trace-1");
    let (state, _) = state.advance(IngestEvent::Embedded { dimension: 3 });
    assert_eq!(state.trace_id.as_deref(), Some("t-9"));
    let (_, action) = state.advance(IngestEvent::VectorFailed(s("down")));
    assert!(matches!(&action, IngestAction::Finish(r) if r.trace_id == "t-9" && r.event_id == "event-1"));
}

#[test]
fn an_event_without_text_or_embedding_ends_after_the_edge() {
    for (payload, embeddings) in [(EventPayload::Other { json: s("1") }, true), (fields(), false)] {
        let (state, action) =
            EventWrite::begin_with(request(Some("t"), None, None, payload), false, embeddings, 1, s("e"), s("n"));
        assert!(matches!(action, IngestAction::CreateEvent(_)));
        let (state, _) = state.advance(IngestEvent::Stored);
        let (state, action) = state.advance(IngestEvent::Stored);
        assert_eq!(state.stage, EventStage::Done);
        assert!(matches!(&action, IngestAction::Finish(r) if r.trace_id == "t"));
    }
}

#[test]
fn failures_of_the_graph_store_fail_the_event_and_others_do_not() {
    let fresh = |payload| EventWrite::begin_with(request(Some("t"), None, None, payload), true, true, 1, s("e"), s("n"));
    let (state, _) = fresh(fields());
    let (state, action) = state.advance(IngestEvent::StoreFailed(s("down")));
    assert_eq!(state.stage, EventStage::Failed);
    assert!(matches!(&action, IngestAction::Fail(why) if why == "Failed to create event: down"));
    let (_, action) = state.advance(IngestEvent::Stored);
    assert!(matches!(&action, IngestAction::Fail(why) if why == "unexpected event"));

    let (state, _) = fresh(fields());
    let (state, _) = state.advance(IngestEvent::Stored);
    let (_, action) = state.advance(IngestEvent::StoreFailed(s("no edge")));
    assert!(matches!(&action, IngestAction::Fail(why) if why == "Failed to create event: no edge"));

    let (state, _) = fresh(fields());
    let (state, _) = state.advance(IngestEvent::Stored);
    let (state, _) = state.advance(IngestEvent::Stored);
    let (state, action) = state.advance(IngestEvent::EmbeddingFailed(s("no model")));
    assert_eq!(state.stage, EventStage::Done);
    assert!(matches!(action, IngestAction::Finish(_)));

    let (state, _) = fresh(fields());
    let (state, _) = state.advance(IngestEvent::Stored);
    let (state, _) = state.advance(IngestEvent::Stored);
    let (state, _) = state.advance(IngestEvent::Embedded { dimension: 3 });
    let (state, action) = state.advance(IngestEvent::CollectionExists(true));
    assert!(matches!(action, IngestAction::Upsert { .. }));
    let (_, action) = state.advance(IngestEvent::VectorDone);
    assert!(matches!(action, IngestAction::Finish(_)));

    let (state, action) = EventWrite::begin_with(request(None, None, None, fields()), false, true, 1, s("e"), s("n"));
    assert_eq!(state.stage, EventStage::Failed);
    assert!(matches!(&action, IngestAction::Fail(why)
        if why == "Failed to get/create trace: No trace specified and auto-create disabled"));
    let (state, _) = EventWrite::begin_with(request(None, Some("s"), None, fields()), true, true, 1, s("e"), s("n"));
    let (_, action) = state.advance(IngestEvent::Trace(TraceEvent::StoreFailed(s("down"))));
    assert!(matches!(&action, IngestAction::Fail(why) if why == "Failed to get/create trace: down"));
}

#[test]
fn fresh_events_have_identifiers_of_their_own() {
    let (a, _) = EventWrite::begin(request(Some("t"), None, None, fields()), true, true, 1);
    let (b, _) = EventWrite::begin(request(Some("t"), None, None, fields()), true, true, 1);
    assert_eq!(a.event_id.len(), 36);
    assert_ne!(a.event_id, b.event_id);
    assert_eq!(a.event_id.matches('-').count(), 4);
}

#[test]
fn a_batch_counts_events_traces_and_errors() {
    let mut response = BulkEventIngestionResponse::new();
    response.record_success("t1");
    response.record_failure(1, s("Failed to create event: down"));
    response.record_success("t2");
    response.record_success("t1");
    response.record_failure(4, s("Failed to get/create trace: x"));
    assert_eq!(response.ingested, 3);
    assert_eq!(response.failed, 2);
    assert_eq!(response.trace_ids, vec![s("t1"), s("t2")]);
    let errors: Vec<(usize, &str)> = response.errors.iter().map(|e| (e.index, e.error.as_str())).collect();
    assert_eq!(errors, vec![(1, "Failed to create event: down"), (4, "Failed to get/create trace: x")]);
    let options = IngestionOptions::default();
    assert!(!options.auto_create_traces && !options.generate_embeddings && !options.extract_relationships);
    assert!(default_true());
}

use crate::query::traversal::{fresh_traversal, Traversal, TraversalAction};
use crate::text::{owned, views};
use vstd::prelude::*;

verus! {

/// The table of the stored schemas.
pub const SCHEMA_TABLE: &'static str = "ontology_schema";

/// The table of the entities.
pub const ENTITY_TABLE: &'static str = "entity";

/// The table of the relations.
pub const RELATION_TABLE: &'static str = "relation";

/// The table of the traces.
pub const TRACE_TABLE: &'static str = "agent_trace";

/// The table of the events.
pub const EVENT_TABLE: &'static str = "agent_event";

/// The edge from a trace to each of its events.
pub const CONTAINS_EDGE: &'static str = "contains";

/// The tables that the graph store is given when it starts, in the order they are
/// defined.
pub fn tables() -> (names: Vec<String>)
    ensures
        views(names@) == seq![
            "ontology_schema"@,
            "entity"@,
            "relation"@,
            "agent_trace"@,
            "agent_event"@,
        ],
{
    let mut names: Vec<String> = Vec::new();
    names.push(owned(SCHEMA_TABLE));
    names.push(owned(ENTITY_TABLE));
    names.push(owned(RELATION_TABLE));
    names.push(owned(TRACE_TABLE));
    names.push(owned(EVENT_TABLE));
    assert(views(names@) =~= seq![
        "ontology_schema"@,
        "entity"@,
        "relation"@,
        "agent_trace"@,
        "agent_event"@,
    ]);
    names
}

/// The identifier of a record as the graph store writes it: the table, a colon, and
/// the identifier within the table between backticks.
pub fn record_id(table: &str, id: &str) -> (record: String)
    ensures
        record@ == table@ + ":`"@ + id@ + "`"@,
{
    let mut record = owned(table);
    record.append(":`");
    record.append(id);
    record.append("`");
    record
}

/// The start of a traversal along the outgoing edges of one relation: the entities
/// that are reached from `start_id` within `depth` levels, breadth first. A depth of
/// zero asks nothing of the store and finds nothing.
pub fn traverse_graph(start_id: &str, relation_type: &str, depth: usize) -> (started: (
    Traversal,
    TraversalAction,
))
    ensures
        (started.0@, started.1@) == fresh_traversal(
            start_id@,
            seq![relation_type@],
            false,
            depth as nat,
        ).settled(),
        started.0@.well_formed(),
        depth == 0 ==> started.1 is Finish && started.0.found@.len() == 0,
{
    let mut relation_types: Vec<String> = Vec::new();
    relation_types.push(owned(relation_type));
    assert(views(relation_types@) =~= seq![relation_type@]);
    let started = Traversal::begin(start_id, &relation_types, false, depth);
    proof {
        if depth == 0 {
            assert(started.0@.found =~= Seq::empty());
        }
    }
    started
}

} // verus!

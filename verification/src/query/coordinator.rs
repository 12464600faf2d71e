use crate::error::VectaDBError;
use crate::intelligence::ontology_reasoner::OntologyReasoner;
use crate::query::graph_execution::{GraphAction, GraphExecution, GraphStage};
use crate::query::merge::{is_merge_of, merge_results};
use crate::query::traversal::{TraversalAction, TraversalEvent};
use crate::query::types::{HybridQuery, MergeStrategy, QueryResult};
use crate::query::vector_execution::{VectorAction, VectorEvent, VectorExecution, VectorPhase};
use crate::text::owned;
use vstd::prelude::*;

verus! {

/// What came back from the work that a query asked for.
#[derive(Debug)]
pub enum QueryEvent {
    /// From the embedding service or the vector store, or the entity that a vector
    /// search asked the graph store for.
    Vector(VectorEvent),
    /// From the graph store, for a traversal.
    Graph(TraversalEvent),
}

/// What a query asks for next.
#[derive(Debug)]
pub enum QueryAction {
    /// Work for the vector search: embed, search or fetch.
    Vector(VectorAction),
    /// Work for the traversal: list relations or fetch.
    Graph(TraversalAction),
    /// The query is over; this is its answer.
    Finish(QueryResult),
    /// The query is over; it failed.
    Fail(VectaDBError),
}

/// A query under way.
#[derive(Debug)]
pub enum QueryExecution {
    /// A vector search alone.
    Vector(VectorExecution),
    /// A traversal alone.
    Graph(GraphExecution),
    /// The vector search of a combined query. The traversal that follows it, if any,
    /// stands ready with its first request.
    CombinedVector {
        vector: VectorExecution,
        graph: Option<(GraphExecution, GraphAction)>,
        strategy: MergeStrategy,
    },
    /// The traversal of a combined query, with the answer of its vector search.
    CombinedGraph { vector_answer: QueryResult, graph: GraphExecution, strategy: MergeStrategy, limit: usize },
    /// The query is over.
    Done,
}

impl QueryExecution {
    /// Whether the searches that the query holds stand where their lists allow.
    pub open spec fn well_formed(&self) -> bool {
        match *self {
            QueryExecution::Vector(v) => v.well_formed(),
            QueryExecution::Graph(g) => g.well_formed() && (g.stage == GraphStage::First
                || g.stage == GraphStage::Second),
            QueryExecution::CombinedVector { vector, graph, strategy } => {
                &&& vector.well_formed()
                &&& graph matches Some(ready) ==> ready.0.well_formed() && (ready.1 is Ask
                    ==> ready.0.stage == GraphStage::First || ready.0.stage == GraphStage::Second)
            },
            QueryExecution::CombinedGraph { graph, .. } => graph.well_formed() && (graph.stage
                == GraphStage::First || graph.stage == GraphStage::Second),
            QueryExecution::Done => true,
        }
    }

    /// Whether the searches that the query holds stand where their lists allow.
    pub fn consistent(&self) -> (ok: bool)
        ensures
            ok == self.well_formed(),
    {
        match self {
            QueryExecution::Vector(v) => v.consistent(),
            QueryExecution::Graph(g) => g.is_under_way(),
            QueryExecution::CombinedVector { vector, graph, .. } => {
                vector.consistent() && match graph {
                    Some(ready) => match &ready.1 {
                        GraphAction::Ask(_) => ready.0.is_under_way(),
                        _ => ready.0.is_sound(),
                    },
                    None => true,
                }
            },
            QueryExecution::CombinedGraph { graph, .. } => graph.is_under_way(),
            QueryExecution::Done => true,
        }
    }
}

/// Runs vector, graph and combined queries, with the ontology where one is loaded.
pub struct QueryCoordinator {
    reasoner: Option<OntologyReasoner>,
}

impl View for QueryCoordinator {
    type V = Option<OntologyReasoner>;

    /// The reasoner that the coordinator expands queries with.
    closed spec fn view(&self) -> Option<OntologyReasoner> {
        self.reasoner
    }
}

/// The query and the request that a step of a vector search alone comes to.
fn on_vector(next: VectorExecution, action: VectorAction) -> (out: (QueryExecution, QueryAction))
    requires
        next.well_formed(),
    ensures
        out.0.well_formed(),
        match action {
            VectorAction::Finish(answer) => out.1 == QueryAction::Finish(answer) && out.0
                is Done,
            VectorAction::Fail(error) => out.1 == QueryAction::Fail(error) && out.0 is Done,
            _ => out.1 == QueryAction::Vector(action) && out.0 == QueryExecution::Vector(next),
        },
{
    match action {
        VectorAction::Finish(answer) => (QueryExecution::Done, QueryAction::Finish(answer)),
        VectorAction::Fail(error) => (QueryExecution::Done, QueryAction::Fail(error)),
        _ => (QueryExecution::Vector(next), QueryAction::Vector(action)),
    }
}

/// The query and the request that a step of a traversal alone comes to.
fn on_graph(next: GraphExecution, action: GraphAction) -> (out: (QueryExecution, QueryAction))
    requires
        next.well_formed(),
        action is Ask ==> next.stage == GraphStage::First || next.stage == GraphStage::Second,
    ensures
        out.0.well_formed(),
        match action {
            GraphAction::Finish(answer) => out.1 == QueryAction::Finish(answer) && out.0 is Done,
            GraphAction::Fail(error) => out.1 == QueryAction::Fail(error) && out.0 is Done,
            GraphAction::Ask(ask) => out.1 == QueryAction::Graph(ask) && out.0
                == QueryExecution::Graph(next),
        },
{
    match action {
        GraphAction::Finish(answer) => (QueryExecution::Done, QueryAction::Finish(answer)),
        GraphAction::Fail(error) => (QueryExecution::Done, QueryAction::Fail(error)),
        GraphAction::Ask(ask) => (QueryExecution::Graph(next), QueryAction::Graph(ask)),
    }
}

/// Whether `out` is what a combined query comes to when its vector search has come to
/// `next` and asks for `action`: the search's request is passed on and its failure is
/// the query's; once it has its answer, the query goes on as its traversal does, which
/// stands ready, or, without one, the answer is the query's.
pub open spec fn combined_vector_step(
    next: VectorExecution,
    action: VectorAction,
    graph: Option<(GraphExecution, GraphAction)>,
    strategy: MergeStrategy,
    out: (QueryExecution, QueryAction),
) -> bool {
    match action {
        VectorAction::Finish(answer) => match graph {
            Some(ready) => combined_graph_step(
                answer,
                ready.0,
                ready.1,
                strategy,
                next.limit,
                out,
            ),
            None => out.0 is Done && out.1 == QueryAction::Finish(answer),
        },
        VectorAction::Fail(error) => out.0 is Done && out.1 == QueryAction::Fail(error),
        _ => {
            &&& out.0 == (QueryExecution::CombinedVector { vector: next, graph, strategy })
            &&& out.1 == QueryAction::Vector(action)
        },
    }
}

/// Whether `out` is what a combined query comes to when its traversal has come to
/// `next` and asks for `action`: the traversal's request is passed on and its failure
/// is the query's; once it has its answer, the two answers are merged.
pub open spec fn combined_graph_step(
    vector_answer: QueryResult,
    next: GraphExecution,
    action: GraphAction,
    strategy: MergeStrategy,
    limit: usize,
    out: (QueryExecution, QueryAction),
) -> bool {
    match action {
        GraphAction::Finish(answer) => {
            &&& out.0 is Done
            &&& out.1 matches QueryAction::Finish(merged)
            &&& is_merge_of(merged, vector_answer, Some(answer), strategy, limit as nat)
        },
        GraphAction::Fail(error) => out.0 is Done && out.1 == QueryAction::Fail(error),
        GraphAction::Ask(ask) => {
            &&& out.0 == (QueryExecution::CombinedGraph {
                vector_answer,
                graph: next,
                strategy,
                limit,
            })
            &&& out.1 == QueryAction::Graph(ask)
        },
    }
}

fn on_combined_vector(
    next: VectorExecution,
    action: VectorAction,
    graph: Option<(GraphExecution, GraphAction)>,
    strategy: MergeStrategy,
) -> (out: (QueryExecution, QueryAction))
    requires
        next.well_formed(),
        graph matches Some(ready) ==> ready.0.well_formed() && (ready.1 is Ask ==> ready.0.stage
            == GraphStage::First || ready.0.stage == GraphStage::Second),
    ensures
        combined_vector_step(next, action, graph, strategy, out),
        out.0.well_formed(),
{
    match action {
        VectorAction::Finish(answer) => match graph {
            Some(ready) => on_combined_graph(answer, ready.0, ready.1, strategy, next.limit),
            None => (QueryExecution::Done, QueryAction::Finish(answer)),
        },
        VectorAction::Fail(error) => (QueryExecution::Done, QueryAction::Fail(error)),
        _ => (
            QueryExecution::CombinedVector { vector: next, graph, strategy },
            QueryAction::Vector(action),
        ),
    }
}

fn on_combined_graph(
    vector_answer: QueryResult,
    next: GraphExecution,
    action: GraphAction,
    strategy: MergeStrategy,
    limit: usize,
) -> (out: (QueryExecution, QueryAction))
    requires
        next.well_formed(),
        action is Ask ==> next.stage == GraphStage::First || next.stage == GraphStage::Second,
    ensures
        combined_graph_step(vector_answer, next, action, strategy, limit, out),
        out.0.well_formed(),
{
    match action {
        GraphAction::Finish(answer) => (
            QueryExecution::Done,
            QueryAction::Finish(merge_results(vector_answer, Some(answer), strategy, limit)),
        ),
        GraphAction::Fail(error) => (QueryExecution::Done, QueryAction::Fail(error)),
        GraphAction::Ask(ask) => (
            QueryExecution::CombinedGraph { vector_answer, graph: next, strategy, limit },
            QueryAction::Graph(ask),
        ),
    }
}

impl QueryCoordinator {
    /// A coordinator that expands queries with `reasoner`, if there is one.
    pub fn new(reasoner: Option<OntologyReasoner>) -> (coordinator: Self)
        ensures
            coordinator@ == reasoner,
    {
        QueryCoordinator { reasoner }
    }

    /// The start of a query: the query under way, and the first thing it asks for.
    ///
    /// A vector query and a combined query begin by embedding their text; a graph
    /// query begins with its traversal. The traversal of a combined query is made
    /// ready at once and begins when the vector search has its answer.
    pub fn execute(&self, query: &HybridQuery) -> (started: (QueryExecution, QueryAction))
        ensures
            started.0.well_formed(),
            match *query {
                HybridQuery::Vector(vq) => {
                    &&& started.0 matches QueryExecution::Vector(v)
                    &&& begins_vector(vq, self@, v)
                    &&& started.1 matches QueryAction::Vector(VectorAction::Embed(text))
                    &&& text@ == vq.query_text@
                },
                HybridQuery::Graph(gq) => exists|after: GraphExecution, action: GraphAction|
                    #![trigger begins_graph(gq, self@, after, action)]
                    begins_graph(gq, self@, after, action) && match action {
                        GraphAction::Finish(answer) => started.1 == QueryAction::Finish(answer)
                            && started.0 is Done,
                        GraphAction::Fail(error) => started.1 == QueryAction::Fail(error)
                            && started.0 is Done,
                        GraphAction::Ask(ask) => started.1 == QueryAction::Graph(ask) && started.0
                            == QueryExecution::Graph(after),
                    },
                HybridQuery::Combined(cq) => {
                    &&& started.0 matches QueryExecution::CombinedVector { vector, graph, strategy }
                    &&& begins_vector(cq.vector_query, self@, vector)
                    &&& strategy == cq.merge_strategy
                    &&& graph is Some <==> cq.graph_query is Some
                    &&& graph matches Some(ready) ==> begins_graph(
                        cq.graph_query->0,
                        self@,
                        ready.0,
                        ready.1,
                    )
                    &&& started.1 matches QueryAction::Vector(VectorAction::Embed(text))
                    &&& text@ == cq.vector_query.query_text@
                },
            },
    {
        match query {
            HybridQuery::Vector(vq) => {
                let (vector, action) = VectorExecution::begin(vq, self.reasoner.as_ref());
                (QueryExecution::Vector(vector), QueryAction::Vector(action))
            },
            HybridQuery::Graph(gq) => {
                let (graph, action) = GraphExecution::begin(gq, self.reasoner.as_ref());
                proof {
                    lemma_asking_begins(*gq, self@, graph, action);
                    assert(begins_graph(*gq, self@, graph, action));
                }
                on_graph(graph, action)
            },
            HybridQuery::Combined(cq) => {
                let (vector, action) = VectorExecution::begin(
                    &cq.vector_query,
                    self.reasoner.as_ref(),
                );
                let graph = match &cq.graph_query {
                    Some(gq) => {
                        let ready = GraphExecution::begin(gq, self.reasoner.as_ref());
                        proof {
                            lemma_asking_begins(*gq, self@, ready.0, ready.1);
                        }
                        Some(ready)
                    },
                    None => None,
                };
                (
                    QueryExecution::CombinedVector {
                        vector,
                        graph,
                        strategy: cq.merge_strategy,
                    },
                    QueryAction::Vector(action),
                )
            },
        }
    }
}

/// Whether `v` is a vector search for `query` before its first step.
pub open spec fn begins_vector(
    query: crate::query::types::VectorQuery,
    reasoner: Option<OntologyReasoner>,
    v: VectorExecution,
) -> bool {
    &&& v.phase == VectorPhase::Embedding
    &&& v.query_text@ == query.query_text@
    &&& v.limit == query.limit
    &&& v.min_score == query.min_score
    &&& crate::text::views(v.search_types@) == crate::query::vector::searched_types(
        query,
        reasoner,
    )
    &&& v.hits@.len() == 0
    &&& v.found@.len() == 0
}

/// Whether `g` and `action` are the traversal for `query` after its first step, and
/// what it asks for.
pub open spec fn begins_graph(
    query: crate::query::types::GraphQuery,
    reasoner: Option<OntologyReasoner>,
    g: GraphExecution,
    action: GraphAction,
) -> bool {
    crate::query::graph_execution::follows(
        query.start_entity_id@,
        crate::query::graph_execution::followed_relations(query, reasoner is Some),
        query.depth as nat,
        query.direction,
        GraphStage::First,
        Seq::empty(),
        crate::query::traversal::fresh_traversal(
            query.start_entity_id@,
            crate::query::graph_execution::followed_relations(query, reasoner is Some),
            query.direction == crate::query::types::TraversalDirection::Incoming,
            query.depth as nat,
        ).settled(),
        g,
        action,
    )
}

/// A traversal that begins by asking something of the store is under way.
proof fn lemma_asking_begins(
    query: crate::query::types::GraphQuery,
    reasoner: Option<OntologyReasoner>,
    g: GraphExecution,
    action: GraphAction,
)
    requires
        begins_graph(query, reasoner, g, action),
    ensures
        action is Ask ==> g.stage == GraphStage::First || g.stage == GraphStage::Second,
{
}

impl QueryExecution {
    /// Takes what came back from the work last asked for, and says what to do next.
    ///
    /// A search that is part of a combined query ends the query when it fails. An event
    /// for the other search than the one under way, and any event once the query is
    /// over, ends the query with an error; so does a query that stands outside its
    /// lists.
    pub fn advance(self, event: QueryEvent) -> (next: (Self, QueryAction))
        ensures
            next.0.well_formed(),
            !self.well_formed() ==> next.0 is Done && is_unexpected(next.1),
            self.well_formed() ==> match (self, event) {
                (QueryExecution::Vector(v), QueryEvent::Vector(e)) => exists|
                    after: VectorExecution,
                    action: VectorAction,
                |
                    #![trigger v.leads_to(e, after, action)]
                    v.leads_to(e, after, action) && match action {
                        VectorAction::Finish(answer) => next.1 == QueryAction::Finish(answer)
                            && next.0 is Done,
                        VectorAction::Fail(error) => next.1 == QueryAction::Fail(error) && next.0
                            is Done,
                        _ => next.1 == QueryAction::Vector(action) && next.0
                            == QueryExecution::Vector(after),
                    },
                (QueryExecution::Graph(g), QueryEvent::Graph(e)) => exists|
                    after: GraphExecution,
                    action: GraphAction,
                |
                    #![trigger crate::query::graph_execution::follows(g.start_entity_id@, crate::text::views(g.relation_types@), g.depth as nat, g.direction, g.stage, crate::query::traversal::entity_views(g.earlier@), crate::query::traversal::traversal_step(g.traversal@, e), after, action)]
                    crate::query::graph_execution::follows(
                        g.start_entity_id@,
                        crate::text::views(g.relation_types@),
                        g.depth as nat,
                        g.direction,
                        g.stage,
                        crate::query::traversal::entity_views(g.earlier@),
                        crate::query::traversal::traversal_step(g.traversal@, e),
                        after,
                        action,
                    ) && match action {
                        GraphAction::Finish(answer) => next.1 == QueryAction::Finish(answer)
                            && next.0 is Done,
                        GraphAction::Fail(error) => next.1 == QueryAction::Fail(error) && next.0
                            is Done,
                        GraphAction::Ask(ask) => next.1 == QueryAction::Graph(ask) && next.0
                            == QueryExecution::Graph(after),
                    },
                (
                    QueryExecution::CombinedVector { vector, graph, strategy },
                    QueryEvent::Vector(e),
                ) => exists|after: VectorExecution, action: VectorAction|
                    #![trigger vector.leads_to(e, after, action)]
                    vector.leads_to(e, after, action) && combined_vector_step(
                        after,
                        action,
                        graph,
                        strategy,
                        next,
                    ),
                (
                    QueryExecution::CombinedGraph { vector_answer, graph, strategy, limit },
                    QueryEvent::Graph(e),
                ) => exists|after: GraphExecution, action: GraphAction|
                    #![trigger combined_graph_step(vector_answer, after, action, strategy, limit, next)]
                    crate::query::graph_execution::follows(
                        graph.start_entity_id@,
                        crate::text::views(graph.relation_types@),
                        graph.depth as nat,
                        graph.direction,
                        graph.stage,
                        crate::query::traversal::entity_views(graph.earlier@),
                        crate::query::traversal::traversal_step(graph.traversal@, e),
                        after,
                        action,
                    ) && combined_graph_step(vector_answer, after, action, strategy, limit, next),
                _ => next.0 is Done && is_unexpected(next.1),
            },
    {
        if !self.consistent() {
            return unexpected();
        }
        match self {
            QueryExecution::Vector(v) => match event {
                QueryEvent::Vector(e) => {
                    let (after, action) = v.advance(e);
                    let out = on_vector(after, action);
                    assert(v.leads_to(e, after, action));
                    out
                },
                _ => unexpected(),
            },
            QueryExecution::Graph(g) => match event {
                QueryEvent::Graph(e) => {
                    let (after, action) = g.advance(e);
                    proof {
                        lemma_asking_stage(g, e, after, action);
                    }
                    on_graph(after, action)
                },
                _ => unexpected(),
            },
            QueryExecution::CombinedVector { vector, graph, strategy } => match event {
                QueryEvent::Vector(e) => {
                    let (after, action) = vector.advance(e);
                    let out = on_combined_vector(after, action, graph, strategy);
                    assert(vector.leads_to(e, after, action));
                    out
                },
                _ => unexpected(),
            },
            QueryExecution::CombinedGraph { vector_answer, graph, strategy, limit } => match event {
                QueryEvent::Graph(e) => {
                    let (after, action) = graph.advance(e);
                    proof {
                        lemma_asking_stage(graph, e, after, action);
                    }
                    on_combined_graph(vector_answer, after, action, strategy, limit)
                },
                _ => unexpected(),
            },
            QueryExecution::Done => unexpected(),
        }
    }
}

/// A traversal that asks something of the store is under way.
proof fn lemma_asking_stage(
    g: GraphExecution,
    e: TraversalEvent,
    after: GraphExecution,
    action: GraphAction,
)
    requires
        g.stage == GraphStage::First || g.stage == GraphStage::Second,
        crate::query::graph_execution::follows(
            g.start_entity_id@,
            crate::text::views(g.relation_types@),
            g.depth as nat,
            g.direction,
            g.stage,
            crate::query::traversal::entity_views(g.earlier@),
            crate::query::traversal::traversal_step(g.traversal@, e),
            after,
            action,
        ),
    ensures
        action is Ask ==> after.stage == GraphStage::First || after.stage == GraphStage::Second,
{
}

/// Whether an action ends a query because an event came that the query was not
/// waiting for.
pub open spec fn is_unexpected(action: QueryAction) -> bool {
    action matches QueryAction::Fail(VectaDBError::Internal(text)) && text@ == "unexpected event"@
}

fn unexpected() -> (out: (QueryExecution, QueryAction))
    ensures
        out.0 is Done,
        is_unexpected(out.1),
{
    (QueryExecution::Done, QueryAction::Fail(VectaDBError::Internal(owned("unexpected event"))))
}

impl QueryResult {
    /// The same answer with the time that the query took, in milliseconds.
    pub fn timed(self, execution_time_ms: u64) -> (answer: Self)
        ensures
            answer.results == self.results,
            answer.total_count == self.total_count,
            answer.metadata.execution_time_ms == execution_time_ms,
            answer.metadata.vector_count == self.metadata.vector_count,
            answer.metadata.graph_count == self.metadata.graph_count,
            answer.metadata.searched_types == self.metadata.searched_types,
            answer.metadata.traversed_relations == self.metadata.traversed_relations,
            answer.metadata.extra == self.metadata.extra,
    {
        let mut answer = self;
        answer.metadata.execution_time_ms = execution_time_ms;
        answer
    }
}

} // verus!

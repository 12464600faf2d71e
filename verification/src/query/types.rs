use crate::db::types::{Entity, EntityView};
use crate::text::clone_opt;
use vstd::prelude::*;

verus! {

/// The score of a perfect match. Scores are counted in billionths, so that they can be
/// compared, added and divided exactly.
pub const SCORE_UNIT: i64 = 1_000_000_000;

/// The constant of reciprocal rank fusion.
pub const RRF_K: u64 = 60;

/// How many results a vector query returns where it does not say.
pub fn default_limit() -> (limit: usize)
    ensures
        limit == 10,
{
    10
}

/// How deep a graph query goes where it does not say.
pub fn default_depth() -> (depth: usize)
    ensures
        depth == 2,
{
    2
}

/// In which direction edges are followed.
#[derive(Debug, Clone, Copy, PartialEq, Eq, Structural)]
pub enum TraversalDirection {
    Outgoing,
    Incoming,
    /// Outgoing edges first, then incoming ones.
    Both,
}

impl Default for TraversalDirection {
    fn default() -> (direction: Self)
        ensures
            direction == TraversalDirection::Outgoing,
    {
        TraversalDirection::Outgoing
    }
}

/// How the results of a vector search and of a graph traversal become one list.
#[derive(Debug, Clone, Copy, PartialEq, Eq, Structural)]
pub enum MergeStrategy {
    /// All results; those in both lists with the mean of their scores.
    Union,
    /// The vector results that the graph results also hold.
    Intersection,
    /// All results, scored by their ranks in the two lists.
    RankFusion,
    /// The vector results, marked where the graph results also hold them.
    VectorPriority,
    /// The graph results, with the vector result's score where there is one.
    GraphPriority,
}

impl Default for MergeStrategy {
    fn default() -> (strategy: Self)
        ensures
            strategy == MergeStrategy::RankFusion,
    {
        MergeStrategy::RankFusion
    }
}

impl MergeStrategy {
    /// The strategy's name.
    pub open spec fn written(&self) -> Seq<char> {
        match *self {
            MergeStrategy::Union => "Union"@,
            MergeStrategy::Intersection => "Intersection"@,
            MergeStrategy::RankFusion => "RankFusion"@,
            MergeStrategy::VectorPriority => "VectorPriority"@,
            MergeStrategy::GraphPriority => "GraphPriority"@,
        }
    }

    /// The strategy's name.
    pub fn name(&self) -> (text: &'static str)
        ensures
            text@ == self.written(),
    {
        match self {
            MergeStrategy::Union => "Union",
            MergeStrategy::Intersection => "Intersection",
            MergeStrategy::RankFusion => "RankFusion",
            MergeStrategy::VectorPriority => "VectorPriority",
            MergeStrategy::GraphPriority => "GraphPriority",
        }
    }
}

/// Where a result came from.
#[derive(Debug, Clone, Copy, PartialEq, Eq, Structural)]
pub enum ResultSource {
    Vector,
    Graph,
    /// From both the vector search and the graph traversal.
    Hybrid,
}

/// A search by similarity to a text.
#[derive(Debug, Clone)]
pub struct VectorQuery {
    pub entity_type: String,
    pub query_text: String,
    /// How many results are wanted at most.
    pub limit: usize,
    /// Whether the subtypes of the entity type are searched too.
    pub expand_types: bool,
    /// The least score of a result, in billionths, if there is a threshold.
    pub min_score: Option<i64>,
}

impl VectorQuery {
    /// A query for the given type and text with the default limit, without expansion
    /// or threshold.
    pub fn new(entity_type: String, query_text: String) -> (query: Self)
        ensures
            query == (VectorQuery {
                entity_type,
                query_text,
                limit: 10,
                expand_types: false,
                min_score: None,
            }),
    {
        VectorQuery {
            entity_type,
            query_text,
            limit: default_limit(),
            expand_types: false,
            min_score: None,
        }
    }
}

/// A traversal of the graph from one entity.
#[derive(Debug, Clone)]
pub struct GraphQuery {
    pub start_entity_id: String,
    /// The relations whose edges are followed; all edges where the list is empty.
    pub relation_types: Vec<String>,
    pub depth: usize,
    /// Whether the ontology may add relations to those listed.
    pub expand_relations: bool,
    pub direction: TraversalDirection,
}

impl GraphQuery {
    /// A traversal from the given entity along all outgoing edges, to the default
    /// depth and without expansion.
    pub fn new(start_entity_id: String) -> (query: Self)
        ensures
            query.start_entity_id == start_entity_id,
            query.relation_types@ == Seq::<String>::empty(),
            query.depth == 2,
            !query.expand_relations,
            query.direction == TraversalDirection::Outgoing,
    {
        GraphQuery {
            start_entity_id,
            relation_types: Vec::new(),
            depth: default_depth(),
            expand_relations: false,
            direction: TraversalDirection::Outgoing,
        }
    }
}

/// A vector search, optionally with a graph traversal, and the way to merge the two.
#[derive(Debug, Clone)]
pub struct CombinedQuery {
    pub vector_query: VectorQuery,
    pub graph_query: Option<GraphQuery>,
    pub merge_strategy: MergeStrategy,
}

/// A query of one of three kinds.
#[derive(Debug, Clone)]
pub enum HybridQuery {
    Vector(VectorQuery),
    Graph(GraphQuery),
    Combined(CombinedQuery),
}

/// An entity with its score, in billionths, and where it came from.
#[derive(Debug)]
pub struct ScoredResult {
    pub entity: Entity,
    pub score: i64,
    pub source: ResultSource,
    /// Why the entity is among the results.
    pub explanation: Option<String>,
}

/// A scored result by what it holds.
pub struct ScoredResultView {
    pub entity: EntityView,
    pub score: i64,
    pub source: ResultSource,
    pub explanation: Option<Seq<char>>,
}

impl ScoredResultView {
    /// The identifier of the result's entity.
    pub open spec fn id(&self) -> Seq<char> {
        self.entity.id
    }
}

impl View for ScoredResult {
    type V = ScoredResultView;

    open spec fn view(&self) -> ScoredResultView {
        ScoredResultView {
            entity: self.entity@,
            score: self.score,
            source: self.source,
            explanation: match self.explanation {
                Some(text) => Some(text@),
                None => None,
            },
        }
    }
}

impl Clone for ScoredResult {
    fn clone(&self) -> (copy: Self)
        ensures
            copy@ == self@,
    {
        ScoredResult {
            entity: self.entity.clone(),
            score: self.score,
            source: self.source,
            explanation: clone_opt(&self.explanation),
        }
    }
}

/// The views of a list of results.
pub open spec fn result_views(results: Seq<ScoredResult>) -> Seq<ScoredResultView> {
    results.map_values(|r: ScoredResult| r@)
}

/// The identifiers of the entities of a list of results.
pub open spec fn result_ids(results: Seq<ScoredResultView>) -> Seq<Seq<char>> {
    results.map_values(|r: ScoredResultView| r.id())
}

/// Adds a result after those of a list.
pub fn push_result(results: &mut Vec<ScoredResult>, result: ScoredResult)
    ensures
        result_views(final(results)@) == result_views(old(results)@).push(result@),
        final(results)@ == old(results)@.push(result),
{
    results.push(result);
    assert(result_views(results@) =~= result_views(old(results)@).push(result@));
}

/// What is known of how a query ran.
#[derive(Debug, Clone)]
pub struct QueryMetadata {
    pub execution_time_ms: u64,
    /// How many entities the vector search gave, if there was one.
    pub vector_count: Option<usize>,
    /// How many entities the graph traversal gave, if there was one.
    pub graph_count: Option<usize>,
    /// The types that were searched, after expansion.
    pub searched_types: Option<Vec<String>>,
    /// The relations that were followed, after expansion.
    pub traversed_relations: Option<Vec<String>>,
    pub extra: Vec<(String, String)>,
}

/// The answer to a query.
#[derive(Debug, Clone)]
pub struct QueryResult {
    pub results: Vec<ScoredResult>,
    /// How many results there were before the limit was applied.
    pub total_count: usize,
    pub metadata: QueryMetadata,
}

} // verus!

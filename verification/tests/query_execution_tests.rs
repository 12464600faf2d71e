use vectadb::db::qdrant_client::{PointId, QdrantClient, ScoredPoint};
use vectadb::config::QdrantConfig;
use vectadb::db::types::{Entity, Relation};
use vectadb::intelligence::ontology_reasoner::OntologyReasoner;
use vectadb::ontology::entity_type::EntityType;
use vectadb::ontology::schema::OntologySchema;
use vectadb::query::coordinator::{QueryAction, QueryCoordinator, QueryEvent, QueryExecution};
use vectadb::query::graph::{dedupe_entities, expand_relation_types, graph_answer, score_at};
use vectadb::query::graph_execution::{GraphAction, GraphExecution};
use vectadb::query::traversal::{Traversal, TraversalAction, TraversalEvent};
use vectadb::query::types::{
    CombinedQuery, GraphQuery, HybridQuery, MergeStrategy, QueryResult, ResultSource,
    TraversalDirection, VectorQuery,
};
use vectadb::query::vector::{
    absorb_hits, expand_entity_types, plan_vector_search, score_text, vector_answer,
    vector_result, VectorHit,
};
use vectadb::query::vector_execution::{VectorAction, VectorEvent, VectorExecution, VectorPhase};

fn s(text: &str) -> String {
    text.to_string()
}

fn entity(id: &str) -> Entity {
    Entity::with_id(id.to_string(), "Agent".to_string(), vec![], 0)
}

fn relation(source: &str, kind: &str, target: &str) -> Relation {
    Relation::with_id(format!("{}-{}-{}", source, kind, target), s(kind), s(source), s(target), vec![], 0)
}

fn hit(id: &str, score: i64) -> VectorHit {
    VectorHit { entity_id: s(id), score }
}

struct Graph {
    entities: Vec<&'static str>,
    edges: Vec<(&'static str, &'static str, &'static str)>,
    asked: Vec<String>,
}

impl Graph {
    fn answer(&mut self, action: &TraversalAction) -> TraversalEvent {
        match action {
            TraversalAction::ListRelations { entity_id, relation_type, incoming } => {
                self.asked.push(format!(
                    "list {} {} {}",
                    entity_id,
                    relation_type.clone().unwrap_or(s("*")),
                    if *incoming { "in" } else { "out" }
                ));
                let found = self
                    .edges
                    .iter()
                    .filter(|(a, k, b)| {
                        (if *incoming { *b == entity_id } else { *a == entity_id })
                            && relation_type.as_ref().map(|t| t == k).unwrap_or(true)
                    })
                    .map(|(a, k, b)| relation(a, k, b))
                    .collect();
                TraversalEvent::Relations(found)
            }
            TraversalAction::FetchEntity(id) => {
                self.asked.push(format!("fetch {}", id));
                if self.entities.contains(&id.as_str()) {
                    TraversalEvent::Fetched(Some(entity(id)))
                } else {
                    TraversalEvent::Fetched(None)
                }
            }
            other => panic!("nothing to answer to {:?}", other),
        }
    }
}

fn friends() -> Graph {
    Graph {
        entities: vec!["a", "b", "c", "d"],
        edges: vec![
            ("a", "knows", "b"),
            ("a", "likes", "c"),
            ("b", "knows", "c"),
            ("c", "knows", "a"),
            ("c", "knows", "d"),
            ("a", "knows", "ghost"),
        ],
        asked: vec![],
    }
}

fn traverse(graph: &mut Graph, start: &str, kinds: &[&str], incoming: bool, depth: usize) -> Vec<String> {
    let kinds: Vec<String> = kinds.iter().map(|k| k.to_string()).collect();
    let (mut state, mut action) = Traversal::begin(start, &kinds, incoming, depth);
    let mut steps = 0;
    loop {
        match action {
            TraversalAction::Finish => break,
            TraversalAction::Fail(e) => panic!("failed: {}", e.message()),
            other => {
                let event = graph.answer(&other);
                let next = state.advance(event);
                state = next.0;
                action = next.1;
            }
        }
        steps += 1;
        assert!(steps < 1000);
    }
    state.found.iter().map(|e| e.id.clone()).collect()
}

#[test]
fn a_traversal_is_breadth_first_and_bounded() {
    let mut g = friends();
    assert_eq!(traverse(&mut g, "a", &[], false, 0), Vec::<String>::new());
    assert!(g.asked.is_empty());
    assert_eq!(traverse(&mut g, "a", &[], false, 1), vec!["b", "c"]);
    assert_eq!(
        g.asked,
        vec!["list a * out", "fetch b", "fetch c", "fetch ghost"]
    );
    assert_eq!(traverse(&mut friends(), "a", &[], false, 2), vec!["b", "c", "d"]);
    assert_eq!(traverse(&mut friends(), "a", &[], false, 9), vec!["b", "c", "d"]);
    assert_eq!(traverse(&mut friends(), "a", &["knows"], false, 3), vec!["b", "c", "d"]);
    assert_eq!(traverse(&mut friends(), "a", &["likes", "knows"], false, 1), vec!["c", "b"]);
    assert_eq!(traverse(&mut friends(), "a", &[], true, 1), vec!["c"]);
    assert_eq!(traverse(&mut friends(), "d", &[], true, 3), vec!["c", "a", "b"]);
    assert_eq!(traverse(&mut friends(), "nobody", &[], false, 3), Vec::<String>::new());
}

#[test]
fn an_entity_that_two_edges_lead_to_is_found_once() {
    let diamond = || Graph {
        entities: vec!["a", "b", "c", "d"],
        edges: vec![
            ("a", "next", "b"),
            ("a", "next", "c"),
            ("b", "next", "d"),
            ("c", "next", "d"),
            ("d", "next", "a"),
        ],
        asked: vec![],
    };
    assert_eq!(traverse(&mut diamond(), "a", &["next"], false, 1), vec!["b", "c"]);
    assert_eq!(traverse(&mut diamond(), "a", &["next"], false, 2), vec!["b", "c", "d"]);
    assert_eq!(traverse(&mut diamond(), "a", &["next"], false, 7), vec!["b", "c", "d"]);
    assert_eq!(traverse(&mut diamond(), "a", &[], true, 7), vec!["d", "b", "c"]);

    let twice = Graph {
        entities: vec!["a", "b"],
        edges: vec![("a", "next", "b"), ("a", "near", "b"), ("a", "next", "b")],
        asked: vec![],
    };
    let mut twice = twice;
    assert_eq!(traverse(&mut twice, "a", &[], false, 3), vec!["b"]);
}

#[test]
fn a_failing_store_ends_a_traversal() {
    let (state, action) = Traversal::begin("a", &vec![], false, 2);
    assert!(matches!(action, TraversalAction::ListRelations { .. }));
    let (state, action) = state.advance(TraversalEvent::StoreFailed(s("down")));
    assert!(matches!(&action, TraversalAction::Fail(e) if e.message() == "SurrealDB error: down"));
    let (_, action) = state.advance(TraversalEvent::Relations(vec![]));
    assert!(matches!(action, TraversalAction::Fail(_)));
    let (state, _) = Traversal::begin("a", &vec![], false, 2);
    let (_, action) = state.advance(TraversalEvent::Fetched(None));
    assert!(matches!(&action, TraversalAction::Fail(e) if e.message() == "Internal server error: unexpected event"));
}

fn run_graph(graph: &mut Graph, query: &GraphQuery, reasoner: Option<&OntologyReasoner>) -> QueryResult {
    let (mut state, mut action) = GraphExecution::begin(query, reasoner);
    loop {
        match action {
            GraphAction::Finish(answer) => return answer,
            GraphAction::Fail(e) => panic!("failed: {}", e.message()),
            GraphAction::Ask(ask) => {
                let event = graph.answer(&ask);
                let next = state.advance(event);
                state = next.0;
                action = next.1;
            }
        }
    }
}

#[test]
fn a_graph_query_scores_by_place_and_drops_repeats() {
    let mut query = GraphQuery::new(s("a"));
    let answer = run_graph(&mut friends(), &query, None);
    let shown: Vec<(String, i64)> = answer.results.iter().map(|r| (r.entity.id.clone(), r.score)).collect();
    assert_eq!(
        shown,
        vec![(s("b"), 1_000_000_000), (s("c"), 500_000_000), (s("d"), 333_333_333)]
    );
    assert_eq!(answer.total_count, 3);
    assert_eq!(answer.metadata.graph_count, Some(3));
    assert_eq!(answer.metadata.vector_count, None);
    assert_eq!(answer.metadata.traversed_relations, Some(vec![]));
    assert!(answer.results.iter().all(|r| r.source == ResultSource::Graph));
    assert_eq!(answer.results[2].explanation.as_deref(), Some("Graph distance: 3"));

    query.direction = TraversalDirection::Both;
    query.depth = 1;
    let both = run_graph(&mut friends(), &query, None);
    let ids: Vec<&str> = both.results.iter().map(|r| r.entity.id.as_str()).collect();
    assert_eq!(ids, vec!["b", "c"]);

    query.direction = TraversalDirection::Incoming;
    query.start_entity_id = s("d");
    query.depth = 2;
    let incoming = run_graph(&mut friends(), &query, None);
    let ids: Vec<&str> = incoming.results.iter().map(|r| r.entity.id.as_str()).collect();
    assert_eq!(ids, vec!["c", "a", "b"]);

    query.depth = 0;
    query.direction = TraversalDirection::Both;
    assert!(run_graph(&mut friends(), &query, None).results.is_empty());
}

fn agents() -> OntologyReasoner {
    let mut schema = OntologySchema::new(s("t"), s("1"));
    schema.add_entity_type(EntityType::new(s("Agent"), s("Agent")));
    schema.add_entity_type(EntityType::new(s("LLMAgent"), s("LLM")).with_parent(s("Agent")));
    OntologyReasoner::new(schema)
}

#[test]
fn relations_are_expanded_to_each_once() {
    let reasoner = agents();
    let given = vec![s("knows"), s("likes"), s("knows")];
    assert_eq!(expand_relation_types(Some(&reasoner), &given), vec![s("knows"), s("likes")]);
    assert_eq!(expand_relation_types(None, &given), given);
    let mut query = GraphQuery::new(s("a"));
    query.relation_types = given.clone();
    query.expand_relations = true;
    query.depth = 1;
    let answer = run_graph(&mut friends(), &query, Some(&reasoner));
    assert_eq!(answer.metadata.traversed_relations, Some(vec![s("knows"), s("likes")]));
    let ids: Vec<&str> = answer.results.iter().map(|r| r.entity.id.as_str()).collect();
    assert_eq!(ids, vec!["b", "c"]);
    assert_eq!(score_at(0), 1_000_000_000);
    assert_eq!(score_at(2), 333_333_333);
    let twice = vec![entity("x"), entity("y"), entity("x")];
    assert_eq!(dedupe_entities(&twice).len(), 2);
    assert_eq!(graph_answer(&twice, &vec![]).total_count, 2);
}

#[test]
fn hits_keep_the_highest_score_and_pass_the_threshold() {
    let mut hits = vec![];
    absorb_hits(&mut hits, &vec![hit("a", 900), hit("b", 300), hit("c", 500)], Some(400));
    absorb_hits(&mut hits, &vec![hit("c", 700), hit("a", 100), hit("d", 400)], Some(400));
    let shown: Vec<(&str, i64)> = hits.iter().map(|h| (h.entity_id.as_str(), h.score)).collect();
    assert_eq!(shown, vec![("a", 900), ("c", 700), ("d", 400)]);
    let mut all = vec![];
    absorb_hits(&mut all, &vec![hit("a", -5), hit("a", -9)], None);
    assert_eq!(all.len(), 1);
    assert_eq!(all[0].score, -5);
}

#[test]
fn scores_are_written_with_three_places() {
    assert_eq!(score_text(900_000_000), "0.900");
    assert_eq!(score_text(1_000_000_000), "1.000");
    assert_eq!(score_text(123_456_789), "0.123");
    assert_eq!(score_text(999_500_000), "1.000");
    assert_eq!(score_text(-250_000_000), "-0.250");
    assert_eq!(score_text(0), "0.000");
    assert_eq!(score_text(12_345_000_000), "12.345");
    assert_eq!(score_text(i64::MIN), "-9223372036.855");
    let r = vector_result(entity("a"), 700_000_000);
    assert_eq!(r.explanation.as_deref(), Some("Vector similarity: 0.700"));
    assert_eq!(r.source, ResultSource::Vector);
}

#[test]
fn types_are_expanded_where_asked_and_known() {
    let reasoner = agents();
    let mut query = VectorQuery::new(s("Agent"), s("text"));
    assert_eq!(plan_vector_search(&query, Some(&reasoner)), vec![s("Agent")]);
    query.expand_types = true;
    assert_eq!(plan_vector_search(&query, Some(&reasoner)), vec![s("Agent"), s("LLMAgent")]);
    assert_eq!(plan_vector_search(&query, None), vec![s("Agent")]);
    assert_eq!(expand_entity_types(Some(&reasoner), "Robot"), vec![s("Robot")]);
}

#[test]
fn a_vector_search_searches_fetches_orders_and_cuts() {
    let reasoner = agents();
    let mut query = VectorQuery::new(s("Agent"), s("who plans"));
    query.expand_types = true;
    query.limit = 2;
    query.min_score = Some(200);
    let (state, action) = VectorExecution::begin(&query, Some(&reasoner));
    assert!(matches!(&action, VectorAction::Embed(t) if t == "who plans"));
    let (state, action) = state.advance(VectorEvent::Embedded);
    assert!(matches!(&action, VectorAction::Search { entity_type, limit } if entity_type == "Agent" && *limit == 2));
    let (state, action) = state.advance(VectorEvent::Hits(vec![hit("a", 500), hit("gone", 450), hit("low", 100)]));
    assert!(matches!(&action, VectorAction::Search { entity_type, .. } if entity_type == "LLMAgent"));
    assert_eq!(state.phase, VectorPhase::Searching(1));
    let (state, action) = state.advance(VectorEvent::Hits(vec![hit("b", 900), hit("a", 300), hit("c", 700)]));
    assert!(matches!(&action, VectorAction::FetchEntity(id) if id == "a"));
    let (state, action) = state.advance(VectorEvent::Fetched(Some(entity("a"))));
    assert!(matches!(&action, VectorAction::FetchEntity(id) if id == "gone"));
    let (state, action) = state.advance(VectorEvent::Fetched(None));
    assert!(matches!(&action, VectorAction::FetchEntity(id) if id == "b"));
    let (state, action) = state.advance(VectorEvent::Fetched(Some(entity("b"))));
    assert!(matches!(&action, VectorAction::FetchEntity(id) if id == "c"));
    let (state, action) = state.advance(VectorEvent::Fetched(Some(entity("c"))));
    assert_eq!(state.phase, VectorPhase::Finished);
    match action {
        VectorAction::Finish(answer) => {
            let shown: Vec<(&str, i64)> =
                answer.results.iter().map(|r| (r.entity.id.as_str(), r.score)).collect();
            assert_eq!(shown, vec![("b", 900), ("c", 700)]);
            assert_eq!(answer.total_count, 3);
            assert_eq!(answer.metadata.vector_count, Some(3));
            assert_eq!(answer.metadata.searched_types, Some(vec![s("Agent"), s("LLMAgent")]));
        }
        other => panic!("unexpected {:?}", other),
    }
}

#[test]
fn a_failed_search_is_passed_over_and_a_failed_fetch_is_not() {
    let query = VectorQuery::new(s("Agent"), s("q"));
    let (state, _) = VectorExecution::begin(&query, None);
    let (state, _) = state.advance(VectorEvent::Embedded);
    let (state, action) = state.advance(VectorEvent::SearchFailed(s("no collection")));
    assert_eq!(state.phase, VectorPhase::Finished);
    assert!(matches!(&action, VectorAction::Finish(a) if a.results.is_empty() && a.total_count == 0));

    let (state, _) = VectorExecution::begin(&query, None);
    let (_, action) = state.advance(VectorEvent::EmbeddingFailed(s("no model")));
    assert!(matches!(&action, VectorAction::Fail(e) if e.message() == "Embedding error: no model"));

    let (state, _) = VectorExecution::begin(&query, None);
    let (state, _) = state.advance(VectorEvent::Embedded);
    let (state, _) = state.advance(VectorEvent::Hits(vec![hit("a", 1)]));
    let (state, action) = state.advance(VectorEvent::StoreFailed(s("down")));
    assert_eq!(state.phase, VectorPhase::Failed);
    assert!(matches!(&action, VectorAction::Fail(e) if e.message() == "SurrealDB error: down"));
    let (_, action) = state.advance(VectorEvent::Embedded);
    assert!(matches!(action, VectorAction::Fail(_)));
    assert!(vector_answer(&vec![], &vec![], 5).results.is_empty());
}

fn drive(coordinator: &QueryCoordinator, query: &HybridQuery, graph: &mut Graph, hits: Vec<VectorHit>) -> Result<QueryResult, String> {
    let (mut state, mut action) = coordinator.execute(query);
    let mut hits = Some(hits);
    loop {
        let event = match action {
            QueryAction::Finish(answer) => return Ok(answer),
            QueryAction::Fail(e) => return Err(e.message()),
            QueryAction::Vector(VectorAction::Embed(_)) => QueryEvent::Vector(VectorEvent::Embedded),
            QueryAction::Vector(VectorAction::Search { .. }) => {
                QueryEvent::Vector(VectorEvent::Hits(hits.take().unwrap_or_default()))
            }
            QueryAction::Vector(VectorAction::FetchEntity(id)) => {
                QueryEvent::Vector(VectorEvent::Fetched(Some(entity(&id))))
            }
            QueryAction::Vector(other) => panic!("unexpected {:?}", other),
            QueryAction::Graph(ask) => QueryEvent::Graph(graph.answer(&ask)),
        };
        let next = state.advance(event);
        state = next.0;
        action = next.1;
    }
}

#[test]
fn a_combined_query_fuses_both_answers() {
    let coordinator = QueryCoordinator::new(None);
    let mut vq = VectorQuery::new(s("Agent"), s("q"));
    vq.limit = 2;
    let mut gq = GraphQuery::new(s("a"));
    gq.depth = 1;
    let query = HybridQuery::Combined(CombinedQuery {
        vector_query: vq.clone(),
        graph_query: Some(gq.clone()),
        merge_strategy: MergeStrategy::default(),
    });
    let answer = drive(&coordinator, &query, &mut friends(), vec![hit("c", 900), hit("z", 800)]).unwrap();
    let ids: Vec<&str> = answer.results.iter().map(|r| r.entity.id.as_str()).collect();
    assert_eq!(ids, vec!["c", "b"]);
    assert_eq!(answer.total_count, 3);
    assert!(answer.results.iter().all(|r| r.source == ResultSource::Hybrid));
    assert_eq!(answer.metadata.vector_count, Some(2));
    assert_eq!(answer.metadata.graph_count, Some(2));

    let no_graph = HybridQuery::Combined(CombinedQuery {
        vector_query: vq.clone(),
        graph_query: None,
        merge_strategy: MergeStrategy::Intersection,
    });
    let alone = drive(&coordinator, &no_graph, &mut friends(), vec![hit("c", 900)]).unwrap();
    assert_eq!(alone.results.len(), 1);
    assert_eq!(alone.results[0].source, ResultSource::Vector);

    let mut nowhere = gq.clone();
    nowhere.depth = 0;
    let empty_graph = HybridQuery::Combined(CombinedQuery {
        vector_query: vq.clone(),
        graph_query: Some(nowhere),
        merge_strategy: MergeStrategy::Intersection,
    });
    let none = drive(&coordinator, &empty_graph, &mut friends(), vec![hit("c", 900)]).unwrap();
    assert!(none.results.is_empty());

    let only_graph = drive(&coordinator, &HybridQuery::Graph(gq), &mut friends(), vec![]).unwrap();
    assert_eq!(only_graph.results.len(), 2);
    let only_vector = drive(&coordinator, &HybridQuery::Vector(vq), &mut friends(), vec![hit("q", 5)]).unwrap();
    assert_eq!(only_vector.results.len(), 1);
}

#[test]
fn a_failing_part_fails_a_combined_query() {
    let coordinator = QueryCoordinator::new(None);
    let query = HybridQuery::Combined(CombinedQuery {
        vector_query: VectorQuery::new(s("Agent"), s("q")),
        graph_query: Some(GraphQuery::new(s("a"))),
        merge_strategy: MergeStrategy::Union,
    });
    let (state, _) = coordinator.execute(&query);
    let (state, _) = state.advance(QueryEvent::Vector(VectorEvent::Embedded));
    let (state, action) = state.advance(QueryEvent::Vector(VectorEvent::Hits(vec![])));
    assert!(matches!(action, QueryAction::Graph(TraversalAction::ListRelations { .. })));
    let (state, action) = state.advance(QueryEvent::Graph(TraversalEvent::StoreFailed(s("down"))));
    assert!(matches!(&action, QueryAction::Fail(e) if e.message() == "SurrealDB error: down"));
    assert!(matches!(state, QueryExecution::Done));
    let (_, action) = state.advance(QueryEvent::Vector(VectorEvent::Embedded));
    assert!(matches!(action, QueryAction::Fail(_)));

    let (state, _) = coordinator.execute(&query);
    let (_, action) = state.advance(QueryEvent::Graph(TraversalEvent::Relations(vec![])));
    assert!(matches!(action, QueryAction::Fail(_)));
}

#[test]
fn collections_are_named_and_points_become_hits() {
    let client = QdrantClient::new(&QdrantConfig {
        url: s("http://localhost:6333"),
        api_key: None,
        collection_prefix: s("test_"),
    });
    assert_eq!(client.collection_name("Agent"), "test_Agent");
    let points = vec![
        ScoredPoint { id: PointId::Uuid(s("u-1")), score: 9 },
        ScoredPoint { id: PointId::Missing, score: 8 },
        ScoredPoint { id: PointId::Num(42), score: 7 },
    ];
    let hits = QdrantClient::search_hits(true, &points);
    let shown: Vec<(&str, i64)> = hits.iter().map(|h| (h.entity_id.as_str(), h.score)).collect();
    assert_eq!(shown, vec![("u-1", 9), ("42", 7)]);
    assert!(QdrantClient::search_hits(false, &points).is_empty());
    assert!(!QdrantClient::must_create(&Ok(true)));
    assert!(QdrantClient::must_create(&Ok(false)));
    assert!(QdrantClient::must_create(&Err(s("unknown"))));
}

#[test]
fn a_state_outside_its_lists_ends_with_an_error() {
    let (mut state, _) = Traversal::begin("a", &vec![], false, 2);
    assert!(state.consistent());
    state.at = 5;
    assert!(!state.consistent());
    let (state, action) = state.advance(TraversalEvent::Relations(vec![]));
    assert!(matches!(&action, TraversalAction::Fail(e) if e.message() == "Internal server error: inconsistent state"));
    assert!(state.consistent());

    let query = VectorQuery::new(s("Agent"), s("q"));
    let (mut search, _) = VectorExecution::begin(&query, None);
    search.phase = VectorPhase::Fetching(0);
    assert!(!search.consistent());
    let (search, action) = search.advance(VectorEvent::Fetched(None));
    assert_eq!(search.phase, VectorPhase::Failed);
    assert!(matches!(action, VectorAction::Fail(_)));

    let (mut graph, _) = GraphExecution::begin(&GraphQuery::new(s("a")), None);
    assert!(graph.is_under_way() && graph.is_sound());
    graph.earlier.push(entity("x"));
    assert!(!graph.is_under_way());
    let (_, action) = graph.advance(TraversalEvent::Relations(vec![]));
    assert!(matches!(action, GraphAction::Fail(_)));

    let coordinator = QueryCoordinator::new(None);
    let (execution, _) = coordinator.execute(&HybridQuery::Vector(query));
    assert!(execution.consistent());
    let broken = match execution {
        QueryExecution::Vector(mut v) => {
            v.phase = VectorPhase::Searching(9);
            QueryExecution::Vector(v)
        }
        other => other,
    };
    assert!(!broken.consistent());
    let (after, action) = broken.advance(QueryEvent::Vector(VectorEvent::Embedded));
    assert!(matches!(after, QueryExecution::Done));
    assert!(matches!(action, QueryAction::Fail(_)));
}

use vectadb::db::types::Entity;
use vectadb::query::merge::{
    add_capped, average, merge_graph_priority, merge_intersection, merge_rank_fusion,
    merge_results, merge_union, merge_vector_priority, share,
};
use vectadb::query::ranking::{rank, truncate_results};
use vectadb::query::types::{
    default_depth, default_limit, GraphQuery, MergeStrategy, QueryMetadata, QueryResult,
    ResultSource, ScoredResult, TraversalDirection, VectorQuery, RRF_K, SCORE_UNIT,
};

fn entity(id: &str) -> Entity {
    Entity::with_id(id.to_string(), "Agent".to_string(), vec![], 0)
}

fn result(id: &str, score: i64, source: ResultSource) -> ScoredResult {
    ScoredResult { entity: entity(id), score, source, explanation: None }
}

fn vector(list: &[(&str, i64)]) -> Vec<ScoredResult> {
    list.iter().map(|(id, score)| result(id, *score, ResultSource::Vector)).collect()
}

fn graph(ids: &[&str]) -> Vec<ScoredResult> {
    ids.iter()
        .enumerate()
        .map(|(i, id)| result(id, SCORE_UNIT / (i as i64 + 1), ResultSource::Graph))
        .collect()
}

fn shown(results: &[ScoredResult]) -> Vec<(String, i64, ResultSource)> {
    results.iter().map(|r| (r.entity.id.clone(), r.score, r.source)).collect()
}

fn answer(results: Vec<ScoredResult>, vector_side: bool) -> QueryResult {
    let n = results.len();
    QueryResult {
        results,
        total_count: n,
        metadata: QueryMetadata {
            execution_time_ms: 0,
            vector_count: if vector_side { Some(n) } else { None },
            graph_count: if vector_side { None } else { Some(n) },
            searched_types: if vector_side { Some(vec!["Agent".to_string()]) } else { None },
            traversed_relations: if vector_side { None } else { Some(vec!["knows".to_string()]) },
            extra: Vec::new(),
        },
    }
}

#[test]
fn test_merge_strategies() {
    assert_eq!(MergeStrategy::default(), MergeStrategy::RankFusion);
}

#[test]
fn test_merge_strategy_default() {
    let strategy = MergeStrategy::default();
    assert_eq!(strategy, MergeStrategy::RankFusion);
}

#[test]
fn test_vector_query_defaults() {
    let query = VectorQuery::new("Agent".to_string(), "test".to_string());
    assert_eq!(query.limit, 10);
    assert!(!query.expand_types);
    assert!(query.min_score.is_none());
}

#[test]
fn test_graph_query_defaults() {
    let query = GraphQuery::new("agent-001".to_string());
    assert_eq!(query.depth, 2);
    assert_eq!(query.direction, TraversalDirection::Outgoing);
    assert!(!query.expand_relations);
}

#[test]
fn defaults_of_queries() {
    assert_eq!(default_limit(), 10);
    assert_eq!(default_depth(), 2);
    assert_eq!(TraversalDirection::default(), TraversalDirection::Outgoing);
    assert_eq!(RRF_K, 60);
    assert_eq!(MergeStrategy::GraphPriority.name(), "GraphPriority");
}

#[test]
fn rank_fusion_orders_b_before_a_before_c() {
    let v = vector(&[("A", 900_000_000), ("B", 700_000_000)]);
    let g = graph(&["B", "C", "A"]);
    let fused = merge_rank_fusion(&v, &g);
    assert_eq!(
        shown(&fused),
        vec![
            ("A".to_string(), 1_000_000_000 / 61 + 1_000_000_000 / 63, ResultSource::Hybrid),
            ("B".to_string(), 1_000_000_000 / 62 + 1_000_000_000 / 61, ResultSource::Hybrid),
            ("C".to_string(), 1_000_000_000 / 62, ResultSource::Hybrid),
        ]
    );
    let ordered = rank(&fused);
    let ids: Vec<&str> = ordered.iter().map(|r| r.entity.id.as_str()).collect();
    assert_eq!(ids, vec!["B", "A", "C"]);
    assert_eq!(ordered[0].score, 32_522_474);
    assert_eq!(ordered[1].score, 32_266_457);
    assert_eq!(ordered[2].score, 16_129_032);
    assert_eq!(fused[0].explanation.as_deref(), Some("Ranked by reciprocal rank fusion"));
}

#[test]
fn a_result_added_at_the_end_lowers_no_fused_score() {
    let v = vector(&[("A", 9), ("B", 7)]);
    let g = graph(&["B", "C"]);
    let before = merge_rank_fusion(&v, &g);
    let mut longer_graph = graph(&["B", "C"]);
    longer_graph.push(result("A", 1, ResultSource::Graph));
    let mut longer_vector = vector(&[("A", 9), ("B", 7)]);
    longer_vector.push(result("C", 1, ResultSource::Vector));
    for after in [merge_rank_fusion(&v, &longer_graph), merge_rank_fusion(&longer_vector, &g)] {
        for old in &before {
            let new = after.iter().find(|r| r.entity.id == old.entity.id).unwrap();
            assert!(new.score >= old.score);
        }
    }
    assert_eq!(share(0), 16_393_442);
    assert_eq!(share(usize::MAX), 0);
    assert_eq!(add_capped(i64::MAX - 1, 5), i64::MAX);
    assert_eq!(add_capped(-3, 5), 2);
}

#[test]
fn union_averages_what_both_lists_hold() {
    let v = vector(&[("A", 900), ("B", 700)]);
    let g = vec![result("B", 1000, ResultSource::Graph), result("C", 500, ResultSource::Graph)];
    let merged = merge_union(&v, &g);
    assert_eq!(
        shown(&merged),
        vec![
            ("A".to_string(), 900, ResultSource::Vector),
            ("B".to_string(), 850, ResultSource::Hybrid),
            ("C".to_string(), 500, ResultSource::Graph),
        ]
    );
    assert_eq!(merged[1].explanation.as_deref(), Some("Found in both vector and graph search"));
    assert_eq!(average(3, 4), 3);
    assert_eq!(average(-3, -4), -3);
    assert_eq!(average(i64::MAX, i64::MAX), i64::MAX);
    assert_eq!(average(i64::MIN, i64::MAX), 0);
    let twice = merge_union(&vector(&[("A", 1), ("A", 5)]), &[].to_vec());
    assert_eq!(shown(&twice), vec![("A".to_string(), 5, ResultSource::Vector)]);
}

#[test]
fn intersection_keeps_vector_results_that_the_graph_holds() {
    let v = vector(&[("A", 900), ("B", 700), ("D", 100)]);
    let g = graph(&["B", "C", "A"]);
    let merged = merge_intersection(&v, &g);
    assert_eq!(
        shown(&merged),
        vec![("A".to_string(), 900, ResultSource::Hybrid), ("B".to_string(), 700, ResultSource::Hybrid)]
    );
    assert_eq!(merged[0].explanation.as_deref(), Some("Present in both vector and graph results"));
    assert!(merge_intersection(&v, &vec![]).is_empty());
}

#[test]
fn vector_priority_marks_and_keeps_scores() {
    let v = vector(&[("A", 900), ("D", 100)]);
    let g = graph(&["A"]);
    let merged = merge_vector_priority(&v, &g);
    assert_eq!(
        shown(&merged),
        vec![("A".to_string(), 900, ResultSource::Hybrid), ("D".to_string(), 100, ResultSource::Vector)]
    );
    assert_eq!(merged[0].explanation.as_deref(), Some("High similarity and graph connected"));
    assert_eq!(merged[1].explanation, None);
}

#[test]
fn graph_priority_takes_the_vector_score() {
    let v = vector(&[("A", 900), ("A", 800), ("D", 100)]);
    let g = graph(&["B", "A"]);
    let merged = merge_graph_priority(&v, &g);
    assert_eq!(
        shown(&merged),
        vec![
            ("B".to_string(), SCORE_UNIT, ResultSource::Graph),
            ("A".to_string(), 800, ResultSource::Hybrid),
        ]
    );
    assert_eq!(merged[1].explanation.as_deref(), Some("Graph connected with vector similarity"));
}

#[test]
fn merged_results_are_ordered_counted_and_cut() {
    let v = answer(vector(&[("A", 900_000_000), ("B", 700_000_000)]), true);
    let g = answer(graph(&["B", "C", "A"]), false);
    let merged = merge_results(v, Some(g), MergeStrategy::RankFusion, 2);
    let ids: Vec<&str> = merged.results.iter().map(|r| r.entity.id.as_str()).collect();
    assert_eq!(ids, vec!["B", "A"]);
    assert_eq!(merged.total_count, 3);
    assert_eq!(merged.metadata.vector_count, Some(2));
    assert_eq!(merged.metadata.graph_count, Some(3));
    assert_eq!(merged.metadata.searched_types, Some(vec!["Agent".to_string()]));
    assert_eq!(merged.metadata.traversed_relations, Some(vec!["knows".to_string()]));
    assert_eq!(merged.metadata.extra, vec![("merge_strategy".to_string(), "RankFusion".to_string())]);

    let alone = merge_results(answer(vector(&[("A", 1), ("B", 2)]), true), None, MergeStrategy::Union, 1);
    assert_eq!(alone.results.len(), 2);
    assert!(alone.metadata.extra.is_empty());

    let empty = merge_results(
        answer(vector(&[("A", 1)]), true),
        Some(answer(vec![], false)),
        MergeStrategy::Intersection,
        10,
    );
    assert!(empty.results.is_empty());
    assert_eq!(empty.total_count, 0);
    let timed = empty.timed(42);
    assert_eq!(timed.metadata.execution_time_ms, 42);
}

#[test]
fn ranking_is_by_falling_score_and_keeps_ties_in_order() {
    let list = vector(&[("a", 5), ("b", 9), ("c", 5), ("d", -1), ("e", 9)]);
    let mut ordered = rank(&list);
    let ids: Vec<&str> = ordered.iter().map(|r| r.entity.id.as_str()).collect();
    assert_eq!(ids, vec!["b", "e", "a", "c", "d"]);
    truncate_results(&mut ordered, 3);
    assert_eq!(ordered.len(), 3);
    truncate_results(&mut ordered, 7);
    assert_eq!(ordered.len(), 3);
    truncate_results(&mut ordered, 0);
    assert!(ordered.is_empty());
}

use crate::db::types::EntityView;
use crate::query::ranking::{cut, rank, ranked, truncate_results};
use crate::query::types::{
    push_result, result_ids, result_views, MergeStrategy, QueryMetadata, QueryResult,
    ResultSource, ScoredResult, ScoredResultView, RRF_K, SCORE_UNIT,
};
use crate::text::{first_position, key_position, owned, str_eq};
use vstd::prelude::*;

verus! {

/// What is said of a result that a union found in both lists.
pub open spec fn note_union() -> Seq<char> {
    "Found in both vector and graph search"@
}

/// What is said of a result of an intersection.
pub open spec fn note_intersection() -> Seq<char> {
    "Present in both vector and graph results"@
}

/// What is said of a result of rank fusion.
pub open spec fn note_fusion() -> Seq<char> {
    "Ranked by reciprocal rank fusion"@
}

/// What is said of a vector result that the graph results also hold.
pub open spec fn note_vector_priority() -> Seq<char> {
    "High similarity and graph connected"@
}

/// What is said of a graph result that the vector results also hold.
pub open spec fn note_graph_priority() -> Seq<char> {
    "Graph connected with vector similarity"@
}

/// A result marked as found by both searches, with a score and a note.
pub open spec fn marked(r: ScoredResultView, score: i64, note: Seq<char>) -> ScoredResultView {
    ScoredResultView {
        entity: r.entity,
        score,
        source: ResultSource::Hybrid,
        explanation: Some(note),
    }
}

/// Half of a sum, rounded towards zero.
pub open spec fn half(sum: int) -> int {
    if sum >= 0 {
        sum / 2
    } else {
        -((-sum) / 2)
    }
}

/// The mean of two scores.
pub open spec fn mean(a: i64, b: i64) -> i64 {
    half(a + b) as i64
}

/// The share that a list gives the result at one of its ranks, the first rank being 0:
/// the reciprocal of the rank plus one plus the fusion constant, in billionths.
pub open spec fn rrf(rank: nat) -> i64 {
    (SCORE_UNIT as int / (RRF_K + rank + 1)) as i64
}

/// A sum of scores, held within what a score can hold.
pub open spec fn capped(sum: int) -> i64 {
    if sum > i64::MAX {
        i64::MAX
    } else if sum < i64::MIN {
        i64::MIN
    } else {
        sum as i64
    }
}

/// Where the last of the given key stands among keys.
pub open spec fn last_position(keys: Seq<Seq<char>>, key: Seq<char>) -> Option<int>
    decreases keys.len(),
{
    if keys.len() == 0 {
        None
    } else if keys.last() == key {
        Some(keys.len() - 1)
    } else {
        last_position(keys.drop_last(), key)
    }
}

/// The vector results that the graph results also hold, marked as found by both.
pub open spec fn intersection(
    vector: Seq<ScoredResultView>,
    graph: Seq<ScoredResultView>,
) -> Seq<ScoredResultView>
    decreases vector.len(),
{
    if vector.len() == 0 {
        Seq::empty()
    } else if result_ids(graph).contains(vector.last().id()) {
        intersection(vector.drop_last(), graph).push(
            marked(vector.last(), vector.last().score, note_intersection()),
        )
    } else {
        intersection(vector.drop_last(), graph)
    }
}

/// The vector results, those that the graph results also hold marked as found by
/// both.
pub open spec fn vector_priority(
    vector: Seq<ScoredResultView>,
    graph: Seq<ScoredResultView>,
) -> Seq<ScoredResultView>
    decreases vector.len(),
{
    if vector.len() == 0 {
        Seq::empty()
    } else if result_ids(graph).contains(vector.last().id()) {
        vector_priority(vector.drop_last(), graph).push(
            marked(vector.last(), vector.last().score, note_vector_priority()),
        )
    } else {
        vector_priority(vector.drop_last(), graph).push(vector.last())
    }
}

/// The graph results; one that the vector results also hold is marked as found by both
/// and takes the score of the last vector result for its entity.
pub open spec fn graph_priority(
    vector: Seq<ScoredResultView>,
    graph: Seq<ScoredResultView>,
) -> Seq<ScoredResultView>
    decreases graph.len(),
{
    if graph.len() == 0 {
        Seq::empty()
    } else {
        let rest = graph_priority(vector, graph.drop_last());
        match last_position(result_ids(vector), graph.last().id()) {
            Some(j) => rest.push(marked(graph.last(), vector[j].score, note_graph_priority())),
            None => rest.push(graph.last()),
        }
    }
}

/// A list with `x` in the place of the result for the same entity, or at the end where
/// there is none.
pub open spec fn upsert(list: Seq<ScoredResultView>, x: ScoredResultView) -> Seq<
    ScoredResultView,
> {
    match first_position(result_ids(list), x.id()) {
        Some(i) => list.update(i, x),
        None => list.push(x),
    }
}

/// The vector results, one for each entity: where an entity has several, the last in
/// the place of the first.
pub open spec fn one_per_entity(vector: Seq<ScoredResultView>) -> Seq<ScoredResultView>
    decreases vector.len(),
{
    if vector.len() == 0 {
        Seq::empty()
    } else {
        upsert(one_per_entity(vector.drop_last()), vector.last())
    }
}

/// A list that has taken in a graph result: where it holds a result for the entity,
/// that result is marked as found by both and scored with the mean of the two scores;
/// else the graph result is added at the end.
pub open spec fn absorb(list: Seq<ScoredResultView>, g: ScoredResultView) -> Seq<
    ScoredResultView,
> {
    match first_position(result_ids(list), g.id()) {
        Some(i) => list.update(i, marked(list[i], mean(list[i].score, g.score), note_union())),
        None => list.push(g),
    }
}

/// A list that has taken in graph results one after the other.
pub open spec fn absorb_all(list: Seq<ScoredResultView>, graph: Seq<ScoredResultView>) -> Seq<
    ScoredResultView,
>
    decreases graph.len(),
{
    if graph.len() == 0 {
        list
    } else {
        absorb(absorb_all(list, graph.drop_last()), graph.last())
    }
}

/// All results of both lists, one for each entity.
pub open spec fn union(vector: Seq<ScoredResultView>, graph: Seq<ScoredResultView>) -> Seq<
    ScoredResultView,
> {
    absorb_all(one_per_entity(vector), graph)
}

/// A result of rank fusion for an entity.
pub open spec fn fused(entity: EntityView, score: i64) -> ScoredResultView {
    ScoredResultView {
        entity,
        score,
        source: ResultSource::Hybrid,
        explanation: Some(note_fusion()),
    }
}

/// A fusion that has taken in the vector result at `rank`: the entity's share of the
/// vector list is that of this rank.
pub open spec fn place_vector(list: Seq<ScoredResultView>, x: ScoredResultView, rank: nat) -> Seq<
    ScoredResultView,
> {
    upsert(list, fused(x.entity, rrf(rank)))
}

/// A fusion that has taken in the graph result at `rank`: the share of this rank is
/// added to what the entity has.
pub open spec fn place_graph(list: Seq<ScoredResultView>, g: ScoredResultView, rank: nat) -> Seq<
    ScoredResultView,
> {
    match first_position(result_ids(list), g.id()) {
        Some(i) => list.update(i, fused(g.entity, capped(list[i].score + rrf(rank)))),
        None => list.push(fused(g.entity, rrf(rank))),
    }
}

/// The fusion of the vector results alone.
pub open spec fn fusion_of_vector(vector: Seq<ScoredResultView>) -> Seq<ScoredResultView>
    decreases vector.len(),
{
    if vector.len() == 0 {
        Seq::empty()
    } else {
        place_vector(
            fusion_of_vector(vector.drop_last()),
            vector.last(),
            (vector.len() - 1) as nat,
        )
    }
}

/// A fusion that has taken in graph results one after the other.
pub open spec fn fusion_with_graph(list: Seq<ScoredResultView>, graph: Seq<ScoredResultView>) -> Seq<
    ScoredResultView,
>
    decreases graph.len(),
{
    if graph.len() == 0 {
        list
    } else {
        place_graph(
            fusion_with_graph(list, graph.drop_last()),
            graph.last(),
            (graph.len() - 1) as nat,
        )
    }
}

/// The reciprocal rank fusion of two lists: one result for each entity of either list,
/// scored with the sum of the shares that the lists give it.
pub open spec fn rank_fusion(vector: Seq<ScoredResultView>, graph: Seq<ScoredResultView>) -> Seq<
    ScoredResultView,
> {
    fusion_with_graph(fusion_of_vector(vector), graph)
}

/// The two lists merged under a strategy, before ordering.
pub open spec fn merged(
    strategy: MergeStrategy,
    vector: Seq<ScoredResultView>,
    graph: Seq<ScoredResultView>,
) -> Seq<ScoredResultView> {
    match strategy {
        MergeStrategy::Union => union(vector, graph),
        MergeStrategy::Intersection => intersection(vector, graph),
        MergeStrategy::RankFusion => rank_fusion(vector, graph),
        MergeStrategy::VectorPriority => vector_priority(vector, graph),
        MergeStrategy::GraphPriority => graph_priority(vector, graph),
    }
}

/// The score that a list has for an entity; nothing where it has no result for it.
pub open spec fn score_of(list: Seq<ScoredResultView>, id: Seq<char>) -> Option<i64> {
    match first_position(result_ids(list), id) {
        Some(i) => Some(list[i].score),
        None => None,
    }
}


/// Where the first result for an entity stands in a list.
pub fn result_position(results: &Vec<ScoredResult>, id: &str) -> (pos: Option<usize>)
    ensures
        match pos {
            Some(i) => first_position(result_ids(result_views(results@)), id@) == Some(i as int)
                && i < results.len(),
            None => first_position(result_ids(result_views(results@)), id@) is None,
        },
{
    let ghost keys = result_ids(result_views(results@));
    let mut i: usize = 0;
    while i < results.len()
        invariant
            i <= results.len(),
            keys == result_ids(result_views(results@)),
            first_position(keys, id@) == key_position(keys, id@, i as int),
        decreases results.len() - i,
    {
        assert(keys[i as int] == results@[i as int].entity.id@);
        if str_eq(results[i].entity.id.as_str(), id) {
            return Some(i);
        }
        i += 1;
    }
    None
}

/// Whether a list holds a result for an entity.
pub fn holds_entity(results: &Vec<ScoredResult>, id: &str) -> (found: bool)
    ensures
        found == result_ids(result_views(results@)).contains(id@),
{
    proof {
        crate::text::lemma_first_position_contains(result_ids(result_views(results@)), id@);
    }
    result_position(results, id).is_some()
}

/// Where the last result for an entity stands in a list.
pub fn last_result_position(results: &Vec<ScoredResult>, id: &str) -> (pos: Option<usize>)
    ensures
        match pos {
            Some(i) => last_position(result_ids(result_views(results@)), id@) == Some(i as int)
                && i < results.len(),
            None => last_position(result_ids(result_views(results@)), id@) is None,
        },
{
    let ghost keys = result_ids(result_views(results@));
    let mut found: Option<usize> = None;
    let mut i: usize = 0;
    assert(keys.take(0) =~= Seq::<Seq<char>>::empty());
    while i < results.len()
        invariant
            i <= results.len(),
            keys == result_ids(result_views(results@)),
            match found {
                Some(k) => last_position(keys.take(i as int), id@) == Some(k as int) && k < i,
                None => last_position(keys.take(i as int), id@) is None,
            },
        decreases results.len() - i,
    {
        assert(keys.take(i + 1).drop_last() == keys.take(i as int));
        assert(keys.take(i + 1).last() == results@[i as int].entity.id@);
        if str_eq(results[i].entity.id.as_str(), id) {
            found = Some(i);
        }
        i += 1;
    }
    assert(keys.take(results.len() as int) == keys);
    found
}

/// Puts a result in the place of the one at `i`.
fn set_result(results: &mut Vec<ScoredResult>, i: usize, result: ScoredResult)
    requires
        i < old(results).len(),
    ensures
        result_views(final(results)@) == result_views(old(results)@).update(i as int, result@),
{
    results.set(i, result);
    assert(result_views(results@) =~= result_views(old(results)@).update(i as int, result@));
}

/// The mean of two scores.
pub fn average(a: i64, b: i64) -> (m: i64)
    ensures
        m == mean(a, b),
{
    let sum: i128 = a as i128 + b as i128;
    if sum >= 0 {
        (sum / 2) as i64
    } else {
        (-((-sum) / 2)) as i64
    }
}

/// The share that a list gives the result at one of its ranks.
pub fn share(rank: usize) -> (score: i64)
    ensures
        score == rrf(rank as nat),
        0 <= score <= SCORE_UNIT,
{
    let below: u128 = RRF_K as u128 + rank as u128 + 1;
    let score = (SCORE_UNIT as u128) / below;
    assert(score <= SCORE_UNIT as u128) by (nonlinear_arith)
        requires
            score == (SCORE_UNIT as u128) / below,
            below >= 1,
    ;
    score as i64
}

/// The sum of a score and a share, held within what a score can hold.
pub fn add_capped(score: i64, share: i64) -> (sum: i64)
    ensures
        sum == capped(score + share),
{
    let sum: i128 = score as i128 + share as i128;
    if sum > i64::MAX as i128 {
        i64::MAX
    } else if sum < i64::MIN as i128 {
        i64::MIN
    } else {
        sum as i64
    }
}

/// A copy of a result, marked as found by both searches, with a score and a note.
fn mark(result: &ScoredResult, score: i64, note: &str) -> (out: ScoredResult)
    ensures
        out@ == marked(result@, score, note@),
{
    ScoredResult {
        entity: result.entity.clone(),
        score,
        source: ResultSource::Hybrid,
        explanation: Some(owned(note)),
    }
}

/// The vector results that the graph results also hold, marked as found by both.
pub fn merge_intersection(vector_results: &Vec<ScoredResult>, graph_results: &Vec<ScoredResult>) -> (out:
    Vec<ScoredResult>)
    ensures
        result_views(out@) == intersection(
            result_views(vector_results@),
            result_views(graph_results@),
        ),
{
    let ghost vector = result_views(vector_results@);
    let ghost graph = result_views(graph_results@);
    let mut out: Vec<ScoredResult> = Vec::new();
    assert(result_views(out@) =~= Seq::<ScoredResultView>::empty());
    let mut i: usize = 0;
    while i < vector_results.len()
        invariant
            i <= vector_results.len(),
            vector == result_views(vector_results@),
            graph == result_views(graph_results@),
            result_views(out@) == intersection(vector.take(i as int), graph),
        decreases vector_results.len() - i,
    {
        assert(vector.take(i + 1).drop_last() == vector.take(i as int));
        assert(vector.take(i + 1).last() == vector_results@[i as int]@);
        let r = &vector_results[i];
        if holds_entity(graph_results, r.entity.id.as_str()) {
            push_result(&mut out, mark(r, r.score, "Present in both vector and graph results"));
        }
        i += 1;
    }
    assert(vector.take(vector_results.len() as int) == vector);
    out
}

/// The vector results, those that the graph results also hold marked as found by
/// both; no score changes.
pub fn merge_vector_priority(
    vector_results: &Vec<ScoredResult>,
    graph_results: &Vec<ScoredResult>,
) -> (out: Vec<ScoredResult>)
    ensures
        result_views(out@) == vector_priority(
            result_views(vector_results@),
            result_views(graph_results@),
        ),
{
    let ghost vector = result_views(vector_results@);
    let ghost graph = result_views(graph_results@);
    let mut out: Vec<ScoredResult> = Vec::new();
    assert(result_views(out@) =~= Seq::<ScoredResultView>::empty());
    let mut i: usize = 0;
    while i < vector_results.len()
        invariant
            i <= vector_results.len(),
            vector == result_views(vector_results@),
            graph == result_views(graph_results@),
            result_views(out@) == vector_priority(vector.take(i as int), graph),
        decreases vector_results.len() - i,
    {
        assert(vector.take(i + 1).drop_last() == vector.take(i as int));
        assert(vector.take(i + 1).last() == vector_results@[i as int]@);
        let r = &vector_results[i];
        if holds_entity(graph_results, r.entity.id.as_str()) {
            push_result(&mut out, mark(r, r.score, "High similarity and graph connected"));
        } else {
            push_result(&mut out, r.clone());
        }
        i += 1;
    }
    assert(vector.take(vector_results.len() as int) == vector);
    out
}

/// The graph results, each with the vector result's score where there is one.
pub fn merge_graph_priority(
    vector_results: &Vec<ScoredResult>,
    graph_results: &Vec<ScoredResult>,
) -> (out: Vec<ScoredResult>)
    ensures
        result_views(out@) == graph_priority(
            result_views(vector_results@),
            result_views(graph_results@),
        ),
{
    let ghost vector = result_views(vector_results@);
    let ghost graph = result_views(graph_results@);
    let mut out: Vec<ScoredResult> = Vec::new();
    assert(result_views(out@) =~= Seq::<ScoredResultView>::empty());
    let mut i: usize = 0;
    while i < graph_results.len()
        invariant
            i <= graph_results.len(),
            vector == result_views(vector_results@),
            graph == result_views(graph_results@),
            result_views(out@) == graph_priority(vector, graph.take(i as int)),
        decreases graph_results.len() - i,
    {
        assert(graph.take(i + 1).drop_last() == graph.take(i as int));
        assert(graph.take(i + 1).last() == graph_results@[i as int]@);
        let r = &graph_results[i];
        match last_result_position(vector_results, r.entity.id.as_str()) {
            Some(j) => {
                assert(vector[j as int].score == vector_results@[j as int].score);
                push_result(
                    &mut out,
                    mark(r, vector_results[j].score, "Graph connected with vector similarity"),
                );
            },
            None => {
                push_result(&mut out, r.clone());
            },
        }
        i += 1;
    }
    assert(graph.take(graph_results.len() as int) == graph);
    out
}

/// Puts a result in the place of the one for the same entity, or at the end where
/// there is none.
fn upsert_result(list: &mut Vec<ScoredResult>, result: ScoredResult)
    ensures
        result_views(final(list)@) == upsert(result_views(old(list)@), result@),
{
    match result_position(list, result.entity.id.as_str()) {
        Some(i) => set_result(list, i, result),
        None => push_result(list, result),
    }
}

/// All results of both lists, one for each entity; an entity of both lists has the
/// mean of its two scores.
pub fn merge_union(vector_results: &Vec<ScoredResult>, graph_results: &Vec<ScoredResult>) -> (out:
    Vec<ScoredResult>)
    ensures
        result_views(out@) == union(result_views(vector_results@), result_views(graph_results@)),
{
    let ghost vector = result_views(vector_results@);
    let ghost graph = result_views(graph_results@);
    let mut out: Vec<ScoredResult> = Vec::new();
    assert(result_views(out@) =~= Seq::<ScoredResultView>::empty());
    let mut i: usize = 0;
    while i < vector_results.len()
        invariant
            i <= vector_results.len(),
            vector == result_views(vector_results@),
            result_views(out@) == one_per_entity(vector.take(i as int)),
        decreases vector_results.len() - i,
    {
        assert(vector.take(i + 1).drop_last() == vector.take(i as int));
        assert(vector.take(i + 1).last() == vector_results@[i as int]@);
        upsert_result(&mut out, vector_results[i].clone());
        i += 1;
    }
    assert(vector.take(vector_results.len() as int) == vector);
    let mut k: usize = 0;
    assert(graph.take(0) =~= Seq::<ScoredResultView>::empty());
    while k < graph_results.len()
        invariant
            k <= graph_results.len(),
            graph == result_views(graph_results@),
            result_views(out@) == absorb_all(one_per_entity(vector), graph.take(k as int)),
        decreases graph_results.len() - k,
    {
        assert(graph.take(k + 1).drop_last() == graph.take(k as int));
        assert(graph.take(k + 1).last() == graph_results@[k as int]@);
        let g = &graph_results[k];
        match result_position(&out, g.entity.id.as_str()) {
            Some(at) => {
                assert(result_views(out@)[at as int] == out@[at as int]@);
                let both = mark(
                    &out[at],
                    average(out[at].score, g.score),
                    "Found in both vector and graph search",
                );
                set_result(&mut out, at, both);
            },
            None => {
                push_result(&mut out, g.clone());
            },
        }
        k += 1;
    }
    assert(graph.take(graph_results.len() as int) == graph);
    out
}

/// A result of rank fusion for the entity of `result`.
fn fuse(result: &ScoredResult, score: i64) -> (out: ScoredResult)
    ensures
        out@ == fused(result@.entity, score),
{
    ScoredResult {
        entity: result.entity.clone(),
        score,
        source: ResultSource::Hybrid,
        explanation: Some(owned("Ranked by reciprocal rank fusion")),
    }
}

/// The reciprocal rank fusion of two lists.
pub fn merge_rank_fusion(vector_results: &Vec<ScoredResult>, graph_results: &Vec<ScoredResult>) -> (out:
    Vec<ScoredResult>)
    ensures
        result_views(out@) == rank_fusion(
            result_views(vector_results@),
            result_views(graph_results@),
        ),
{
    let ghost vector = result_views(vector_results@);
    let ghost graph = result_views(graph_results@);
    let mut out: Vec<ScoredResult> = Vec::new();
    assert(result_views(out@) =~= Seq::<ScoredResultView>::empty());
    let mut i: usize = 0;
    while i < vector_results.len()
        invariant
            i <= vector_results.len(),
            vector == result_views(vector_results@),
            result_views(out@) == fusion_of_vector(vector.take(i as int)),
        decreases vector_results.len() - i,
    {
        assert(vector.take(i + 1).drop_last() == vector.take(i as int));
        assert(vector.take(i + 1).last() == vector_results@[i as int]@);
        upsert_result(&mut out, fuse(&vector_results[i], share(i)));
        i += 1;
    }
    assert(vector.take(vector_results.len() as int) == vector);
    let mut k: usize = 0;
    assert(graph.take(0) =~= Seq::<ScoredResultView>::empty());
    while k < graph_results.len()
        invariant
            k <= graph_results.len(),
            graph == result_views(graph_results@),
            result_views(out@) == fusion_with_graph(
                fusion_of_vector(vector),
                graph.take(k as int),
            ),
        decreases graph_results.len() - k,
    {
        assert(graph.take(k + 1).drop_last() == graph.take(k as int));
        assert(graph.take(k + 1).last() == graph_results@[k as int]@);
        let g = &graph_results[k];
        match result_position(&out, g.entity.id.as_str()) {
            Some(at) => {
                assert(result_views(out@)[at as int] == out@[at as int]@);
                let sum = add_capped(out[at].score, share(k));
                set_result(&mut out, at, fuse(g, sum));
            },
            None => {
                push_result(&mut out, fuse(g, share(k)));
            },
        }
        k += 1;
    }
    assert(graph.take(graph_results.len() as int) == graph);
    out
}

/// Whether `out` is the one answer that two answers merge into: the vector results
/// merged with the graph results under the strategy, ordered by falling score and cut
/// to `limit`; the vector answer as it is where there is no graph answer.
///
/// The merged answer counts the results before the cut and takes over what the two
/// answers know of their searches, with the strategy's name under `merge_strategy`.
pub open spec fn is_merge_of(
    out: QueryResult,
    vector_result: QueryResult,
    graph_result: Option<QueryResult>,
    strategy: MergeStrategy,
    limit: nat,
) -> bool {
    match graph_result {
        None => out == vector_result,
        Some(graph) => {
            let all = merged(
                strategy,
                result_views(vector_result.results@),
                result_views(graph.results@),
            );
            &&& result_views(out.results@) == cut(ranked(all), limit)
            &&& out.total_count == all.len()
            &&& out.metadata.execution_time_ms == 0
            &&& out.metadata.vector_count == vector_result.metadata.vector_count
            &&& out.metadata.graph_count == graph.metadata.graph_count
            &&& out.metadata.searched_types == vector_result.metadata.searched_types
            &&& out.metadata.traversed_relations == graph.metadata.traversed_relations
            &&& out.metadata.extra@.len() == 1
            &&& out.metadata.extra@[0].0@ == "merge_strategy"@
            &&& out.metadata.extra@[0].1@ == strategy.written()
        },
    }
}

/// Merges the answer of a vector search with that of a graph traversal, if there
/// is one.
pub fn merge_results(
    vector_result: QueryResult,
    graph_result: Option<QueryResult>,
    strategy: MergeStrategy,
    limit: usize,
) -> (out: QueryResult)
    ensures
        is_merge_of(out, vector_result, graph_result, strategy, limit as nat),
{
    let graph_result = match graph_result {
        Some(r) => r,
        None => {
            return vector_result;
        },
    };
    let all = match strategy {
        MergeStrategy::Union => merge_union(&vector_result.results, &graph_result.results),
        MergeStrategy::Intersection => merge_intersection(
            &vector_result.results,
            &graph_result.results,
        ),
        MergeStrategy::RankFusion => merge_rank_fusion(
            &vector_result.results,
            &graph_result.results,
        ),
        MergeStrategy::VectorPriority => merge_vector_priority(
            &vector_result.results,
            &graph_result.results,
        ),
        MergeStrategy::GraphPriority => merge_graph_priority(
            &vector_result.results,
            &graph_result.results,
        ),
    };
    let mut results = rank(&all);
    let total_count = results.len();
    truncate_results(&mut results, limit);
    let mut extra: Vec<(String, String)> = Vec::new();
    extra.push((owned("merge_strategy"), owned(strategy.name())));
    QueryResult {
        results,
        total_count,
        metadata: QueryMetadata {
            execution_time_ms: 0,
            vector_count: vector_result.metadata.vector_count,
            graph_count: graph_result.metadata.graph_count,
            searched_types: vector_result.metadata.searched_types,
            traversed_relations: graph_result.metadata.traversed_relations,
            extra,
        },
    }
}

} // verus!

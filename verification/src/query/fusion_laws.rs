use crate::query::merge::{capped, fused, fusion_of_vector, fusion_with_graph, place_graph, rank_fusion, rrf, score_of, upsert};
use crate::query::types::{result_ids, ScoredResultView};
use crate::text::{first_position, lemma_key_position};
use vstd::prelude::*;

verus! {

/// A share is never negative.
pub proof fn lemma_share_not_negative(rank: nat)
    ensures
        0 <= rrf(rank) <= 1_000_000_000,
{
    let below = (60 + rank + 1) as int;
    assert(0 <= 1_000_000_000int / below <= 1_000_000_000) by (nonlinear_arith)
        requires
            below >= 1,
    ;
}

/// After the result at `i` gave way to another for the same entity, that entity has
/// the new score and every other entity the score it had.
pub proof fn lemma_score_after_update(
    list: Seq<ScoredResultView>,
    i: int,
    y: ScoredResultView,
    id: Seq<char>,
)
    requires
        0 <= i < list.len(),
        y.id() == list[i].id(),
    ensures
        result_ids(list.update(i, y)) == result_ids(list),
        score_of(list.update(i, y), id) == if first_position(result_ids(list), id) == Some(i) {
            Some(y.score)
        } else {
            score_of(list, id)
        },
{
    assert(result_ids(list.update(i, y)) =~= result_ids(list));
    lemma_key_position(result_ids(list), id, 0);
}

/// After a result was added at the end, an entity that had a score has it still; the
/// added result's entity, if it had none, has the added score; no other entity has one.
pub proof fn lemma_score_after_push(list: Seq<ScoredResultView>, y: ScoredResultView, id: Seq<char>)
    ensures
        score_of(list.push(y), id) == if score_of(list, id) is Some {
            score_of(list, id)
        } else if y.id() == id {
            Some(y.score)
        } else {
            None
        },
{
    let keys = result_ids(list);
    let more = result_ids(list.push(y));
    assert(more =~= keys.push(y.id()));
    lemma_key_position(keys, id, 0);
    lemma_key_position(more, id, 0);
    match first_position(keys, id) {
        Some(a) => {
            assert(more[a] == id);
            match first_position(more, id) {
                Some(b) => {
                    if b < a {
                        assert(keys[b] == more[b]);
                    }
                },
                None => {},
            }
        },
        None => {
            match first_position(more, id) {
                Some(b) => {
                    if b < keys.len() {
                        assert(keys[b] == more[b]);
                    }
                },
                None => {
                    assert(more[keys.len() as int] == y.id());
                },
            }
        },
    }
}

/// Taking in a graph result gives its entity the share of the rank on top of what it
/// had, and leaves every other entity its score.
pub proof fn lemma_place_graph(list: Seq<ScoredResultView>, g: ScoredResultView, rank: nat, id: Seq<char>)
    ensures
        score_of(place_graph(list, g, rank), id) == if id == g.id() {
            match score_of(list, id) {
                Some(s) => Some(capped(s + rrf(rank))),
                None => Some(rrf(rank)),
            }
        } else {
            score_of(list, id)
        },
{
    lemma_key_position(result_ids(list), g.id(), 0);
    match first_position(result_ids(list), g.id()) {
        Some(i) => {
            lemma_score_after_update(
                list,
                i,
                fused(g.entity, capped(list[i].score + rrf(rank))),
                id,
            );
            lemma_key_position(result_ids(list), id, 0);
        },
        None => {
            lemma_score_after_push(list, fused(g.entity, rrf(rank)), id);
        },
    }
}

/// Whether no score of a list is negative.
pub open spec fn no_negative_score(list: Seq<ScoredResultView>) -> bool {
    forall|i: int| 0 <= i < list.len() ==> #[trigger] list[i].score >= 0
}

/// The fusion of vector results holds no negative score.
pub proof fn lemma_fusion_of_vector(vector: Seq<ScoredResultView>)
    ensures
        no_negative_score(fusion_of_vector(vector)),
    decreases vector.len(),
{
    if vector.len() > 0 {
        let rest = fusion_of_vector(vector.drop_last());
        let rank = (vector.len() - 1) as nat;
        let y = fused(vector.last().entity, rrf(rank));
        lemma_fusion_of_vector(vector.drop_last());
        lemma_share_not_negative(rank);
        lemma_key_position(result_ids(rest), y.id(), 0);
        let all = fusion_of_vector(vector);
        assert(all == upsert(rest, y));
        assert forall|i: int| 0 <= i < all.len() implies #[trigger] all[i].score >= 0 by {
            if all[i] != y {
                assert(all[i] == rest[i]);
            }
        }
    }
}

/// The fusion of vector results holds results for entities of those results only.
pub proof fn lemma_fusion_ids(vector: Seq<ScoredResultView>, id: Seq<char>)
    requires
        result_ids(fusion_of_vector(vector)).contains(id),
    ensures
        result_ids(vector).contains(id),
    decreases vector.len(),
{
    if vector.len() > 0 {
        let rest = fusion_of_vector(vector.drop_last());
        let x = vector.last();
        let rank = (vector.len() - 1) as nat;
        let y = fused(x.entity, rrf(rank));
        lemma_key_position(result_ids(rest), y.id(), 0);
        let all = fusion_of_vector(vector);
        assert(all == upsert(rest, y));
        let at = choose|at: int| 0 <= at < result_ids(all).len() && result_ids(all)[at] == id;
        assert(result_ids(vector)[vector.len() - 1] == x.id());
        if all[at].id() != x.id() {
            assert(rest[at] == all[at]);
            assert(result_ids(rest)[at] == id);
            lemma_fusion_ids(vector.drop_last(), id);
            let w = choose|w: int|
                0 <= w < result_ids(vector.drop_last()).len() && result_ids(
                    vector.drop_last(),
                )[w] == id;
            assert(result_ids(vector)[w] == id);
        }
    } else {
        assert(result_ids(fusion_of_vector(vector)) =~= Seq::<Seq<char>>::empty());
    }
}

/// Taking in graph results leaves a list without negative scores without them.
pub proof fn lemma_fusion_not_negative(list: Seq<ScoredResultView>, graph: Seq<ScoredResultView>)
    requires
        no_negative_score(list),
    ensures
        no_negative_score(fusion_with_graph(list, graph)),
    decreases graph.len(),
{
    if graph.len() > 0 {
        let rank = (graph.len() - 1) as nat;
        let g = graph.last();
        let prev = fusion_with_graph(list, graph.drop_last());
        lemma_fusion_not_negative(list, graph.drop_last());
        lemma_share_not_negative(rank);
        lemma_key_position(result_ids(prev), g.id(), 0);
        let all = fusion_with_graph(list, graph);
        assert(all == place_graph(prev, g, rank));
        assert forall|i: int| 0 <= i < all.len() implies #[trigger] all[i].score >= 0 by {
            match first_position(result_ids(prev), g.id()) {
                Some(at) => {
                    if i != at {
                        assert(all[i] == prev[i]);
                    } else {
                        assert(prev[at].score >= 0);
                    }
                },
                None => {
                    if i < prev.len() {
                        assert(all[i] == prev[i]);
                    }
                },
            }
        }
    }
}

/// A score that a list has is the score of one of its results.
pub proof fn lemma_score_is_held(list: Seq<ScoredResultView>, id: Seq<char>)
    requires
        no_negative_score(list),
    ensures
        score_of(list, id) matches Some(s) ==> s >= 0,
{
    lemma_key_position(result_ids(list), id, 0);
}

/// Rank fusion is monotonic in the graph results: a result added at the end of the
/// graph results lowers the score of no entity that the fusion held.
pub proof fn fusion_grows_with_graph_results(
    vector: Seq<ScoredResultView>,
    graph: Seq<ScoredResultView>,
    added: ScoredResultView,
    id: Seq<char>,
)
    requires
        score_of(rank_fusion(vector, graph), id) is Some,
    ensures
        score_of(rank_fusion(vector, graph.push(added)), id) is Some,
        score_of(rank_fusion(vector, graph.push(added)), id)->0 >= score_of(
            rank_fusion(vector, graph),
            id,
        )->0,
{
    let before = rank_fusion(vector, graph);
    assert(graph.push(added).drop_last() =~= graph);
    assert(rank_fusion(vector, graph.push(added)) == place_graph(before, added, graph.len()));
    lemma_place_graph(before, added, graph.len(), id);
    lemma_share_not_negative(graph.len());
}

/// With one more result at the end of the vector results, for an entity that the
/// vector results did not hold, no entity has a smaller score after the same graph
/// results were taken in.
pub proof fn lemma_fusion_grows(
    list: Seq<ScoredResultView>,
    added: ScoredResultView,
    graph: Seq<ScoredResultView>,
    id: Seq<char>,
)
    requires
        no_negative_score(list),
        added.score >= 0,
        !result_ids(list).contains(added.id()),
        score_of(fusion_with_graph(list, graph), id) is Some,
    ensures
        score_of(fusion_with_graph(list.push(added), graph), id) is Some,
        score_of(fusion_with_graph(list.push(added), graph), id)->0 >= score_of(
            fusion_with_graph(list, graph),
            id,
        )->0,
    decreases graph.len(),
{
    if graph.len() == 0 {
        lemma_score_after_push(list, added, id);
    } else {
        let g = graph.last();
        let rank = (graph.len() - 1) as nat;
        let thin = fusion_with_graph(list, graph.drop_last());
        let wide = fusion_with_graph(list.push(added), graph.drop_last());
        lemma_place_graph(thin, g, rank, id);
        lemma_place_graph(wide, g, rank, id);
        lemma_share_not_negative(rank);
        if score_of(thin, id) is Some {
            lemma_fusion_grows(list, added, graph.drop_last(), id);
        } else {
            assert(id == g.id());
            assert(no_negative_score(list.push(added)));
            lemma_fusion_not_negative(list.push(added), graph.drop_last());
            lemma_score_is_held(wide, id);
        }
    }
}

/// Rank fusion is monotonic in the vector results: a result added at the end of the
/// vector results, for an entity that they did not hold, lowers the score of no entity
/// that the fusion held.
pub proof fn fusion_grows_with_vector_results(
    vector: Seq<ScoredResultView>,
    graph: Seq<ScoredResultView>,
    added: ScoredResultView,
    id: Seq<char>,
)
    requires
        !result_ids(vector).contains(added.id()),
        score_of(rank_fusion(vector, graph), id) is Some,
    ensures
        score_of(rank_fusion(vector.push(added), graph), id) is Some,
        score_of(rank_fusion(vector.push(added), graph), id)->0 >= score_of(
            rank_fusion(vector, graph),
            id,
        )->0,
{
    let list = fusion_of_vector(vector);
    let y = fused(added.entity, rrf(vector.len()));
    assert(vector.push(added).drop_last() =~= vector);
    lemma_fusion_of_vector(vector);
    lemma_share_not_negative(vector.len());
    if result_ids(list).contains(y.id()) {
        lemma_fusion_ids(vector, y.id());
    }
    crate::text::lemma_first_position_contains(result_ids(list), y.id());
    assert(fusion_of_vector(vector.push(added)) == list.push(y));
    lemma_fusion_grows(list, y, graph, id);
}

} // verus!

use crate::db::types::{Entity, EntityView};
use crate::intelligence::ontology_reasoner::OntologyReasoner;
use crate::query::traversal::entity_views;
use crate::query::types::{
    push_result, result_views, QueryMetadata, QueryResult, ResultSource, ScoredResult,
    ScoredResultView, SCORE_UNIT,
};
use crate::text::{clone_list, decimal, decimal_text, owned, push_unique, str_eq, views};
use vstd::prelude::*;

verus! {

/// The identifiers of a list of entities.
pub open spec fn entity_ids(entities: Seq<EntityView>) -> Seq<Seq<char>> {
    entities.map_values(|e: EntityView| e.id)
}

/// The texts of a list, each once, in the order they first come.
pub open spec fn distinct(list: Seq<Seq<char>>) -> Seq<Seq<char>>
    decreases list.len(),
{
    if list.len() == 0 {
        Seq::empty()
    } else if distinct(list.drop_last()).contains(list.last()) {
        distinct(list.drop_last())
    } else {
        distinct(list.drop_last()).push(list.last())
    }
}

/// The entities of a list, each once, in the order they first come.
pub open spec fn unique_entities(entities: Seq<EntityView>) -> Seq<EntityView>
    decreases entities.len(),
{
    if entities.len() == 0 {
        Seq::empty()
    } else if entity_ids(unique_entities(entities.drop_last())).contains(entities.last().id) {
        unique_entities(entities.drop_last())
    } else {
        unique_entities(entities.drop_last()).push(entities.last())
    }
}

/// The score of the entity that a traversal found at the given place, the first place
/// being 0: the reciprocal of the place plus one, in billionths.
pub open spec fn place_score(place: nat) -> i64 {
    (SCORE_UNIT as int / (place + 1) as int) as i64
}

/// What is said of the entity that a traversal found at the given place.
pub open spec fn graph_note(place: nat) -> Seq<char> {
    "Graph distance: "@ + decimal(place + 1)
}

/// The result for the entity that a traversal found at the given place.
pub open spec fn graph_result(entity: EntityView, place: nat) -> ScoredResultView {
    ScoredResultView {
        entity,
        score: place_score(place),
        source: ResultSource::Graph,
        explanation: Some(graph_note(place)),
    }
}

/// The results for the entities that a traversal found, in the order it found them.
pub open spec fn graph_results(entities: Seq<EntityView>) -> Seq<ScoredResultView>
    decreases entities.len(),
{
    if entities.len() == 0 {
        Seq::empty()
    } else {
        graph_results(entities.drop_last()).push(
            graph_result(entities.last(), (entities.len() - 1) as nat),
        )
    }
}

/// The answer of a traversal that found the given entities along the given relations.
pub open spec fn is_graph_answer(
    answer: QueryResult,
    found: Seq<EntityView>,
    relation_types: Seq<Seq<char>>,
) -> bool {
    &&& result_views(answer.results@) == graph_results(unique_entities(found))
    &&& answer.total_count == unique_entities(found).len()
    &&& answer.metadata.execution_time_ms == 0
    &&& answer.metadata.vector_count is None
    &&& answer.metadata.graph_count == Some(answer.total_count)
    &&& answer.metadata.searched_types is None
    &&& answer.metadata.traversed_relations matches Some(traversed) && views(traversed@)
        == relation_types
    &&& answer.metadata.extra@.len() == 0
}

/// The relations that a traversal follows when it asks for expansion: each of the
/// given relations once, in the order they first come. Of what the ontology infers for
/// a named relation only the edges of that same relation are followed, so expansion
/// adds no relation to those named: the reversed edges of a symmetric relation bear
/// its own name, and an inverse relation is followed only where it is named itself.
/// Without an ontology the relations are followed as given, repeats and all.
pub fn expand_relation_types(reasoner: Option<&OntologyReasoner>, relation_types: &Vec<String>) -> (expanded:
    Vec<String>)
    ensures
        views(expanded@) == if reasoner is Some {
            distinct(views(relation_types@))
        } else {
            views(relation_types@)
        },
{
    if reasoner.is_none() {
        return clone_list(relation_types);
    }
    let ghost all = views(relation_types@);
    let mut expanded: Vec<String> = Vec::new();
    assert(views(expanded@) =~= Seq::<Seq<char>>::empty());
    let mut i: usize = 0;
    while i < relation_types.len()
        invariant
            i <= relation_types.len(),
            all == views(relation_types@),
            views(expanded@) == distinct(all.take(i as int)),
        decreases relation_types.len() - i,
    {
        assert(all.take(i + 1).drop_last() == all.take(i as int));
        assert(all.take(i + 1).last() == relation_types@[i as int]@);
        push_unique(&mut expanded, relation_types[i].as_str());
        i += 1;
    }
    assert(all.take(relation_types.len() as int) == all);
    expanded
}

/// Whether a list of entities holds one of the given identifier.
pub fn holds_id(entities: &Vec<Entity>, id: &str) -> (found: bool)
    ensures
        found == entity_ids(entity_views(entities@)).contains(id@),
{
    let ghost ids = entity_ids(entity_views(entities@));
    let mut i: usize = 0;
    while i < entities.len()
        invariant
            i <= entities.len(),
            ids == entity_ids(entity_views(entities@)),
            forall|j: int| 0 <= j < i ==> ids[j] != id@,
        decreases entities.len() - i,
    {
        if str_eq(entities[i].id.as_str(), id) {
            assert(ids[i as int] == id@);
            return true;
        }
        i += 1;
    }
    false
}

/// The entities of a list, each once, in the order they first come.
pub fn dedupe_entities(entities: &Vec<Entity>) -> (unique: Vec<Entity>)
    ensures
        entity_views(unique@) == unique_entities(entity_views(entities@)),
{
    let ghost all = entity_views(entities@);
    let mut unique: Vec<Entity> = Vec::new();
    assert(entity_views(unique@) =~= Seq::<EntityView>::empty());
    let mut i: usize = 0;
    while i < entities.len()
        invariant
            i <= entities.len(),
            all == entity_views(entities@),
            entity_views(unique@) == unique_entities(all.take(i as int)),
        decreases entities.len() - i,
    {
        assert(all.take(i + 1).drop_last() == all.take(i as int));
        assert(all.take(i + 1).last() == entities@[i as int]@);
        if !holds_id(&unique, entities[i].id.as_str()) {
            let ghost before = entity_views(unique@);
            unique.push(entities[i].clone());
            assert(entity_views(unique@) =~= before.push(entities@[i as int]@));
        }
        i += 1;
    }
    assert(all.take(entities.len() as int) == all);
    unique
}

/// The score of the entity that a traversal found at the given place.
pub fn score_at(place: usize) -> (score: i64)
    ensures
        score == place_score(place as nat),
        0 <= score <= SCORE_UNIT,
{
    let below: u128 = place as u128 + 1;
    let score = (SCORE_UNIT as u128) / below;
    assert(score <= SCORE_UNIT as u128) by (nonlinear_arith)
        requires
            score == (SCORE_UNIT as u128) / below,
            below >= 1,
    ;
    score as i64
}

/// The answer of a traversal: the entities it found, each once, scored by the place
/// they were found at, with the relations that were followed.
pub fn graph_answer(found: &Vec<Entity>, relation_types: &Vec<String>) -> (answer: QueryResult)
    ensures
        is_graph_answer(answer, entity_views(found@), views(relation_types@)),
{
    let unique = dedupe_entities(found);
    let ghost all = entity_views(unique@);
    let mut results: Vec<ScoredResult> = Vec::new();
    assert(result_views(results@) =~= Seq::<ScoredResultView>::empty());
    let mut i: usize = 0;
    while i < unique.len()
        invariant
            i <= unique.len(),
            all == entity_views(unique@),
            result_views(results@) == graph_results(all.take(i as int)),
            results.len() == i,
        decreases unique.len() - i,
    {
        assert(all.take(i + 1).drop_last() == all.take(i as int));
        assert(all.take(i + 1).last() == unique@[i as int]@);
        let mut note = owned("Graph distance: ");
        let place = decimal_text(i as u64 + 1);
        note.append(place.as_str());
        push_result(
            &mut results,
            ScoredResult {
                entity: unique[i].clone(),
                score: score_at(i),
                source: ResultSource::Graph,
                explanation: Some(note),
            },
        );
        i += 1;
    }
    assert(all.take(unique.len() as int) == all);
    let total_count = results.len();
    QueryResult {
        results,
        total_count,
        metadata: QueryMetadata {
            execution_time_ms: 0,
            vector_count: None,
            graph_count: Some(total_count),
            searched_types: None,
            traversed_relations: Some(clone_list(relation_types)),
            extra: Vec::new(),
        },
    }
}

/// What a traversal answers with holds an entity if and only if the entity was found.
pub proof fn lemma_unique_entities_hold(entities: Seq<EntityView>, id: Seq<char>)
    ensures
        entity_ids(unique_entities(entities)).contains(id) <==> entity_ids(entities).contains(id),
    decreases entities.len(),
{
    let all = entity_ids(entities);
    let kept = entity_ids(unique_entities(entities));
    if entities.len() > 0 {
        let rest = entities.drop_last();
        let last = entities.last();
        let before = entity_ids(unique_entities(rest));
        lemma_unique_entities_hold(rest, id);
        assert(all =~= entity_ids(rest).push(last.id));
        if !before.contains(last.id) {
            assert(kept =~= before.push(last.id));
        }
        if kept.contains(id) {
            let at = choose|at: int| 0 <= at < kept.len() && kept[at] == id;
            if at < before.len() {
                assert(before[at] == id);
                let w = choose|w: int|
                    0 <= w < entity_ids(rest).len() && entity_ids(rest)[w] == id;
                assert(all[w] == id);
            } else {
                assert(all[all.len() - 1] == id);
            }
        }
        if all.contains(id) {
            let at = choose|at: int| 0 <= at < all.len() && all[at] == id;
            if at < rest.len() {
                assert(entity_ids(rest)[at] == id);
                let w = choose|w: int| 0 <= w < before.len() && before[w] == id;
                assert(kept[w] == id);
            } else if !before.contains(last.id) {
                assert(kept[before.len() as int] == id);
            } else {
                assert(kept == before);
            }
        }
    } else {
        assert(kept =~= Seq::<Seq<char>>::empty());
        assert(all =~= Seq::<Seq<char>>::empty());
    }
}

/// What a traversal answers with holds no entity twice.
pub proof fn unique_entities_hold_none_twice(entities: Seq<EntityView>)
    ensures
        entity_ids(unique_entities(entities)).no_duplicates(),
    decreases entities.len(),
{
    let kept = entity_ids(unique_entities(entities));
    if entities.len() > 0 {
        let rest = entities.drop_last();
        let last = entities.last();
        let before = entity_ids(unique_entities(rest));
        unique_entities_hold_none_twice(rest);
        if !before.contains(last.id) {
            assert(kept =~= before.push(last.id));
            assert forall|a: int, b: int|
                0 <= a < kept.len() && 0 <= b < kept.len() && a != b implies kept[a]
                != kept[b] by {
                if a < before.len() && b < before.len() {
                    assert(before[a] != before[b]);
                } else if a < before.len() {
                    assert(before.contains(before[a]));
                } else {
                    assert(before.contains(before[b]));
                }
            }
        }
    } else {
        assert(kept =~= Seq::<Seq<char>>::empty());
    }
}

} // verus!

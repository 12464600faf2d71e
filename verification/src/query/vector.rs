use crate::db::types::Entity;
use crate::intelligence::ontology_reasoner::OntologyReasoner;
use crate::ontology::schema::{has_type, subtypes};
use crate::query::ranking::{cut, rank, ranked, truncate_results};
use crate::query::types::{result_views, QueryMetadata, QueryResult, ResultSource, ScoredResult, ScoredResultView, VectorQuery};
use crate::text::{clone_list, decimal, decimal_text, first_position, key_position, owned, str_eq, views};
use vstd::prelude::*;

verus! {

/// What a vector search finds: an entity by its identifier, and its score in
/// billionths.
#[derive(Debug)]
pub struct VectorHit {
    pub entity_id: String,
    pub score: i64,
}

impl Clone for VectorHit {
    fn clone(&self) -> (copy: Self)
        ensures
            copy == *self,
    {
        VectorHit { entity_id: self.entity_id.clone(), score: self.score }
    }
}

/// The identifiers of a list of hits.
pub open spec fn hit_ids(hits: Seq<VectorHit>) -> Seq<Seq<char>> {
    hits.map_values(|h: VectorHit| h.entity_id@)
}

/// The identifier and the score of each hit of a list.
pub open spec fn hit_views(hits: Seq<VectorHit>) -> Seq<(Seq<char>, i64)> {
    hits.map_values(|h: VectorHit| (h.entity_id@, h.score))
}

/// Whether a score passes a threshold: there is none, or the score is not below it.
pub open spec fn passes(score: i64, min_score: Option<i64>) -> bool {
    match min_score {
        Some(least) => score >= least,
        None => true,
    }
}

/// Hits that have taken in one more: an entity has the greater of its scores, and
/// stands where it first came.
pub open spec fn kept(list: Seq<(Seq<char>, i64)>, hit: (Seq<char>, i64)) -> Seq<
    (Seq<char>, i64),
> {
    match first_position(list.map_values(|h: (Seq<char>, i64)| h.0), hit.0) {
        Some(i) => if hit.1 > list[i].1 {
            list.update(i, hit)
        } else {
            list
        },
        None => list.push(hit),
    }
}

/// Hits that have taken in those of one more search, as far as they pass the
/// threshold.
pub open spec fn absorbed(
    list: Seq<(Seq<char>, i64)>,
    found: Seq<(Seq<char>, i64)>,
    min_score: Option<i64>,
) -> Seq<(Seq<char>, i64)>
    decreases found.len(),
{
    if found.len() == 0 {
        list
    } else if passes(found.last().1, min_score) {
        kept(absorbed(list, found.drop_last(), min_score), found.last())
    } else {
        absorbed(list, found.drop_last(), min_score)
    }
}

/// The thousandths that a score in billionths rounds to, halves away from zero.
pub open spec fn thousandths(score: i64) -> nat {
    let size: int = if score < 0 {
        -score
    } else {
        score as int
    };
    ((size + 500_000) / 1_000_000) as nat
}

/// A score written with three decimal places.
pub open spec fn score_written(score: i64) -> Seq<char> {
    let t = thousandths(score);
    (if score < 0 {
        "-"@
    } else {
        Seq::empty()
    }) + decimal(t / 1000) + "."@ + decimal((t / 100) % 10) + decimal((t / 10) % 10) + decimal(
        t % 10,
    )
}

/// What is said of a result of a vector search.
pub open spec fn vector_note(score: i64) -> Seq<char> {
    "Vector similarity: "@ + score_written(score)
}

/// The answer of a vector search that found the given results in the given types.
pub open spec fn is_vector_answer(
    answer: QueryResult,
    found: Seq<ScoredResultView>,
    types: Seq<Seq<char>>,
    limit: nat,
) -> bool {
    &&& result_views(answer.results@) == cut(ranked(found), limit)
    &&& answer.total_count == found.len()
    &&& answer.metadata.execution_time_ms == 0
    &&& answer.metadata.vector_count == Some(answer.total_count)
    &&& answer.metadata.graph_count is None
    &&& answer.metadata.searched_types matches Some(searched) && views(searched@) == types
    &&& answer.metadata.traversed_relations is None
    &&& answer.metadata.extra@.len() == 0
}

/// The types that a vector query searches: the type with its subtypes where the query
/// asks for expansion and the ontology has the type, the type alone otherwise.
pub open spec fn searched_types(
    query: VectorQuery,
    reasoner: Option<OntologyReasoner>,
) -> Seq<Seq<char>> {
    if query.expand_types && reasoner is Some && has_type(
        reasoner->0@.entity_types@,
        query.entity_type@,
    ) {
        subtypes(reasoner->0@.entity_types@, query.entity_type@)
    } else {
        seq![query.entity_type@]
    }
}

/// The types that a query for `entity_type` searches when it asks for expansion.
pub fn expand_entity_types(reasoner: Option<&OntologyReasoner>, entity_type: &str) -> (types:
    Vec<String>)
    ensures
        views(types@) == if reasoner is Some && has_type(
            reasoner->0@.entity_types@,
            entity_type@,
        ) {
            subtypes(reasoner->0@.entity_types@, entity_type@)
        } else {
            seq![entity_type@]
        },
{
    if let Some(r) = reasoner {
        if let Ok(expanded) = r.expand_query(entity_type) {
            return expanded.expanded_types;
        }
    }
    let mut types: Vec<String> = Vec::new();
    types.push(owned(entity_type));
    assert(views(types@) =~= seq![entity_type@]);
    types
}

/// The types that a vector query searches.
pub fn plan_vector_search(query: &VectorQuery, reasoner: Option<&OntologyReasoner>) -> (types:
    Vec<String>)
    ensures
        views(types@) == searched_types(
            *query,
            match reasoner {
                Some(r) => Some(*r),
                None => None,
            },
        ),
{
    if query.expand_types {
        expand_entity_types(reasoner, query.entity_type.as_str())
    } else {
        let mut types: Vec<String> = Vec::new();
        types.push(query.entity_type.clone());
        assert(views(types@) =~= seq![query.entity_type@]);
        types
    }
}

/// Where the hit for an entity stands in a list.
pub fn hit_position(hits: &Vec<VectorHit>, id: &str) -> (pos: Option<usize>)
    ensures
        match pos {
            Some(i) => first_position(hit_ids(hits@), id@) == Some(i as int) && i < hits.len(),
            None => first_position(hit_ids(hits@), id@) is None,
        },
{
    let mut i: usize = 0;
    while i < hits.len()
        invariant
            i <= hits.len(),
            first_position(hit_ids(hits@), id@) == key_position(hit_ids(hits@), id@, i as int),
        decreases hits.len() - i,
    {
        if str_eq(hits[i].entity_id.as_str(), id) {
            return Some(i);
        }
        i += 1;
    }
    None
}

/// Takes in one hit: an entity keeps the greater of its scores.
pub fn keep_highest(hits: &mut Vec<VectorHit>, hit: VectorHit)
    ensures
        hit_views(final(hits)@) == kept(hit_views(old(hits)@), (hit.entity_id@, hit.score)),
{
    let ghost before = hit_views(hits@);
    assert(before.map_values(|h: (Seq<char>, i64)| h.0) =~= hit_ids(hits@));
    match hit_position(hits, hit.entity_id.as_str()) {
        Some(i) => {
            if hit.score > hits[i].score {
                hits.set(i, hit);
                assert(hit_views(hits@) =~= before.update(i as int, (hit.entity_id@, hit.score)));
            }
        },
        None => {
            hits.push(hit);
            assert(hit_views(hits@) =~= before.push((hit.entity_id@, hit.score)));
        },
    }
}

/// Takes in the hits of one more search: those below the threshold are dropped, and
/// of two hits for one entity the one with the greater score stays.
pub fn absorb_hits(hits: &mut Vec<VectorHit>, found: &Vec<VectorHit>, min_score: Option<i64>)
    ensures
        hit_views(final(hits)@) == absorbed(hit_views(old(hits)@), hit_views(found@), min_score),
{
    let ghost start = hit_views(hits@);
    let ghost all = hit_views(found@);
    let mut i: usize = 0;
    assert(all.take(0) =~= Seq::<(Seq<char>, i64)>::empty());
    while i < found.len()
        invariant
            i <= found.len(),
            all == hit_views(found@),
            hit_views(hits@) == absorbed(start, all.take(i as int), min_score),
        decreases found.len() - i,
    {
        assert(all.take(i + 1).drop_last() == all.take(i as int));
        assert(all.take(i + 1).last() == (found@[i as int].entity_id@, found@[i as int].score));
        let keep = match min_score {
            Some(least) => found[i].score >= least,
            None => true,
        };
        if keep {
            keep_highest(hits, found[i].clone());
        }
        i += 1;
    }
    assert(all.take(found.len() as int) == all);
}

/// A score written with three decimal places.
pub fn score_text(score: i64) -> (text: String)
    ensures
        text@ == score_written(score),
{
    let size: u64 = if score < 0 {
        (-(score as i128)) as u64
    } else {
        score as u64
    };
    let t: u64 = (size + 500_000) / 1_000_000;
    proof {
        reveal_strlit("");
    }
    let mut text = owned(if score < 0 {
        "-"
    } else {
        ""
    });
    assert(""@ =~= Seq::<char>::empty());
    let whole = decimal_text(t / 1000);
    let d1 = decimal_text((t / 100) % 10);
    let d2 = decimal_text((t / 10) % 10);
    let d3 = decimal_text(t % 10);
    text.append(whole.as_str());
    text.append(".");
    text.append(d1.as_str());
    text.append(d2.as_str());
    text.append(d3.as_str());
    text
}

/// The result that a hit becomes once its entity is fetched.
pub fn vector_result(entity: Entity, score: i64) -> (result: ScoredResult)
    ensures
        result.entity == entity,
        result.score == score,
        result.source == ResultSource::Vector,
        result.explanation matches Some(note) && note@ == vector_note(score),
{
    let mut note = owned("Vector similarity: ");
    let written = score_text(score);
    note.append(written.as_str());
    ScoredResult { entity, score, source: ResultSource::Vector, explanation: Some(note) }
}

/// The answer of a vector search: the results ordered by falling score and cut to the
/// limit, with their number before the cut and the types that were searched.
pub fn vector_answer(found: &Vec<ScoredResult>, search_types: &Vec<String>, limit: usize) -> (answer:
    QueryResult)
    ensures
        is_vector_answer(answer, result_views(found@), views(search_types@), limit as nat),
{
    let mut results = rank(found);
    let total_count = results.len();
    truncate_results(&mut results, limit);
    QueryResult {
        results,
        total_count,
        metadata: QueryMetadata {
            execution_time_ms: 0,
            vector_count: Some(total_count),
            graph_count: None,
            searched_types: Some(clone_list(search_types)),
            traversed_relations: None,
            extra: Vec::new(),
        },
    }
}

/// The entities of a list of hits.
pub open spec fn hit_keys(list: Seq<(Seq<char>, i64)>) -> Seq<Seq<char>> {
    list.map_values(|h: (Seq<char>, i64)| h.0)
}

/// Hits that held one hit for each entity hold one for each after they have taken in
/// one more, and no entity has lost by it.
pub proof fn lemma_kept(list: Seq<(Seq<char>, i64)>, hit: (Seq<char>, i64))
    requires
        hit_keys(list).no_duplicates(),
    ensures
        hit_keys(kept(list, hit)).no_duplicates(),
        hit_keys(kept(list, hit)).contains(hit.0),
        forall|i: int| 0 <= i < list.len() ==> kept(list, hit)[i].0 == list[i].0 && kept(
            list,
            hit,
        )[i].1 >= list[i].1,
{
    let keys = hit_keys(list);
    let after = hit_keys(kept(list, hit));
    crate::text::lemma_key_position(keys, hit.0, 0);
    match first_position(keys, hit.0) {
        Some(i) => {
            assert(keys[i] == list[i].0);
            assert(after =~= keys);
            assert(after[i] == hit.0);
        },
        None => {
            assert(after =~= keys.push(hit.0));
            assert(after[keys.len() as int] == hit.0);
            assert forall|a: int, b: int|
                0 <= a < after.len() && 0 <= b < after.len() && a != b implies after[a]
                != after[b] by {
                if a < keys.len() && b < keys.len() {
                    assert(keys[a] != keys[b]);
                }
            }
        },
    }
}

/// The hits of the searches hold one hit for each entity, whatever the searches found:
/// hits are taken in without an entity coming to stand twice.
pub proof fn hits_hold_each_entity_once(
    list: Seq<(Seq<char>, i64)>,
    found: Seq<(Seq<char>, i64)>,
    min_score: Option<i64>,
)
    requires
        hit_keys(list).no_duplicates(),
    ensures
        hit_keys(absorbed(list, found, min_score)).no_duplicates(),
    decreases found.len(),
{
    if found.len() > 0 {
        hits_hold_each_entity_once(list, found.drop_last(), min_score);
        if passes(found.last().1, min_score) {
            lemma_kept(absorbed(list, found.drop_last(), min_score), found.last());
        }
    }
}

} // verus!

use crate::db::types::Entity;
use crate::error::VectaDBError;
use crate::intelligence::ontology_reasoner::OntologyReasoner;
use crate::query::types::{push_result, result_views, QueryResult, ScoredResult, VectorQuery};
use crate::query::vector::{
    absorb_hits, absorbed, hit_views, is_vector_answer, plan_vector_search, searched_types,
    vector_answer, vector_note, vector_result, VectorHit,
};
use crate::text::{owned, views};
use vstd::prelude::*;

verus! {

/// Where a vector search stands.
#[derive(Debug, Clone, Copy, PartialEq, Eq, Structural)]
pub enum VectorPhase {
    /// The query text is being embedded.
    Embedding,
    /// The type at the given place is being searched.
    Searching(usize),
    /// The entity of the hit at the given place is being fetched.
    Fetching(usize),
    Finished,
    Failed,
}

/// What came back from the work that a vector search asked for.
#[derive(Debug)]
pub enum VectorEvent {
    /// The query text was embedded; the caller holds the vector.
    Embedded,
    EmbeddingFailed(String),
    /// The search of one type gave these hits, best first.
    Hits(Vec<VectorHit>),
    SearchFailed(String),
    /// The graph store holds this entity, or none, under the identifier asked for.
    Fetched(Option<Entity>),
    StoreFailed(String),
}

/// What a vector search asks for next.
#[derive(Debug)]
pub enum VectorAction {
    /// Embed this text.
    Embed(String),
    /// Search the collection of this type with the embedded text.
    Search { entity_type: String, limit: usize },
    /// Fetch the entity of this identifier from the graph store.
    FetchEntity(String),
    /// The search is over; this is its answer.
    Finish(QueryResult),
    /// The search is over; it failed.
    Fail(VectaDBError),
}

/// A vector search under way: what it looks for, what it has found, and where it
/// stands.
#[derive(Debug)]
pub struct VectorExecution {
    pub query_text: String,
    pub limit: usize,
    pub min_score: Option<i64>,
    /// The types to search, in the order they are searched.
    pub search_types: Vec<String>,
    /// The hits of the searches so far, one for each entity.
    pub hits: Vec<VectorHit>,
    /// The results for the hits whose entities were fetched so far.
    pub found: Vec<ScoredResult>,
    pub phase: VectorPhase,
}

impl VectorExecution {
    /// Whether the search stands where its lists allow: the place it searches or
    /// fetches at is within the list.
    pub open spec fn well_formed(&self) -> bool {
        match self.phase {
            VectorPhase::Searching(i) => i < self.search_types@.len(),
            VectorPhase::Fetching(k) => k < self.hits@.len(),
            _ => true,
        }
    }

    /// Whether `next` and `action` are what follows the search of the type at `i - 1`:
    /// the search of the type at `i`, or, after the last type, the fetches from the
    /// hit at 0 on.
    pub open spec fn goes_to_search(&self, i: nat, next: Self, action: VectorAction) -> bool {
        if i < self.search_types@.len() {
            &&& next.phase == VectorPhase::Searching(i as usize)
            &&& result_views(next.found@) == result_views(self.found@)
            &&& action matches VectorAction::Search { entity_type, limit }
            &&& entity_type@ == self.search_types@[i as int]@
            &&& limit == self.limit
        } else {
            next.goes_to_fetch(0, result_views(self.found@), next, action)
        }
    }

    /// Whether `next` and `action` are what follows the fetch of the hit at `k - 1`,
    /// `found` being the results after it: the fetch of the hit at `k`, or, after the
    /// last hit, the answer.
    pub open spec fn goes_to_fetch(
        &self,
        k: nat,
        found: Seq<crate::query::types::ScoredResultView>,
        next: Self,
        action: VectorAction,
    ) -> bool {
        &&& result_views(next.found@) == found
        &&& if k < self.hits@.len() {
            &&& next.phase == VectorPhase::Fetching(k as usize)
            &&& action matches VectorAction::FetchEntity(id)
            &&& id@ == self.hits@[k as int].entity_id@
        } else {
            &&& next.phase == VectorPhase::Finished
            &&& action matches VectorAction::Finish(answer)
            &&& is_vector_answer(answer, found, views(self.search_types@), self.limit as nat)
        }
    }

    /// Whether `next` and `action` are what the search comes to on `event`.
    ///
    /// A failed embedding and a failed fetch end the search with an error; a failed
    /// search of one type is passed over; an entity that the graph store does not hold
    /// is left out. An event that the search is not waiting for ends it with an error,
    /// and so does a search that stands outside its lists.
    pub open spec fn leads_to(&self, event: VectorEvent, next: Self, action: VectorAction) -> bool {
        &&& next.query_text@ == self.query_text@
        &&& next.limit == self.limit
        &&& next.min_score == self.min_score
        &&& views(next.search_types@) == views(self.search_types@)
        &&& if self.well_formed() {
            self.steps_to(event, next, action)
        } else {
            &&& next.phase == VectorPhase::Failed
            &&& hit_views(next.hits@) == hit_views(self.hits@)
            &&& result_views(next.found@) == result_views(self.found@)
            &&& action matches VectorAction::Fail(VectaDBError::Internal(text))
            &&& text@ == "inconsistent state"@
        }
    }

    /// Whether `next` and `action` are what a search that stands within its lists comes
    /// to on `event`.
    pub open spec fn steps_to(&self, event: VectorEvent, next: Self, action: VectorAction) -> bool {
        match (self.phase, event) {
            (VectorPhase::Embedding, VectorEvent::Embedded) => {
                &&& hit_views(next.hits@) == hit_views(self.hits@)
                &&& self.goes_to_search(0, next, action)
            },
            (VectorPhase::Embedding, VectorEvent::EmbeddingFailed(why)) => {
                &&& next.phase == VectorPhase::Failed
                &&& action matches VectorAction::Fail(VectaDBError::Embedding(text))
                &&& text@ == why@
            },
            (VectorPhase::Searching(i), VectorEvent::Hits(hits)) => {
                &&& hit_views(next.hits@) == absorbed(
                    hit_views(self.hits@),
                    hit_views(hits@),
                    self.min_score,
                )
                &&& self.goes_to_search((i + 1) as nat, next, action)
            },
            (VectorPhase::Searching(i), VectorEvent::SearchFailed(_)) => {
                &&& hit_views(next.hits@) == hit_views(self.hits@)
                &&& self.goes_to_search((i + 1) as nat, next, action)
            },
            (VectorPhase::Fetching(k), VectorEvent::Fetched(Some(entity))) => {
                &&& hit_views(next.hits@) == hit_views(self.hits@)
                &&& next.goes_to_fetch(
                    (k + 1) as nat,
                    result_views(self.found@).push(
                        crate::query::types::ScoredResultView {
                            entity: entity@,
                            score: self.hits@[k as int].score,
                            source: crate::query::types::ResultSource::Vector,
                            explanation: Some(vector_note(self.hits@[k as int].score)),
                        },
                    ),
                    next,
                    action,
                )
            },
            (VectorPhase::Fetching(k), VectorEvent::Fetched(None)) => {
                &&& hit_views(next.hits@) == hit_views(self.hits@)
                &&& next.goes_to_fetch((k + 1) as nat, result_views(self.found@), next, action)
            },
            (VectorPhase::Fetching(_), VectorEvent::StoreFailed(why)) => {
                &&& next.phase == VectorPhase::Failed
                &&& action matches VectorAction::Fail(VectaDBError::SurrealDB(text))
                &&& text@ == why@
            },
            _ => {
                &&& next.phase == VectorPhase::Failed
                &&& action matches VectorAction::Fail(VectaDBError::Internal(text))
                &&& text@ == "unexpected event"@
            },
        }
    }

    /// The start of a vector search: the types to search are settled, and the query
    /// text is to be embedded.
    pub fn begin(query: &VectorQuery, reasoner: Option<&OntologyReasoner>) -> (started: (
        Self,
        VectorAction,
    ))
        ensures
            started.0.phase == VectorPhase::Embedding,
            started.0.well_formed(),
            started.0.query_text@ == query.query_text@,
            started.0.limit == query.limit,
            started.0.min_score == query.min_score,
            views(started.0.search_types@) == searched_types(
                *query,
                match reasoner {
                    Some(r) => Some(*r),
                    None => None,
                },
            ),
            started.0.hits@.len() == 0,
            started.0.found@.len() == 0,
            started.1 matches VectorAction::Embed(text) && text@ == query.query_text@,
    {
        let execution = VectorExecution {
            query_text: query.query_text.clone(),
            limit: query.limit,
            min_score: query.min_score,
            search_types: plan_vector_search(query, reasoner),
            hits: Vec::new(),
            found: Vec::new(),
            phase: VectorPhase::Embedding,
        };
        (execution, VectorAction::Embed(query.query_text.clone()))
    }

    fn to_search(self, i: usize) -> (next: (Self, VectorAction))
        requires
            i <= self.search_types@.len(),
        ensures
            self.goes_to_search(i as nat, next.0, next.1),
            next.0.well_formed(),
            next.0.query_text == self.query_text,
            next.0.limit == self.limit,
            next.0.min_score == self.min_score,
            next.0.search_types == self.search_types,
            next.0.hits == self.hits,
    {
        if i < self.search_types.len() {
            let action = VectorAction::Search {
                entity_type: self.search_types[i].clone(),
                limit: self.limit,
            };
            (VectorExecution { phase: VectorPhase::Searching(i), ..self }, action)
        } else {
            self.to_fetch(0)
        }
    }

    fn to_fetch(self, k: usize) -> (next: (Self, VectorAction))
        requires
            k <= self.hits@.len(),
        ensures
            next.0.goes_to_fetch(k as nat, result_views(self.found@), next.0, next.1),
            next.0.well_formed(),
            next.0.query_text == self.query_text,
            next.0.limit == self.limit,
            next.0.min_score == self.min_score,
            next.0.search_types == self.search_types,
            next.0.hits == self.hits,
    {
        if k < self.hits.len() {
            let action = VectorAction::FetchEntity(self.hits[k].entity_id.clone());
            (VectorExecution { phase: VectorPhase::Fetching(k), ..self }, action)
        } else {
            let answer = vector_answer(&self.found, &self.search_types, self.limit);
            (VectorExecution { phase: VectorPhase::Finished, ..self }, VectorAction::Finish(answer))
        }
    }

    fn failed(self, error: VectaDBError) -> (next: (Self, VectorAction))
        ensures
            next.0 == (VectorExecution { phase: VectorPhase::Failed, ..self }),
            next.1 == VectorAction::Fail(error),
    {
        (VectorExecution { phase: VectorPhase::Failed, ..self }, VectorAction::Fail(error))
    }

    /// Whether the place that the search searches or fetches at is within its list.
    pub fn consistent(&self) -> (ok: bool)
        ensures
            ok == self.well_formed(),
    {
        match self.phase {
            VectorPhase::Searching(i) => i < self.search_types.len(),
            VectorPhase::Fetching(k) => k < self.hits.len(),
            _ => true,
        }
    }

    /// Takes what came back from the work last asked for, and says what to do next.
    pub fn advance(self, event: VectorEvent) -> (next: (Self, VectorAction))
        ensures
            self.leads_to(event, next.0, next.1),
            next.0.well_formed(),
    {
        if !self.consistent() {
            return self.failed(VectaDBError::Internal(owned("inconsistent state")));
        }
        assert(self.search_types.len() <= usize::MAX && self.hits.len() <= usize::MAX);
        match self.phase {
            VectorPhase::Embedding => match event {
                VectorEvent::Embedded => self.to_search(0),
                VectorEvent::EmbeddingFailed(why) => self.failed(VectaDBError::Embedding(why)),
                _ => self.failed(VectaDBError::Internal(owned("unexpected event"))),
            },
            VectorPhase::Searching(i) => match event {
                VectorEvent::Hits(hits) => {
                    let mut execution = self;
                    absorb_hits(&mut execution.hits, &hits, execution.min_score);
                    execution.to_search(i + 1)
                },
                VectorEvent::SearchFailed(_) => self.to_search(i + 1),
                _ => self.failed(VectaDBError::Internal(owned("unexpected event"))),
            },
            VectorPhase::Fetching(k) => match event {
                VectorEvent::Fetched(Some(entity)) => {
                    let mut execution = self;
                    let score = execution.hits[k].score;
                    push_result(&mut execution.found, vector_result(entity, score));
                    execution.to_fetch(k + 1)
                },
                VectorEvent::Fetched(None) => self.to_fetch(k + 1),
                VectorEvent::StoreFailed(why) => self.failed(VectaDBError::SurrealDB(why)),
                _ => self.failed(VectaDBError::Internal(owned("unexpected event"))),
            },
            _ => self.failed(VectaDBError::Internal(owned("unexpected event"))),
        }
    }
}

} // verus!

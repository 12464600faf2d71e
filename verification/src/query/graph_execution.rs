use crate::db::types::{Entity, EntityView};
use crate::error::VectaDBError;
use crate::intelligence::ontology_reasoner::OntologyReasoner;
use crate::query::graph::{distinct, expand_relation_types, graph_answer, is_graph_answer};
use crate::query::traversal::{
    entity_views, fresh_traversal, traversal_step, Traversal, TraversalAction,
    TraversalActionView, TraversalEvent, TraversalView,
};
use crate::query::types::{GraphQuery, QueryResult, TraversalDirection};
use crate::text::{clone_list, owned, views};
use vstd::prelude::*;

verus! {

/// Where a graph query stands.
#[derive(Debug, Clone, Copy, PartialEq, Eq, Structural)]
pub enum GraphStage {
    /// The first traversal is under way: the only one, or of two the outgoing one.
    First,
    /// The incoming traversal of a query in both directions is under way.
    Second,
    Finished,
    Failed,
}

/// What a graph query asks for next.
#[derive(Debug)]
pub enum GraphAction {
    /// Ask this of the graph store.
    Ask(TraversalAction),
    /// The query is over; this is its answer.
    Finish(QueryResult),
    /// The query is over; it failed.
    Fail(VectaDBError),
}

/// A graph query under way.
#[derive(Debug)]
pub struct GraphExecution {
    pub start_entity_id: String,
    /// The relations that are followed, after expansion.
    pub relation_types: Vec<String>,
    pub depth: usize,
    pub direction: TraversalDirection,
    /// What the first of two traversals found.
    pub earlier: Vec<Entity>,
    pub traversal: Traversal,
    pub stage: GraphStage,
}

/// The relations that a graph query follows: those it names, each once where it asks
/// for expansion, names some, and there is an ontology. Expansion adds no relation to
/// those named; it only drops the repeats.
pub open spec fn followed_relations(query: GraphQuery, with_ontology: bool) -> Seq<Seq<char>> {
    if query.expand_relations && query.relation_types@.len() > 0 && with_ontology {
        distinct(views(query.relation_types@))
    } else {
        views(query.relation_types@)
    }
}

/// Appends copies of the entities of `from` to `to`.
pub fn append_entities(to: &mut Vec<Entity>, from: &Vec<Entity>)
    ensures
        entity_views(final(to)@) == entity_views(old(to)@) + entity_views(from@),
{
    let ghost start = entity_views(to@);
    let ghost all = entity_views(from@);
    let mut i: usize = 0;
    assert(entity_views(to@) =~= start + all.take(0));
    while i < from.len()
        invariant
            i <= from.len(),
            all == entity_views(from@),
            entity_views(to@) == start + all.take(i as int),
        decreases from.len() - i,
    {
        let ghost before = entity_views(to@);
        to.push(from[i].clone());
        assert(entity_views(to@) =~= before.push(all[i as int]));
        assert(start + all.take(i + 1) =~= (start + all.take(i as int)).push(all[i as int]));
        i += 1;
    }
    assert(all.take(from.len() as int) == all);
}

/// Whether `next` and `action` are what a graph query comes to once a traversal, in
/// the state `through`, has finished: the traversal in the other direction where one is
/// due and has something to ask; else the answer made of what the traversals found, the
/// outgoing one first.
pub open spec fn concludes_to(
    start: Seq<char>,
    relation_types: Seq<Seq<char>>,
    depth: nat,
    second_due: bool,
    earlier: Seq<EntityView>,
    through: TraversalView,
    next: GraphExecution,
    action: GraphAction,
) -> bool {
    if second_due {
        let second = fresh_traversal(start, relation_types, true, depth).settled();
        &&& entity_views(next.earlier@) == through.found
        &&& next.traversal@ == second.0
        &&& if second.1 is Finish {
            &&& next.stage == GraphStage::Finished
            &&& action matches GraphAction::Finish(answer)
            &&& is_graph_answer(answer, through.found + second.0.found, relation_types)
        } else {
            &&& next.stage == GraphStage::Second
            &&& action matches GraphAction::Ask(ask)
            &&& ask@ == second.1
        }
    } else {
        &&& next.stage == GraphStage::Finished
        &&& next.traversal@ == through
        &&& entity_views(next.earlier@) == earlier
        &&& action matches GraphAction::Finish(answer)
        &&& is_graph_answer(answer, earlier + through.found, relation_types)
    }
}

/// Whether `next` and `action` are what a graph query at `stage` comes to when its
/// traversal has come to the state `step.0` and asks for `step.1`: what the traversal
/// asks is passed on; its failure is the query's; its end is the query's, or the start
/// of the traversal in the other direction.
pub open spec fn follows(
    start: Seq<char>,
    relation_types: Seq<Seq<char>>,
    depth: nat,
    direction: TraversalDirection,
    stage: GraphStage,
    earlier: Seq<EntityView>,
    step: (TraversalView, TraversalActionView),
    next: GraphExecution,
    action: GraphAction,
) -> bool {
    &&& next.start_entity_id@ == start
    &&& views(next.relation_types@) == relation_types
    &&& next.depth == depth
    &&& next.direction == direction
    &&& match step.1 {
        TraversalActionView::Finish => concludes_to(
            start,
            relation_types,
            depth,
            direction == TraversalDirection::Both && stage == GraphStage::First,
            earlier,
            step.0,
            next,
            action,
        ),
        TraversalActionView::Fail(why) => {
            &&& next.stage == GraphStage::Failed
            &&& action matches GraphAction::Fail(e)
            &&& e@ == why
        },
        _ => {
            &&& next.stage == stage
            &&& next.traversal@ == step.0
            &&& entity_views(next.earlier@) == earlier
            &&& action matches GraphAction::Ask(ask)
            &&& ask@ == step.1
        },
    }
}

fn conclude(
    start_entity_id: String,
    relation_types: Vec<String>,
    depth: usize,
    direction: TraversalDirection,
    earlier: Vec<Entity>,
    stage: GraphStage,
    traversal: Traversal,
) -> (next: (GraphExecution, GraphAction))
    requires
        stage == GraphStage::First || stage == GraphStage::Second,
        stage == GraphStage::First ==> earlier@.len() == 0,
        traversal@.well_formed(),
    ensures
        concludes_to(
            start_entity_id@,
            views(relation_types@),
            depth as nat,
            direction == TraversalDirection::Both && stage == GraphStage::First,
            entity_views(earlier@),
            traversal@,
            next.0,
            next.1,
        ),
        next.0.start_entity_id == start_entity_id,
        next.0.relation_types == relation_types,
        next.0.depth == depth,
        next.0.direction == direction,
        next.0.well_formed(),
{
    let second_due = match (direction, stage) {
        (TraversalDirection::Both, GraphStage::First) => true,
        _ => false,
    };
    if second_due {
        let (second, ask) = Traversal::begin(start_entity_id.as_str(), &relation_types, true, depth);
        let earlier = traversal.found;
        match ask {
            TraversalAction::Finish => {
                let mut all: Vec<Entity> = Vec::new();
                assert(entity_views(all@) =~= Seq::<EntityView>::empty());
                append_entities(&mut all, &earlier);
                append_entities(&mut all, &second.found);
                assert(entity_views(all@) =~= entity_views(earlier@) + second@.found);
                let answer = graph_answer(&all, &relation_types);
                (
                    GraphExecution {
                        start_entity_id,
                        relation_types,
                        depth,
                        direction,
                        earlier,
                        traversal: second,
                        stage: GraphStage::Finished,
                    },
                    GraphAction::Finish(answer),
                )
            },
            _ => (
                GraphExecution {
                    start_entity_id,
                    relation_types,
                    depth,
                    direction,
                    earlier,
                    traversal: second,
                    stage: GraphStage::Second,
                },
                GraphAction::Ask(ask),
            ),
        }
    } else {
        let mut all: Vec<Entity> = Vec::new();
        assert(entity_views(all@) =~= Seq::<EntityView>::empty());
        append_entities(&mut all, &earlier);
        append_entities(&mut all, &traversal.found);
        assert(entity_views(all@) =~= entity_views(earlier@) + traversal@.found);
        let answer = graph_answer(&all, &relation_types);
        (
            GraphExecution {
                start_entity_id,
                relation_types,
                depth,
                direction,
                earlier,
                traversal,
                stage: GraphStage::Finished,
            },
            GraphAction::Finish(answer),
        )
    }
}

fn carry_on(
    start_entity_id: String,
    relation_types: Vec<String>,
    depth: usize,
    direction: TraversalDirection,
    earlier: Vec<Entity>,
    stage: GraphStage,
    traversal: Traversal,
    ask: TraversalAction,
) -> (next: (GraphExecution, GraphAction))
    requires
        stage == GraphStage::First || stage == GraphStage::Second,
        stage == GraphStage::First ==> earlier@.len() == 0,
        traversal@.well_formed(),
    ensures
        follows(
            start_entity_id@,
            views(relation_types@),
            depth as nat,
            direction,
            stage,
            entity_views(earlier@),
            (traversal@, ask@),
            next.0,
            next.1,
        ),
        next.0.well_formed(),
{
    match ask {
        TraversalAction::Finish => conclude(
            start_entity_id,
            relation_types,
            depth,
            direction,
            earlier,
            stage,
            traversal,
        ),
        TraversalAction::Fail(error) => (
            GraphExecution {
                start_entity_id,
                relation_types,
                depth,
                direction,
                earlier,
                traversal,
                stage: GraphStage::Failed,
            },
            GraphAction::Fail(error),
        ),
        _ => (
            GraphExecution {
                start_entity_id,
                relation_types,
                depth,
                direction,
                earlier,
                traversal,
                stage,
            },
            GraphAction::Ask(ask),
        ),
    }
}

impl GraphExecution {
    /// Whether the query's traversal stands where its lists allow.
    pub open spec fn well_formed(&self) -> bool {
        &&& self.traversal@.well_formed()
        &&& self.stage == GraphStage::First ==> self.earlier@.len() == 0
    }

    /// The start of a graph query: the relations to follow are settled, and the first
    /// traversal begins, against the direction of the edges where the query asks for
    /// incoming edges only.
    pub fn begin(query: &GraphQuery, reasoner: Option<&OntologyReasoner>) -> (started: (
        Self,
        GraphAction,
    ))
        ensures
            follows(
                query.start_entity_id@,
                followed_relations(*query, reasoner is Some),
                query.depth as nat,
                query.direction,
                GraphStage::First,
                Seq::empty(),
                fresh_traversal(
                    query.start_entity_id@,
                    followed_relations(*query, reasoner is Some),
                    query.direction == TraversalDirection::Incoming,
                    query.depth as nat,
                ).settled(),
                started.0,
                started.1,
            ),
            started.0.well_formed(),
    {
        let relation_types = if query.expand_relations && query.relation_types.len() > 0 {
            expand_relation_types(reasoner, &query.relation_types)
        } else {
            clone_list(&query.relation_types)
        };
        let incoming = match query.direction {
            TraversalDirection::Incoming => true,
            _ => false,
        };
        let (traversal, ask) = Traversal::begin(
            query.start_entity_id.as_str(),
            &relation_types,
            incoming,
            query.depth,
        );
        let earlier: Vec<Entity> = Vec::new();
        assert(entity_views(earlier@) =~= Seq::<EntityView>::empty());
        carry_on(
            query.start_entity_id.clone(),
            relation_types,
            query.depth,
            query.direction,
            earlier,
            GraphStage::First,
            traversal,
            ask,
        )
    }

    /// Whether the query is under way and stands where its lists allow.
    pub open spec fn under_way(&self) -> bool {
        self.well_formed() && (self.stage == GraphStage::First || self.stage
            == GraphStage::Second)
    }

    /// Whether the query's traversal stands where its lists allow.
    pub fn is_sound(&self) -> (ok: bool)
        ensures
            ok == self.well_formed(),
    {
        let first = match self.stage {
            GraphStage::First => true,
            _ => false,
        };
        self.traversal.consistent() && (!first || self.earlier.len() == 0)
    }

    /// Whether the query is under way and stands where its lists allow.
    pub fn is_under_way(&self) -> (ok: bool)
        ensures
            ok == self.under_way(),
    {
        match self.stage {
            GraphStage::First => self.traversal.consistent() && self.earlier.len() == 0,
            GraphStage::Second => self.traversal.consistent(),
            _ => false,
        }
    }

    /// Takes what came back from the graph store, and says what to do next. A query
    /// that is over, or that stands outside its lists, answers every event with an
    /// error.
    pub fn advance(self, event: TraversalEvent) -> (next: (Self, GraphAction))
        ensures
            match self.under_way() {
                true => follows(
                    self.start_entity_id@,
                    views(self.relation_types@),
                    self.depth as nat,
                    self.direction,
                    self.stage,
                    entity_views(self.earlier@),
                    traversal_step(self.traversal@, event),
                    next.0,
                    next.1,
                ),
                false => {
                    &&& next.0.stage == GraphStage::Failed
                    &&& next.1 matches GraphAction::Fail(e)
                    &&& e@ == crate::error::ErrorView::Internal("unexpected event"@)
                    &&& next.0.start_entity_id == self.start_entity_id
                    &&& next.0.relation_types == self.relation_types
                    &&& next.0.depth == self.depth
                    &&& next.0.direction == self.direction
                    &&& next.0.earlier == self.earlier
                    &&& next.0.traversal@ == if self.traversal@.well_formed() {
                        self.traversal@
                    } else {
                        traversal_step(self.traversal@, event).0
                    }
                },
            },
            next.0.well_formed(),
    {
        match self.is_under_way() {
            true => {
                let GraphExecution {
                    start_entity_id,
                    relation_types,
                    depth,
                    direction,
                    earlier,
                    traversal,
                    stage,
                } = self;
                let (traversal, ask) = traversal.advance(event);
                carry_on(
                    start_entity_id,
                    relation_types,
                    depth,
                    direction,
                    earlier,
                    stage,
                    traversal,
                    ask,
                )
            },
            false => {
                let error = VectaDBError::Internal(owned("unexpected event"));
                if self.traversal.consistent() {
                    (GraphExecution { stage: GraphStage::Failed, ..self }, GraphAction::Fail(error))
                } else {
                    let (traversal, _) = self.traversal.advance(event);
                    (
                        GraphExecution { traversal, stage: GraphStage::Failed, ..self },
                        GraphAction::Fail(error),
                    )
                }
            },
        }
    }
}

} // verus!

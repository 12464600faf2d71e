use crate::db::types::{Entity, EntityView, Relation};
use crate::error::{ErrorView, VectaDBError};
use crate::query::graph::{entity_ids, holds_id};
use crate::text::{clone_list, list_contains, owned, views};
use vstd::prelude::*;

verus! {

/// Where a traversal stands.
#[derive(Debug, Clone, Copy, PartialEq, Eq, Structural)]
pub enum TraversalPhase {
    /// The edges of the entity at hand are being listed.
    Listing,
    /// The entities at the other end of those edges are being fetched.
    Fetching,
    Finished,
    Failed,
}

/// What came back from the graph store.
#[derive(Debug)]
pub enum TraversalEvent {
    /// The relations asked for.
    Relations(Vec<Relation>),
    /// The entity asked for, or none where the store holds none.
    Fetched(Option<Entity>),
    StoreFailed(String),
}

/// What a traversal asks of the graph store next.
#[derive(Debug)]
pub enum TraversalAction {
    /// List the relations at an entity: those that leave it, or those that come to it
    /// where `incoming` is set; of the given type, or of all types.
    ListRelations { entity_id: String, relation_type: Option<String>, incoming: bool },
    /// Fetch the entity of this identifier.
    FetchEntity(String),
    /// The traversal is over; the state holds what it found.
    Finish,
    Fail(VectaDBError),
}

/// A breadth-first traversal under way, in one direction.
#[derive(Debug)]
pub struct Traversal {
    /// The relations whose edges are followed; all edges where the list is empty.
    pub relation_types: Vec<String>,
    /// Whether edges are followed against their direction.
    pub incoming: bool,
    /// How many levels may still be expanded, the present one included.
    pub levels_left: usize,
    /// The entities that were expanded.
    pub visited: Vec<String>,
    /// The entities found, each once, in the order they were found.
    pub found: Vec<Entity>,
    /// The entities of the level that is being expanded.
    pub level: Vec<String>,
    /// Which entity of the level is at hand.
    pub at: usize,
    /// The entities found for the level after this one.
    pub next_level: Vec<String>,
    /// Which relation type is being listed for the entity at hand.
    pub relation_at: usize,
    /// The other ends of the edges listed for the entity at hand.
    pub pending: Vec<String>,
    /// Which of them is being fetched.
    pub pending_at: usize,
    pub phase: TraversalPhase,
}

/// A traversal by what it holds.
pub struct TraversalView {
    pub relation_types: Seq<Seq<char>>,
    pub incoming: bool,
    pub levels_left: nat,
    pub visited: Seq<Seq<char>>,
    pub found: Seq<EntityView>,
    pub level: Seq<Seq<char>>,
    pub at: nat,
    pub next_level: Seq<Seq<char>>,
    pub relation_at: nat,
    pub pending: Seq<Seq<char>>,
    pub pending_at: nat,
    pub phase: TraversalPhase,
}

/// What a traversal asks for, by the characters it holds.
pub enum TraversalActionView {
    ListRelations { entity_id: Seq<char>, relation_type: Option<Seq<char>>, incoming: bool },
    FetchEntity(Seq<char>),
    Finish,
    Fail(ErrorView),
}

/// The views of a list of entities.
pub open spec fn entity_views(entities: Seq<Entity>) -> Seq<EntityView> {
    entities.map_values(|e: Entity| e@)
}

/// The other ends of a list of relations: their targets, or their sources where edges
/// are followed against their direction.
pub open spec fn far_ends(relations: Seq<Relation>, incoming: bool) -> Seq<Seq<char>> {
    relations.map_values(
        |r: Relation|
            if incoming {
                r.source_id@
            } else {
                r.target_id@
            },
    )
}

impl View for Traversal {
    type V = TraversalView;

    open spec fn view(&self) -> TraversalView {
        TraversalView {
            relation_types: views(self.relation_types@),
            incoming: self.incoming,
            levels_left: self.levels_left as nat,
            visited: views(self.visited@),
            found: entity_views(self.found@),
            level: views(self.level@),
            at: self.at as nat,
            next_level: views(self.next_level@),
            relation_at: self.relation_at as nat,
            pending: views(self.pending@),
            pending_at: self.pending_at as nat,
            phase: self.phase,
        }
    }
}

impl View for TraversalAction {
    type V = TraversalActionView;

    open spec fn view(&self) -> TraversalActionView {
        match *self {
            TraversalAction::ListRelations { entity_id, relation_type, incoming } => {
                TraversalActionView::ListRelations {
                    entity_id: entity_id@,
                    relation_type: match relation_type {
                        Some(t) => Some(t@),
                        None => None,
                    },
                    incoming,
                }
            },
            TraversalAction::FetchEntity(id) => TraversalActionView::FetchEntity(id@),
            TraversalAction::Finish => TraversalActionView::Finish,
            TraversalAction::Fail(e) => TraversalActionView::Fail(e@),
        }
    }
}

impl TraversalView {
    /// Whether the places that the traversal stands at lie within its lists.
    pub open spec fn well_formed(&self) -> bool {
        match self.phase {
            TraversalPhase::Listing => {
                &&& self.levels_left > 0
                &&& self.at < self.level.len()
                &&& if self.relation_types.len() == 0 {
                    self.relation_at == 0
                } else {
                    self.relation_at < self.relation_types.len()
                }
            },
            TraversalPhase::Fetching => {
                &&& self.levels_left > 0
                &&& self.at < self.level.len()
                &&& self.pending_at < self.pending.len()
            },
            _ => true,
        }
    }

    /// The request for the relations of the entity at hand, of the type at hand.
    pub open spec fn listing(&self) -> TraversalActionView {
        TraversalActionView::ListRelations {
            entity_id: self.level[self.at as int],
            relation_type: if self.relation_types.len() == 0 {
                None
            } else {
                Some(self.relation_types[self.relation_at as int])
            },
            incoming: self.incoming,
        }
    }

    /// The traversal as it goes on from the entity at hand: entities that were expanded
    /// before are passed over; the first that was not is expanded; when the level is
    /// through, the next level takes its place, unless it is empty or no level may be
    /// expanded any more, which ends the traversal.
    pub open spec fn settled(self) -> (TraversalView, TraversalActionView)
        decreases self.levels_left, self.level.len() - self.at,
    {
        if self.levels_left == 0 {
            (TraversalView { phase: TraversalPhase::Finished, ..self }, TraversalActionView::Finish)
        } else if self.at < self.level.len() {
            if self.visited.contains(self.level[self.at as int]) {
                (TraversalView { at: self.at + 1, ..self }).settled()
            } else {
                let next = TraversalView {
                    visited: self.visited.push(self.level[self.at as int]),
                    relation_at: 0,
                    pending: Seq::empty(),
                    pending_at: 0,
                    phase: TraversalPhase::Listing,
                    ..self
                };
                (next, next.listing())
            }
        } else if self.next_level.len() == 0 {
            (
                TraversalView {
                    level: Seq::empty(),
                    at: 0,
                    levels_left: (self.levels_left - 1) as nat,
                    phase: TraversalPhase::Finished,
                    ..self
                },
                TraversalActionView::Finish,
            )
        } else {
            (TraversalView {
                level: self.next_level,
                next_level: Seq::empty(),
                at: 0,
                levels_left: (self.levels_left - 1) as nat,
                ..self
            }).settled()
        }
    }

    /// The traversal as it goes on with the other ends of the edges listed: the next
    /// of them is fetched; after the last, the next entity of the level is at hand.
    pub open spec fn fetching(self) -> (TraversalView, TraversalActionView) {
        if self.pending_at < self.pending.len() {
            (
                TraversalView { phase: TraversalPhase::Fetching, ..self },
                TraversalActionView::FetchEntity(self.pending[self.pending_at as int]),
            )
        } else {
            (TraversalView { at: self.at + 1, ..self }).settled()
        }
    }

    /// The traversal after the relations asked for came back: their other ends are
    /// noted; then the next relation type is listed, or, after the last, the entities
    /// at the other ends are fetched.
    pub open spec fn after_relations(self, ends: Seq<Seq<char>>) -> (
        TraversalView,
        TraversalActionView,
    ) {
        let noted = TraversalView {
            pending: self.pending + ends,
            relation_at: self.relation_at + 1,
            ..self
        };
        if noted.relation_at < noted.relation_types.len() {
            (noted, noted.listing())
        } else {
            (TraversalView { pending_at: 0, ..noted }).fetching()
        }
    }

    /// Whether the traversal has met the entity of this identifier: it was expanded,
    /// or it is among those found.
    pub open spec fn met(self, id: Seq<char>) -> bool {
        self.visited.contains(id) || entity_ids(self.found).contains(id)
    }

    /// The traversal after the entity asked for came back: an entity that the store
    /// holds and that the traversal has not met yet is found, and will be expanded
    /// with the next level. An entity is so found once, however many edges lead to it.
    pub open spec fn after_fetch(self, fetched: Option<EntityView>) -> (
        TraversalView,
        TraversalActionView,
    ) {
        let noted = match fetched {
            Some(e) => if self.met(e.id) {
                self
            } else {
                TraversalView {
                    found: self.found.push(e),
                    next_level: self.next_level.push(e.id),
                    ..self
                }
            },
            None => self,
        };
        (TraversalView { pending_at: self.pending_at + 1, ..noted }).fetching()
    }
}

/// The traversal from `start` before its first step.
pub open spec fn fresh_traversal(
    start: Seq<char>,
    relation_types: Seq<Seq<char>>,
    incoming: bool,
    depth: nat,
) -> TraversalView {
    TraversalView {
        relation_types,
        incoming,
        levels_left: depth,
        visited: Seq::empty(),
        found: Seq::empty(),
        level: seq![start],
        at: 0,
        next_level: Seq::empty(),
        relation_at: 0,
        pending: Seq::empty(),
        pending_at: 0,
        phase: TraversalPhase::Listing,
    }
}

/// What a traversal comes to on an event: the state after it, and what it asks for.
/// A failure of the store ends the traversal with an error of the graph store, an event
/// that it is not waiting for and a state whose places lie outside its lists with an
/// internal error.
pub open spec fn traversal_step(
    state: TraversalView,
    event: TraversalEvent,
) -> (TraversalView, TraversalActionView) {
    if !state.well_formed() {
        (
            TraversalView { phase: TraversalPhase::Failed, ..state },
            TraversalActionView::Fail(ErrorView::Internal("inconsistent state"@)),
        )
    } else {
        stepped(state, event)
    }
}

/// What a traversal whose places lie within its lists comes to on an event.
pub open spec fn stepped(
    state: TraversalView,
    event: TraversalEvent,
) -> (TraversalView, TraversalActionView) {
    match (state.phase, event) {
        (TraversalPhase::Listing, TraversalEvent::Relations(relations)) => state.after_relations(
            far_ends(relations@, state.incoming),
        ),
        (TraversalPhase::Fetching, TraversalEvent::Fetched(fetched)) => state.after_fetch(
            match fetched {
                Some(e) => Some(e@),
                None => None,
            },
        ),
        (TraversalPhase::Listing, TraversalEvent::StoreFailed(why)) => (
            TraversalView { phase: TraversalPhase::Failed, ..state },
            TraversalActionView::Fail(ErrorView::SurrealDB(why@)),
        ),
        (TraversalPhase::Fetching, TraversalEvent::StoreFailed(why)) => (
            TraversalView { phase: TraversalPhase::Failed, ..state },
            TraversalActionView::Fail(ErrorView::SurrealDB(why@)),
        ),
        _ => (
            TraversalView { phase: TraversalPhase::Failed, ..state },
            TraversalActionView::Fail(ErrorView::Internal("unexpected event"@)),
        ),
    }
}


/// Notes the other ends of a list of relations after those noted before.
fn append_far_ends(pending: &mut Vec<String>, relations: &Vec<Relation>, incoming: bool)
    ensures
        views(final(pending)@) == views(old(pending)@) + far_ends(relations@, incoming),
{
    let ghost start = views(pending@);
    let ghost ends = far_ends(relations@, incoming);
    let mut i: usize = 0;
    assert(views(pending@) =~= start + ends.take(0));
    while i < relations.len()
        invariant
            i <= relations.len(),
            ends == far_ends(relations@, incoming),
            views(pending@) == start + ends.take(i as int),
        decreases relations.len() - i,
    {
        let end = if incoming {
            relations[i].source_id.clone()
        } else {
            relations[i].target_id.clone()
        };
        let ghost before = views(pending@);
        pending.push(end);
        assert(views(pending@) =~= before.push(ends[i as int]));
        assert(start + ends.take(i + 1) =~= (start + ends.take(i as int)).push(ends[i as int]));
        i += 1;
    }
    assert(ends.take(relations.len() as int) == ends);
}

impl Traversal {
    fn listing_action(&self) -> (action: TraversalAction)
        requires
            self.at < self.level@.len(),
            self.relation_types@.len() > 0 ==> self.relation_at < self.relation_types@.len(),
        ensures
            action@ == self@.listing(),
    {
        TraversalAction::ListRelations {
            entity_id: self.level[self.at].clone(),
            relation_type: if self.relation_types.len() == 0 {
                None
            } else {
                Some(self.relation_types[self.relation_at].clone())
            },
            incoming: self.incoming,
        }
    }

    fn settle(self) -> (next: (Self, TraversalAction))
        ensures
            (next.0@, next.1@) == self@.settled(),
            next.0@.well_formed(),
    {
        let mut t = self;
        loop
            invariant
                t@.settled() == self@.settled(),
            decreases t.levels_left, t.level.len() - t.at,
        {
            if t.levels_left == 0 {
                t.phase = TraversalPhase::Finished;
                return (t, TraversalAction::Finish);
            }
            if t.at < t.level.len() {
                if list_contains(&t.visited, t.level[t.at].as_str()) {
                    t.at = t.at + 1;
                } else {
                    let ghost before = t@;
                    let id = t.level[t.at].clone();
                    t.visited.push(id);
                    t.relation_at = 0;
                    t.pending = Vec::new();
                    t.pending_at = 0;
                    t.phase = TraversalPhase::Listing;
                    proof {
                        assert(t@.visited =~= before.visited.push(before.level[before.at as int]));
                        assert(t@.pending =~= Seq::<Seq<char>>::empty());
                    }
                    let action = t.listing_action();
                    return (t, action);
                }
            } else if t.next_level.len() == 0 {
                t.level = Vec::new();
                t.at = 0;
                t.levels_left = t.levels_left - 1;
                t.phase = TraversalPhase::Finished;
                proof {
                    assert(t@.level =~= Seq::<Seq<char>>::empty());
                }
                return (t, TraversalAction::Finish);
            } else {
                t = Traversal {
                    level: t.next_level,
                    next_level: Vec::new(),
                    at: 0,
                    levels_left: t.levels_left - 1,
                    ..t
                };
                proof {
                    assert(t@.next_level =~= Seq::<Seq<char>>::empty());
                }
            }
        }
    }

    fn fetch_on(self) -> (next: (Self, TraversalAction))
        requires
            self.levels_left > 0,
            self.at < self.level@.len(),
        ensures
            (next.0@, next.1@) == self@.fetching(),
            next.0@.well_formed(),
    {
        let mut t = self;
        if t.pending_at < t.pending.len() {
            t.phase = TraversalPhase::Fetching;
            let action = TraversalAction::FetchEntity(t.pending[t.pending_at].clone());
            (t, action)
        } else {
            assert(t.level.len() <= usize::MAX);
            t.at = t.at + 1;
            t.settle()
        }
    }

    fn fail(self, error: VectaDBError) -> (next: (Self, TraversalAction))
        ensures
            next.0@ == (TraversalView { phase: TraversalPhase::Failed, ..self@ }),
            next.1@ == TraversalActionView::Fail(error@),
    {
        let mut t = self;
        t.phase = TraversalPhase::Failed;
        (t, TraversalAction::Fail(error))
    }

    /// The start of a traversal from `start_id`: to `depth` levels, along the edges of
    /// the given relations or of all, with or against their direction.
    pub fn begin(start_id: &str, relation_types: &Vec<String>, incoming: bool, depth: usize) -> (started:
        (Self, TraversalAction))
        ensures
            (started.0@, started.1@) == fresh_traversal(
                start_id@,
                views(relation_types@),
                incoming,
                depth as nat,
            ).settled(),
            started.0@.well_formed(),
    {
        let mut level: Vec<String> = Vec::new();
        level.push(owned(start_id));
        let t = Traversal {
            relation_types: clone_list(relation_types),
            incoming,
            levels_left: depth,
            visited: Vec::new(),
            found: Vec::new(),
            level,
            at: 0,
            next_level: Vec::new(),
            relation_at: 0,
            pending: Vec::new(),
            pending_at: 0,
            phase: TraversalPhase::Listing,
        };
        proof {
            let fresh = fresh_traversal(start_id@, views(relation_types@), incoming, depth as nat);
            assert(t@.level =~= fresh.level);
            assert(t@.visited =~= fresh.visited);
            assert(t@.found =~= fresh.found);
            assert(t@.next_level =~= fresh.next_level);
            assert(t@.pending =~= fresh.pending);
            assert(t@ == fresh);
        }
        t.settle()
    }

    /// Whether the places that the traversal stands at lie within its lists.
    pub fn consistent(&self) -> (ok: bool)
        ensures
            ok == self@.well_formed(),
    {
        match self.phase {
            TraversalPhase::Listing => {
                self.levels_left > 0 && self.at < self.level.len() && (if self.relation_types.len()
                    == 0 {
                    self.relation_at == 0
                } else {
                    self.relation_at < self.relation_types.len()
                })
            },
            TraversalPhase::Fetching => {
                self.levels_left > 0 && self.at < self.level.len() && self.pending_at
                    < self.pending.len()
            },
            _ => true,
        }
    }

    /// Takes what came back from the graph store, and says what to ask of it next.
    pub fn advance(self, event: TraversalEvent) -> (next: (Self, TraversalAction))
        ensures
            (next.0@, next.1@) == traversal_step(self@, event),
            next.0@.well_formed(),
    {
        if !self.consistent() {
            return self.fail(VectaDBError::Internal(owned("inconsistent state")));
        }
        assert(self.relation_types.len() <= usize::MAX && self.pending.len() <= usize::MAX);
        match self.phase {
            TraversalPhase::Listing => match event {
                TraversalEvent::Relations(relations) => {
                    let mut t = self;
                    append_far_ends(&mut t.pending, &relations, t.incoming);
                    t.relation_at = t.relation_at + 1;
                    if t.relation_at < t.relation_types.len() {
                        let action = t.listing_action();
                        (t, action)
                    } else {
                        t.pending_at = 0;
                        t.fetch_on()
                    }
                },
                TraversalEvent::StoreFailed(why) => self.fail(VectaDBError::SurrealDB(why)),
                _ => self.fail(VectaDBError::Internal(owned("unexpected event"))),
            },
            TraversalPhase::Fetching => match event {
                TraversalEvent::Fetched(fetched) => {
                    let mut t = self;
                    if let Some(entity) = fetched {
                        if !list_contains(&t.visited, entity.id.as_str()) && !holds_id(
                            &t.found,
                            entity.id.as_str(),
                        ) {
                            let ghost before = t@;
                            t.next_level.push(entity.id.clone());
                            t.found.push(entity);
                            proof {
                                assert(t@.next_level =~= before.next_level.push(entity@.id));
                                assert(t@.found =~= before.found.push(entity@));
                            }
                        }
                    }
                    t.pending_at = t.pending_at + 1;
                    t.fetch_on()
                },
                TraversalEvent::StoreFailed(why) => self.fail(VectaDBError::SurrealDB(why)),
                _ => self.fail(VectaDBError::Internal(owned("unexpected event"))),
            },
            _ => self.fail(VectaDBError::Internal(owned("unexpected event"))),
        }
    }
}

} // verus!

use crate::query::graph::entity_ids;
use crate::query::traversal::{
    fresh_traversal, traversal_step, TraversalEvent, TraversalPhase, TraversalView,
};
use vstd::prelude::*;

verus! {

/// How much a traversal has before it: the levels it may still expand, the entities of
/// the level that are not yet through, whether the edges of the entity at hand are
/// still being listed, and the relation types or far ends still to come.
pub open spec fn ahead(t: TraversalView) -> (nat, nat, nat, nat) {
    match t.phase {
        TraversalPhase::Listing => (
            t.levels_left,
            (t.level.len() - t.at) as nat,
            1,
            if t.relation_types.len() == 0 {
                (1 - t.relation_at) as nat
            } else {
                (t.relation_types.len() - t.relation_at) as nat
            },
        ),
        TraversalPhase::Fetching => (
            t.levels_left,
            (t.level.len() - t.at) as nat,
            0,
            (t.pending.len() - t.pending_at) as nat,
        ),
        _ => (0, 0, 0, 0),
    }
}

/// Whether `a` comes before `b` where the first difference decides.
pub open spec fn less(a: (nat, nat, nat, nat), b: (nat, nat, nat, nat)) -> bool {
    a.0 < b.0 || (a.0 == b.0 && (a.1 < b.1 || (a.1 == b.1 && (a.2 < b.2 || (a.2 == b.2 && a.3
        < b.3)))))
}

/// Whether a traversal is over.
pub open spec fn over(t: TraversalView) -> bool {
    t.phase == TraversalPhase::Finished || t.phase == TraversalPhase::Failed
}

/// Going on from the entity at hand, a traversal ends or lists the edges of an entity
/// of the same level that is no earlier, or of a later level.
pub proof fn lemma_settled(t: TraversalView)
    requires
        t.at <= t.level.len(),
    ensures
        t.settled().0.well_formed(),
        t.settled().0.found == t.found,
        t.settled().0.relation_types == t.relation_types,
        t.settled().0.incoming == t.incoming,
        over(t.settled().0) || (t.settled().0.phase == TraversalPhase::Listing
            && t.settled().0.relation_at == 0 && (t.settled().0.levels_left < t.levels_left || (
        t.settled().0.levels_left == t.levels_left && t.settled().0.level.len()
            - t.settled().0.at <= t.level.len() - t.at))),
    decreases t.levels_left, t.level.len() - t.at,
{
    if t.levels_left == 0 {
    } else if t.at < t.level.len() {
        if t.visited.contains(t.level[t.at as int]) {
            lemma_settled(TraversalView { at: t.at + 1, ..t });
        }
    } else if t.next_level.len() == 0 {
    } else {
        lemma_settled(
            TraversalView {
                level: t.next_level,
                next_level: Seq::empty(),
                at: 0,
                levels_left: (t.levels_left - 1) as nat,
                ..t
            },
        );
    }
}

/// Every step brings a traversal nearer to its end, whatever the store answers: a
/// traversal ends after finitely many steps, on a graph with cycles as on any other.
pub proof fn every_step_brings_the_end_nearer(t: TraversalView, event: TraversalEvent)
    requires
        t.well_formed(),
        !over(t),
    ensures
        traversal_step(t, event).0.well_formed(),
        over(traversal_step(t, event).0) || less(ahead(traversal_step(t, event).0), ahead(t)),
{
    match (t.phase, event) {
        (TraversalPhase::Listing, TraversalEvent::Relations(relations)) => {
            let ends = crate::query::traversal::far_ends(relations@, t.incoming);
            let noted = TraversalView {
                pending: t.pending + ends,
                relation_at: t.relation_at + 1,
                ..t
            };
            if noted.relation_at < noted.relation_types.len() {
            } else {
                let fetching = TraversalView { pending_at: 0, ..noted };
                if fetching.pending_at < fetching.pending.len() {
                } else {
                    lemma_settled(TraversalView { at: fetching.at + 1, ..fetching });
                }
            }
        },
        (TraversalPhase::Fetching, TraversalEvent::Fetched(fetched)) => {
            let seen = match fetched {
                Some(e) => Some(e@),
                None => None,
            };
            let noted = match seen {
                Some(e) => if t.met(e.id) {
                    t
                } else {
                    TraversalView {
                        found: t.found.push(e),
                        next_level: t.next_level.push(e.id),
                        ..t
                    }
                },
                None => t,
            };
            let fetching = TraversalView { pending_at: t.pending_at + 1, ..noted };
            if fetching.pending_at < fetching.pending.len() {
            } else {
                lemma_settled(TraversalView { at: fetching.at + 1, ..fetching });
            }
        },
        _ => {},
    }
}

/// No step changes the relations that a traversal follows or its direction, and
/// going on from the entity at hand changes neither.
pub proof fn lemma_kept(t: TraversalView, event: TraversalEvent)
    ensures
        traversal_step(t, event).0.relation_types == t.relation_types,
        traversal_step(t, event).0.incoming == t.incoming,
{
    if t.well_formed() {
        match (t.phase, event) {
            (TraversalPhase::Listing, TraversalEvent::Relations(relations)) => {
                let ends = crate::query::traversal::far_ends(relations@, t.incoming);
                let noted = TraversalView {
                    pending: t.pending + ends,
                    relation_at: t.relation_at + 1,
                    ..t
                };
                if noted.relation_at < noted.relation_types.len() {
                } else {
                    let fetching = TraversalView { pending_at: 0, ..noted };
                    if fetching.pending_at < fetching.pending.len() {
                    } else {
                        lemma_settled(TraversalView { at: fetching.at + 1, ..fetching });
                    }
                }
            },
            (TraversalPhase::Fetching, TraversalEvent::Fetched(fetched)) => {
                let seen = match fetched {
                    Some(e) => Some(e@),
                    None => None,
                };
                let noted = match seen {
                    Some(e) => if t.met(e.id) {
                        t
                    } else {
                        TraversalView {
                            found: t.found.push(e),
                            next_level: t.next_level.push(e.id),
                            ..t
                        }
                    },
                    None => t,
                };
                let fetching = TraversalView { pending_at: t.pending_at + 1, ..noted };
                if fetching.pending_at < fetching.pending.len() {
                } else {
                    lemma_settled(TraversalView { at: fetching.at + 1, ..fetching });
                }
            },
            _ => {},
        }
    }
}

/// Whether a traversal has found no entity twice.
pub open spec fn found_once(t: TraversalView) -> bool {
    entity_ids(t.found).no_duplicates()
}

/// A traversal that begins has found nothing.
pub proof fn a_new_traversal_has_found_nothing(
    start: Seq<char>,
    relation_types: Seq<Seq<char>>,
    incoming: bool,
    depth: nat,
)
    ensures
        fresh_traversal(start, relation_types, incoming, depth).settled().0.found.len() == 0,
        found_once(fresh_traversal(start, relation_types, incoming, depth).settled().0),
{
    lemma_settled(fresh_traversal(start, relation_types, incoming, depth));
}

/// No step finds an entity that was found before: what a traversal has found holds
/// each entity once, also where several edges lead to one entity.
pub proof fn no_entity_is_found_twice(t: TraversalView, event: TraversalEvent)
    requires
        found_once(t),
    ensures
        found_once(traversal_step(t, event).0),
        t.found.is_prefix_of(traversal_step(t, event).0.found),
{
    if t.well_formed() {
        match (t.phase, event) {
            (TraversalPhase::Listing, TraversalEvent::Relations(relations)) => {
                let ends = crate::query::traversal::far_ends(relations@, t.incoming);
                let noted = TraversalView {
                    pending: t.pending + ends,
                    relation_at: t.relation_at + 1,
                    ..t
                };
                if noted.relation_at < noted.relation_types.len() {
                } else {
                    let fetching = TraversalView { pending_at: 0, ..noted };
                    if fetching.pending_at < fetching.pending.len() {
                    } else {
                        lemma_settled(TraversalView { at: fetching.at + 1, ..fetching });
                    }
                }
            },
            (TraversalPhase::Fetching, TraversalEvent::Fetched(fetched)) => {
                let seen = match fetched {
                    Some(e) => Some(e@),
                    None => None,
                };
                let noted = match seen {
                    Some(e) => if t.met(e.id) {
                        t
                    } else {
                        TraversalView {
                            found: t.found.push(e),
                            next_level: t.next_level.push(e.id),
                            ..t
                        }
                    },
                    None => t,
                };
                if seen is Some && !t.met(seen->0.id) {
                    assert(entity_ids(noted.found) =~= entity_ids(t.found).push(seen->0.id));
                }
                let fetching = TraversalView { pending_at: t.pending_at + 1, ..noted };
                if fetching.pending_at < fetching.pending.len() {
                } else {
                    lemma_settled(TraversalView { at: fetching.at + 1, ..fetching });
                }
            },
            _ => {},
        }
    }
}

} // verus!

use crate::db::types::Relation;
use crate::query::traversal::{
    far_ends, fresh_traversal, traversal_step, TraversalEvent, TraversalPhase, TraversalView,
};
use vstd::prelude::*;

verus! {

/// An edge of a graph: where it leaves, the type of its relation, and where it comes
/// to.
pub struct EdgeView {
    pub source: Seq<char>,
    pub relation_type: Seq<char>,
    pub target: Seq<char>,
}

/// Whether a traversal that follows the given relations, all where none is given,
/// goes along an edge from `from` to `to`: with the edge, or against it where edges
/// are followed against their direction.
pub open spec fn follows_edge(
    edge: EdgeView,
    types: Seq<Seq<char>>,
    incoming: bool,
    from: Seq<char>,
    to: Seq<char>,
) -> bool {
    &&& types.len() == 0 || types.contains(edge.relation_type)
    &&& if incoming {
        edge.target == from && edge.source == to
    } else {
        edge.source == from && edge.target == to
    }
}

/// Whether a graph has an edge along which the traversal goes from `from` to `to`.
pub open spec fn hop(
    edges: Seq<EdgeView>,
    types: Seq<Seq<char>>,
    incoming: bool,
    from: Seq<char>,
    to: Seq<char>,
) -> bool {
    exists|i: int|
        0 <= i < edges.len() && follows_edge(#[trigger] edges[i], types, incoming, from, to)
}

/// Whether `path` leads from `start` to `id` in at least one hop and `hops` at most.
pub open spec fn is_route(
    edges: Seq<EdgeView>,
    types: Seq<Seq<char>>,
    incoming: bool,
    start: Seq<char>,
    id: Seq<char>,
    hops: nat,
    path: Seq<Seq<char>>,
) -> bool {
    &&& 2 <= path.len() <= hops + 1
    &&& path[0] == start
    &&& path.last() == id
    &&& forall|i: int|
        #![trigger path[i]]
        0 <= i < path.len() - 1 ==> hop(edges, types, incoming, path[i], path[i + 1])
}

/// Whether `id` is reached from `start` in at least one hop and `hops` at most.
pub open spec fn within(
    edges: Seq<EdgeView>,
    types: Seq<Seq<char>>,
    incoming: bool,
    start: Seq<char>,
    id: Seq<char>,
    hops: nat,
) -> bool {
    exists|path: Seq<Seq<char>>| is_route(edges, types, incoming, start, id, hops, path)
}

/// Whether `id` is the start or is reached from it in `hops` hops at most.
pub open spec fn reached(
    edges: Seq<EdgeView>,
    types: Seq<Seq<char>>,
    incoming: bool,
    start: Seq<char>,
    id: Seq<char>,
    hops: nat,
) -> bool {
    id == start || within(edges, types, incoming, start, id, hops)
}

/// Whether a relation that the store hands out is an edge of the graph at `entity`,
/// of the type asked for where one is asked for.
pub open spec fn is_edge_at(
    edges: Seq<EdgeView>,
    entity: Seq<char>,
    relation_type: Option<Seq<char>>,
    incoming: bool,
    relation: Relation,
) -> bool {
    &&& exists|i: int|
        0 <= i < edges.len() && (#[trigger] edges[i]).source == relation.source_id@ && edges[i].target
            == relation.target_id@ && edges[i].relation_type == relation.relation_type@
    &&& relation_type matches Some(t) ==> relation.relation_type@ == t
    &&& if incoming {
        relation.target_id@ == entity
    } else {
        relation.source_id@ == entity
    }
}

/// Whether `event` is an answer that a store of the given edges may give to what the
/// traversal has asked for: every relation it lists is an edge at the entity at hand,
/// and an entity it hands out is the one asked for.
pub open spec fn answers(edges: Seq<EdgeView>, t: TraversalView, event: TraversalEvent) -> bool {
    match (t.phase, event) {
        (TraversalPhase::Listing, TraversalEvent::Relations(relations)) => forall|k: int|
            0 <= k < relations@.len() ==> is_edge_at(
                edges,
                t.level[t.at as int],
                if t.relation_types.len() == 0 {
                    None
                } else {
                    Some(t.relation_types[t.relation_at as int])
                },
                t.incoming,
                #[trigger] relations@[k],
            ),
        (TraversalPhase::Fetching, TraversalEvent::Fetched(Some(entity))) => entity@.id
            == t.pending[t.pending_at as int],
        _ => true,
    }
}

/// Whether all that a traversal holds was reached from `start` along edges of the
/// graph: what it has found within `depth` hops, the entities of the level at hand
/// within as many hops as levels were gone through, and those noted for the next
/// level within one more.
pub open spec fn grounded(edges: Seq<EdgeView>, start: Seq<char>, depth: nat, t: TraversalView) -> bool {
    let types = t.relation_types;
    let used = (depth - t.levels_left) as nat;
    &&& t.levels_left <= depth
    &&& forall|i: int|
        0 <= i < t.found.len() ==> within(
            edges,
            types,
            t.incoming,
            start,
            (#[trigger] t.found[i]).id,
            depth,
        )
    &&& forall|i: int|
        0 <= i < t.level.len() ==> reached(edges, types, t.incoming, start, #[trigger] t.level[i], used)
    &&& forall|i: int|
        0 <= i < t.next_level.len() ==> within(
            edges,
            types,
            t.incoming,
            start,
            #[trigger] t.next_level[i],
            used + 1,
        )
}

/// Whether a traversal is grounded, and the far ends it has noted for the entity at
/// hand are one hop from that entity.
pub open spec fn sound(edges: Seq<EdgeView>, start: Seq<char>, depth: nat, t: TraversalView) -> bool {
    &&& grounded(edges, start, depth, t)
    &&& (t.phase == TraversalPhase::Listing || t.phase == TraversalPhase::Fetching) ==> forall|
        i: int,
    |
        0 <= i < t.pending.len() ==> hop(
            edges,
            t.relation_types,
            t.incoming,
            t.level[t.at as int],
            #[trigger] t.pending[i],
        )
}

/// One hop more from what is reached is within one hop more.
pub proof fn lemma_one_hop_more(
    edges: Seq<EdgeView>,
    types: Seq<Seq<char>>,
    incoming: bool,
    start: Seq<char>,
    mid: Seq<char>,
    id: Seq<char>,
    hops: nat,
)
    requires
        reached(edges, types, incoming, start, mid, hops),
        hop(edges, types, incoming, mid, id),
    ensures
        within(edges, types, incoming, start, id, hops + 1),
{
    if mid == start {
        let path = seq![start, id];
        assert(is_route(edges, types, incoming, start, id, hops + 1, path));
    } else {
        let before = choose|path: Seq<Seq<char>>|
            is_route(edges, types, incoming, start, mid, hops, path);
        let path = before.push(id);
        assert forall|i: int| #![trigger path[i]] 0 <= i < path.len() - 1 implies hop(
            edges,
            types,
            incoming,
            path[i],
            path[i + 1],
        ) by {
            if i < before.len() - 1 {
                assert(path[i] == before[i] && path[i + 1] == before[i + 1]);
            } else {
                assert(path[i] == before.last());
            }
        }
        assert(is_route(edges, types, incoming, start, id, hops + 1, path));
    }
}

/// What is within some hops is within more.
pub proof fn lemma_within_more(
    edges: Seq<EdgeView>,
    types: Seq<Seq<char>>,
    incoming: bool,
    start: Seq<char>,
    id: Seq<char>,
    hops: nat,
    more: nat,
)
    requires
        within(edges, types, incoming, start, id, hops),
        hops <= more,
    ensures
        within(edges, types, incoming, start, id, more),
{
    let path = choose|path: Seq<Seq<char>>| is_route(edges, types, incoming, start, id, hops, path);
    assert(is_route(edges, types, incoming, start, id, more, path));
}

/// Going on from the entity at hand keeps a traversal grounded.
pub proof fn lemma_settled_sound(edges: Seq<EdgeView>, start: Seq<char>, depth: nat, t: TraversalView)
    requires
        grounded(edges, start, depth, t),
        t.at <= t.level.len(),
    ensures
        sound(edges, start, depth, t.settled().0),
    decreases t.levels_left, t.level.len() - t.at,
{
    if t.levels_left == 0 {
    } else if t.at < t.level.len() {
        if t.visited.contains(t.level[t.at as int]) {
            lemma_settled_sound(edges, start, depth, TraversalView { at: t.at + 1, ..t });
        }
    } else if t.next_level.len() == 0 {
        let ended = t.settled().0;
        assert(ended.level.len() == 0);
    } else {
        let on = TraversalView {
            level: t.next_level,
            next_level: Seq::empty(),
            at: 0,
            levels_left: (t.levels_left - 1) as nat,
            ..t
        };
        lemma_settled_sound(edges, start, depth, on);
    }
}

/// A traversal that begins holds nothing but its start.
pub proof fn a_new_traversal_is_sound(
    edges: Seq<EdgeView>,
    start: Seq<char>,
    relation_types: Seq<Seq<char>>,
    incoming: bool,
    depth: nat,
)
    ensures
        sound(edges, start, depth, fresh_traversal(start, relation_types, incoming, depth).settled().0),
{
    lemma_settled_sound(edges, start, depth, fresh_traversal(start, relation_types, incoming, depth));
}

/// What a traversal finds is reached from its start within its depth: as long as the
/// store lists only edges of the graph at the entity asked for and hands out the
/// entity asked for, every step keeps all that the traversal has found within `depth`
/// hops of the start, along edges of the relations that the traversal follows.
pub proof fn what_is_found_is_within_the_depth(
    edges: Seq<EdgeView>,
    start: Seq<char>,
    depth: nat,
    t: TraversalView,
    event: TraversalEvent,
)
    requires
        sound(edges, start, depth, t),
        answers(edges, t, event),
    ensures
        sound(edges, start, depth, traversal_step(t, event).0),
        forall|i: int|
            0 <= i < traversal_step(t, event).0.found.len() ==> within(
                edges,
                t.relation_types,
                t.incoming,
                start,
                (#[trigger] traversal_step(t, event).0.found[i]).id,
                depth,
            ),
        traversal_step(t, event).0.relation_types == t.relation_types,
        traversal_step(t, event).0.incoming == t.incoming,
{
    crate::query::traversal_laws::lemma_kept(t, event);
    if t.well_formed() {
        let types = t.relation_types;
        let used = (depth - t.levels_left) as nat;
        match (t.phase, event) {
            (TraversalPhase::Listing, TraversalEvent::Relations(relations)) => {
                let ends = far_ends(relations@, t.incoming);
                let noted = TraversalView {
                    pending: t.pending + ends,
                    relation_at: t.relation_at + 1,
                    ..t
                };
                assert forall|i: int| 0 <= i < noted.pending.len() implies hop(
                    edges,
                    types,
                    t.incoming,
                    t.level[t.at as int],
                    #[trigger] noted.pending[i],
                ) by {
                    if i >= t.pending.len() {
                        let k = i - t.pending.len();
                        let r = relations@[k];
                        assert(is_edge_at(
                            edges,
                            t.level[t.at as int],
                            if t.relation_types.len() == 0 {
                                None
                            } else {
                                Some(t.relation_types[t.relation_at as int])
                            },
                            t.incoming,
                            r,
                        ));
                        let e = choose|e: int|
                            0 <= e < edges.len() && (#[trigger] edges[e]).source == r.source_id@
                                && edges[e].target == r.target_id@ && edges[e].relation_type
                                == r.relation_type@;
                        assert(noted.pending[i] == ends[k]);
                        assert(follows_edge(
                            edges[e],
                            types,
                            t.incoming,
                            t.level[t.at as int],
                            ends[k],
                        ));
                    }
                }
                if noted.relation_at < noted.relation_types.len() {
                } else {
                    let fetching = TraversalView { pending_at: 0, ..noted };
                    if fetching.pending_at < fetching.pending.len() {
                    } else {
                        lemma_settled_sound(
                            edges,
                            start,
                            depth,
                            TraversalView { at: fetching.at + 1, ..fetching },
                        );
                    }
                }
            },
            (TraversalPhase::Fetching, TraversalEvent::Fetched(fetched)) => {
                let seen = match fetched {
                    Some(e) => Some(e@),
                    None => None,
                };
                let noted = match seen {
                    Some(e) => if t.met(e.id) {
                        t
                    } else {
                        TraversalView {
                            found: t.found.push(e),
                            next_level: t.next_level.push(e.id),
                            ..t
                        }
                    },
                    None => t,
                };
                if seen is Some && !t.met(seen->0.id) {
                    let id = seen->0.id;
                    assert(id == t.pending[t.pending_at as int]);
                    lemma_one_hop_more(
                        edges,
                        types,
                        t.incoming,
                        start,
                        t.level[t.at as int],
                        id,
                        used,
                    );
                    lemma_within_more(edges, types, t.incoming, start, id, used + 1, depth);
                    assert(grounded(edges, start, depth, noted));
                }
                let fetching = TraversalView { pending_at: t.pending_at + 1, ..noted };
                if fetching.pending_at < fetching.pending.len() {
                } else {
                    lemma_settled_sound(
                        edges,
                        start,
                        depth,
                        TraversalView { at: fetching.at + 1, ..fetching },
                    );
                }
            },
            _ => {},
        }
    }
}

} // verus!

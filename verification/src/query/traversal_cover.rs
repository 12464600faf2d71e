use crate::query::graph::entity_ids;
use crate::query::traversal::{
    far_ends, fresh_traversal, traversal_step, TraversalEvent, TraversalPhase, TraversalView,
};
use crate::query::traversal_reach::{follows_edge, hop, EdgeView};
use vstd::prelude::*;

verus! {

/// A graph as a store holds it: its edges, and the identifiers of the entities that
/// are there.
pub struct GraphView {
    pub edges: Seq<EdgeView>,
    pub held: Set<Seq<char>>,
}

/// Where an edge ends for a traversal that comes along it.
pub open spec fn far_end(edge: EdgeView, incoming: bool) -> Seq<char> {
    if incoming {
        edge.source
    } else {
        edge.target
    }
}

/// Where an edge begins for a traversal that goes along it.
pub open spec fn near_end(edge: EdgeView, incoming: bool) -> Seq<char> {
    if incoming {
        edge.target
    } else {
        edge.source
    }
}

/// Whether the traversal goes from `from` to `to` along an edge of the graph to an
/// entity that is there.
pub open spec fn live_hop(
    g: GraphView,
    types: Seq<Seq<char>>,
    incoming: bool,
    from: Seq<char>,
    to: Seq<char>,
) -> bool {
    hop(g.edges, types, incoming, from, to) && g.held.contains(to)
}

/// Whether `path` leads from `start` to `id` over entities that are there, in at least
/// one hop and `hops` at most.
pub open spec fn is_live_route(
    g: GraphView,
    types: Seq<Seq<char>>,
    incoming: bool,
    start: Seq<char>,
    id: Seq<char>,
    hops: nat,
    path: Seq<Seq<char>>,
) -> bool {
    &&& 2 <= path.len() <= hops + 1
    &&& path[0] == start
    &&& path.last() == id
    &&& forall|i: int|
        #![trigger path[i]]
        0 <= i < path.len() - 1 ==> live_hop(g, types, incoming, path[i], path[i + 1])
}

/// Whether `id` is reached from `start` over entities that are there, in at least one
/// hop and `hops` at most.
pub open spec fn live_within(
    g: GraphView,
    types: Seq<Seq<char>>,
    incoming: bool,
    start: Seq<char>,
    id: Seq<char>,
    hops: nat,
) -> bool {
    exists|path: Seq<Seq<char>>| is_live_route(g, types, incoming, start, id, hops, path)
}

/// The relation that a traversal which lists edges is asking for: all relations where
/// it follows all, else the one at hand.
pub open spec fn asked_type(t: TraversalView) -> Option<Seq<char>> {
    if t.relation_types.len() == 0 {
        None
    } else {
        Some(t.relation_types[t.relation_at as int])
    }
}

/// Whether `event` is the full answer of a store that holds the graph to what the
/// traversal has asked for: the relations listed have at their far ends every far end
/// of an edge of the relation asked for at the entity at hand; an entity is handed
/// out where the store holds the one asked for, and it is that one.
pub open spec fn answers_fully(g: GraphView, t: TraversalView, event: TraversalEvent) -> bool {
    match (t.phase, event) {
        (TraversalPhase::Listing, TraversalEvent::Relations(relations)) => forall|e: int|
            0 <= e < g.edges.len() && near_end(#[trigger] g.edges[e], t.incoming)
                == t.level[t.at as int] && (asked_type(t) matches Some(ty)
                ==> g.edges[e].relation_type == ty) ==> far_ends(relations@, t.incoming).contains(
                far_end(g.edges[e], t.incoming),
            ),
        (TraversalPhase::Fetching, TraversalEvent::Fetched(fetched)) => match fetched {
            Some(entity) => entity@.id == t.pending[t.pending_at as int],
            None => !g.held.contains(t.pending[t.pending_at as int]),
        },
        _ => false,
    }
}

/// Whether the traversal knows of the entity: it is the start, or it was found.
pub open spec fn known(t: TraversalView, start: Seq<char>, id: Seq<char>) -> bool {
    id == start || entity_ids(t.found).contains(id)
}

/// Whether the edges of a relation were listed for the entity at hand.
pub open spec fn type_done(t: TraversalView, relation_type: Seq<char>) -> bool {
    if t.relation_types.len() == 0 {
        t.relation_at >= 1
    } else {
        exists|k: int| 0 <= k < t.relation_at && k < t.relation_types.len() && #[trigger] t.relation_types[k] == relation_type
    }
}

/// Whether the traversal is at work on an entity, and this is the one.
pub open spec fn at_hand(t: TraversalView, id: Seq<char>) -> bool {
    (t.phase == TraversalPhase::Listing || t.phase == TraversalPhase::Fetching) && t.at
        < t.level.len() && id == t.level[t.at as int]
}

/// What holds of a traversal between two entities and while it is at work on one: it
/// knows of all that it holds; what it has found is expanded, waits in the level at
/// hand or in the next; all that is within as many hops as levels were gone through is
/// expanded or waits in the level at hand; and from an entity that is expanded, and
/// is not the one at hand, every hop leads to an entity it knows of.
pub open spec fn covering(g: GraphView, start: Seq<char>, depth: nat, t: TraversalView) -> bool {
    let used = (depth - t.levels_left) as nat;
    &&& t.levels_left <= depth
    &&& t.at <= t.level.len()
    &&& t.visited.contains(start) || t.level.contains(start)
    &&& forall|i: int| 0 <= i < t.level.len() ==> known(t, start, #[trigger] t.level[i])
    &&& forall|i: int| 0 <= i < t.visited.len() ==> known(t, start, #[trigger] t.visited[i])
    &&& forall|i: int|
        0 <= i < t.next_level.len() ==> entity_ids(t.found).contains(#[trigger] t.next_level[i])
    &&& forall|id: Seq<char>| #[trigger]
        known(t, start, id) ==> t.visited.contains(id) || t.level.contains(id)
            || t.next_level.contains(id)
    &&& forall|i: int| 0 <= i < t.at ==> t.visited.contains(#[trigger] t.level[i])
    &&& forall|id: Seq<char>| #[trigger]
        live_within(g, t.relation_types, t.incoming, start, id, used) ==> t.visited.contains(id)
            || t.level.contains(id)
    &&& forall|u: Seq<char>, v: Seq<char>| #[trigger]
        live_hop(g, t.relation_types, t.incoming, u, v) && t.visited.contains(u) && !at_hand(t, u)
            ==> known(t, start, v)
}

/// Whether a traversal that is over has found all that is there within its depth.
pub open spec fn all_found(g: GraphView, start: Seq<char>, depth: nat, t: TraversalView) -> bool {
    forall|id: Seq<char>| #[trigger]
        live_within(g, t.relation_types, t.incoming, start, id, depth) ==> known(t, start, id)
}

/// What holds of a traversal at work on an entity: the entity counts as expanded;
/// the far ends of its edges of the relations listed so far are noted; and the
/// traversal knows of each noted far end that was asked for and is there.
pub open spec fn working(g: GraphView, start: Seq<char>, t: TraversalView) -> bool {
    let u = t.level[t.at as int];
    &&& t.at < t.level.len()
    &&& t.levels_left > 0
    &&& t.visited.contains(u)
    &&& t.pending_at <= t.pending.len()
    &&& t.phase == TraversalPhase::Listing ==> t.pending_at == 0 && (t.relation_types.len() == 0
        ==> t.relation_at == 0)
    &&& t.phase == TraversalPhase::Fetching ==> t.relation_at >= 1 && t.relation_at
        >= t.relation_types.len()
    &&& ends_noted(g, start, t)
}

/// Whether the far ends of the edges of the entity at hand are noted, for the
/// relations listed so far, and the traversal knows of each noted far end that was
/// asked for and is there.
pub open spec fn ends_noted(g: GraphView, start: Seq<char>, t: TraversalView) -> bool {
    let u = t.level[t.at as int];
    &&& forall|e: int|
        0 <= e < g.edges.len() && near_end(#[trigger] g.edges[e], t.incoming) == u && type_done(
            t,
            g.edges[e].relation_type,
        ) ==> t.pending.contains(far_end(g.edges[e], t.incoming))
    &&& forall|j: int|
        0 <= j < t.pending_at && g.held.contains(#[trigger] t.pending[j]) ==> known(
            t,
            start,
            t.pending[j],
        )
}

/// Whether a traversal is on its way to finding all that is there within its depth.
pub open spec fn thorough(g: GraphView, start: Seq<char>, depth: nat, t: TraversalView) -> bool {
    match t.phase {
        TraversalPhase::Listing => covering(g, start, depth, t) && working(g, start, t),
        TraversalPhase::Fetching => covering(g, start, depth, t) && working(g, start, t),
        TraversalPhase::Finished => all_found(g, start, depth, t),
        TraversalPhase::Failed => false,
    }
}

/// Whether every hop from an entity that is expanded leads to an entity that the
/// traversal knows of.
pub open spec fn closed(g: GraphView, start: Seq<char>, t: TraversalView) -> bool {
    forall|u: Seq<char>, v: Seq<char>| #[trigger]
        live_hop(g, t.relation_types, t.incoming, u, v) && t.visited.contains(u) ==> known(
            t,
            start,
            v,
        )
}

/// Where every hop from an expanded entity leads to an expanded entity, and the start
/// is expanded, every entity on a route from the start is expanded.
proof fn lemma_closed(
    g: GraphView,
    types: Seq<Seq<char>>,
    incoming: bool,
    start: Seq<char>,
    visited: Seq<Seq<char>>,
    path: Seq<Seq<char>>,
    k: int,
)
    requires
        visited.contains(start),
        forall|u: Seq<char>, v: Seq<char>| #[trigger]
            live_hop(g, types, incoming, u, v) && visited.contains(u) ==> visited.contains(v),
        path.len() >= 1,
        path[0] == start,
        forall|i: int|
            #![trigger path[i]]
            0 <= i < path.len() - 1 ==> live_hop(g, types, incoming, path[i], path[i + 1]),
        0 <= k < path.len(),
    ensures
        visited.contains(path[k]),
    decreases k,
{
    if k > 0 {
        lemma_closed(g, types, incoming, start, visited, path, k - 1);
        assert(live_hop(g, types, incoming, path[k - 1], path[k - 1 + 1]));
    }
}

/// Going on from the entity at hand, a traversal that covers what it has gone through
/// stays thorough.
proof fn lemma_settled_thorough(g: GraphView, start: Seq<char>, depth: nat, t: TraversalView)
    requires
        covering(g, start, depth, t),
        closed(g, start, t),
    ensures
        thorough(g, start, depth, t.settled().0),
    decreases t.levels_left, t.level.len() - t.at,
{
    crate::query::traversal_laws::lemma_settled(t);
    let types = t.relation_types;
    let used = (depth - t.levels_left) as nat;
    if t.levels_left == 0 {
        let ended = t.settled().0;
        assert forall|id: Seq<char>| #[trigger]
            live_within(g, types, t.incoming, start, id, depth) implies known(ended, start, id) by {
            assert(t.visited.contains(id) || t.level.contains(id));
            if t.visited.contains(id) {
                let i = choose|i: int| 0 <= i < t.visited.len() && t.visited[i] == id;
                assert(known(t, start, t.visited[i]));
            } else {
                let i = choose|i: int| 0 <= i < t.level.len() && t.level[i] == id;
                assert(known(t, start, t.level[i]));
            }
        }
    } else if t.at < t.level.len() {
        if t.visited.contains(t.level[t.at as int]) {
            let on = TraversalView { at: t.at + 1, ..t };
            assert(covering(g, start, depth, on)) by {
                assert forall|i: int| 0 <= i < on.at implies on.visited.contains(
                    #[trigger] on.level[i],
                ) by {
                    if i < t.at {
                        assert(t.visited.contains(t.level[i]));
                    }
                }
                assert forall|i: int| 0 <= i < on.level.len() implies known(
                    on,
                    start,
                    #[trigger] on.level[i],
                ) by {
                    assert(known(t, start, t.level[i]));
                }
                assert forall|i: int| 0 <= i < on.visited.len() implies known(
                    on,
                    start,
                    #[trigger] on.visited[i],
                ) by {
                    assert(known(t, start, t.visited[i]));
                }
                assert forall|id: Seq<char>| #[trigger]
                    known(on, start, id) implies on.visited.contains(id) || on.level.contains(id)
                    || on.next_level.contains(id) by {
                    assert(known(t, start, id));
                }
                assert forall|u: Seq<char>, v: Seq<char>| #[trigger]
                    live_hop(g, on.relation_types, on.incoming, u, v) && on.visited.contains(u)
                        && !at_hand(on, u) implies known(on, start, v) by {
                    assert(known(t, start, v));
                }
            }
            assert(closed(g, start, on)) by {
                assert forall|a: Seq<char>, b: Seq<char>| #[trigger]
                    live_hop(g, on.relation_types, on.incoming, a, b) && on.visited.contains(a)
                    implies known(on, start, b) by {
                    assert(known(t, start, b));
                }
            }
            lemma_settled_thorough(g, start, depth, on);
        } else {
            let u = t.level[t.at as int];
            let next = TraversalView {
                visited: t.visited.push(u),
                relation_at: 0,
                pending: Seq::empty(),
                pending_at: 0,
                phase: TraversalPhase::Listing,
                ..t
            };
            assert(next == t.settled().0);
            assert(next.visited[t.visited.len() as int] == u);
            assert(next.visited.contains(u));
            assert forall|x: Seq<char>| t.visited.contains(x) implies next.visited.contains(x) by {
                let i = choose|i: int| 0 <= i < t.visited.len() && t.visited[i] == x;
                assert(next.visited[i] == x);
            }
            assert(covering(g, start, depth, next)) by {
                assert forall|i: int| 0 <= i < next.visited.len() implies known(
                    next,
                    start,
                    #[trigger] next.visited[i],
                ) by {
                    if i < t.visited.len() {
                        assert(known(t, start, t.visited[i]));
                    } else {
                        assert(known(t, start, t.level[t.at as int]));
                    }
                }
                assert forall|i: int| 0 <= i < next.level.len() implies known(
                    next,
                    start,
                    #[trigger] next.level[i],
                ) by {
                    assert(known(t, start, t.level[i]));
                }
                assert forall|id: Seq<char>| #[trigger]
                    known(next, start, id) implies next.visited.contains(id)
                    || next.level.contains(id) || next.next_level.contains(id) by {
                    assert(known(t, start, id));
                }
                assert forall|i: int| 0 <= i < next.at implies next.visited.contains(
                    #[trigger] next.level[i],
                ) by {
                    assert(t.visited.contains(t.level[i]));
                }
                assert forall|id: Seq<char>| #[trigger]
                    live_within(g, next.relation_types, next.incoming, start, id, used)
                    implies next.visited.contains(id) || next.level.contains(id) by {
                    assert(t.visited.contains(id) || t.level.contains(id));
                }
                assert forall|a: Seq<char>, b: Seq<char>| #[trigger]
                    live_hop(g, next.relation_types, next.incoming, a, b) && next.visited.contains(
                        a,
                    ) && !at_hand(next, a) implies known(next, start, b) by {
                    let i = choose|i: int| 0 <= i < next.visited.len() && next.visited[i] == a;
                    if i < t.visited.len() {
                        assert(t.visited[i] == a);
                        assert(t.visited.contains(a));
                        assert(known(t, start, b));
                    }
                }
            }
            assert(working(g, start, next)) by {
                assert forall|e: int|
                    0 <= e < g.edges.len() && near_end(#[trigger] g.edges[e], next.incoming) == u
                        && type_done(next, g.edges[e].relation_type) implies next.pending.contains(
                    far_end(g.edges[e], next.incoming),
                ) by {
                    assert(!type_done(next, g.edges[e].relation_type));
                }
            }
        }
    } else {
        // The level is through: all of it is expanded.
        assert forall|id: Seq<char>| t.level.contains(id) implies t.visited.contains(id) by {
            let i = choose|i: int| 0 <= i < t.level.len() && t.level[i] == id;
            assert(t.visited.contains(t.level[i]));
        }
        assert(t.visited.contains(start));
        if t.next_level.len() == 0 {
            let ended = t.settled().0;
            assert forall|a: Seq<char>, b: Seq<char>| #[trigger]
                live_hop(g, types, t.incoming, a, b) && t.visited.contains(a)
                implies t.visited.contains(b) by {
                assert(known(t, start, b));
                if t.next_level.contains(b) {
                    let i = choose|i: int| 0 <= i < t.next_level.len() && t.next_level[i] == b;
                }
            }
            assert forall|id: Seq<char>| #[trigger]
                live_within(g, types, t.incoming, start, id, depth) implies known(ended, start, id) by {
                let path = choose|path: Seq<Seq<char>>|
                    is_live_route(g, types, t.incoming, start, id, depth, path);
                lemma_closed(g, types, t.incoming, start, t.visited, path, path.len() - 1);
                let i = choose|i: int| 0 <= i < t.visited.len() && t.visited[i] == id;
                assert(known(t, start, t.visited[i]));
            }
        } else {
            let on = TraversalView {
                level: t.next_level,
                next_level: Seq::empty(),
                at: 0,
                levels_left: (t.levels_left - 1) as nat,
                ..t
            };
            let more: nat = used + 1;
            assert(more == (depth - on.levels_left) as nat);
            assert(covering(g, start, depth, on)) by {
                assert forall|i: int| 0 <= i < on.level.len() implies known(
                    on,
                    start,
                    #[trigger] on.level[i],
                ) by {
                    assert(entity_ids(t.found).contains(t.next_level[i]));
                }
                assert forall|id: Seq<char>| #[trigger]
                    known(on, start, id) implies on.visited.contains(id) || on.level.contains(id)
                    || on.next_level.contains(id) by {
                    assert(known(t, start, id));
                }
                assert forall|id: Seq<char>| #[trigger]
                    live_within(g, on.relation_types, on.incoming, start, id, more)
                    implies on.visited.contains(id) || on.level.contains(id) by {
                    let path = choose|path: Seq<Seq<char>>|
                        is_live_route(g, types, t.incoming, start, id, more, path);
                    let before = path.drop_last();
                    let u = path[path.len() - 2];
                    assert(live_hop(g, types, t.incoming, path[path.len() - 2], path[path.len() - 2 + 1]));
                    if path.len() > 2 {
                        assert forall|i: int|
                            #![trigger before[i]]
                            0 <= i < before.len() - 1 implies live_hop(
                            g,
                            types,
                            t.incoming,
                            before[i],
                            before[i + 1],
                        ) by {
                            assert(before[i] == path[i] && before[i + 1] == path[i + 1]);
                        }
                        assert(is_live_route(g, types, t.incoming, start, u, used, before));
                        assert(live_within(g, types, t.incoming, start, u, used));
                        assert(t.visited.contains(u) || t.level.contains(u));
                    } else {
                        assert(u == start);
                    }
                    assert(t.visited.contains(u));
                    assert(known(t, start, id));
                }
                assert forall|a: Seq<char>, b: Seq<char>| #[trigger]
                    live_hop(g, on.relation_types, on.incoming, a, b) && on.visited.contains(a)
                        && !at_hand(on, a) implies known(on, start, b) by {
                    assert(known(t, start, b));
                }
            }
            assert(closed(g, start, on)) by {
                assert forall|a: Seq<char>, b: Seq<char>| #[trigger]
                    live_hop(g, on.relation_types, on.incoming, a, b) && on.visited.contains(a)
                    implies known(on, start, b) by {
                    assert(known(t, start, b));
                }
            }
            lemma_settled_thorough(g, start, depth, on);
        }
    }
}

/// A traversal that begins is on its way to finding all that is there.
pub proof fn a_new_traversal_is_thorough(
    g: GraphView,
    start: Seq<char>,
    relation_types: Seq<Seq<char>>,
    incoming: bool,
    depth: nat,
)
    ensures
        thorough(g, start, depth, fresh_traversal(start, relation_types, incoming, depth).settled().0),
{
    let t = fresh_traversal(start, relation_types, incoming, depth);
    assert(t.level[0] == start);
    assert(t.level.contains(start));
    assert(entity_ids(t.found).len() == 0);
    assert forall|id: Seq<char>| #[trigger]
        live_within(g, relation_types, incoming, start, id, 0) implies false by {
        let path = choose|path: Seq<Seq<char>>|
            is_live_route(g, relation_types, incoming, start, id, 0, path);
    }
    assert(covering(g, start, depth, t));
    lemma_settled_thorough(g, start, depth, t);
}

/// What stands in one of two lists stands in the two put together.
proof fn lemma_joined_contains(a: Seq<Seq<char>>, b: Seq<Seq<char>>, x: Seq<char>)
    requires
        a.contains(x) || b.contains(x),
    ensures
        (a + b).contains(x),
{
    if a.contains(x) {
        let i = choose|i: int| 0 <= i < a.len() && a[i] == x;
        assert((a + b)[i] == x);
    } else {
        let i = choose|i: int| 0 <= i < b.len() && b[i] == x;
        assert((a + b)[a.len() + i] == x);
    }
}

/// A traversal finds all that is there within its depth: as long as the store answers
/// in full what it is asked, every step keeps the traversal on its way, and when the
/// traversal is over it knows of every entity that is reached from its start over
/// entities that are there, in `depth` hops at most, along edges of the relations it
/// follows.
pub proof fn all_that_is_there_is_found(
    g: GraphView,
    start: Seq<char>,
    depth: nat,
    t: TraversalView,
    event: TraversalEvent,
)
    requires
        thorough(g, start, depth, t),
        t.well_formed(),
        answers_fully(g, t, event),
    ensures
        thorough(g, start, depth, traversal_step(t, event).0),
        traversal_step(t, event).0.phase == TraversalPhase::Finished ==> all_found(
            g,
            start,
            depth,
            traversal_step(t, event).0,
        ),
{
    let types = t.relation_types;
    let u = t.level[t.at as int];
    match (t.phase, event) {
        (TraversalPhase::Listing, TraversalEvent::Relations(relations)) => {
            let ends = far_ends(relations@, t.incoming);
            let noted = TraversalView {
                pending: t.pending + ends,
                relation_at: t.relation_at + 1,
                ..t
            };
            lemma_same_ground(g, start, depth, t, noted);
            assert forall|e: int|
                0 <= e < g.edges.len() && near_end(#[trigger] g.edges[e], noted.incoming) == u
                    && type_done(noted, g.edges[e].relation_type) implies noted.pending.contains(
                far_end(g.edges[e], noted.incoming),
            ) by {
                let far = far_end(g.edges[e], t.incoming);
                if type_done(t, g.edges[e].relation_type) {
                    assert(t.pending.contains(far));
                } else {
                    assert(asked_type(t) matches Some(ty) ==> g.edges[e].relation_type == ty);
                    assert(ends.contains(far));
                }
                lemma_joined_contains(t.pending, ends, far);
            }
            if noted.relation_at < noted.relation_types.len() {
                assert(working(g, start, noted));
            } else {
                let fetching = TraversalView { pending_at: 0, ..noted };
                if fetching.pending_at < fetching.pending.len() {
                    let next = TraversalView { phase: TraversalPhase::Fetching, ..fetching };
                    lemma_same_ground(g, start, depth, t, next);
                    assert(working(g, start, next));
                } else {
                    lemma_same_ground(g, start, depth, t, fetching);
                    assert(ends_noted(g, start, fetching));
                    lemma_through(g, start, depth, fetching);
                }
            }
        },
        (TraversalPhase::Fetching, TraversalEvent::Fetched(fetched)) => {
            let seen = match fetched {
                Some(e) => Some(e@),
                None => None,
            };
            let noted = match seen {
                Some(e) => if t.met(e.id) {
                    t
                } else {
                    TraversalView {
                        found: t.found.push(e),
                        next_level: t.next_level.push(e.id),
                        ..t
                    }
                },
                None => t,
            };
            if seen is Some && !t.met(seen->0.id) {
                lemma_found_more(g, start, depth, t, seen->0);
            }
            let fetching = TraversalView { pending_at: t.pending_at + 1, ..noted };
            lemma_same_ground(g, start, depth, noted, fetching);
            let asked = t.pending[t.pending_at as int];
            assert(g.held.contains(asked) ==> known(noted, start, asked)) by {
                if g.held.contains(asked) {
                    assert(seen is Some && seen->0.id == asked);
                    if t.met(asked) {
                        if t.visited.contains(asked) {
                            let i = choose|i: int| 0 <= i < t.visited.len() && t.visited[i] == asked;
                            assert(known(t, start, t.visited[i]));
                        }
                    } else {
                        assert(entity_ids(noted.found)[t.found.len() as int] == asked);
                    }
                }
            }
            assert forall|j: int|
                0 <= j < fetching.pending_at && g.held.contains(
                    #[trigger] fetching.pending[j],
                ) implies known(fetching, start, fetching.pending[j]) by {
                if j < t.pending_at {
                    assert(known(t, start, t.pending[j]));
                    lemma_known_stays(t, noted, start, t.pending[j]);
                }
            }
            assert(working(g, start, fetching));
            if fetching.pending_at < fetching.pending.len() {
            } else {
                lemma_through(g, start, depth, fetching);
            }
        },
        _ => {},
    }
}

/// What a traversal knows of it still knows of when it has found more.
proof fn lemma_known_stays(t: TraversalView, later: TraversalView, start: Seq<char>, id: Seq<char>)
    requires
        known(t, start, id),
        t.found.is_prefix_of(later.found),
    ensures
        known(later, start, id),
{
    if id != start {
        let i = choose|i: int| 0 <= i < entity_ids(t.found).len() && entity_ids(t.found)[i] == id;
        assert(later.found[i] == t.found[i]);
        assert(entity_ids(later.found)[i] == id);
    }
}

/// A traversal that stands where another stands, with the same lists of entities, and
/// is at work as the other is, covers what the other covers.
proof fn lemma_same_ground(
    g: GraphView,
    start: Seq<char>,
    depth: nat,
    t: TraversalView,
    other: TraversalView,
)
    requires
        covering(g, start, depth, t),
        other.relation_types == t.relation_types,
        other.incoming == t.incoming,
        other.levels_left == t.levels_left,
        other.visited == t.visited,
        other.found == t.found,
        other.level == t.level,
        other.at == t.at,
        other.next_level == t.next_level,
        (other.phase == TraversalPhase::Listing || other.phase == TraversalPhase::Fetching) == (
        t.phase == TraversalPhase::Listing || t.phase == TraversalPhase::Fetching),
    ensures
        covering(g, start, depth, other),
{
    assert forall|i: int| 0 <= i < other.level.len() implies known(
        other,
        start,
        #[trigger] other.level[i],
    ) by {
        assert(known(t, start, t.level[i]));
    }
    assert forall|i: int| 0 <= i < other.visited.len() implies known(
        other,
        start,
        #[trigger] other.visited[i],
    ) by {
        assert(known(t, start, t.visited[i]));
    }
    assert forall|id: Seq<char>| #[trigger]
        known(other, start, id) implies other.visited.contains(id) || other.level.contains(id)
        || other.next_level.contains(id) by {
        assert(known(t, start, id));
    }
    assert forall|a: Seq<char>, b: Seq<char>| #[trigger]
        live_hop(g, other.relation_types, other.incoming, a, b) && other.visited.contains(a)
            && !at_hand(other, a) implies known(other, start, b) by {
        assert(!at_hand(t, a));
        assert(known(t, start, b));
    }
}

/// A traversal that has found one more entity, which it had not met, covers what it
/// covered.
proof fn lemma_found_more(
    g: GraphView,
    start: Seq<char>,
    depth: nat,
    t: TraversalView,
    e: crate::db::types::EntityView,
)
    requires
        covering(g, start, depth, t),
    ensures
        covering(
            g,
            start,
            depth,
            TraversalView {
                found: t.found.push(e),
                next_level: t.next_level.push(e.id),
                ..t
            },
        ),
{
    let more = TraversalView {
        found: t.found.push(e),
        next_level: t.next_level.push(e.id),
        ..t
    };
    assert(entity_ids(more.found)[t.found.len() as int] == e.id);
    assert(more.next_level[t.next_level.len() as int] == e.id);
    assert forall|id: Seq<char>| known(t, start, id) implies known(more, start, id) by {
        lemma_known_stays(t, more, start, id);
    }
    assert forall|i: int| 0 <= i < more.level.len() implies known(
        more,
        start,
        #[trigger] more.level[i],
    ) by {
        assert(known(t, start, t.level[i]));
    }
    assert forall|i: int| 0 <= i < more.visited.len() implies known(
        more,
        start,
        #[trigger] more.visited[i],
    ) by {
        assert(known(t, start, t.visited[i]));
    }
    assert forall|i: int| 0 <= i < more.next_level.len() implies entity_ids(more.found).contains(
        #[trigger] more.next_level[i],
    ) by {
        if i < t.next_level.len() {
            assert(entity_ids(t.found).contains(t.next_level[i]));
            assert(known(t, start, t.next_level[i]));
            let k = choose|k: int|
                0 <= k < entity_ids(t.found).len() && entity_ids(t.found)[k] == t.next_level[i];
            assert(entity_ids(more.found)[k] == t.next_level[i]);
        }
    }
    assert forall|id: Seq<char>| #[trigger]
        known(more, start, id) implies more.visited.contains(id) || more.level.contains(id)
        || more.next_level.contains(id) by {
        if id == e.id {
        } else if id != start {
            let k = choose|k: int|
                0 <= k < entity_ids(more.found).len() && entity_ids(more.found)[k] == id;
            assert(k < t.found.len());
            assert(entity_ids(t.found)[k] == id);
            assert(known(t, start, id));
            if t.next_level.contains(id) {
                let i = choose|i: int| 0 <= i < t.next_level.len() && t.next_level[i] == id;
                assert(more.next_level[i] == id);
            }
        } else {
            assert(known(t, start, id));
            if t.next_level.contains(id) {
                let i = choose|i: int| 0 <= i < t.next_level.len() && t.next_level[i] == id;
                assert(more.next_level[i] == id);
            }
        }
    }
    assert forall|a: Seq<char>, b: Seq<char>| #[trigger]
        live_hop(g, more.relation_types, more.incoming, a, b) && more.visited.contains(a)
            && !at_hand(more, a) implies known(more, start, b) by {
        assert(!at_hand(t, a));
        assert(known(t, start, b));
    }
}

/// A traversal that has fetched all far ends of the entity at hand goes on thorough.
proof fn lemma_through(g: GraphView, start: Seq<char>, depth: nat, t: TraversalView)
    requires
        covering(g, start, depth, t),
        t.at < t.level.len(),
        t.visited.contains(t.level[t.at as int]),
        ends_noted(g, start, t),
        t.phase == TraversalPhase::Listing || t.phase == TraversalPhase::Fetching,
        t.relation_at >= 1,
        t.relation_at >= t.relation_types.len(),
        t.pending_at >= t.pending.len(),
    ensures
        thorough(g, start, depth, (TraversalView { at: t.at + 1, ..t }).settled().0),
{
    let on = TraversalView { at: t.at + 1, ..t };
    let u = t.level[t.at as int];
    let types = t.relation_types;
    assert forall|a: Seq<char>, b: Seq<char>| #[trigger]
        live_hop(g, types, t.incoming, a, b) && t.visited.contains(a) implies known(t, start, b) by {
        if at_hand(t, a) {
            let e = choose|e: int|
                0 <= e < g.edges.len() && follows_edge(
                    #[trigger] g.edges[e],
                    types,
                    t.incoming,
                    a,
                    b,
                );
            assert(near_end(g.edges[e], t.incoming) == u);
            assert(far_end(g.edges[e], t.incoming) == b);
            if types.len() > 0 {
                let k = choose|k: int|
                    0 <= k < types.len() && types[k] == g.edges[e].relation_type;
                assert(types[k] == g.edges[e].relation_type);
            }
            assert(type_done(t, g.edges[e].relation_type));
            assert(t.pending.contains(b));
            let j = choose|j: int| 0 <= j < t.pending.len() && t.pending[j] == b;
            assert(g.held.contains(t.pending[j]));
        }
    }
    assert(closed(g, start, on)) by {
        assert forall|a: Seq<char>, b: Seq<char>| #[trigger]
            live_hop(g, on.relation_types, on.incoming, a, b) && on.visited.contains(a)
            implies known(on, start, b) by {
            assert(known(t, start, b));
        }
    }
    assert(covering(g, start, depth, on)) by {
        assert forall|i: int| 0 <= i < on.level.len() implies known(
            on,
            start,
            #[trigger] on.level[i],
        ) by {
            assert(known(t, start, t.level[i]));
        }
        assert forall|i: int| 0 <= i < on.visited.len() implies known(
            on,
            start,
            #[trigger] on.visited[i],
        ) by {
            assert(known(t, start, t.visited[i]));
        }
        assert forall|id: Seq<char>| #[trigger]
            known(on, start, id) implies on.visited.contains(id) || on.level.contains(id)
            || on.next_level.contains(id) by {
            assert(known(t, start, id));
        }
        assert forall|i: int| 0 <= i < on.at implies on.visited.contains(#[trigger] on.level[i]) by {
            if i < t.at {
                assert(t.visited.contains(t.level[i]));
            }
        }
    }
    lemma_settled_thorough(g, start, depth, on);
}

} // verus!

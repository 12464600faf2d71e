use crate::text::{first_position, key_position, lemma_distinct_within, push_unique, str_eq, views};
use vstd::prelude::*;

verus! {

/// The edges that leave one node: the node and the nodes they lead to.
#[derive(Debug, Clone)]
pub struct AdjacencyEntry {
    pub node: String,
    pub targets: Vec<String>,
}

/// The nodes that the entries of an adjacency list are for.
pub open spec fn entry_nodes(adjacency: Seq<AdjacencyEntry>) -> Seq<Seq<char>> {
    adjacency.map_values(|e: AdjacencyEntry| e.node@)
}

/// The nodes that the edges from `node` lead to: the targets of the first entry for the
/// node, none where it has no entry.
pub open spec fn neighbours(adjacency: Seq<AdjacencyEntry>, node: Seq<char>) -> Seq<Seq<char>> {
    match first_position(entry_nodes(adjacency), node) {
        Some(i) => views(adjacency[i].targets@),
        None => Seq::empty(),
    }
}

/// Whether an edge leads from `a` to `b`.
pub open spec fn edge(adjacency: Seq<AdjacencyEntry>, a: Seq<char>, b: Seq<char>) -> bool {
    neighbours(adjacency, a).contains(b)
}

/// Whether a list of nodes is a path from `a` to `b`: it starts at `a`, ends at `b`,
/// and an edge leads from each of its nodes to the next.
pub open spec fn joins(
    adjacency: Seq<AdjacencyEntry>,
    path: Seq<Seq<char>>,
    a: Seq<char>,
    b: Seq<char>,
) -> bool {
    &&& path.len() >= 2
    &&& path[0] == a
    &&& path.last() == b
    &&& forall|i: int| 0 <= i < path.len() - 1 ==> edge(adjacency, #[trigger] path[i], path[i + 1])
}

/// Whether `b` is reached from `a` along one edge or more.
pub open spec fn reachable(adjacency: Seq<AdjacencyEntry>, a: Seq<char>, b: Seq<char>) -> bool {
    exists|path: Seq<Seq<char>>| joins(adjacency, path, a, b)
}

/// All targets of all entries, entry by entry.
pub open spec fn all_targets(adjacency: Seq<AdjacencyEntry>) -> Seq<Seq<char>>
    decreases adjacency.len(),
{
    if adjacency.len() == 0 {
        Seq::empty()
    } else {
        all_targets(adjacency.drop_last()) + views(adjacency.last().targets@)
    }
}

/// Every target of every entry is among all targets.
pub proof fn lemma_target_listed(adjacency: Seq<AdjacencyEntry>, i: int, j: int)
    requires
        0 <= i < adjacency.len(),
        0 <= j < adjacency[i].targets@.len(),
    ensures
        all_targets(adjacency).contains(adjacency[i].targets@[j]@),
    decreases adjacency.len(),
{
    let all = all_targets(adjacency);
    let rest = all_targets(adjacency.drop_last());
    if i == adjacency.len() - 1 {
        assert(all[rest.len() + j] == views(adjacency[i].targets@)[j]);
    } else {
        lemma_target_listed(adjacency.drop_last(), i, j);
        let at = choose|at: int| 0 <= at < rest.len() && rest[at] == adjacency[i].targets@[j]@;
        assert(all[at] == rest[at]);
    }
}

/// Whatever an edge leads to is among all targets.
pub proof fn lemma_neighbour_listed(adjacency: Seq<AdjacencyEntry>, a: Seq<char>, b: Seq<char>)
    requires
        edge(adjacency, a, b),
    ensures
        all_targets(adjacency).contains(b),
{
    crate::text::lemma_key_position(entry_nodes(adjacency), a, 0);
    let i = first_position(entry_nodes(adjacency), a)->0;
    let targets = views(adjacency[i].targets@);
    let j = choose|j: int| 0 <= j < targets.len() && targets[j] == b;
    lemma_target_listed(adjacency, i, j);
}

/// A set of nodes that holds what the edges from `start` lead to, and with each of its
/// nodes what the edges from that node lead to, holds all that is reachable from
/// `start`.
pub proof fn lemma_closed_holds_reachable(
    adjacency: Seq<AdjacencyEntry>,
    start: Seq<char>,
    found: Seq<Seq<char>>,
    b: Seq<char>,
    path: Seq<Seq<char>>,
)
    requires
        forall|t: Seq<char>| #[trigger] edge(adjacency, start, t) ==> found.contains(t),
        forall|x: Seq<char>, t: Seq<char>|
            found.contains(x) && #[trigger] edge(adjacency, x, t) ==> found.contains(t),
        joins(adjacency, path, start, b),
    ensures
        found.contains(b),
    decreases path.len(),
{
    let last = path.len() - 1;
    assert(edge(adjacency, path[last - 1], path[last - 1 + 1]));
    if path.len() > 2 {
        let shorter = path.drop_last();
        let m = path[last - 1];
        assert forall|i: int| 0 <= i < shorter.len() - 1 implies edge(
            adjacency,
            #[trigger] shorter[i],
            shorter[i + 1],
        ) by {
            assert(edge(adjacency, path[i], path[i + 1]));
        }
        lemma_closed_holds_reachable(adjacency, start, found, m, shorter);
    }
}

/// What is one edge beyond a reachable node is reachable.
pub proof fn lemma_reachable_step(
    adjacency: Seq<AdjacencyEntry>,
    start: Seq<char>,
    m: Seq<char>,
    b: Seq<char>,
)
    requires
        reachable(adjacency, start, m),
        edge(adjacency, m, b),
    ensures
        reachable(adjacency, start, b),
{
    let path = choose|path: Seq<Seq<char>>| joins(adjacency, path, start, m);
    let longer = path.push(b);
    assert forall|i: int| 0 <= i < longer.len() - 1 implies edge(
        adjacency,
        #[trigger] longer[i],
        longer[i + 1],
    ) by {
        if i < path.len() - 1 {
            assert(edge(adjacency, path[i], path[i + 1]));
        }
    }
    assert(joins(adjacency, longer, start, b));
}

/// What an edge from the start leads to is reachable.
pub proof fn lemma_reachable_first(adjacency: Seq<AdjacencyEntry>, start: Seq<char>, b: Seq<char>)
    requires
        edge(adjacency, start, b),
    ensures
        reachable(adjacency, start, b),
{
    let path = seq![start, b];
    assert(joins(adjacency, path, start, b));
}

/// Where the entry for a node stands in an adjacency list.
pub fn entry_position(adjacency: &Vec<AdjacencyEntry>, node: &str) -> (pos: Option<usize>)
    ensures
        match pos {
            Some(i) => first_position(entry_nodes(adjacency@), node@) == Some(i as int) && i
                < adjacency.len(),
            None => first_position(entry_nodes(adjacency@), node@) is None,
        },
{
    let mut i: usize = 0;
    while i < adjacency.len()
        invariant
            i <= adjacency.len(),
            first_position(entry_nodes(adjacency@), node@) == key_position(
                entry_nodes(adjacency@),
                node@,
                i as int,
            ),
        decreases adjacency.len() - i,
    {
        if str_eq(adjacency[i].node.as_str(), node) {
            return Some(i);
        }
        i += 1;
    }
    None
}

/// The nodes that the edges from `node` lead to.
pub fn direct_neighbours(adjacency: &Vec<AdjacencyEntry>, node: &str) -> (found: Vec<String>)
    ensures
        views(found@) == neighbours(adjacency@, node@),
{
    match entry_position(adjacency, node) {
        Some(i) => crate::text::clone_list(&adjacency[i].targets),
        None => {
            let found: Vec<String> = Vec::new();
            assert(views(found@) =~= Seq::<Seq<char>>::empty());
            found
        },
    }
}

/// Adds what the edges from `node` lead to, as far as `found` does not hold it yet.
fn add_neighbours(adjacency: &Vec<AdjacencyEntry>, node: &str, found: &mut Vec<String>)
    requires
        views(old(found)@).no_duplicates(),
    ensures
        views(final(found)@).no_duplicates(),
        views(old(found)@).is_prefix_of(views(final(found)@)),
        forall|t: Seq<char>| #[trigger] edge(adjacency@, node@, t) ==> views(final(found)@).contains(t),
        forall|x: Seq<char>|
            views(final(found)@).contains(x) ==> views(old(found)@).contains(x) || edge(
                adjacency@,
                node@,
                x,
            ),
{
    let Some(at) = entry_position(adjacency, node) else {
        return ;
    };
    let targets = &adjacency[at].targets;
    let mut j: usize = 0;
    while j < targets.len()
        invariant
            j <= targets.len(),
            views(targets@) == neighbours(adjacency@, node@),
            views(found@).no_duplicates(),
            views(old(found)@).is_prefix_of(views(found@)),
            forall|k: int| 0 <= k < j ==> views(found@).contains(#[trigger] views(targets@)[k]),
            forall|x: Seq<char>|
                views(found@).contains(x) ==> views(old(found)@).contains(x) || edge(
                    adjacency@,
                    node@,
                    x,
                ),
        decreases targets.len() - j,
    {
        let ghost before = views(found@);
        let added = push_unique(found, targets[j].as_str());
        proof {
            let t = views(targets@)[j as int];
            assert(t == targets@[j as int]@);
            assert(neighbours(adjacency@, node@).contains(t));
            if added {
                assert(views(found@)[before.len() as int] == t);
            }
            assert forall|k: int| 0 <= k < j + 1 implies views(found@).contains(
                #[trigger] views(targets@)[k],
            ) by {
                if k < j {
                    let w = choose|w: int| 0 <= w < before.len() && before[w] == views(targets@)[k];
                    assert(views(found@)[w] == before[w]);
                }
            }
            assert forall|x: Seq<char>| views(found@).contains(x) implies views(
                old(found)@,
            ).contains(x) || edge(adjacency@, node@, x) by {
                let w = choose|w: int| 0 <= w < views(found@).len() && views(found@)[w] == x;
                if w < before.len() {
                    assert(before.contains(before[w]));
                }
            }
        }
        j += 1;
    }
    proof {
        assert forall|t: Seq<char>| edge(adjacency@, node@, t) implies views(found@).contains(
            t,
        ) by {
            let k = choose|k: int| 0 <= k < views(targets@).len() && views(targets@)[k] == t;
            assert(views(found@).contains(views(targets@)[k]));
        }
    }
}

/// The nodes that are reachable from `start` along one edge or more, each once, in the
/// order in which a breadth-first search from `start` finds them.
pub fn reachable_nodes(adjacency: &Vec<AdjacencyEntry>, start: &str) -> (found: Vec<String>)
    ensures
        views(found@).no_duplicates(),
        forall|x: Seq<char>| views(found@).contains(x) <==> reachable(adjacency@, start@, x),
{
    let mut found: Vec<String> = Vec::new();
    assert(views(found@) =~= Seq::<Seq<char>>::empty());
    add_neighbours(adjacency, start, &mut found);
    proof {
        assert forall|x: Seq<char>| views(found@).contains(x) implies reachable(
            adjacency@,
            start@,
            x,
        ) by {
            lemma_reachable_first(adjacency@, start@, x);
        }
        assert forall|i: int| 0 <= i < views(found@).len() implies all_targets(
            adjacency@,
        ).contains(#[trigger] views(found@)[i]) by {
            assert(views(found@).contains(views(found@)[i]));
            lemma_reachable_listed(adjacency@, start@, views(found@)[i]);
        }
        lemma_distinct_within(views(found@), all_targets(adjacency@));
    }
    let mut next: usize = 0;
    while next < found.len()
        invariant
            next <= found.len(),
            found.len() <= all_targets(adjacency@).len(),
            views(found@).no_duplicates(),
            forall|x: Seq<char>| views(found@).contains(x) ==> reachable(adjacency@, start@, x),
            forall|t: Seq<char>| #[trigger] edge(adjacency@, start@, t) ==> views(found@).contains(t),
            forall|i: int, t: Seq<char>|
                0 <= i < next && #[trigger] edge(adjacency@, views(found@)[i], t) ==> views(
                    found@,
                ).contains(t),
        decreases all_targets(adjacency@).len() - next,
    {
        let ghost before = views(found@);
        let current = found[next].clone();
        assert(current@ == before[next as int]);
        add_neighbours(adjacency, current.as_str(), &mut found);
        proof {
            let after = views(found@);
            assert forall|x: Seq<char>| after.contains(x) implies reachable(
                adjacency@,
                start@,
                x,
            ) by {
                if !before.contains(x) {
                    assert(before.contains(before[next as int]));
                    lemma_reachable_step(adjacency@, start@, current@, x);
                }
            }
            assert forall|t: Seq<char>| edge(adjacency@, start@, t) implies after.contains(t) by {
                let w = choose|w: int| 0 <= w < before.len() && before[w] == t;
                assert(after[w] == before[w]);
            }
            assert forall|i: int, t: Seq<char>|
                0 <= i < next + 1 && #[trigger] edge(
                    adjacency@,
                    after[i],
                    t,
                ) implies after.contains(t) by {
                assert(after[i] == before[i]);
                if i < next {
                    assert(before.contains(t));
                    let w = choose|w: int| 0 <= w < before.len() && before[w] == t;
                    assert(after[w] == before[w]);
                }
            }
            assert forall|i: int| 0 <= i < after.len() implies all_targets(adjacency@).contains(
                #[trigger] after[i],
            ) by {
                assert(after.contains(after[i]));
                let x = after[i];
                assert(reachable(adjacency@, start@, x));
                lemma_reachable_listed(adjacency@, start@, x);
            }
            lemma_distinct_within(after, all_targets(adjacency@));
        }
        next += 1;
    }
    proof {
        let all = views(found@);
        assert forall|x: Seq<char>| reachable(adjacency@, start@, x) implies all.contains(x) by {
            let path = choose|path: Seq<Seq<char>>| joins(adjacency@, path, start@, x);
            assert forall|y: Seq<char>, t: Seq<char>|
                all.contains(y) && #[trigger] edge(adjacency@, y, t) implies all.contains(t) by {
                let i = choose|i: int| 0 <= i < all.len() && all[i] == y;
                assert(edge(adjacency@, all[i], t));
            }
            lemma_closed_holds_reachable(adjacency@, start@, all, x, path);
        }
    }
    found
}

/// What is reachable is among all targets.
pub proof fn lemma_reachable_listed(adjacency: Seq<AdjacencyEntry>, start: Seq<char>, x: Seq<char>)
    requires
        reachable(adjacency, start, x),
    ensures
        all_targets(adjacency).contains(x),
{
    let path = choose|path: Seq<Seq<char>>| joins(adjacency, path, start, x);
    let last = path.len() - 1;
    assert(edge(adjacency, path[last - 1], path[last - 1 + 1]));
    lemma_neighbour_listed(adjacency, path[last - 1], x);
}

} // verus!

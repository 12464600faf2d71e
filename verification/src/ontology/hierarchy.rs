use crate::ontology::entity_type::{opt_view, EntityType};
use crate::ontology::schema::{find_type, has_type, type_ids};
use crate::text::{first_position, lemma_key_position};
use vstd::prelude::*;

verus! {

/// The parent that a schema gives an identifier: that of the type it names, if it names
/// one and that type has a parent.
pub open spec fn parent_of(types: Seq<EntityType>, id: Seq<char>) -> Option<Seq<char>> {
    match find_type(types, id) {
        Some(t) => opt_view(t.parent),
        None => None,
    }
}

/// The identifier reached from `id` by `k` steps to the parent, if the chain of parents
/// is that long.
pub open spec fn walk(types: Seq<EntityType>, id: Seq<char>, k: nat) -> Option<Seq<char>>
    decreases k,
{
    if k == 0 {
        Some(id)
    } else {
        match walk(types, id, (k - 1) as nat) {
            Some(c) => parent_of(types, c),
            None => None,
        }
    }
}

/// Whether `other` is `id` or is reached from it by steps to the parent.
pub open spec fn is_ancestor(types: Seq<EntityType>, id: Seq<char>, other: Seq<char>) -> bool {
    exists|k: nat| walk(types, id, k) == Some(other)
}

/// Whether the chain of parents from `id` comes to one identifier twice.
pub open spec fn cyclic_from(types: Seq<EntityType>, id: Seq<char>) -> bool {
    exists|i: nat, j: nat| i < j && walk(types, id, i) is Some && walk(types, id, i) == walk(types, id, j)
}

/// Whether no two types of a list carry the same identifier.
pub open spec fn distinct_ids(types: Seq<EntityType>) -> bool {
    type_ids(types).no_duplicates()
}

/// The identifiers on the chain of parents from `id`, `id` first, as far as the chain
/// goes and for at most `fuel` steps.
pub open spec fn chain(types: Seq<EntityType>, id: Seq<char>, fuel: nat) -> Seq<Seq<char>>
    decreases fuel,
{
    if fuel == 0 {
        seq![id]
    } else {
        match parent_of(types, id) {
            Some(p) => seq![id] + chain(types, p, (fuel - 1) as nat),
            None => seq![id],
        }
    }
}

/// A type that an identifier finds is in the list and carries that identifier.
pub proof fn lemma_found_type(types: Seq<EntityType>, id: Seq<char>)
    ensures
        find_type(types, id) is Some <==> has_type(types, id),
        find_type(types, id) matches Some(t) ==> t.id@ == id && types.contains(t),
{
    lemma_key_position(type_ids(types), id, 0);
    if let Some(i) = first_position(type_ids(types), id) {
        assert(types[i] == types[i]);
    }
}

/// In a list without repeated identifiers, each type is the one its identifier finds.
pub proof fn lemma_distinct_finds(types: Seq<EntityType>, i: int)
    requires
        distinct_ids(types),
        0 <= i < types.len(),
    ensures
        find_type(types, types[i].id@) == Some(types[i]),
{
    let keys = type_ids(types);
    lemma_key_position(keys, types[i].id@, 0);
    assert(keys[i] == types[i].id@);
}

/// One step from an identifier leads to its parent.
pub proof fn lemma_walk_one(types: Seq<EntityType>, id: Seq<char>)
    ensures
        walk(types, id, 0) == Some(id),
        walk(types, id, 1) == parent_of(types, id),
{
    assert(walk(types, id, 0) == Some(id));
}

/// Steps add up: `i + m` steps from `id` are `m` steps from where `i` steps lead.
pub proof fn lemma_walk_add(types: Seq<EntityType>, id: Seq<char>, i: nat, m: nat)
    ensures
        walk(types, id, i + m) == match walk(types, id, i) {
            Some(c) => walk(types, c, m),
            None => None,
        },
    decreases m,
{
    if m > 0 {
        lemma_walk_add(types, id, i, (m - 1) as nat);
        assert(((i + m) - 1) as nat == i + (m - 1) as nat);
    }
}

/// Where a chain of parents is `k` steps long, it is `j` steps long for every `j` below
/// `k`, and each identifier before the last names a type.
pub proof fn lemma_walk_prefix(types: Seq<EntityType>, id: Seq<char>, k: nat, j: nat)
    requires
        walk(types, id, k) is Some,
        j <= k,
    ensures
        walk(types, id, j) is Some,
        j < k ==> has_type(types, walk(types, id, j)->0),
    decreases k,
{
    if j < k {
        lemma_walk_prefix(types, id, (k - 1) as nat, j);
        if j + 1 == k {
            lemma_found_type(types, walk(types, id, j)->0);
        }
    }
}

/// A list of identifiers that all name types and never repeat is no longer than the
/// list of types.
pub proof fn lemma_distinct_bounded(types: Seq<EntityType>, ids: Seq<Seq<char>>)
    requires
        ids.no_duplicates(),
        forall|i: int| 0 <= i < ids.len() ==> has_type(types, #[trigger] ids[i]),
    ensures
        ids.len() <= types.len(),
{
    let keys = type_ids(types);
    ids.unique_seq_to_set();
    keys.lemma_cardinality_of_set();
    vstd::seq_lib::seq_to_set_is_finite(keys);
    assert(ids.to_set().subset_of(keys.to_set())) by {
        assert forall|x: Seq<char>| ids.to_set().contains(x) implies keys.to_set().contains(x) by {
            let i = choose|i: int| 0 <= i < ids.len() && ids[i] == x;
            assert(has_type(types, ids[i]));
        }
    }
    vstd::set_lib::lemma_len_subset(ids.to_set(), keys.to_set());
}

/// The first `n` identifiers on the chain of parents from `id`.
pub open spec fn steps(types: Seq<EntityType>, id: Seq<char>, n: nat) -> Seq<Seq<char>> {
    Seq::new(n, |k: int| walk(types, id, k as nat)->0)
}

/// A chain of parents that is longer than the list of types comes to one identifier
/// twice within as many steps as there are types.
pub proof fn lemma_long_walk_repeats(types: Seq<EntityType>, id: Seq<char>, k: nat) -> (r: (
    nat,
    nat,
))
    requires
        walk(types, id, k) is Some,
        k > types.len(),
    ensures
        r.0 < r.1 <= types.len(),
        walk(types, id, r.0) is Some,
        walk(types, id, r.0) == walk(types, id, r.1),
{
    let n = (types.len() + 1) as nat;
    let ids = steps(types, id, n);
    assert forall|i: int| 0 <= i < ids.len() implies has_type(types, #[trigger] ids[i]) by {
        lemma_walk_prefix(types, id, k, i as nat);
    }
    if ids.no_duplicates() {
        lemma_distinct_bounded(types, ids);
        assert(false);
    }
    let (a, b) = choose|a: int, b: int|
        0 <= a < ids.len() && 0 <= b < ids.len() && a != b && ids[a] == ids[b];
    lemma_walk_prefix(types, id, k, a as nat);
    lemma_walk_prefix(types, id, k, b as nat);
    if a < b {
        (a as nat, b as nat)
    } else {
        (b as nat, a as nat)
    }
}

/// Whatever a chain of parents reaches, it reaches within as many steps as there are
/// types.
pub proof fn lemma_walk_short(types: Seq<EntityType>, id: Seq<char>, k: nat) -> (j: nat)
    requires
        walk(types, id, k) is Some,
    ensures
        j <= types.len(),
        j <= k,
        walk(types, id, j) == walk(types, id, k),
    decreases k,
{
    if k <= types.len() {
        k
    } else {
        let (a, b) = lemma_long_walk_repeats(types, id, k);
        let rest = (k - b) as nat;
        lemma_walk_add(types, id, a, rest);
        lemma_walk_add(types, id, b, rest);
        assert(b + rest == k);
        let shorter = a + rest;
        assert(walk(types, id, shorter) == walk(types, id, k));
        lemma_walk_short(types, id, shorter)
    }
}

/// A chain of parents that is longer than the list of types is cyclic.
pub proof fn lemma_long_walk_cyclic(types: Seq<EntityType>, id: Seq<char>, k: nat)
    requires
        walk(types, id, k) is Some,
        k > types.len(),
    ensures
        cyclic_from(types, id),
{
    let (a, b) = lemma_long_walk_repeats(types, id, k);
}

/// Once a chain of parents has ended, it stays ended.
pub proof fn lemma_walk_ended(types: Seq<EntityType>, id: Seq<char>, k: nat, j: nat)
    requires
        walk(types, id, k) is None,
        k <= j,
    ensures
        walk(types, id, j) is None,
    decreases j,
{
    if k < j {
        lemma_walk_ended(types, id, k, (j - 1) as nat);
    }
}

/// `chain` lists the chain of parents step by step, and stops only where the chain ends
/// or the fuel does.
pub proof fn lemma_chain_walk(types: Seq<EntityType>, id: Seq<char>, fuel: nat)
    ensures
        1 <= chain(types, id, fuel).len() <= fuel + 1,
        forall|k: nat|
            k < chain(types, id, fuel).len() ==> walk(types, id, k) == Some(
                #[trigger] chain(types, id, fuel)[k as int],
            ),
        chain(types, id, fuel).len() <= fuel ==> walk(
            types,
            id,
            chain(types, id, fuel).len(),
        ) is None,
    decreases fuel,
{
    let c = chain(types, id, fuel);
    lemma_walk_one(types, id);
    if fuel == 0 {
    } else {
        match parent_of(types, id) {
            Some(p) => {
                let rest = chain(types, p, (fuel - 1) as nat);
                lemma_chain_walk(types, p, (fuel - 1) as nat);
                assert(walk(types, id, 1) == Some(p));
                assert forall|k: nat| k < c.len() implies walk(types, id, k) == Some(
                    #[trigger] c[k as int],
                ) by {
                    if k > 0 {
                        lemma_walk_add(types, id, 1, (k - 1) as nat);
                        assert(c[k as int] == rest[k - 1]);
                        assert(walk(types, p, (k - 1) as nat) == Some(rest[(k - 1) as int]));
                    }
                }
                if c.len() <= fuel {
                    lemma_walk_add(types, id, 1, rest.len());
                    assert(1 + rest.len() == c.len());
                }
            },
            None => {
                assert(walk(types, id, 1) is None);
            },
        }
    }
}


/// Whether `other` is `id` or one of the types above it.
///
/// The chain of parents is followed for as many steps as the schema has types: what is
/// not met by then is not on the chain, however the chain goes on.
pub fn reaches(types: &Vec<EntityType>, id: &str, other: &str) -> (yes: bool)
    ensures
        yes == is_ancestor(types@, id@, other@),
{
    let mut current: &str = id;
    let mut taken: usize = 0;
    proof {
        lemma_walk_one(types@, id@);
    }
    while taken < types.len()
        invariant
            taken <= types.len(),
            walk(types@, id@, taken as nat) == Some(current@),
            forall|j: nat| j < taken ==> walk(types@, id@, j) != Some(other@),
        decreases types.len() - taken,
    {
        if crate::text::str_eq(current, other) {
            return true;
        }
        let next: Option<&String> = match crate::ontology::schema::type_position(types, current) {
            Some(i) => types[i].parent.as_ref(),
            None => None,
        };
        match next {
            Some(p) => {
                assert(walk(types@, id@, (taken + 1) as nat) == Some(p@));
                current = p.as_str();
                taken += 1;
            },
            None => {
                proof {
                    assert(walk(types@, id@, (taken + 1) as nat) is None);
                    assert forall|k: nat| walk(types@, id@, k) != Some(other@) by {
                        if k > taken {
                            lemma_walk_ended(types@, id@, (taken + 1) as nat, k);
                        }
                    }
                }
                return false;
            },
        }
    }
    if crate::text::str_eq(current, other) {
        return true;
    }
    proof {
        assert forall|k: nat| walk(types@, id@, k) != Some(other@) by {
            if walk(types@, id@, k) == Some(other@) {
                let j = lemma_walk_short(types@, id@, k);
            }
        }
    }
    false
}


/// A chain of parents that ends after `n` steps, having met `n + 1` different
/// identifiers, comes to no identifier twice.
pub proof fn lemma_ended_walk_acyclic(types: Seq<EntityType>, id: Seq<char>, n: nat)
    requires
        walk(types, id, n) is Some,
        walk(types, id, n + 1) is None,
        steps(types, id, n + 1).no_duplicates(),
    ensures
        !cyclic_from(types, id),
{
    let ids = steps(types, id, n + 1);
    assert forall|i: nat, j: nat|
        i < j && walk(types, id, i) is Some implies walk(types, id, i) != walk(types, id, j) by {
        if j > n {
            lemma_walk_ended(types, id, n + 1, j);
        } else {
            lemma_walk_prefix(types, id, n, j);
            assert(ids[i as int] == walk(types, id, i)->0);
            assert(ids[j as int] == walk(types, id, j)->0);
        }
    }
}

/// Whether the chain of parents from `id` comes to one identifier twice.
///
/// The chain is followed until it ends or an identifier is met again; the identifiers
/// met all name types and never repeat, so there are no more of them than types.
pub fn chain_repeats(types: &Vec<EntityType>, id: &str) -> (cyclic: bool)
    ensures
        cyclic == cyclic_from(types@, id@),
{
    let mut visited: Vec<String> = Vec::new();
    let mut current: &str = id;
    proof {
        lemma_walk_one(types@, id@);
        assert(crate::text::views(visited@) =~= steps(types@, id@, 0));
    }
    loop
        invariant
            visited.len() <= types.len(),
            crate::text::views(visited@) == steps(types@, id@, visited.len() as nat),
            crate::text::views(visited@).no_duplicates(),
            forall|k: int|
                0 <= k < visited.len() ==> has_type(
                    types@,
                    #[trigger] crate::text::views(visited@)[k],
                ),
            walk(types@, id@, visited.len() as nat) == Some(current@),
        decreases types.len() - visited.len(),
    {
        let ghost n = visited.len() as nat;
        let ghost seen = crate::text::views(visited@);
        let found = crate::ontology::schema::type_position(types, current);
        proof {
            lemma_found_type(types@, current@);
        }
        match found {
            None => {
                proof {
                    assert(walk(types@, id@, n + 1) is None);
                    let ids = steps(types@, id@, n + 1);
                    assert(ids =~= seen.push(current@));
                    assert(ids.no_duplicates()) by {
                        assert forall|a: int, b: int|
                            0 <= a < ids.len() && 0 <= b < ids.len() && a != b implies ids[a]
                            != ids[b] by {
                            if a < n && b < n {
                                assert(seen[a] != seen[b]);
                            } else if a < n {
                                assert(has_type(types@, seen[a]));
                            } else {
                                assert(has_type(types@, seen[b]));
                            }
                        }
                    }
                    lemma_ended_walk_acyclic(types@, id@, n);
                }
                return false;
            },
            Some(i) => {
                if crate::text::list_contains(&visited, current) {
                    proof {
                        let k = choose|k: int| 0 <= k < seen.len() && seen[k] == current@;
                        assert(seen[k] == walk(types@, id@, k as nat)->0);
                        lemma_walk_prefix(types@, id@, n, k as nat);
                        assert(walk(types@, id@, k as nat) == walk(types@, id@, n));
                    }
                    return true;
                }
                visited.push(crate::text::owned(current));
                proof {
                    let ids = crate::text::views(visited@);
                    assert(ids =~= seen.push(current@));
                    assert(ids =~= steps(types@, id@, n + 1));
                    assert(ids.no_duplicates()) by {
                        assert forall|a: int, b: int|
                            0 <= a < ids.len() && 0 <= b < ids.len() && a != b implies ids[a]
                            != ids[b] by {
                            if a < n && b < n {
                                assert(seen[a] != seen[b]);
                            } else if a < n {
                                assert(seen.contains(seen[a]));
                            } else {
                                assert(seen.contains(seen[b]));
                            }
                        }
                    }
                    assert forall|k: int| 0 <= k < ids.len() implies has_type(
                        types@,
                        #[trigger] ids[k],
                    ) by {
                        if k < n {
                            assert(ids[k] == seen[k]);
                        }
                    }
                    lemma_distinct_bounded(types@, ids);
                }
                match types[i].parent.as_ref() {
                    Some(p) => {
                        assert(walk(types@, id@, n + 1) == Some(p@));
                        current = p.as_str();
                    },
                    None => {
                        proof {
                            assert(walk(types@, id@, n + 1) is None);
                            lemma_ended_walk_acyclic(types@, id@, n);
                        }
                        return false;
                    },
                }
            },
        }
    }
}

} // verus!

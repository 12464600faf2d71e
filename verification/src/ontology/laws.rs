use crate::ontology::entity_type::EntityType;
use crate::ontology::hierarchy::{
    chain, cyclic_from, distinct_ids, is_ancestor, lemma_chain_walk, lemma_distinct_finds,
    lemma_found_type, lemma_long_walk_cyclic, lemma_walk_add, lemma_walk_ended, lemma_walk_one,
    lemma_walk_short, parent_of, walk,
};
use crate::ontology::schema::{
    find_type, has_type, proper_subtype, relation_ids, subtypes, type_fault, type_ids,
    with_relation, with_type, OntologySchema,
};
use crate::ontology::relation_type::RelationType;
use crate::text::{first_position, lemma_key_position};
use vstd::prelude::*;

verus! {

/// The subtypes of a type include the type itself.
pub proof fn subtypes_hold_the_type(types: Seq<EntityType>, id: Seq<char>)
    ensures
        subtypes(types, id).contains(id),
{
    assert(subtypes(types, id)[0] == id);
}

/// The subtypes of a type are closed under child edges: in a list without repeated
/// identifiers, a type whose parent is among the subtypes of `id` is among them too.
pub proof fn subtypes_closed_under_children(types: Seq<EntityType>, id: Seq<char>, child: int)
    requires
        distinct_ids(types),
        0 <= child < types.len(),
        types[child].parent is Some,
        subtypes(types, id).contains(types[child].parent->0@),
    ensures
        subtypes(types, id).contains(types[child].id@),
{
    let c = types[child];
    let p = c.parent->0@;
    let pick = proper_subtype(types, id);
    let below = types.filter(pick);
    let all = subtypes(types, id);
    let at = choose|at: int| 0 <= at < all.len() && all[at] == p;
    lemma_walk_one(types, p);
    if at == 0 {
        assert(p == id);
        assert(walk(types, p, 0) == Some(id));
    } else {
        let t = below[at - 1];
        assert(type_ids(below)[at - 1] == p);
        assert(below.contains(t));
        types.lemma_filter_contains_rev(pick, t);
        assert(pick(t));
        let ti = choose|ti: int| 0 <= ti < types.len() && types[ti] == t;
        lemma_distinct_finds(types, ti);
        assert(parent_of(types, p) == crate::ontology::entity_type::opt_view(t.parent));
        let q = t.parent->0@;
        let k = choose|k: nat| walk(types, q, k) == Some(id);
        lemma_walk_add(types, p, 1, k);
        assert(walk(types, p, 1 + k) == Some(id));
    }
    assert(is_ancestor(types, p, id));
    assert(c.subtype_of(id, types));
    if c.id@ == id {
        assert(all[0] == c.id@);
    } else {
        assert(pick(c));
        types.lemma_filter_contains(pick, child);
        let bi = choose|bi: int| 0 <= bi < below.len() && below[bi] == c;
        assert(type_ids(below)[bi] == c.id@);
        assert(all[bi + 1] == c.id@);
    }
}

/// The supertypes of a type are the type itself and what lies above it: whatever the
/// chain of parents reaches, and nothing else.
pub proof fn supertypes_are_the_ancestors(types: Seq<EntityType>, id: Seq<char>, other: Seq<char>)
    ensures
        chain(types, id, types.len())[0] == id,
        chain(types, id, types.len()).contains(other) <==> is_ancestor(types, id, other),
{
    let c = chain(types, id, types.len());
    lemma_chain_walk(types, id, types.len());
    lemma_walk_one(types, id);
    assert(walk(types, id, 0) == Some(c[0]));
    if c.contains(other) {
        let at = choose|at: int| 0 <= at < c.len() && c[at] == other;
        assert(walk(types, id, at as nat) == Some(c[at]));
    }
    if is_ancestor(types, id, other) {
        let k = choose|k: nat| walk(types, id, k) == Some(other);
        let j = lemma_walk_short(types, id, k);
        if j >= c.len() {
            lemma_walk_ended(types, id, c.len(), j);
        }
        assert(walk(types, id, j) == Some(c[j as int]));
    }
}

/// In a consistent schema the supertypes of a type of the schema end at a type of the
/// schema that has no parent.
pub proof fn supertypes_end_at_a_root(schema: OntologySchema, id: Seq<char>)
    requires
        schema.well_formed(),
        has_type(schema.entity_types@, id),
    ensures
        has_type(schema.entity_types@, chain(schema.entity_types@, id, schema.entity_types@.len()).last()),
        parent_of(
            schema.entity_types@,
            chain(schema.entity_types@, id, schema.entity_types@.len()).last(),
        ) is None,
{
    let types = schema.entity_types@;
    let c = chain(types, id, types.len());
    let m = (c.len() - 1) as nat;
    lemma_chain_walk(types, id, types.len());
    lemma_walk_one(types, id);
    lemma_found_type(types, id);
    let t0 = find_type(types, id)->0;
    let i0 = choose|i: int| 0 <= i < types.len() && types[i] == t0;
    assert(type_fault(types, types[i0]) is None);
    assert(!cyclic_from(types, id));
    assert(walk(types, id, m) == Some(c[m as int]));
    assert(walk(types, id, m + 1) == parent_of(types, c.last()));
    if c.len() <= types.len() {
    } else {
        if parent_of(types, c.last()) is Some {
            lemma_long_walk_cyclic(types, id, m + 1);
        }
    }
    if m == 0 {
        assert(c.last() == id);
    } else {
        let before = c[m - 1];
        assert(walk(types, id, (m - 1) as nat) == Some(before));
        lemma_found_type(types, before);
        let t = find_type(types, before)->0;
        let i = choose|i: int| 0 <= i < types.len() && types[i] == t;
        assert(type_fault(types, types[i]) is None);
    }
}

/// In a consistent schema no type of the schema is above itself.
pub proof fn consistent_schema_has_no_cycle(schema: OntologySchema, i: int, k: nat)
    requires
        schema.well_formed(),
        0 <= i < schema.entity_types@.len(),
        k >= 1,
    ensures
        walk(schema.entity_types@, schema.entity_types@[i].id@, k) != Some(
            schema.entity_types@[i].id@,
        ),
{
    let types = schema.entity_types@;
    let id = types[i].id@;
    assert(type_fault(types, types[i]) is None);
    lemma_walk_one(types, id);
}

/// Adding a type to a list without repeated identifiers leaves the list without them.
pub proof fn adding_a_type_keeps_identifiers_distinct(types: Seq<EntityType>, added: EntityType)
    requires
        distinct_ids(types),
    ensures
        distinct_ids(with_type(types, added)),
{
    let keys = type_ids(types);
    let after = type_ids(with_type(types, added));
    lemma_key_position(keys, added.id@, 0);
    match first_position(keys, added.id@) {
        Some(i) => {
            assert(after =~= keys);
        },
        None => {
            assert(after =~= keys.push(added.id@));
            assert forall|a: int, b: int|
                0 <= a < after.len() && 0 <= b < after.len() && a != b implies after[a]
                != after[b] by {
                if a < keys.len() && b < keys.len() {
                    assert(keys[a] != keys[b]);
                }
            }
        },
    }
}

/// Adding a relation to a list without repeated identifiers leaves the list without
/// them.
pub proof fn adding_a_relation_keeps_identifiers_distinct(
    relations: Seq<RelationType>,
    added: RelationType,
)
    requires
        relation_ids(relations).no_duplicates(),
    ensures
        relation_ids(with_relation(relations, added)).no_duplicates(),
{
    let keys = relation_ids(relations);
    let after = relation_ids(with_relation(relations, added));
    lemma_key_position(keys, added.id@, 0);
    match first_position(keys, added.id@) {
        Some(i) => {
            assert(after =~= keys);
        },
        None => {
            assert(after =~= keys.push(added.id@));
            assert forall|a: int, b: int|
                0 <= a < after.len() && 0 <= b < after.len() && a != b implies after[a]
                != after[b] by {
                if a < keys.len() && b < keys.len() {
                    assert(keys[a] != keys[b]);
                }
            }
        },
    }
}

/// In a list without repeated identifiers, a type is its own ancestor's subtype: what
/// the type's chain of parents reaches is what the type is a subtype of.
pub proof fn lemma_subtype_is_descendant(types: Seq<EntityType>, i: int, id: Seq<char>)
    requires
        distinct_ids(types),
        0 <= i < types.len(),
    ensures
        types[i].subtype_of(id, types) <==> is_ancestor(types, types[i].id@, id),
{
    let t = types[i];
    lemma_distinct_finds(types, i);
    lemma_walk_one(types, t.id@);
    if t.subtype_of(id, types) {
        if t.id@ == id {
            assert(walk(types, t.id@, 0) == Some(id));
        } else {
            let p = t.parent->0@;
            let k = choose|k: nat| walk(types, p, k) == Some(id);
            lemma_walk_add(types, t.id@, 1, k);
            assert(walk(types, t.id@, 1 + k) == Some(id));
        }
    }
    if is_ancestor(types, t.id@, id) {
        let k = choose|k: nat| walk(types, t.id@, k) == Some(id);
        if k > 0 {
            lemma_walk_add(types, t.id@, 1, (k - 1) as nat);
            assert(1 + (k - 1) as nat == k);
            let p = t.parent->0@;
            assert(walk(types, p, (k - 1) as nat) == Some(id));
        }
    }
}

/// Subtypes and supertypes are two views of one hierarchy: in a list without repeated
/// identifiers, a type is among the subtypes of `id` exactly where `id` is among the
/// type's supertypes.
pub proof fn subtypes_and_supertypes_agree(types: Seq<EntityType>, i: int, id: Seq<char>)
    requires
        distinct_ids(types),
        0 <= i < types.len(),
    ensures
        subtypes(types, id).contains(types[i].id@) <==> chain(
            types,
            types[i].id@,
            types.len(),
        ).contains(id),
{
    let t = types[i];
    let pick = proper_subtype(types, id);
    let below = types.filter(pick);
    let all = subtypes(types, id);
    supertypes_are_the_ancestors(types, t.id@, id);
    lemma_subtype_is_descendant(types, i, id);
    if all.contains(t.id@) {
        let at = choose|at: int| 0 <= at < all.len() && all[at] == t.id@;
        if at > 0 {
            let other = below[at - 1];
            assert(type_ids(below)[at - 1] == t.id@);
            assert(below.contains(other));
            types.lemma_filter_contains_rev(pick, other);
            let w = choose|w: int| 0 <= w < types.len() && types[w] == other;
            assert(type_ids(types)[w] == type_ids(types)[i]);
            assert(pick(t));
        }
    }
    if t.subtype_of(id, types) {
        if t.id@ == id {
            assert(all[0] == t.id@);
        } else {
            assert(pick(t));
            types.lemma_filter_contains(pick, i);
            let bi = choose|bi: int| 0 <= bi < below.len() && below[bi] == t;
            assert(type_ids(below)[bi] == t.id@);
            assert(all[bi + 1] == t.id@);
        }
    }
}

} // verus!

use crate::ontology::entity_type::{chain_properties, opt_view, Constraint, EntityType, PropertyDefinition};
use crate::ontology::hierarchy::{lemma_walk_add, lemma_walk_one, lemma_walk_short, parent_of, walk};
use crate::ontology::schema::{find_type, OntologySchema};
use crate::ontology::validator::{
    cardinality_fault, constraint_fault, constraint_faults, definition_names, entity_faults,
    is_missing, listed, missing_faults, property_faults, provided_faults, shape_fits,
    type_mismatch, violates,
};
use crate::ontology::value::{property_names, value_count, Property};
use crate::text::first_position;
use vstd::prelude::*;

verus! {

/// Where no definition is reported missing, none is.
pub proof fn lemma_nothing_missing(
    type_id: Seq<char>,
    defs: Seq<PropertyDefinition>,
    props: Seq<Property>,
    i: int,
)
    requires
        missing_faults(type_id, defs, props).len() == 0,
        0 <= i < defs.len(),
    ensures
        !is_missing(defs[i], props),
    decreases defs.len(),
{
    if i < defs.len() - 1 {
        lemma_nothing_missing(type_id, defs.drop_last(), props, i);
    }
}

/// Where the provided properties have no error, none of them has.
pub proof fn lemma_nothing_misprovided(defs: Seq<PropertyDefinition>, props: Seq<Property>, i: int)
    requires
        provided_faults(defs, props).len() == 0,
        0 <= i < props.len(),
    ensures
        property_faults(defs, props[i]).len() == 0,
    decreases props.len(),
{
    if i < props.len() - 1 {
        lemma_nothing_misprovided(defs, props.drop_last(), i);
    }
}

/// Where no property from `from` on is reported to break a constraint, none does.
pub proof fn lemma_nothing_violates(c: Constraint, props: Seq<Property>, from: int, i: int)
    requires
        constraint_fault(c, props, from) is None,
        0 <= from <= i < props.len(),
    ensures
        !violates(c, props[i].value),
    decreases props.len() - from,
{
    if from < i {
        lemma_nothing_violates(c, props, from + 1, i);
    }
}

/// Where no constraint is reported broken, none has a property that breaks it.
pub proof fn lemma_nothing_broken(constraints: Seq<Constraint>, props: Seq<Property>, c: int)
    requires
        constraint_faults(constraints, props).len() == 0,
        0 <= c < constraints.len(),
    ensures
        constraint_fault(constraints[c], props, 0) is None,
    decreases constraints.len(),
{
    if c < constraints.len() - 1 {
        lemma_nothing_broken(constraints.drop_last(), props, c);
    }
}

/// The properties gathered along a chain of parents hold those of every type that the
/// chain meets before the fuel runs out.
pub proof fn lemma_chain_properties_cover(
    types: Seq<EntityType>,
    id: Seq<char>,
    fuel: nat,
    k: nat,
    i: int,
)
    requires
        k < fuel,
        walk(types, id, k) is Some,
        find_type(types, walk(types, id, k)->0) is Some,
        0 <= i < find_type(types, walk(types, id, k)->0)->0.properties@.len(),
    ensures
        chain_properties(types, Some(id), fuel).contains(
            find_type(types, walk(types, id, k)->0)->0.properties@[i],
        ),
    decreases k,
{
    lemma_walk_one(types, id);
    let all = chain_properties(types, Some(id), fuel);
    if k == 0 {
        let t = find_type(types, id)->0;
        assert(all[i] == t.properties@[i]);
    } else {
        lemma_walk_add(types, id, 1, (k - 1) as nat);
        let t = find_type(types, id)->0;
        let p = parent_of(types, id)->0;
        assert(walk(types, p, (k - 1) as nat) == walk(types, id, k));
        lemma_chain_properties_cover(types, p, (fuel - 1) as nat, (k - 1) as nat, i);
        let rest = chain_properties(types, Some(p), (fuel - 1) as nat);
        let d = find_type(types, walk(types, id, k)->0)->0.properties@[i];
        let at = choose|at: int| 0 <= at < rest.len() && rest[at] == d;
        assert(all[t.properties@.len() + at] == d);
    }
}

/// An entity that passes validation meets its type: the type is in the schema; the
/// entity holds a value for every property that the type, or any type above it, asks
/// for; every value it holds for a declared property has the declared shape and
/// cardinality; and no value breaks a constraint of the type.
pub proof fn valid_entity_meets_its_type(schema: OntologySchema, type_id: Seq<char>, props: Seq<Property>)
    requires
        entity_faults(schema, type_id, props).len() == 0,
    ensures
        find_type(schema.entity_types@, type_id) is Some,
        forall|k: nat, i: int|
            #![trigger find_type(schema.entity_types@, walk(schema.entity_types@, type_id, k)->0)->0.properties@[i]]
            {
                let above = find_type(
                    schema.entity_types@,
                    walk(schema.entity_types@, type_id, k)->0,
                );
                walk(schema.entity_types@, type_id, k) is Some && above is Some && 0 <= i
                    < above->0.properties@.len() && above->0.properties@[i].demands_presence()
                    ==> property_names(props).contains(above->0.properties@[i].name@)
            },
        forall|p: int|
            #![trigger props[p]]
            0 <= p < props.len() ==> {
                let defs = find_type(schema.entity_types@, type_id)->0.all_properties(
                    schema.entity_types@,
                );
                first_position(definition_names(defs), props[p].name@) matches Some(d)
                    ==> shape_fits(defs[d].property_type, props[p].value)
                    && defs[d].cardinality.admits(value_count(props[p].value))
            },
        forall|c: int, p: int|
            #![trigger find_type(schema.entity_types@, type_id)->0.constraints@[c], props[p]]
            0 <= c < find_type(schema.entity_types@, type_id)->0.constraints@.len() && 0 <= p
                < props.len() ==> !violates(
                find_type(schema.entity_types@, type_id)->0.constraints@[c],
                props[p].value,
            ),
{
    let types = schema.entity_types@;
    let t = find_type(types, type_id)->0;
    let defs = t.all_properties(types);
    let inherited = chain_properties(types, opt_view(t.parent), types.len());
    assert(missing_faults(type_id, defs, props).len() == 0);
    assert(provided_faults(defs, props).len() == 0);
    assert(constraint_faults(t.constraints@, props).len() == 0);
    lemma_walk_one(types, type_id);
    assert forall|k: nat, i: int|
        #![trigger find_type(types, walk(types, type_id, k)->0)->0.properties@[i]]
        {
            let above = find_type(types, walk(types, type_id, k)->0);
            walk(types, type_id, k) is Some && above is Some && 0 <= i
                < above->0.properties@.len() && above->0.properties@[i].demands_presence()
        } implies property_names(props).contains(
        find_type(types, walk(types, type_id, k)->0)->0.properties@[i].name@,
    ) by {
        let j = lemma_walk_short(types, type_id, k);
        let above = find_type(types, walk(types, type_id, j)->0)->0;
        let d = above.properties@[i];
        if j == 0 {
            assert(defs[i] == d);
            lemma_nothing_missing(type_id, defs, props, i);
        } else {
            let p = parent_of(types, type_id)->0;
            lemma_walk_add(types, type_id, 1, (j - 1) as nat);
            assert(walk(types, p, (j - 1) as nat) == walk(types, type_id, j));
            lemma_chain_properties_cover(types, p, types.len(), (j - 1) as nat, i);
            let at = choose|at: int| 0 <= at < inherited.len() && inherited[at] == d;
            assert(defs[t.properties@.len() + at] == d);
            lemma_nothing_missing(type_id, defs, props, t.properties@.len() + at);
        }
    }
    assert forall|p: int| #![trigger props[p]] 0 <= p < props.len() implies (first_position(
        definition_names(defs),
        props[p].name@,
    ) matches Some(d) ==> shape_fits(defs[d].property_type, props[p].value)
        && defs[d].cardinality.admits(value_count(props[p].value))) by {
        lemma_nothing_misprovided(defs, props, p);
        if let Some(d) = first_position(definition_names(defs), props[p].name@) {
            let a = listed(type_mismatch(props[p].name@, props[p].value, defs[d].property_type));
            let b = listed(cardinality_fault(props[p].name@, props[p].value, defs[d].cardinality));
            assert((a + b).len() == 0);
            assert(a.len() == 0 && b.len() == 0);
        }
    }
    assert forall|c: int, p: int|
        #![trigger t.constraints@[c], props[p]]
        0 <= c < t.constraints@.len() && 0 <= p < props.len() implies !violates(
        t.constraints@[c],
        props[p].value,
    ) by {
        lemma_nothing_broken(t.constraints@, props, c);
        lemma_nothing_violates(t.constraints@[c], props, 0, p);
    }
}

} // verus!

use crate::ontology::entity_type::EntityType;
use crate::ontology::relation_type::RelationType;
use crate::ontology::hierarchy::{chain, chain_repeats, cyclic_from};
use crate::text::{first_position, first_repeat, key_position, owned, str_eq, views};
use vstd::prelude::*;

verus! {

/// The kind of an inference rule.
#[derive(Debug, Clone)]
pub enum RuleType {
    SubClassOf,
    Equivalent,
    Disjoint,
    /// A chain of relations that implies another. Carried, without meaning of its own.
    PropertyChain,
    /// A rule known by its tag only. Carried, without meaning of its own.
    Custom(String),
}

/// One statement that a rule asks for.
#[derive(Debug, Clone)]
pub struct Condition {
    pub subject: String,
    pub predicate: String,
    pub object: String,
}

/// The statement that a rule concludes.
#[derive(Debug, Clone)]
pub struct Conclusion {
    pub subject: String,
    pub predicate: String,
    pub object: String,
}

/// A rule of inference carried by a schema.
#[derive(Debug, Clone)]
pub struct InferenceRule {
    pub id: String,
    pub rule_type: RuleType,
    pub description: String,
    pub conditions: Vec<Condition>,
    pub conclusion: Conclusion,
}

/// An ontology: entity types, relation types and rules under one namespace.
///
/// A type is found by its identifier; where two entries of a list carry the same
/// identifier the first is the one found. `add_entity_type` and `add_relation_type`
/// never produce such a list from one without.
#[derive(Debug, Clone)]
pub struct OntologySchema {
    pub namespace: String,
    pub version: String,
    pub entity_types: Vec<EntityType>,
    pub relation_types: Vec<RelationType>,
    pub rules: Vec<InferenceRule>,
}

/// The identifiers of a list of entity types.
pub open spec fn type_ids(types: Seq<EntityType>) -> Seq<Seq<char>> {
    types.map_values(|t: EntityType| t.id@)
}

/// The identifiers of a list of relation types.
pub open spec fn relation_ids(relations: Seq<RelationType>) -> Seq<Seq<char>> {
    relations.map_values(|r: RelationType| r.id@)
}

/// The entity type that an identifier names.
pub open spec fn find_type(types: Seq<EntityType>, id: Seq<char>) -> Option<EntityType> {
    match first_position(type_ids(types), id) {
        Some(i) => Some(types[i]),
        None => None,
    }
}

/// Whether an identifier names an entity type.
pub open spec fn has_type(types: Seq<EntityType>, id: Seq<char>) -> bool {
    type_ids(types).contains(id)
}

/// The relation type that an identifier names.
pub open spec fn find_relation(relations: Seq<RelationType>, id: Seq<char>) -> Option<
    RelationType,
> {
    match first_position(relation_ids(relations), id) {
        Some(i) => Some(relations[i]),
        None => None,
    }
}

/// Whether an identifier names a relation type.
pub open spec fn has_relation(relations: Seq<RelationType>, id: Seq<char>) -> bool {
    relation_ids(relations).contains(id)
}

/// A list of entity types with `entity_type` in the place of the type of the same
/// identifier, or at the end where there is none.
pub open spec fn with_type(types: Seq<EntityType>, entity_type: EntityType) -> Seq<EntityType> {
    match first_position(type_ids(types), entity_type.id@) {
        Some(i) => types.update(i, entity_type),
        None => types.push(entity_type),
    }
}

/// A list of relation types with `relation` in the place of the relation of the same
/// identifier, or at the end where there is none.
pub open spec fn with_relation(relations: Seq<RelationType>, relation: RelationType) -> Seq<
    RelationType,
> {
    match first_position(relation_ids(relations), relation.id@) {
        Some(i) => relations.update(i, relation),
        None => relations.push(relation),
    }
}

/// Where the entity type of an identifier stands in a list.
pub fn type_position(types: &Vec<EntityType>, id: &str) -> (pos: Option<usize>)
    ensures
        match pos {
            Some(i) => first_position(type_ids(types@), id@) == Some(i as int) && i < types.len(),
            None => first_position(type_ids(types@), id@) is None,
        },
{
    let mut i: usize = 0;
    while i < types.len()
        invariant
            i <= types.len(),
            first_position(type_ids(types@), id@) == key_position(type_ids(types@), id@, i as int),
        decreases types.len() - i,
    {
        if str_eq(types[i].id.as_str(), id) {
            return Some(i);
        }
        i += 1;
    }
    None
}

/// Where the relation type of an identifier stands in a list.
pub fn relation_position(relations: &Vec<RelationType>, id: &str) -> (pos: Option<usize>)
    ensures
        match pos {
            Some(i) => first_position(relation_ids(relations@), id@) == Some(i as int) && i
                < relations.len(),
            None => first_position(relation_ids(relations@), id@) is None,
        },
{
    let mut i: usize = 0;
    while i < relations.len()
        invariant
            i <= relations.len(),
            first_position(relation_ids(relations@), id@) == key_position(
                relation_ids(relations@),
                id@,
                i as int,
            ),
        decreases relations.len() - i,
    {
        if str_eq(relations[i].id.as_str(), id) {
            return Some(i);
        }
        i += 1;
    }
    None
}

impl OntologySchema {
    /// A schema without types, relations or rules.
    pub fn new(namespace: String, version: String) -> (schema: Self)
        ensures
            schema.namespace == namespace,
            schema.version == version,
            schema.entity_types@ == Seq::<EntityType>::empty(),
            schema.relation_types@ == Seq::<RelationType>::empty(),
            schema.rules@ == Seq::<InferenceRule>::empty(),
    {
        OntologySchema {
            namespace,
            version,
            entity_types: Vec::new(),
            relation_types: Vec::new(),
            rules: Vec::new(),
        }
    }

    /// Adds an entity type, in the place of the type of the same identifier if there
    /// is one.
    pub fn add_entity_type(&mut self, entity_type: EntityType)
        ensures
            final(self).entity_types@ == with_type(old(self).entity_types@, entity_type),
            final(self).namespace == old(self).namespace,
            final(self).version == old(self).version,
            final(self).relation_types == old(self).relation_types,
            final(self).rules == old(self).rules,
    {
        match type_position(&self.entity_types, entity_type.id.as_str()) {
            Some(i) => {
                self.entity_types.set(i, entity_type);
            },
            None => {
                self.entity_types.push(entity_type);
            },
        }
    }

    /// Adds a relation type, in the place of the relation of the same identifier if
    /// there is one.
    pub fn add_relation_type(&mut self, relation_type: RelationType)
        ensures
            final(self).relation_types@ == with_relation(old(self).relation_types@, relation_type),
            final(self).namespace == old(self).namespace,
            final(self).version == old(self).version,
            final(self).entity_types == old(self).entity_types,
            final(self).rules == old(self).rules,
    {
        match relation_position(&self.relation_types, relation_type.id.as_str()) {
            Some(i) => {
                self.relation_types.set(i, relation_type);
            },
            None => {
                self.relation_types.push(relation_type);
            },
        }
    }

    /// Adds a rule after those that the schema has.
    pub fn add_rule(&mut self, rule: InferenceRule)
        ensures
            final(self).rules@ == old(self).rules@.push(rule),
            final(self).namespace == old(self).namespace,
            final(self).version == old(self).version,
            final(self).entity_types == old(self).entity_types,
            final(self).relation_types == old(self).relation_types,
    {
        self.rules.push(rule);
    }

    /// The entity type that an identifier names.
    pub fn entity_type(&self, id: &str) -> (found: Option<&EntityType>)
        ensures
            match found {
                Some(t) => find_type(self.entity_types@, id@) == Some(*t),
                None => find_type(self.entity_types@, id@) is None,
            },
    {
        match type_position(&self.entity_types, id) {
            Some(i) => Some(&self.entity_types[i]),
            None => None,
        }
    }

    /// The relation type that an identifier names.
    pub fn relation_type(&self, id: &str) -> (found: Option<&RelationType>)
        ensures
            match found {
                Some(r) => find_relation(self.relation_types@, id@) == Some(*r),
                None => find_relation(self.relation_types@, id@) is None,
            },
    {
        match relation_position(&self.relation_types, id) {
            Some(i) => Some(&self.relation_types[i]),
            None => None,
        }
    }

    /// Whether an identifier names an entity type of the schema.
    pub fn has_entity_type(&self, id: &str) -> (found: bool)
        ensures
            found == has_type(self.entity_types@, id@),
    {
        proof {
            crate::text::lemma_first_position_contains(type_ids(self.entity_types@), id@);
        }
        type_position(&self.entity_types, id).is_some()
    }

    /// Whether an identifier names a relation type of the schema.
    pub fn has_relation_type(&self, id: &str) -> (found: bool)
        ensures
            found == has_relation(self.relation_types@, id@),
    {
        proof {
            crate::text::lemma_first_position_contains(relation_ids(self.relation_types@), id@);
        }
        relation_position(&self.relation_types, id).is_some()
    }
}

/// After a type was added, its identifier names it, and every other identifier names
/// what it named before.
pub proof fn an_added_type_is_found(types: Seq<EntityType>, entity_type: EntityType, id: Seq<char>)
    ensures
        find_type(with_type(types, entity_type), entity_type.id@) == Some(entity_type),
        id != entity_type.id@ ==> find_type(with_type(types, entity_type), id) == find_type(
            types,
            id,
        ),
        with_type(types, entity_type).len() >= types.len(),
{
    let added = with_type(types, entity_type);
    let keys = type_ids(types);
    let new_keys = type_ids(added);
    crate::text::lemma_key_position(keys, entity_type.id@, 0);
    crate::text::lemma_key_position(new_keys, entity_type.id@, 0);
    crate::text::lemma_key_position(keys, id, 0);
    crate::text::lemma_key_position(new_keys, id, 0);
    match first_position(keys, entity_type.id@) {
        Some(i) => {
            assert(new_keys =~= keys.update(i, entity_type.id@));
            assert(new_keys =~= keys);
        },
        None => {
            assert(new_keys =~= keys.push(entity_type.id@));
            assert(new_keys[keys.len() as int] == entity_type.id@);
            if id != entity_type.id@ {
                match first_position(keys, id) {
                    Some(a) => {
                        assert(new_keys[a] == id);
                        match first_position(new_keys, id) {
                            Some(b) => {
                                if b < a {
                                    assert(keys[b] == new_keys[b]);
                                }
                            },
                            None => {},
                        }
                    },
                    None => {
                        match first_position(new_keys, id) {
                            Some(b) => {
                                if b < keys.len() {
                                    assert(keys[b] == new_keys[b]);
                                }
                            },
                            None => {},
                        }
                    },
                }
            }
        },
    }
}

/// What makes a schema inconsistent.
#[derive(Debug)]
pub enum SchemaError {
    /// Two entity types carry this identifier.
    DuplicateEntityType { type_id: String },
    /// Two relation types carry this identifier.
    DuplicateRelationType { relation: String },
    /// The chain of parents from the type comes back to a type it has passed.
    CircularInheritance { type_id: String },
    /// The type names a parent that the schema does not have.
    ParentNotFound { parent: String, type_id: String },
    /// The relation names a domain that the schema does not have.
    DomainNotFound { domain: String, relation: String },
    /// The relation names a range that the schema does not have.
    RangeNotFound { range: String, relation: String },
    /// The relation names an inverse that the schema does not have.
    InverseNotFound { inverse: String, relation: String },
}

impl SchemaError {
    /// The error in words.
    pub open spec fn message_text(&self) -> Seq<char> {
        match *self {
            SchemaError::DuplicateEntityType { type_id } => {
                "Duplicate entity type: "@ + type_id@
            },
            SchemaError::DuplicateRelationType { relation } => {
                "Duplicate relation type: "@ + relation@
            },
            SchemaError::CircularInheritance { type_id } => {
                "Circular inheritance detected for type: "@ + type_id@
            },
            SchemaError::ParentNotFound { parent, type_id } => {
                "Parent type '"@ + parent@ + "' not found for type '"@ + type_id@ + "'"@
            },
            SchemaError::DomainNotFound { domain, relation } => {
                "Domain type '"@ + domain@ + "' not found for relation '"@ + relation@ + "'"@
            },
            SchemaError::RangeNotFound { range, relation } => {
                "Range type '"@ + range@ + "' not found for relation '"@ + relation@ + "'"@
            },
            SchemaError::InverseNotFound { inverse, relation } => {
                "Inverse relation '"@ + inverse@ + "' not found for relation '"@ + relation@
                    + "'"@
            },
        }
    }

    /// The error in words.
    pub fn message(&self) -> (text: String)
        ensures
            text@ == self.message_text(),
    {
        match self {
            SchemaError::DuplicateEntityType { type_id } => {
                crate::text::concat2("Duplicate entity type: ", type_id.as_str())
            },
            SchemaError::DuplicateRelationType { relation } => {
                crate::text::concat2("Duplicate relation type: ", relation.as_str())
            },
            SchemaError::CircularInheritance { type_id } => {
                crate::text::concat2("Circular inheritance detected for type: ", type_id.as_str())
            },
            SchemaError::ParentNotFound { parent, type_id } => {
                not_found_text("Parent type '", parent, "' not found for type '", type_id)
            },
            SchemaError::DomainNotFound { domain, relation } => {
                not_found_text("Domain type '", domain, "' not found for relation '", relation)
            },
            SchemaError::RangeNotFound { range, relation } => {
                not_found_text("Range type '", range, "' not found for relation '", relation)
            },
            SchemaError::InverseNotFound { inverse, relation } => {
                not_found_text(
                    "Inverse relation '",
                    inverse,
                    "' not found for relation '",
                    relation,
                )
            },
        }
    }
}

fn not_found_text(lead: &str, missing: &String, middle: &str, owner: &String) -> (text: String)
    ensures
        text@ == lead@ + missing@ + middle@ + owner@ + "'"@,
{
    let mut text = owned(lead);
    text.append(missing.as_str());
    text.append(middle);
    text.append(owner.as_str());
    text.append("'");
    text
}

/// What is wrong with one entity type of a list, if anything: a circular chain of
/// parents first, a missing parent second.
pub open spec fn type_fault(types: Seq<EntityType>, t: EntityType) -> Option<SchemaError> {
    if cyclic_from(types, t.id@) {
        Some(SchemaError::CircularInheritance { type_id: t.id })
    } else if t.parent is Some && !has_type(types, t.parent->0@) {
        Some(SchemaError::ParentNotFound { parent: t.parent->0, type_id: t.id })
    } else {
        None
    }
}

/// What is wrong with one relation type, if anything: a missing domain first, a missing
/// range second, a missing inverse third.
pub open spec fn relation_fault(
    types: Seq<EntityType>,
    relations: Seq<RelationType>,
    r: RelationType,
) -> Option<SchemaError> {
    if !has_type(types, r.domain@) {
        Some(SchemaError::DomainNotFound { domain: r.domain, relation: r.id })
    } else if !has_type(types, r.range@) {
        Some(SchemaError::RangeNotFound { range: r.range, relation: r.id })
    } else if r.inverse is Some && !has_relation(relations, r.inverse->0@) {
        Some(SchemaError::InverseNotFound { inverse: r.inverse->0, relation: r.id })
    } else {
        None
    }
}

/// The fault of the first faulty entity type at or after `from`.
pub open spec fn first_type_fault(types: Seq<EntityType>, from: int) -> Option<SchemaError>
    decreases types.len() - from,
{
    if from < 0 || from >= types.len() {
        None
    } else {
        match type_fault(types, types[from]) {
            Some(e) => Some(e),
            None => first_type_fault(types, from + 1),
        }
    }
}

/// The fault of the first faulty relation type at or after `from`.
pub open spec fn first_relation_fault(
    types: Seq<EntityType>,
    relations: Seq<RelationType>,
    from: int,
) -> Option<SchemaError>
    decreases relations.len() - from,
{
    if from < 0 || from >= relations.len() {
        None
    } else {
        match relation_fault(types, relations, relations[from]) {
            Some(e) => Some(e),
            None => first_relation_fault(types, relations, from + 1),
        }
    }
}

/// The types that are `id` or below it, `id` first: then each type of the list, in the
/// list's order, that is another type and a subtype of `id`.
pub open spec fn subtypes(types: Seq<EntityType>, id: Seq<char>) -> Seq<Seq<char>> {
    seq![id] + type_ids(types.filter(proper_subtype(types, id)))
}

/// The test that picks the types below `id` out of a list.
pub open spec fn proper_subtype(types: Seq<EntityType>, id: Seq<char>) -> spec_fn(
    EntityType,
) -> bool {
    |t: EntityType| t.id@ != id && t.subtype_of(id, types)
}

impl OntologySchema {
    /// Whether the schema is consistent: no two entity types and no two relation types
    /// carry the same identifier, no chain of parents is circular, and every parent,
    /// domain, range and inverse that is named is there.
    pub open spec fn well_formed(&self) -> bool {
        let types = self.entity_types@;
        let relations = self.relation_types@;
        &&& type_ids(types).no_duplicates()
        &&& relation_ids(relations).no_duplicates()
        &&& forall|i: int| 0 <= i < types.len() ==> type_fault(types, #[trigger] types[i]) is None
        &&& forall|i: int|
            0 <= i < relations.len() ==> relation_fault(types, relations, #[trigger] relations[i])
                is None
    }

    /// The first thing wrong with the schema: an identifier that stands twice among
    /// the entity types, or else among the relation types; else the entity types are
    /// looked at, in their order, then the relation types in theirs.
    pub open spec fn fault(&self) -> Option<SchemaError> {
        match first_repeat(type_ids(self.entity_types@), 0) {
            Some(i) => Some(
                SchemaError::DuplicateEntityType { type_id: self.entity_types@[i].id },
            ),
            None => match first_repeat(relation_ids(self.relation_types@), 0) {
                Some(i) => Some(
                    SchemaError::DuplicateRelationType { relation: self.relation_types@[i].id },
                ),
                None => match first_type_fault(self.entity_types@, 0) {
                    Some(e) => Some(e),
                    None => first_relation_fault(self.entity_types@, self.relation_types@, 0),
                },
            },
        }
    }

    /// `type_id`, then every other type of the schema that inherits from it.
    pub fn get_subtypes(&self, type_id: &str) -> (found: Vec<String>)
        ensures
            views(found@) == subtypes(self.entity_types@, type_id@),
    {
        let types = &self.entity_types;
        let mut found: Vec<String> = Vec::new();
        found.push(owned(type_id));
        let ghost pick = proper_subtype(types@, type_id@);
        let mut i: usize = 0;
        proof {
            assert(types@.take(0).filter(pick) =~= Seq::<EntityType>::empty()) by {
                reveal(Seq::filter);
            }
            assert(views(found@) =~= seq![type_id@] + type_ids(types@.take(0).filter(pick)));
        }
        while i < types.len()
            invariant
                i <= types.len(),
                *types == self.entity_types,
                pick == proper_subtype(types@, type_id@),
                views(found@) == seq![type_id@] + type_ids(types@.take(i as int).filter(pick)),
            decreases types.len() - i,
        {
            let ghost before = types@.take(i as int);
            let ghost listed = views(found@);
            proof {
                assert(types@.take(i + 1) =~= before.push(types@[i as int]));
                before.lemma_filter_push(types@[i as int], pick);
                assert(pick(types@[i as int]) == (types@[i as int].id@ != type_id@
                    && types@[i as int].subtype_of(type_id@, types@)));
            }
            if !str_eq(types[i].id.as_str(), type_id) && types[i].is_subtype_of(type_id, self) {
                found.push(types[i].id.clone());
                assert(views(found@) =~= listed.push(types@[i as int].id@));
                assert(type_ids(before.filter(pick).push(types@[i as int])) =~= type_ids(
                    before.filter(pick),
                ).push(types@[i as int].id@));
                assert(views(found@) =~= seq![type_id@] + type_ids(
                    types@.take(i + 1).filter(pick),
                ));
            }
            i += 1;
        }
        assert(types@.take(types.len() as int) == types@);
        found
    }

    /// `type_id`, then its parent, and so on up the chain of parents, as far as the
    /// chain goes and for as many steps as the schema has types.
    pub fn get_supertypes(&self, type_id: &str) -> (found: Vec<String>)
        ensures
            views(found@) == chain(self.entity_types@, type_id@, self.entity_types@.len()),
    {
        let types = &self.entity_types;
        let mut found: Vec<String> = Vec::new();
        found.push(owned(type_id));
        let mut current: &str = type_id;
        let mut fuel: usize = types.len();
        assert(views(found@).drop_last() + chain(types@, current@, fuel as nat) =~= chain(
            types@,
            type_id@,
            types@.len(),
        ));
        while fuel > 0
            invariant
                fuel <= types.len(),
                found.len() > 0,
                views(found@).last() == current@,
                chain(types@, type_id@, types@.len()) == views(found@).drop_last() + chain(
                    types@,
                    current@,
                    fuel as nat,
                ),
            decreases fuel,
        {
            let next: Option<&String> = match type_position(types, current) {
                Some(i) => types[i].parent.as_ref(),
                None => None,
            };
            let ghost listed = views(found@);
            match next {
                Some(p) => {
                    found.push(p.clone());
                    assert(views(found@) =~= listed.push(p@));
                    assert(views(found@).drop_last() =~= listed);
                    assert(listed =~= listed.drop_last() + seq![current@]);
                    assert(listed.drop_last() + (seq![current@] + chain(
                        types@,
                        p@,
                        (fuel - 1) as nat,
                    )) =~= listed + chain(types@, p@, (fuel - 1) as nat));
                    current = p.as_str();
                    fuel -= 1;
                },
                None => {
                    assert(chain(types@, current@, fuel as nat) =~= seq![current@]);
                    fuel = 0;
                },
            }
        }
        assert(views(found@) =~= views(found@).drop_last() + seq![current@]);
        found
    }

    /// Whether the chain of parents from `type_id` comes to one type twice.
    pub fn has_circular_inheritance(&self, type_id: &str) -> (result: Result<bool, String>)
        ensures
            result == Ok::<bool, String>(cyclic_from(self.entity_types@, type_id@)),
    {
        Ok(chain_repeats(&self.entity_types, type_id))
    }

    /// Checks the schema for consistency and names the first thing wrong with it.
    pub fn check(&self) -> (result: Result<(), SchemaError>)
        ensures
            result == match self.fault() {
                Some(e) => Err::<(), SchemaError>(e),
                None => Ok(()),
            },
            result is Ok <==> self.well_formed(),
    {
        let types = &self.entity_types;
        let relations = &self.relation_types;
        proof {
            crate::text::lemma_no_repeat(type_ids(types@));
            crate::text::lemma_no_repeat(relation_ids(relations@));
        }
        let mut d: usize = 0;
        while d < types.len()
            invariant
                d <= types.len(),
                *types == self.entity_types,
                first_repeat(type_ids(types@), 0) is None <==> type_ids(types@).no_duplicates(),
                first_repeat(relation_ids(relations@), 0) is None <==> relation_ids(
                    relations@,
                ).no_duplicates(),
                first_repeat(type_ids(types@), 0) == first_repeat(type_ids(types@), d as int),
            decreases types.len() - d,
        {
            assert(type_ids(types@)[d as int] == types@[d as int].id@);
            let first = type_position(types, types[d].id.as_str());
            if first != Some(d) {
                return Err(SchemaError::DuplicateEntityType { type_id: types[d].id.clone() });
            }
            d += 1;
        }
        let mut d: usize = 0;
        while d < relations.len()
            invariant
                d <= relations.len(),
                *types == self.entity_types,
                *relations == self.relation_types,
                first_repeat(type_ids(types@), 0) is None <==> type_ids(types@).no_duplicates(),
                first_repeat(relation_ids(relations@), 0) is None <==> relation_ids(
                    relations@,
                ).no_duplicates(),
                first_repeat(type_ids(types@), 0) is None,
                first_repeat(relation_ids(relations@), 0) == first_repeat(
                    relation_ids(relations@),
                    d as int,
                ),
            decreases relations.len() - d,
        {
            assert(relation_ids(relations@)[d as int] == relations@[d as int].id@);
            let first = relation_position(relations, relations[d].id.as_str());
            if first != Some(d) {
                return Err(
                    SchemaError::DuplicateRelationType { relation: relations[d].id.clone() },
                );
            }
            d += 1;
        }
        let mut i: usize = 0;
        while i < types.len()
            invariant
                i <= types.len(),
                *types == self.entity_types,
                *relations == self.relation_types,
                first_repeat(type_ids(types@), 0) is None <==> type_ids(types@).no_duplicates(),
                first_repeat(relation_ids(relations@), 0) is None <==> relation_ids(
                    relations@,
                ).no_duplicates(),
                first_repeat(type_ids(types@), 0) is None,
                first_repeat(relation_ids(relations@), 0) is None,
                first_type_fault(types@, 0) == first_type_fault(types@, i as int),
                forall|j: int| 0 <= j < i ==> type_fault(types@, #[trigger] types@[j]) is None,
            decreases types.len() - i,
        {
            let entity_type = &types[i];
            assert(*entity_type == types@[i as int]);
            if chain_repeats(types, entity_type.id.as_str()) {
                return Err(SchemaError::CircularInheritance { type_id: entity_type.id.clone() });
            }
            if let Some(parent_id) = &entity_type.parent {
                if !self.has_entity_type(parent_id.as_str()) {
                    return Err(
                        SchemaError::ParentNotFound {
                            parent: parent_id.clone(),
                            type_id: entity_type.id.clone(),
                        },
                    );
                }
            }
            i += 1;
        }
        let mut k: usize = 0;
        while k < relations.len()
            invariant
                k <= relations.len(),
                *types == self.entity_types,
                *relations == self.relation_types,
                first_repeat(type_ids(types@), 0) is None <==> type_ids(types@).no_duplicates(),
                first_repeat(relation_ids(relations@), 0) is None <==> relation_ids(
                    relations@,
                ).no_duplicates(),
                first_repeat(type_ids(types@), 0) is None,
                first_repeat(relation_ids(relations@), 0) is None,
                first_type_fault(types@, 0) is None,
                first_relation_fault(types@, relations@, 0) == first_relation_fault(
                    types@,
                    relations@,
                    k as int,
                ),
                forall|j: int|
                    0 <= j < types@.len() ==> type_fault(types@, #[trigger] types@[j]) is None,
                forall|j: int|
                    0 <= j < k ==> relation_fault(types@, relations@, #[trigger] relations@[j])
                        is None,
            decreases relations.len() - k,
        {
            let relation = &relations[k];
            assert(*relation == relations@[k as int]);
            if !self.has_entity_type(relation.domain.as_str()) {
                return Err(
                    SchemaError::DomainNotFound {
                        domain: relation.domain.clone(),
                        relation: relation.id.clone(),
                    },
                );
            }
            if !self.has_entity_type(relation.range.as_str()) {
                return Err(
                    SchemaError::RangeNotFound {
                        range: relation.range.clone(),
                        relation: relation.id.clone(),
                    },
                );
            }
            if let Some(inverse_id) = &relation.inverse {
                if !self.has_relation_type(inverse_id.as_str()) {
                    return Err(
                        SchemaError::InverseNotFound {
                            inverse: inverse_id.clone(),
                            relation: relation.id.clone(),
                        },
                    );
                }
            }
            k += 1;
        }
        Ok(())
    }

    /// Checks the schema for consistency and says in words the first thing wrong
    /// with it.
    pub fn validate(&self) -> (result: Result<(), String>)
        ensures
            result is Ok <==> self.well_formed(),
            result matches Err(text) ==> self.fault() matches Some(e) && text@
                == e.message_text(),
    {
        match self.check() {
            Ok(()) => Ok(()),
            Err(e) => Err(e.message()),
        }
    }
}

} // verus!

use crate::error::VectaDBError;
use crate::intelligence::closure::{
    direct_neighbours, neighbours, reachable, reachable_nodes, AdjacencyEntry,
};
use crate::ontology::entity_type::EntityType;
use crate::ontology::relation_type::RelationType;
use crate::ontology::schema::{find_relation, find_type, has_type, subtypes, OntologySchema};
use crate::text::{decimal, decimal_text, owned, str_eq, views};
use vstd::prelude::*;

verus! {

/// Why a relation was inferred for a type.
#[derive(Debug, Clone, Copy, PartialEq, Eq, Structural)]
pub enum InferenceReason {
    /// The relation is transitive.
    Transitive,
    /// The relation is symmetric, so it also holds the other way round.
    Symmetric,
    /// The relation has an inverse, which holds the other way round.
    Inverse,
    /// The type is the relation's domain or a subtype of it.
    SubtypeInheritance,
}

impl InferenceReason {
    /// The reason's name.
    pub fn name(&self) -> (text: &'static str)
        ensures
            text@ == match *self {
                InferenceReason::Transitive => "Transitive"@,
                InferenceReason::Symmetric => "Symmetric"@,
                InferenceReason::Inverse => "Inverse"@,
                InferenceReason::SubtypeInheritance => "SubtypeInheritance"@,
            },
    {
        match self {
            InferenceReason::Transitive => "Transitive",
            InferenceReason::Symmetric => "Symmetric",
            InferenceReason::Inverse => "Inverse",
            InferenceReason::SubtypeInheritance => "SubtypeInheritance",
        }
    }
}

/// A relation that the ontology gives a type: its type, the two types it runs between,
/// and why it was inferred.
#[derive(Debug, Clone)]
pub struct InferredRelation {
    pub relation_type: String,
    pub source_type: String,
    pub target_type: String,
    pub reason: InferenceReason,
}

/// An inferred relation by the characters it holds.
pub struct InferredRelationView {
    pub relation_type: Seq<char>,
    pub source_type: Seq<char>,
    pub target_type: Seq<char>,
    pub reason: InferenceReason,
}

impl View for InferredRelation {
    type V = InferredRelationView;

    open spec fn view(&self) -> InferredRelationView {
        InferredRelationView {
            relation_type: self.relation_type@,
            source_type: self.source_type@,
            target_type: self.target_type@,
            reason: self.reason,
        }
    }
}

/// What a query for one type becomes once the ontology is applied to it.
#[derive(Debug, Clone)]
pub struct ExpandedQuery {
    pub original_type: String,
    /// The type and its subtypes.
    pub expanded_types: Vec<String>,
    pub inferred_relations: Vec<InferredRelation>,
    /// How many types and how many relations the expansion holds, by name.
    pub metadata: Vec<(String, String)>,
}

/// The views of a list of inferred relations.
pub open spec fn inference_views(list: Seq<InferredRelation>) -> Seq<InferredRelationView> {
    list.map_values(|r: InferredRelation| r@)
}

/// Whether an entity of type `actual` may stand where `expected` is asked for: the two
/// are the same, or `actual` names a type that is a subtype of `expected`.
pub open spec fn type_compatible(
    types: Seq<EntityType>,
    actual: Seq<char>,
    expected: Seq<char>,
) -> bool {
    actual == expected || (find_type(types, actual) matches Some(t) && t.subtype_of(
        expected,
        types,
    ))
}

/// The record of a relation as it runs from the type to the relation's range.
pub open spec fn forward_record(r: RelationType, entity_type: Seq<char>) -> InferredRelationView {
    InferredRelationView {
        relation_type: r.id@,
        source_type: entity_type,
        target_type: r.range@,
        reason: InferenceReason::SubtypeInheritance,
    }
}

/// The record of a symmetric relation as it runs back from its range to the type.
pub open spec fn reversed_record(r: RelationType, entity_type: Seq<char>) -> InferredRelationView {
    InferredRelationView {
        relation_type: r.id@,
        source_type: r.range@,
        target_type: entity_type,
        reason: InferenceReason::Symmetric,
    }
}

/// The record of a relation's inverse, which runs back from the range to the type.
pub open spec fn inverse_record(r: RelationType, entity_type: Seq<char>) -> InferredRelationView {
    InferredRelationView {
        relation_type: r.inverse->0@,
        source_type: r.range@,
        target_type: entity_type,
        reason: InferenceReason::Inverse,
    }
}

/// The records that one relation gives a type within its domain: the relation itself;
/// then, if it is symmetric, the relation reversed; then, if it has one, its inverse.
pub open spec fn relation_inferences(r: RelationType, entity_type: Seq<char>) -> Seq<
    InferredRelationView,
> {
    seq![forward_record(r, entity_type)] + (if r.symmetric {
        seq![reversed_record(r, entity_type)]
    } else {
        Seq::empty()
    }) + (if r.inverse is Some {
        seq![inverse_record(r, entity_type)]
    } else {
        Seq::empty()
    })
}

/// The records that the relations of a schema give a type, relation by relation in
/// their order; a relation whose domain the type is not compatible with gives none.
pub open spec fn inferences(
    types: Seq<EntityType>,
    relations: Seq<RelationType>,
    entity_type: Seq<char>,
) -> Seq<InferredRelationView>
    decreases relations.len(),
{
    if relations.len() == 0 {
        Seq::empty()
    } else if type_compatible(types, entity_type, relations.last().domain@) {
        inferences(types, relations.drop_last(), entity_type) + relation_inferences(
            relations.last(),
            entity_type,
        )
    } else {
        inferences(types, relations.drop_last(), entity_type)
    }
}

/// The relations, in their order, that may run from a source of the one type to a
/// target of the other.
pub open spec fn compatible_relations(
    types: Seq<EntityType>,
    relations: Seq<RelationType>,
    source: Seq<char>,
    target: Seq<char>,
) -> Seq<Seq<char>>
    decreases relations.len(),
{
    if relations.len() == 0 {
        Seq::empty()
    } else if relations.last().connects(source, target, types) {
        compatible_relations(types, relations.drop_last(), source, target).push(
            relations.last().id@,
        )
    } else {
        compatible_relations(types, relations.drop_last(), source, target)
    }
}

/// What a named relation is marked as: transitive or not; an unknown relation is not.
pub open spec fn is_transitive(relations: Seq<RelationType>, id: Seq<char>) -> bool {
    find_relation(relations, id) matches Some(r) && r.transitive
}

/// The message of a query for a type that the ontology does not have.
pub open spec fn unknown_type_text(id: Seq<char>) -> Seq<char> {
    "Entity type '"@ + id + "' not found in ontology"@
}

/// Expands queries by the subtypes and the relations that a schema gives a type.
pub struct OntologyReasoner {
    schema: OntologySchema,
}

impl View for OntologyReasoner {
    type V = OntologySchema;

    /// The schema that the reasoner works on.
    closed spec fn view(&self) -> OntologySchema {
        self.schema
    }
}

fn push_record(list: &mut Vec<InferredRelation>, record: InferredRelation)
    ensures
        inference_views(final(list)@) == inference_views(old(list)@).push(record@),
{
    list.push(record);
    assert(inference_views(list@) =~= inference_views(old(list)@).push(record@));
}

impl OntologyReasoner {
    /// A reasoner that works on `schema`.
    pub fn new(schema: OntologySchema) -> (reasoner: Self)
        ensures
            reasoner@ == schema,
    {
        OntologyReasoner { schema }
    }

    /// The schema that the reasoner works on.
    pub fn schema(&self) -> (schema: &OntologySchema)
        ensures
            *schema == self@,
    {
        &self.schema
    }

    /// Puts another schema in the place of the reasoner's, if that schema is
    /// consistent; keeps the old one and says what is wrong if it is not.
    pub fn update_schema(&mut self, schema: OntologySchema) -> (result: Result<(), VectaDBError>)
        ensures
            result is Ok <==> schema.well_formed(),
            result is Ok ==> final(self)@ == schema,
            result matches Err(e) ==> final(self)@ == old(self)@ && e is InvalidInput
                && schema.fault() is Some && e.detail() == "Invalid ontology schema: "@
                + schema.fault()->0.message_text(),
    {
        match schema.check() {
            Ok(()) => {
                self.schema = schema;
                Ok(())
            },
            Err(fault) => {
                let mut text = owned("Invalid ontology schema: ");
                let detail = fault.message();
                text.append(detail.as_str());
                Err(VectaDBError::InvalidInput(text))
            },
        }
    }

    /// Whether an entity of type `actual_type` may stand where `expected_type` is
    /// asked for.
    pub fn is_type_compatible(&self, actual_type: &str, expected_type: &str) -> (yes: bool)
        ensures
            yes == type_compatible(self@.entity_types@, actual_type@, expected_type@),
    {
        if str_eq(actual_type, expected_type) {
            return true;
        }
        match self.schema.entity_type(actual_type) {
            Some(entity_type) => entity_type.is_subtype_of(expected_type, &self.schema),
            None => false,
        }
    }

    /// The relations that the schema gives a type.
    pub fn infer_relations(&self, entity_type: &str) -> (inferred: Vec<InferredRelation>)
        ensures
            inference_views(inferred@) == inferences(
                self@.entity_types@,
                self@.relation_types@,
                entity_type@,
            ),
    {
        let mut inferred: Vec<InferredRelation> = Vec::new();
        let relations = &self.schema.relation_types;
        assert(inference_views(inferred@) =~= Seq::<InferredRelationView>::empty());
        let mut i: usize = 0;
        while i < relations.len()
            invariant
                i <= relations.len(),
                *relations == self@.relation_types,
                inference_views(inferred@) == inferences(
                    self@.entity_types@,
                    relations@.take(i as int),
                    entity_type@,
                ),
            decreases relations.len() - i,
        {
            assert(relations@.take(i + 1).drop_last() == relations@.take(i as int));
            let relation = &relations[i];
            let ghost before = inference_views(inferred@);
            if self.is_type_compatible(entity_type, relation.domain.as_str()) {
                push_record(
                    &mut inferred,
                    InferredRelation {
                        relation_type: relation.id.clone(),
                        source_type: owned(entity_type),
                        target_type: relation.range.clone(),
                        reason: InferenceReason::SubtypeInheritance,
                    },
                );
                if relation.symmetric {
                    push_record(
                        &mut inferred,
                        InferredRelation {
                            relation_type: relation.id.clone(),
                            source_type: relation.range.clone(),
                            target_type: owned(entity_type),
                            reason: InferenceReason::Symmetric,
                        },
                    );
                }
                if let Some(inverse_id) = &relation.inverse {
                    push_record(
                        &mut inferred,
                        InferredRelation {
                            relation_type: inverse_id.clone(),
                            source_type: relation.range.clone(),
                            target_type: owned(entity_type),
                            reason: InferenceReason::Inverse,
                        },
                    );
                }
                assert(inference_views(inferred@) =~= before + relation_inferences(
                    relations@[i as int],
                    entity_type@,
                ));
            }
            i += 1;
        }
        assert(relations@.take(relations.len() as int) == relations@);
        inferred
    }

    /// The type with its subtypes and the relations that the schema gives it; an
    /// error where the schema has no such type.
    pub fn expand_query(&self, entity_type: &str) -> (result: Result<ExpandedQuery, VectaDBError>)
        ensures
            result is Ok <==> has_type(self@.entity_types@, entity_type@),
            result matches Ok(expanded) ==> {
                &&& expanded.original_type@ == entity_type@
                &&& views(expanded.expanded_types@) == subtypes(self@.entity_types@, entity_type@)
                &&& inference_views(expanded.inferred_relations@) == inferences(
                    self@.entity_types@,
                    self@.relation_types@,
                    entity_type@,
                )
                &&& expanded.metadata@.len() == 2
                &&& expanded.metadata@[0].0@ == "expansion_count"@
                &&& expanded.metadata@[0].1@ == decimal(expanded.expanded_types@.len())
                &&& expanded.metadata@[1].0@ == "inference_count"@
                &&& expanded.metadata@[1].1@ == decimal(expanded.inferred_relations@.len())
            },
            result matches Err(e) ==> e is InvalidInput && e.detail() == unknown_type_text(
                entity_type@,
            ),
    {
        if !self.schema.has_entity_type(entity_type) {
            let mut text = owned("Entity type '");
            text.append(entity_type);
            text.append("' not found in ontology");
            return Err(VectaDBError::InvalidInput(text));
        }
        let expanded_types = self.schema.get_subtypes(entity_type);
        let inferred_relations = self.infer_relations(entity_type);
        let mut metadata: Vec<(String, String)> = Vec::new();
        metadata.push((owned("expansion_count"), decimal_text(expanded_types.len() as u64)));
        metadata.push((owned("inference_count"), decimal_text(inferred_relations.len() as u64)));
        Ok(
            ExpandedQuery {
                original_type: owned(entity_type),
                expanded_types,
                inferred_relations,
                metadata,
            },
        )
    }

    /// The entities that a relation connects a start entity with, given the edges of
    /// that relation.
    ///
    /// For a transitive relation these are all entities reachable from the start along
    /// one edge or more, each once, in the order a breadth-first search finds them. For
    /// any other relation, and for one the schema does not have, they are the entities
    /// that the edges from the start lead to.
    pub fn get_transitive_closure(
        &self,
        relation_type: &str,
        start_entity: &str,
        entities: &Vec<AdjacencyEntry>,
    ) -> (connected: Vec<String>)
        ensures
            is_transitive(self@.relation_types@, relation_type@) ==> {
                &&& views(connected@).no_duplicates()
                &&& forall|x: Seq<char>|
                    views(connected@).contains(x) <==> reachable(entities@, start_entity@, x)
            },
            !is_transitive(self@.relation_types@, relation_type@) ==> views(connected@)
                == neighbours(entities@, start_entity@),
    {
        let transitive = match self.schema.relation_type(relation_type) {
            Some(r) => r.transitive,
            None => false,
        };
        if !transitive {
            return direct_neighbours(entities, start_entity);
        }
        reachable_nodes(entities, start_entity)
    }

    /// The relations of the schema that may run from a source of the one type to a
    /// target of the other, in the schema's order.
    pub fn get_compatible_relations(&self, source_type: &str, target_type: &str) -> (compatible:
        Vec<String>)
        ensures
            views(compatible@) == compatible_relations(
                self@.entity_types@,
                self@.relation_types@,
                source_type@,
                target_type@,
            ),
    {
        let mut compatible: Vec<String> = Vec::new();
        let relations = &self.schema.relation_types;
        assert(views(compatible@) =~= Seq::<Seq<char>>::empty());
        let mut i: usize = 0;
        while i < relations.len()
            invariant
                i <= relations.len(),
                *relations == self@.relation_types,
                views(compatible@) == compatible_relations(
                    self@.entity_types@,
                    relations@.take(i as int),
                    source_type@,
                    target_type@,
                ),
            decreases relations.len() - i,
        {
            assert(relations@.take(i + 1).drop_last() == relations@.take(i as int));
            let ghost before = views(compatible@);
            if relations[i].can_connect(source_type, target_type, &self.schema) {
                compatible.push(relations[i].id.clone());
                assert(views(compatible@) =~= before.push(relations@[i as int].id@));
            }
            i += 1;
        }
        assert(relations@.take(relations.len() as int) == relations@);
        compatible
    }
}

/// A symmetric relation gives every type within its domain both the record that runs
/// forward and the record that runs back.
pub proof fn symmetric_relation_is_inferred_both_ways(
    types: Seq<EntityType>,
    relations: Seq<RelationType>,
    entity_type: Seq<char>,
    i: int,
)
    requires
        0 <= i < relations.len(),
        relations[i].symmetric,
        type_compatible(types, entity_type, relations[i].domain@),
    ensures
        inferences(types, relations, entity_type).contains(
            forward_record(relations[i], entity_type),
        ),
        inferences(types, relations, entity_type).contains(
            reversed_record(relations[i], entity_type),
        ),
    decreases relations.len(),
{
    let all = inferences(types, relations, entity_type);
    let rest = inferences(types, relations.drop_last(), entity_type);
    if i == relations.len() - 1 {
        let own = relation_inferences(relations[i], entity_type);
        assert(own[0] == forward_record(relations[i], entity_type));
        assert(own[1] == reversed_record(relations[i], entity_type));
        assert(all[rest.len() as int] == own[0]);
        assert(all[rest.len() as int + 1] == own[1]);
    } else {
        symmetric_relation_is_inferred_both_ways(types, relations.drop_last(), entity_type, i);
        let f = choose|f: int| 0 <= f < rest.len() && rest[f] == forward_record(
            relations[i],
            entity_type,
        );
        let b = choose|b: int| 0 <= b < rest.len() && rest[b] == reversed_record(
            relations[i],
            entity_type,
        );
        assert(all[f] == rest[f]);
        assert(all[b] == rest[b]);
    }
}

} // verus!

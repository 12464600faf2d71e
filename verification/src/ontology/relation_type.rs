use crate::ontology::entity_type::EntityType;
use crate::ontology::schema::{find_type, OntologySchema};
use vstd::prelude::*;

verus! {

/// A kind of directed edge of the ontology, from entities of its domain to entities of
/// its range.
#[derive(Debug, Clone)]
pub struct RelationType {
    /// The relation's identifier.
    pub id: String,
    pub label: String,
    /// The type that sources must be subtypes of.
    pub domain: String,
    /// The type that targets must be subtypes of.
    pub range: String,
    /// The relation that holds in the other direction, if one is declared.
    pub inverse: Option<String>,
    pub transitive: bool,
    pub symmetric: bool,
    /// At most one edge of this relation leaves a source.
    pub functional: bool,
    pub reflexive: bool,
    /// Free-form data kept with the relation, as JSON text.
    pub metadata: String,
}

impl RelationType {
    /// A relation without inverse and with no modifier set.
    pub fn new(id: String, label: String, domain: String, range: String) -> (relation: Self)
        ensures
            relation.id == id,
            relation.label == label,
            relation.domain == domain,
            relation.range == range,
            relation.inverse is None,
            !relation.transitive,
            !relation.symmetric,
            !relation.functional,
            !relation.reflexive,
            relation.metadata@ == "null"@,
    {
        RelationType {
            id,
            label,
            domain,
            range,
            inverse: None,
            transitive: false,
            symmetric: false,
            functional: false,
            reflexive: false,
            metadata: crate::text::owned("null"),
        }
    }

    /// The same relation with `inverse` as its inverse.
    pub fn with_inverse(self, inverse: String) -> (relation: Self)
        ensures
            relation == (RelationType { inverse: Some(inverse), ..self }),
    {
        RelationType { inverse: Some(inverse), ..self }
    }

    /// The same relation, transitive.
    pub fn transitive(self) -> (relation: Self)
        ensures
            relation == (RelationType { transitive: true, ..self }),
    {
        RelationType { transitive: true, ..self }
    }

    /// The same relation, symmetric.
    pub fn symmetric(self) -> (relation: Self)
        ensures
            relation == (RelationType { symmetric: true, ..self }),
    {
        RelationType { symmetric: true, ..self }
    }

    /// The same relation, functional.
    pub fn functional(self) -> (relation: Self)
        ensures
            relation == (RelationType { functional: true, ..self }),
    {
        RelationType { functional: true, ..self }
    }

    /// The same relation, reflexive.
    pub fn reflexive(self) -> (relation: Self)
        ensures
            relation == (RelationType { reflexive: true, ..self }),
    {
        RelationType { reflexive: true, ..self }
    }

    /// Whether edges of this relation are directed: all are, but those of a symmetric
    /// relation.
    pub fn directed(&self) -> (directed: bool)
        ensures
            directed == !self.symmetric,
    {
        !self.symmetric
    }

    /// Whether an edge of this relation may run from an entity of type `source` to one
    /// of type `target`: both name types of the list, the first a subtype of the
    /// relation's domain, the second a subtype of its range.
    pub open spec fn connects(
        &self,
        source: Seq<char>,
        target: Seq<char>,
        types: Seq<EntityType>,
    ) -> bool {
        &&& find_type(types, source) matches Some(s) && s.subtype_of(self.domain@, types)
        &&& find_type(types, target) matches Some(t) && t.subtype_of(self.range@, types)
    }

    /// Whether an edge of this relation may run from an entity of type `source_type`
    /// to one of type `target_type`.
    pub fn can_connect(&self, source_type: &str, target_type: &str, schema: &OntologySchema) -> (yes:
        bool)
        ensures
            yes == self.connects(source_type@, target_type@, schema.entity_types@),
    {
        let source_compatible = match schema.entity_type(source_type) {
            Some(source) => source.is_subtype_of(self.domain.as_str(), schema),
            None => false,
        };
        let target_compatible = match schema.entity_type(target_type) {
            Some(target) => target.is_subtype_of(self.range.as_str(), schema),
            None => false,
        };
        source_compatible && target_compatible
    }
}

} // verus!

use crate::ontology::value::{clone_properties, Property};
use crate::runtime::{fresh_id, is_id_char, now_millis};
use vstd::prelude::*;

verus! {

/// How many characters a generated identifier has.
pub const ID_LENGTH: usize = 21;

/// An entity of the graph: a typed vertex with dynamic properties.
#[derive(Debug)]
pub struct Entity {
    /// The entity's identifier within the table of entities.
    pub id: String,
    pub entity_type: String,
    pub properties: Vec<Property>,
    /// The entity's embedding, each component by the bits of its single-precision
    /// value.
    pub embedding: Option<Vec<u32>>,
    /// When the entity was created, in milliseconds since the start of 1970.
    pub created_at: i64,
    /// When the entity was last written, in milliseconds since the start of 1970.
    pub updated_at: i64,
    pub metadata: Vec<(String, String)>,
}

/// An entity by what it holds.
pub struct EntityView {
    pub id: Seq<char>,
    pub entity_type: Seq<char>,
    pub properties: Seq<Property>,
    pub embedding: Option<Seq<u32>>,
    pub created_at: i64,
    pub updated_at: i64,
    pub metadata: Seq<(String, String)>,
}

impl View for Entity {
    type V = EntityView;

    open spec fn view(&self) -> EntityView {
        EntityView {
            id: self.id@,
            entity_type: self.entity_type@,
            properties: self.properties@,
            embedding: match self.embedding {
                Some(v) => Some(v@),
                None => None,
            },
            created_at: self.created_at,
            updated_at: self.updated_at,
            metadata: self.metadata@,
        }
    }
}

/// A copy of a list of pairs of strings.
pub fn clone_pairs(pairs: &Vec<(String, String)>) -> (copy: Vec<(String, String)>)
    ensures
        copy@ == pairs@,
{
    let mut copy: Vec<(String, String)> = Vec::new();
    let mut i: usize = 0;
    while i < pairs.len()
        invariant
            i <= pairs.len(),
            copy@ == pairs@.take(i as int),
        decreases pairs.len() - i,
    {
        copy.push((pairs[i].0.clone(), pairs[i].1.clone()));
        assert(pairs@.take(i + 1) == pairs@.take(i as int).push(pairs@[i as int]));
        i += 1;
    }
    assert(pairs@.take(pairs.len() as int) == pairs@);
    copy
}

/// A copy of a list of numbers.
pub fn clone_bits(bits: &Vec<u32>) -> (copy: Vec<u32>)
    ensures
        copy@ == bits@,
{
    let mut copy: Vec<u32> = Vec::new();
    let mut i: usize = 0;
    while i < bits.len()
        invariant
            i <= bits.len(),
            copy@ == bits@.take(i as int),
        decreases bits.len() - i,
    {
        copy.push(bits[i]);
        assert(bits@.take(i + 1) == bits@.take(i as int).push(bits@[i as int]));
        i += 1;
    }
    assert(bits@.take(bits.len() as int) == bits@);
    copy
}

impl Clone for Entity {
    fn clone(&self) -> (copy: Self)
        ensures
            copy@ == self@,
    {
        Entity {
            id: self.id.clone(),
            entity_type: self.entity_type.clone(),
            properties: clone_properties(&self.properties),
            embedding: match &self.embedding {
                Some(v) => Some(clone_bits(v)),
                None => None,
            },
            created_at: self.created_at,
            updated_at: self.updated_at,
            metadata: clone_pairs(&self.metadata),
        }
    }
}

impl Entity {
    /// An entity with the given identifier, created and last written at `now`, without
    /// embedding or metadata.
    pub fn with_id(id: String, entity_type: String, properties: Vec<Property>, now: i64) -> (entity:
        Self)
        ensures
            entity.id == id,
            entity.entity_type == entity_type,
            entity.properties == properties,
            entity.embedding is None,
            entity.created_at == now,
            entity.updated_at == now,
            entity.metadata@ == Seq::<(String, String)>::empty(),
    {
        Entity {
            id,
            entity_type,
            properties,
            embedding: None,
            created_at: now,
            updated_at: now,
            metadata: Vec::new(),
        }
    }

    /// A new entity with a fresh identifier, created now.
    pub fn new(entity_type: String, properties: Vec<Property>) -> (entity: Self)
        ensures
            entity.id@.len() == ID_LENGTH,
            forall|i: int| 0 <= i < entity.id@.len() ==> is_id_char(#[trigger] entity.id@[i]),
            entity.entity_type == entity_type,
            entity.properties == properties,
            entity.embedding is None,
            entity.created_at == entity.updated_at,
            entity.metadata@ == Seq::<(String, String)>::empty(),
    {
        let id = fresh_id(ID_LENGTH);
        let now = now_millis();
        Entity::with_id(id, entity_type, properties, now)
    }

    /// The entity's identifier.
    pub fn id_string(&self) -> (id: String)
        ensures
            id@ == self.id@,
    {
        self.id.clone()
    }

    /// The same entity with an embedding.
    pub fn with_embedding(self, embedding: Vec<u32>) -> (entity: Self)
        ensures
            entity == (Entity { embedding: Some(embedding), ..self }),
    {
        Entity { embedding: Some(embedding), ..self }
    }

    /// The same entity with other metadata.
    pub fn with_metadata(self, metadata: Vec<(String, String)>) -> (entity: Self)
        ensures
            entity == (Entity { metadata, ..self }),
    {
        Entity { metadata, ..self }
    }

    /// The same entity with other properties, written at `now`.
    pub fn with_properties(self, properties: Vec<Property>, now: i64) -> (entity: Self)
        ensures
            entity == (Entity { properties, updated_at: now, ..self }),
    {
        Entity { properties, updated_at: now, ..self }
    }
}

/// A relation of the graph: a typed directed edge between two entities.
#[derive(Debug)]
pub struct Relation {
    /// The relation's identifier within the table of relations.
    pub id: String,
    pub relation_type: String,
    pub source_id: String,
    pub target_id: String,
    pub properties: Vec<Property>,
    /// When the relation was created, in milliseconds since the start of 1970.
    pub created_at: i64,
}

/// A relation by what it holds.
pub struct RelationView {
    pub id: Seq<char>,
    pub relation_type: Seq<char>,
    pub source_id: Seq<char>,
    pub target_id: Seq<char>,
    pub properties: Seq<Property>,
    pub created_at: i64,
}

impl View for Relation {
    type V = RelationView;

    open spec fn view(&self) -> RelationView {
        RelationView {
            id: self.id@,
            relation_type: self.relation_type@,
            source_id: self.source_id@,
            target_id: self.target_id@,
            properties: self.properties@,
            created_at: self.created_at,
        }
    }
}

impl Clone for Relation {
    fn clone(&self) -> (copy: Self)
        ensures
            copy@ == self@,
    {
        Relation {
            id: self.id.clone(),
            relation_type: self.relation_type.clone(),
            source_id: self.source_id.clone(),
            target_id: self.target_id.clone(),
            properties: clone_properties(&self.properties),
            created_at: self.created_at,
        }
    }
}

impl Relation {
    /// A relation with the given identifier, created at `now`.
    pub fn with_id(
        id: String,
        relation_type: String,
        source_id: String,
        target_id: String,
        properties: Vec<Property>,
        now: i64,
    ) -> (relation: Self)
        ensures
            relation == (Relation {
                id,
                relation_type,
                source_id,
                target_id,
                properties,
                created_at: now,
            }),
    {
        Relation { id, relation_type, source_id, target_id, properties, created_at: now }
    }

    /// A new relation with a fresh identifier, created now.
    pub fn new(
        relation_type: String,
        source_id: String,
        target_id: String,
        properties: Vec<Property>,
    ) -> (relation: Self)
        ensures
            relation.id@.len() == ID_LENGTH,
            forall|i: int| 0 <= i < relation.id@.len() ==> is_id_char(#[trigger] relation.id@[i]),
            relation.relation_type == relation_type,
            relation.source_id == source_id,
            relation.target_id == target_id,
            relation.properties == properties,
    {
        let id = fresh_id(ID_LENGTH);
        let now = now_millis();
        Relation::with_id(id, relation_type, source_id, target_id, properties, now)
    }

    /// The relation's identifier.
    pub fn id_string(&self) -> (id: String)
        ensures
            id@ == self.id@,
    {
        self.id.clone()
    }
}

/// An entity with the score that a vector search gave it, in billionths.
#[derive(Debug, Clone)]
pub struct ScoredEntity {
    pub entity: Entity,
    pub score: i64,
}

/// What a traversal of the graph passed: entities and the relations between them.
#[derive(Debug, Clone)]
pub struct GraphPath {
    pub entities: Vec<Entity>,
    pub relations: Vec<Relation>,
}

} // verus!

use crate::api::types::{CreateEntityRequest, CreateEntityResponse, UpdateEntityRequest};
use crate::api::write::{Failure, WriteEvent, BAD_REQUEST, INTERNAL_SERVER_ERROR, NOT_FOUND};
use crate::db::types::{clone_bits, Entity, EntityView};
use crate::ingestion::content::{extract_text_from_properties, properties_text};
use crate::ontology::validator::{entity_faults, error_views, OntologyValidator, ValidationError, ValidationErrorView};
use crate::ontology::value::{clone_properties, Property};
use crate::runtime::{fresh_id, now_millis};
use crate::text::{join, joined, views};
use vstd::prelude::*;

verus! {

/// Where a write of an entity stands.
#[derive(Debug, Clone, Copy, PartialEq, Eq, Structural)]
pub enum EntityStage {
    /// The entity that is there is being fetched.
    Fetching,
    Embedding,
    /// The graph store is storing, replacing or deleting the entity.
    Storing,
    CheckingCollection,
    CreatingCollection,
    /// The vector store is storing or deleting the entity's vector.
    WritingVector,
    Done,
    Failed,
}

/// What a write of an entity asks for next.
#[derive(Debug)]
pub enum EntityAction {
    /// Fetch the entity of this identifier.
    FetchEntity(String),
    /// Embed this text.
    Embed(String),
    /// Store this new entity.
    StoreEntity(Entity),
    /// Put this entity in the place of the one that is stored.
    ReplaceEntity(Entity),
    /// Delete the entity of this identifier; its relations stay.
    DeleteEntity(String),
    /// Say whether the vector store has the collection of this type.
    CollectionExists(String),
    /// Create the collection of this type for vectors of this length.
    CreateCollection { entity_type: String, dimension: usize },
    /// Store this vector for the entity in the collection of its type.
    UpsertVector { entity_type: String, id: String, vector: Vec<u32> },
    /// Delete the entity's vector from the collection of its type.
    DeleteVector { entity_type: String, id: String },
    /// The entity is created.
    Created(CreateEntityResponse),
    /// The entity is replaced or deleted.
    Finished,
    Fail(Failure),
}

/// The messages of a list of errors.
pub open spec fn messages(errors: Seq<ValidationErrorView>) -> Seq<Seq<char>> {
    errors.map_values(|e: ValidationErrorView| e.text())
}

/// What is said of an entity that fails validation: every error, with a semicolon and
/// a blank between them.
pub open spec fn rejection_text(errors: Seq<ValidationErrorView>) -> Seq<char> {
    "Entity validation failed: "@ + joined(messages(errors), "; "@)
}

/// The failure of an entity that fails validation.
pub fn rejection(errors: &Vec<ValidationError>) -> (failure: Failure)
    ensures
        failure.is(BAD_REQUEST, "ValidationError"@, rejection_text(error_views(errors@))),
{
    let ghost all = messages(error_views(errors@));
    let mut texts: Vec<String> = Vec::new();
    let mut i: usize = 0;
    assert(views(texts@) =~= all.take(0));
    while i < errors.len()
        invariant
            i <= errors.len(),
            all == messages(error_views(errors@)),
            views(texts@) == all.take(i as int),
        decreases errors.len() - i,
    {
        let ghost before = views(texts@);
        texts.push(errors[i].message());
        assert(views(texts@) =~= before.push(all[i as int]));
        assert(all.take(i + 1) =~= all.take(i as int).push(all[i as int]));
        i += 1;
    }
    assert(all.take(errors.len() as int) == all);
    let listed = join(&texts, "; ");
    Failure::new(BAD_REQUEST, "ValidationError", "Entity validation failed: ", listed.as_str())
}

/// Whether an entity of the given type and properties may be written: no schema is
/// loaded, or the schema has nothing against it.
pub open spec fn admitted(
    validator: Option<OntologyValidator>,
    entity_type: Seq<char>,
    properties: Seq<Property>,
) -> bool {
    validator matches Some(v) ==> entity_faults(v@, entity_type, properties).len() == 0
}

/// Checks an entity against the schema, if one is loaded.
pub fn check_entity(validator: Option<&OntologyValidator>, entity_type: &str, properties: &Vec<Property>) -> (result:
    Result<(), Failure>)
    ensures
        result is Ok <==> admitted(
            match validator {
                Some(v) => Some(*v),
                None => None,
            },
            entity_type@,
            properties@,
        ),
        result matches Err(failure) ==> validator is Some && failure.is(
            BAD_REQUEST,
            "ValidationError"@,
            rejection_text(entity_faults(validator->0@, entity_type@, properties@)),
        ),
{
    match validator {
        Some(v) => match v.validate_entity(entity_type, properties) {
            Ok(()) => Ok(()),
            Err(errors) => Err(rejection(&errors)),
        },
        None => Ok(()),
    }
}

/// The creation of an entity under way.
#[derive(Debug)]
pub struct EntityCreation {
    pub entity: Entity,
    pub stage: EntityStage,
}

impl EntityCreation {
    /// Whether `action` ends the creation well.
    pub open spec fn finishes(&self, next: Self, action: EntityAction) -> bool {
        &&& next.stage == EntityStage::Done
        &&& action matches EntityAction::Created(response)
        &&& response.id@ == self.entity.id@
        &&& response.entity_type@ == self.entity.entity_type@
        &&& response.created_at == self.entity.created_at
    }

    /// Whether `action` asks to store the entity's vector.
    pub open spec fn upserts(&self, next: Self, action: EntityAction) -> bool {
        &&& next.stage == EntityStage::WritingVector
        &&& action matches EntityAction::UpsertVector { entity_type, id, vector }
        &&& entity_type@ == self.entity.entity_type@
        &&& id@ == self.entity.id@
        &&& vector@ == match self.entity.embedding {
            Some(bits) => bits@,
            None => Seq::empty(),
        }
    }

    /// Whether `action` asks to store the entity.
    pub open spec fn stores(entity: Entity, next: Self, action: EntityAction) -> bool {
        &&& next.stage == EntityStage::Storing
        &&& next.entity@ == entity@
        &&& action matches EntityAction::StoreEntity(stored)
        &&& stored@ == entity@
    }

    /// Whether `next` and `action` are what the creation comes to on `event`.
    ///
    /// The entity is stored with its embedding. A failure to embed and a failure of
    /// the graph store fail the creation; a failure of the vector store is passed over.
    pub open spec fn leads_to(&self, event: WriteEvent, next: Self, action: EntityAction) -> bool {
        match (self.stage, event) {
            (EntityStage::Embedding, WriteEvent::Embedded(bits)) => EntityCreation::stores(
                Entity { embedding: Some(bits), ..self.entity },
                next,
                action,
            ),
            (EntityStage::Embedding, WriteEvent::EmbeddingFailed(why)) => {
                &&& next.stage == EntityStage::Failed
                &&& action matches EntityAction::Fail(failure)
                &&& failure.is(
                    INTERNAL_SERVER_ERROR,
                    "EmbeddingError"@,
                    "Failed to generate embedding: "@ + why@,
                )
            },
            (EntityStage::Storing, WriteEvent::Stored) => {
                &&& next.entity@ == self.entity@
                &&& if self.entity.embedding is Some {
                    &&& next.stage == EntityStage::CheckingCollection
                    &&& action matches EntityAction::CollectionExists(entity_type)
                    &&& entity_type@ == self.entity.entity_type@
                } else {
                    self.finishes(next, action)
                }
            },
            (EntityStage::Storing, WriteEvent::StoreFailed(why)) => {
                &&& next.stage == EntityStage::Failed
                &&& action matches EntityAction::Fail(failure)
                &&& failure.is(
                    INTERNAL_SERVER_ERROR,
                    "DatabaseError"@,
                    "Failed to create entity: "@ + why@,
                )
            },
            (EntityStage::CheckingCollection, WriteEvent::CollectionExists(true)) => {
                next.entity@ == self.entity@ && self.upserts(next, action)
            },
            (EntityStage::CheckingCollection, WriteEvent::CollectionExists(false)) => {
                next.entity@ == self.entity@ && self.creates_collection(next, action)
            },
            (EntityStage::CheckingCollection, WriteEvent::VectorFailed(_)) => {
                next.entity@ == self.entity@ && self.creates_collection(next, action)
            },
            (EntityStage::CreatingCollection, WriteEvent::VectorDone) => {
                next.entity@ == self.entity@ && self.upserts(next, action)
            },
            (EntityStage::CreatingCollection, WriteEvent::VectorFailed(_)) => {
                next.entity@ == self.entity@ && self.upserts(next, action)
            },
            (EntityStage::WritingVector, WriteEvent::VectorDone) => self.finishes(next, action),
            (EntityStage::WritingVector, WriteEvent::VectorFailed(_)) => self.finishes(
                next,
                action,
            ),
            _ => {
                &&& next.stage == EntityStage::Failed
                &&& action matches EntityAction::Fail(failure)
                &&& failure.is(INTERNAL_SERVER_ERROR, "InternalError"@, "unexpected event"@)
            },
        }
    }

    /// Whether `action` asks to create the collection of the entity's type, for
    /// vectors as long as the entity's.
    pub open spec fn creates_collection(&self, next: Self, action: EntityAction) -> bool {
        &&& next.stage == EntityStage::CreatingCollection
        &&& action matches EntityAction::CreateCollection { entity_type, dimension }
        &&& entity_type@ == self.entity.entity_type@
        &&& dimension == match self.entity.embedding {
            Some(bits) => bits@.len(),
            None => 0,
        }
    }

    fn store(entity: Entity) -> (next: (Self, EntityAction))
        ensures
            EntityCreation::stores(entity, next.0, next.1),
    {
        let stored = entity.clone();
        (EntityCreation { entity, stage: EntityStage::Storing }, EntityAction::StoreEntity(stored))
    }

    fn finish(self) -> (next: (Self, EntityAction))
        ensures
            self.finishes(next.0, next.1),
            next.0.entity == self.entity,
    {
        let response = CreateEntityResponse {
            id: self.entity.id.clone(),
            entity_type: self.entity.entity_type.clone(),
            created_at: self.entity.created_at,
        };
        (EntityCreation { stage: EntityStage::Done, ..self }, EntityAction::Created(response))
    }

    fn upsert(self) -> (next: (Self, EntityAction))
        ensures
            self.upserts(next.0, next.1),
            next.0.entity == self.entity,
    {
        let vector = match &self.entity.embedding {
            Some(bits) => clone_bits(bits),
            None => Vec::new(),
        };
        let action = EntityAction::UpsertVector {
            entity_type: self.entity.entity_type.clone(),
            id: self.entity.id.clone(),
            vector,
        };
        (EntityCreation { stage: EntityStage::WritingVector, ..self }, action)
    }

    fn create_collection(self) -> (next: (Self, EntityAction))
        ensures
            self.creates_collection(next.0, next.1),
            next.0.entity == self.entity,
    {
        let dimension = match &self.entity.embedding {
            Some(bits) => bits.len(),
            None => 0,
        };
        let action = EntityAction::CreateCollection {
            entity_type: self.entity.entity_type.clone(),
            dimension,
        };
        (EntityCreation { stage: EntityStage::CreatingCollection, ..self }, action)
    }

    fn fail(self, failure: Failure) -> (next: (Self, EntityAction))
        ensures
            next.0.stage == EntityStage::Failed,
            next.1 == EntityAction::Fail(failure),
    {
        (EntityCreation { stage: EntityStage::Failed, ..self }, EntityAction::Fail(failure))
    }

    /// Takes what came back from the work last asked for, and says what to do next.
    pub fn advance(self, event: WriteEvent) -> (next: (Self, EntityAction))
        ensures
            self.leads_to(event, next.0, next.1),
    {
        match self.stage {
            EntityStage::Embedding => match event {
                WriteEvent::Embedded(bits) => {
                    let entity = Entity { embedding: Some(bits), ..self.entity };
                    EntityCreation::store(entity)
                },
                WriteEvent::EmbeddingFailed(why) => self.fail(
                    Failure::new(
                        INTERNAL_SERVER_ERROR,
                        "EmbeddingError",
                        "Failed to generate embedding: ",
                        why.as_str(),
                    ),
                ),
                _ => self.unexpected(),
            },
            EntityStage::Storing => match event {
                WriteEvent::Stored => {
                    if self.entity.embedding.is_some() {
                        let action = EntityAction::CollectionExists(
                            self.entity.entity_type.clone(),
                        );
                        (EntityCreation { stage: EntityStage::CheckingCollection, ..self }, action)
                    } else {
                        self.finish()
                    }
                },
                WriteEvent::StoreFailed(why) => self.fail(
                    Failure::new(
                        INTERNAL_SERVER_ERROR,
                        "DatabaseError",
                        "Failed to create entity: ",
                        why.as_str(),
                    ),
                ),
                _ => self.unexpected(),
            },
            EntityStage::CheckingCollection => match event {
                WriteEvent::CollectionExists(true) => self.upsert(),
                WriteEvent::CollectionExists(false) => self.create_collection(),
                WriteEvent::VectorFailed(_) => self.create_collection(),
                _ => self.unexpected(),
            },
            EntityStage::CreatingCollection => match event {
                WriteEvent::VectorDone => self.upsert(),
                WriteEvent::VectorFailed(_) => self.upsert(),
                _ => self.unexpected(),
            },
            EntityStage::WritingVector => match event {
                WriteEvent::VectorDone => self.finish(),
                WriteEvent::VectorFailed(_) => self.finish(),
                _ => self.unexpected(),
            },
            _ => self.unexpected(),
        }
    }

    fn unexpected(self) -> (next: (Self, EntityAction))
        ensures
            next.0.stage == EntityStage::Failed,
            next.1 matches EntityAction::Fail(failure) && failure.is(
                INTERNAL_SERVER_ERROR,
                "InternalError"@,
                "unexpected event"@,
            ),
    {
        proof {
            reveal_strlit("");
            assert(""@ + "unexpected event"@ =~= "unexpected event"@);
        }
        self.fail(Failure::new(INTERNAL_SERVER_ERROR, "InternalError", "", "unexpected event"))
    }
}

/// Whether `started` is the creation of the entity that a request asks for, with the
/// given identifier and time, and what it asks first.
///
/// An entity that the schema has something against is not created. An entity with
/// text in its properties is embedded before it is stored; any other is stored at
/// once.
pub open spec fn creation_begins(
    request: CreateEntityRequest,
    validator: Option<OntologyValidator>,
    now: i64,
    fresh: Seq<char>,
    started: (EntityCreation, EntityAction),
) -> bool {
    if !admitted(validator, request.entity_type@, request.properties@) {
        &&& started.0.stage == EntityStage::Failed
        &&& started.1 matches EntityAction::Fail(failure)
        &&& failure.is(
            BAD_REQUEST,
            "ValidationError"@,
            rejection_text(entity_faults(validator->0@, request.entity_type@, request.properties@)),
        )
    } else {
        let made = EntityView {
            id: fresh,
            entity_type: request.entity_type@,
            properties: request.properties@,
            embedding: None,
            created_at: now,
            updated_at: now,
            metadata: match request.metadata {
                Some(m) => m@,
                None => Seq::empty(),
            },
        };
        &&& started.0.entity@ == made
        &&& if properties_text(request.properties@).len() > 0 {
            &&& started.0.stage == EntityStage::Embedding
            &&& started.1 matches EntityAction::Embed(text)
            &&& text@ == properties_text(request.properties@)
        } else {
            &&& started.0.stage == EntityStage::Storing
            &&& started.1 matches EntityAction::StoreEntity(stored)
            &&& stored@ == made
        }
    }
}

/// The start of the creation of an entity with the given identifier, at the given
/// time.
pub fn create_entity_with(
    request: CreateEntityRequest,
    validator: Option<&OntologyValidator>,
    now: i64,
    fresh: String,
) -> (started: (EntityCreation, EntityAction))
    ensures
        creation_begins(
            request,
            match validator {
                Some(v) => Some(*v),
                None => None,
            },
            now,
            fresh@,
            started,
        ),
{
    let checked = check_entity(validator, request.entity_type.as_str(), &request.properties);
    let metadata = match request.metadata {
        Some(m) => m,
        None => Vec::new(),
    };
    let entity = Entity {
        id: fresh,
        entity_type: request.entity_type,
        properties: request.properties,
        embedding: None,
        created_at: now,
        updated_at: now,
        metadata,
    };
    if let Err(failure) = checked {
        return (EntityCreation { entity, stage: EntityStage::Failed }, EntityAction::Fail(failure));
    }
    let text = extract_text_from_properties(&entity.properties);
    if text.as_str().unicode_len() > 0 {
        (EntityCreation { entity, stage: EntityStage::Embedding }, EntityAction::Embed(text))
    } else {
        EntityCreation::store(entity)
    }
}

/// The validator that a reference refers to, if there is one.
pub open spec fn referred(validator: Option<&OntologyValidator>) -> Option<OntologyValidator> {
    match validator {
        Some(v) => Some(*v),
        None => None,
    }
}

/// The start of the creation of an entity, with a fresh identifier, now.
pub fn create_entity(request: CreateEntityRequest, validator: Option<&OntologyValidator>) -> (started:
    (EntityCreation, EntityAction))
    ensures
        exists|now: i64, fresh: Seq<char>|
            #![trigger creation_begins(request, referred(validator), now, fresh, started)]
            fresh.len() == crate::db::types::ID_LENGTH && creation_begins(
                request,
                referred(validator),
                now,
                fresh,
                started,
            ),
{
    let fresh = fresh_id(crate::db::types::ID_LENGTH);
    let now = now_millis();
    let started = create_entity_with(request, validator, now, fresh);
    assert(creation_begins(request, referred(validator), now, fresh@, started));
    started
}

/// The replacement of the properties of an entity, under way.
#[derive(Debug)]
pub struct EntityUpdate {
    pub entity_id: String,
    /// The properties that take the place of those the entity has.
    pub properties: Vec<Property>,
    /// The time of the write, in milliseconds since the start of 1970.
    pub now: i64,
    pub stage: EntityStage,
}

/// Whether `action` fails a write with the given status, name and message.
pub open spec fn fails_with(
    stage: EntityStage,
    action: EntityAction,
    status: u16,
    error: Seq<char>,
    message: Seq<char>,
) -> bool {
    &&& stage == EntityStage::Failed
    &&& action matches EntityAction::Fail(failure)
    &&& failure.is(status, error, message)
}

/// What is said of an entity that is not there.
pub open spec fn missing_entity_text(id: Seq<char>) -> Seq<char> {
    "Entity"@ + " '"@ + id + "' not found"@
}

impl EntityUpdate {
    /// Whether `next` and `action` are what the update comes to on `event`.
    ///
    /// The entity has to be there, and its type must have nothing against the new
    /// properties; then the entity is replaced by itself with the new properties,
    /// written at the time of the update. All properties are replaced; none is merged.
    pub open spec fn leads_to(
        &self,
        event: WriteEvent,
        validator: Option<OntologyValidator>,
        next: Self,
        action: EntityAction,
    ) -> bool {
        match (self.stage, event) {
            (EntityStage::Fetching, WriteEvent::Fetched(Some(entity))) => {
                if admitted(validator, entity.entity_type@, self.properties@) {
                    &&& next.stage == EntityStage::Storing
                    &&& action matches EntityAction::ReplaceEntity(replaced)
                    &&& replaced@ == (EntityView {
                        properties: self.properties@,
                        updated_at: self.now,
                        ..entity@
                    })
                } else {
                    fails_with(
                        next.stage,
                        action,
                        BAD_REQUEST,
                        "ValidationError"@,
                        rejection_text(
                            entity_faults(validator->0@, entity.entity_type@, self.properties@),
                        ),
                    )
                }
            },
            (EntityStage::Fetching, WriteEvent::Fetched(None)) => fails_with(
                next.stage,
                action,
                NOT_FOUND,
                "EntityNotFound"@,
                missing_entity_text(self.entity_id@),
            ),
            (EntityStage::Fetching, WriteEvent::StoreFailed(why)) => fails_with(
                next.stage,
                action,
                INTERNAL_SERVER_ERROR,
                "DatabaseError"@,
                "Failed to get entity: "@ + why@,
            ),
            (EntityStage::Storing, WriteEvent::Stored) => next.stage == EntityStage::Done
                && action is Finished,
            (EntityStage::Storing, WriteEvent::StoreFailed(why)) => fails_with(
                next.stage,
                action,
                INTERNAL_SERVER_ERROR,
                "DatabaseError"@,
                "Failed to update entity: "@ + why@,
            ),
            _ => fails_with(
                next.stage,
                action,
                INTERNAL_SERVER_ERROR,
                "InternalError"@,
                "unexpected event"@,
            ),
        }
    }

    fn fail(self, failure: Failure) -> (next: (Self, EntityAction))
        ensures
            next.0.stage == EntityStage::Failed,
            next.1 == EntityAction::Fail(failure),
    {
        (EntityUpdate { stage: EntityStage::Failed, ..self }, EntityAction::Fail(failure))
    }

    /// Takes what came back from the graph store, and says what to do next. The
    /// entity is checked against the schema that is loaded when it comes back.
    pub fn advance(self, event: WriteEvent, validator: Option<&OntologyValidator>) -> (next: (
        Self,
        EntityAction,
    ))
        ensures
            self.leads_to(event, referred(validator), next.0, next.1),
    {
        proof {
            reveal_strlit("");
            assert(""@ + "unexpected event"@ =~= "unexpected event"@);
        }
        match self.stage {
            EntityStage::Fetching => match event {
                WriteEvent::Fetched(Some(entity)) => {
                    match check_entity(validator, entity.entity_type.as_str(), &self.properties) {
                        Ok(()) => {
                            let replaced = entity.with_properties(
                                clone_properties(&self.properties),
                                self.now,
                            );
                            (
                                EntityUpdate { stage: EntityStage::Storing, ..self },
                                EntityAction::ReplaceEntity(replaced),
                            )
                        },
                        Err(failure) => self.fail(failure),
                    }
                },
                WriteEvent::Fetched(None) => {
                    let failure = Failure::not_found(
                        "EntityNotFound",
                        "Entity",
                        self.entity_id.as_str(),
                    );
                    self.fail(failure)
                },
                WriteEvent::StoreFailed(why) => self.fail(
                    Failure::new(
                        INTERNAL_SERVER_ERROR,
                        "DatabaseError",
                        "Failed to get entity: ",
                        why.as_str(),
                    ),
                ),
                _ => self.fail(
                    Failure::new(INTERNAL_SERVER_ERROR, "InternalError", "", "unexpected event"),
                ),
            },
            EntityStage::Storing => match event {
                WriteEvent::Stored => (
                    EntityUpdate { stage: EntityStage::Done, ..self },
                    EntityAction::Finished,
                ),
                WriteEvent::StoreFailed(why) => self.fail(
                    Failure::new(
                        INTERNAL_SERVER_ERROR,
                        "DatabaseError",
                        "Failed to update entity: ",
                        why.as_str(),
                    ),
                ),
                _ => self.fail(
                    Failure::new(INTERNAL_SERVER_ERROR, "InternalError", "", "unexpected event"),
                ),
            },
            _ => self.fail(
                Failure::new(INTERNAL_SERVER_ERROR, "InternalError", "", "unexpected event"),
            ),
        }
    }
}

/// The start of the replacement of an entity's properties at the given time: the
/// entity is fetched.
pub fn update_entity_at(entity_id: String, request: UpdateEntityRequest, now: i64) -> (started: (
    EntityUpdate,
    EntityAction,
))
    ensures
        started.0.entity_id == entity_id,
        started.0.properties == request.properties,
        started.0.now == now,
        started.0.stage == EntityStage::Fetching,
        started.1 matches EntityAction::FetchEntity(id) && id@ == entity_id@,
{
    let action = EntityAction::FetchEntity(entity_id.clone());
    (
        EntityUpdate {
            entity_id,
            properties: request.properties,
            now,
            stage: EntityStage::Fetching,
        },
        action,
    )
}

/// The start of the replacement of an entity's properties, now.
pub fn update_entity(entity_id: String, request: UpdateEntityRequest) -> (started: (
    EntityUpdate,
    EntityAction,
))
    ensures
        started.0.entity_id == entity_id,
        started.0.properties == request.properties,
        started.0.stage == EntityStage::Fetching,
        started.1 matches EntityAction::FetchEntity(id) && id@ == entity_id@,
{
    update_entity_at(entity_id, request, now_millis())
}

/// The deletion of an entity, under way.
#[derive(Debug)]
pub struct EntityDeletion {
    pub entity_id: String,
    /// The type of the entity, once it is known.
    pub entity_type: Option<String>,
    pub stage: EntityStage,
}

impl EntityDeletion {
    /// Whether `next` and `action` are what the deletion comes to on `event`.
    ///
    /// The entity has to be there. It is deleted from the graph store, and then its
    /// vector from the collection of its type; whether the vector store succeeds does
    /// not matter. The relations of the entity are not touched.
    pub open spec fn leads_to(&self, event: WriteEvent, next: Self, action: EntityAction) -> bool {
        match (self.stage, event) {
            (EntityStage::Fetching, WriteEvent::Fetched(Some(entity))) => {
                &&& next.stage == EntityStage::Storing
                &&& next.entity_id@ == self.entity_id@
                &&& next.entity_type matches Some(t) && t@ == entity.entity_type@
                &&& action matches EntityAction::DeleteEntity(id)
                &&& id@ == self.entity_id@
            },
            (EntityStage::Fetching, WriteEvent::Fetched(None)) => fails_with(
                next.stage,
                action,
                NOT_FOUND,
                "EntityNotFound"@,
                missing_entity_text(self.entity_id@),
            ),
            (EntityStage::Fetching, WriteEvent::StoreFailed(why)) => fails_with(
                next.stage,
                action,
                INTERNAL_SERVER_ERROR,
                "DatabaseError"@,
                "Failed to get entity: "@ + why@,
            ),
            (EntityStage::Storing, WriteEvent::Stored) => {
                &&& next.stage == EntityStage::WritingVector
                &&& action matches EntityAction::DeleteVector { entity_type, id }
                &&& id@ == self.entity_id@
                &&& entity_type@ == match self.entity_type {
                    Some(t) => t@,
                    None => Seq::empty(),
                }
            },
            (EntityStage::Storing, WriteEvent::StoreFailed(why)) => fails_with(
                next.stage,
                action,
                INTERNAL_SERVER_ERROR,
                "DatabaseError"@,
                "Failed to delete entity: "@ + why@,
            ),
            (EntityStage::WritingVector, WriteEvent::VectorDone) => next.stage
                == EntityStage::Done && action is Finished,
            (EntityStage::WritingVector, WriteEvent::VectorFailed(_)) => next.stage
                == EntityStage::Done && action is Finished,
            _ => fails_with(
                next.stage,
                action,
                INTERNAL_SERVER_ERROR,
                "InternalError"@,
                "unexpected event"@,
            ),
        }
    }

    fn fail(self, failure: Failure) -> (next: (Self, EntityAction))
        ensures
            next.0.stage == EntityStage::Failed,
            next.1 == EntityAction::Fail(failure),
    {
        (EntityDeletion { stage: EntityStage::Failed, ..self }, EntityAction::Fail(failure))
    }

    /// Takes what came back from the stores, and says what to do next.
    pub fn advance(self, event: WriteEvent) -> (next: (Self, EntityAction))
        ensures
            self.leads_to(event, next.0, next.1),
    {
        proof {
            reveal_strlit("");
            assert(""@ + "unexpected event"@ =~= "unexpected event"@);
        }
        match self.stage {
            EntityStage::Fetching => match event {
                WriteEvent::Fetched(Some(entity)) => {
                    let action = EntityAction::DeleteEntity(self.entity_id.clone());
                    (
                        EntityDeletion {
                            entity_id: self.entity_id,
                            entity_type: Some(entity.entity_type),
                            stage: EntityStage::Storing,
                        },
                        action,
                    )
                },
                WriteEvent::Fetched(None) => {
                    let failure = Failure::not_found(
                        "EntityNotFound",
                        "Entity",
                        self.entity_id.as_str(),
                    );
                    self.fail(failure)
                },
                WriteEvent::StoreFailed(why) => self.fail(
                    Failure::new(
                        INTERNAL_SERVER_ERROR,
                        "DatabaseError",
                        "Failed to get entity: ",
                        why.as_str(),
                    ),
                ),
                _ => self.fail(
                    Failure::new(INTERNAL_SERVER_ERROR, "InternalError", "", "unexpected event"),
                ),
            },
            EntityStage::Storing => match event {
                WriteEvent::Stored => {
                    let action = EntityAction::DeleteVector {
                        entity_type: match &self.entity_type {
                            Some(t) => t.clone(),
                            None => String::new(),
                        },
                        id: self.entity_id.clone(),
                    };
                    (EntityDeletion { stage: EntityStage::WritingVector, ..self }, action)
                },
                WriteEvent::StoreFailed(why) => self.fail(
                    Failure::new(
                        INTERNAL_SERVER_ERROR,
                        "DatabaseError",
                        "Failed to delete entity: ",
                        why.as_str(),
                    ),
                ),
                _ => self.fail(
                    Failure::new(INTERNAL_SERVER_ERROR, "InternalError", "", "unexpected event"),
                ),
            },
            EntityStage::WritingVector => match event {
                WriteEvent::VectorDone => (
                    EntityDeletion { stage: EntityStage::Done, ..self },
                    EntityAction::Finished,
                ),
                WriteEvent::VectorFailed(_) => (
                    EntityDeletion { stage: EntityStage::Done, ..self },
                    EntityAction::Finished,
                ),
                _ => self.fail(
                    Failure::new(INTERNAL_SERVER_ERROR, "InternalError", "", "unexpected event"),
                ),
            },
            _ => self.fail(
                Failure::new(INTERNAL_SERVER_ERROR, "InternalError", "", "unexpected event"),
            ),
        }
    }
}

/// The start of the deletion of an entity: the entity is fetched, for its type.
pub fn delete_entity(entity_id: String) -> (started: (EntityDeletion, EntityAction))
    ensures
        started.0.entity_id == entity_id,
        started.0.entity_type is None,
        started.0.stage == EntityStage::Fetching,
        started.1 matches EntityAction::FetchEntity(id) && id@ == entity_id@,
{
    let action = EntityAction::FetchEntity(entity_id.clone());
    (EntityDeletion { entity_id, entity_type: None, stage: EntityStage::Fetching }, action)
}

/// The answer to a request for an entity, given what the graph store said.
pub fn get_entity(entity_id: &str, fetched: Result<Option<Entity>, String>) -> (result: Result<
    crate::api::types::EntityResponse,
    Failure,
>)
    ensures
        match fetched {
            Ok(Some(entity)) => result matches Ok(response) && response.id == entity.id
                && response.entity_type == entity.entity_type && response.properties
                == entity.properties && response.embedding == entity.embedding
                && response.created_at == entity.created_at && response.updated_at
                == entity.updated_at && response.metadata == entity.metadata,
            Ok(None) => result matches Err(failure) && failure.is(
                NOT_FOUND,
                "EntityNotFound"@,
                missing_entity_text(entity_id@),
            ),
            Err(why) => result matches Err(failure) && failure.is(
                INTERNAL_SERVER_ERROR,
                "DatabaseError"@,
                "Failed to get entity: "@ + why@,
            ),
        },
{
    match fetched {
        Ok(Some(entity)) => Ok(crate::api::types::EntityResponse::from_entity(entity)),
        Ok(None) => Err(Failure::not_found("EntityNotFound", "Entity", entity_id)),
        Err(why) => Err(
            Failure::new(
                INTERNAL_SERVER_ERROR,
                "DatabaseError",
                "Failed to get entity: ",
                why.as_str(),
            ),
        ),
    }
}

} // verus!

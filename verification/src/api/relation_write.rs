use crate::api::entity_write::referred;
use crate::api::types::{CreateRelationRequest, CreateRelationResponse, RelationResponse};
use crate::api::write::{
    Failure, WriteEvent, BAD_REQUEST, CONFLICT, INTERNAL_SERVER_ERROR, NOT_FOUND,
};
use crate::db::types::{Entity, Relation};
use crate::ontology::schema::find_relation;
use crate::ontology::validator::{relation_fault, OntologyValidator};
use crate::runtime::{fresh_id, now_millis};
use crate::text::owned;
use vstd::prelude::*;

verus! {

/// Where the write of a relation stands.
#[derive(Debug, Clone, Copy, PartialEq, Eq, Structural)]
pub enum RelationStage {
    /// The relation is received; its source is being fetched.
    FetchingSource,
    /// Its target is being fetched.
    FetchingTarget,
    /// The types of its ends are known and admitted; the relation is functional, and
    /// the edges of its type that leave the source are being listed.
    CheckingFunctional,
    /// The relation is validated and is being stored.
    Storing,
    /// The relation is persisted.
    Done,
    Failed,
}

/// What the write of a relation asks for next.
#[derive(Debug)]
pub enum RelationAction {
    /// Fetch the entity of this identifier.
    FetchEntity(String),
    /// List the relations of this type that leave this entity.
    ListOutgoing { entity_id: String, relation_type: String },
    /// Store this relation.
    StoreRelation(Relation),
    /// The relation is created.
    Created(CreateRelationResponse),
    Fail(Failure),
}

/// The write of a relation under way.
#[derive(Debug)]
pub struct RelationCreation {
    pub relation: Relation,
    /// The type of the source, once it is known.
    pub source_type: Option<String>,
    pub stage: RelationStage,
}

/// Whether a relation type is one that a source may have one edge of at most: a schema
/// is loaded, has the type, and marks it functional.
pub open spec fn is_functional(validator: Option<OntologyValidator>, relation_type: Seq<char>) -> bool {
    validator matches Some(v) && (find_relation(v@.relation_types@, relation_type) matches Some(
        r,
    ) && r.functional)
}

/// Whether the schema admits a relation of the given type between entities of the two
/// types: none is loaded, or it has nothing against the relation.
pub open spec fn admits_relation(
    validator: Option<OntologyValidator>,
    relation_type: Seq<char>,
    source_type: Seq<char>,
    target_type: Seq<char>,
) -> bool {
    validator matches Some(v) ==> relation_fault(v@, relation_type, source_type, target_type)
        is None
}

/// What is said of a functional relation that the source has an edge of already.
pub open spec fn functional_text(relation_type: Seq<char>, source_id: Seq<char>) -> Seq<char> {
    "Functional relation '"@ + relation_type + "' already has an edge from '"@ + source_id
        + "'"@
}

/// Whether `action` fails the write with the given status, name and message.
pub open spec fn relation_fails(
    stage: RelationStage,
    action: RelationAction,
    status: u16,
    error: Seq<char>,
    message: Seq<char>,
) -> bool {
    &&& stage == RelationStage::Failed
    &&& action matches RelationAction::Fail(failure)
    &&& failure.is(status, error, message)
}

impl RelationCreation {
    /// Whether `action` asks to store the relation.
    pub open spec fn stores(&self, next: Self, action: RelationAction) -> bool {
        &&& next.stage == RelationStage::Storing
        &&& next.relation@ == self.relation@
        &&& action matches RelationAction::StoreRelation(stored)
        &&& stored@ == self.relation@
    }

    /// Whether `next` and `action` are what the write comes to on `event`.
    ///
    /// Both ends have to be there. Where a schema is loaded, the relation type must be
    /// one of its types and connect the types of the two ends, in the direction given.
    /// A functional relation is stored only where no edge of its type leaves the
    /// source yet.
    pub open spec fn leads_to(
        &self,
        event: WriteEvent,
        validator: Option<OntologyValidator>,
        next: Self,
        action: RelationAction,
    ) -> bool {
        match (self.stage, event) {
            (RelationStage::FetchingSource, WriteEvent::Fetched(Some(source))) => {
                &&& next.stage == RelationStage::FetchingTarget
                &&& next.relation@ == self.relation@
                &&& next.source_type matches Some(t) && t@ == source.entity_type@
                &&& action matches RelationAction::FetchEntity(id)
                &&& id@ == self.relation.target_id@
            },
            (RelationStage::FetchingSource, WriteEvent::Fetched(None)) => relation_fails(
                next.stage,
                action,
                NOT_FOUND,
                "EntityNotFound"@,
                "Source entity"@ + " '"@ + self.relation.source_id@ + "' not found"@,
            ),
            (RelationStage::FetchingSource, WriteEvent::StoreFailed(why)) => relation_fails(
                next.stage,
                action,
                INTERNAL_SERVER_ERROR,
                "DatabaseError"@,
                "Failed to get source entity: "@ + why@,
            ),
            (RelationStage::FetchingTarget, WriteEvent::Fetched(Some(target))) => {
                let source_type = match self.source_type {
                    Some(t) => t@,
                    None => Seq::empty(),
                };
                if !admits_relation(
                    validator,
                    self.relation.relation_type@,
                    source_type,
                    target.entity_type@,
                ) {
                    relation_fails(
                        next.stage,
                        action,
                        BAD_REQUEST,
                        "ValidationError"@,
                        "Relation validation failed: "@ + relation_fault(
                            validator->0@,
                            self.relation.relation_type@,
                            source_type,
                            target.entity_type@,
                        )->0.text(),
                    )
                } else if is_functional(validator, self.relation.relation_type@) {
                    &&& next.stage == RelationStage::CheckingFunctional
                    &&& next.relation@ == self.relation@
                    &&& action matches RelationAction::ListOutgoing { entity_id, relation_type }
                    &&& entity_id@ == self.relation.source_id@
                    &&& relation_type@ == self.relation.relation_type@
                } else {
                    self.stores(next, action)
                }
            },
            (RelationStage::FetchingTarget, WriteEvent::Fetched(None)) => relation_fails(
                next.stage,
                action,
                NOT_FOUND,
                "EntityNotFound"@,
                "Target entity"@ + " '"@ + self.relation.target_id@ + "' not found"@,
            ),
            (RelationStage::FetchingTarget, WriteEvent::StoreFailed(why)) => relation_fails(
                next.stage,
                action,
                INTERNAL_SERVER_ERROR,
                "DatabaseError"@,
                "Failed to get target entity: "@ + why@,
            ),
            (RelationStage::CheckingFunctional, WriteEvent::Relations(outgoing)) => {
                if outgoing@.len() == 0 {
                    self.stores(next, action)
                } else {
                    relation_fails(
                        next.stage,
                        action,
                        CONFLICT,
                        "FunctionalRelationExceeded"@,
                        functional_text(self.relation.relation_type@, self.relation.source_id@),
                    )
                }
            },
            (RelationStage::CheckingFunctional, WriteEvent::StoreFailed(why)) => relation_fails(
                next.stage,
                action,
                INTERNAL_SERVER_ERROR,
                "DatabaseError"@,
                "Failed to list relations: "@ + why@,
            ),
            (RelationStage::Storing, WriteEvent::Stored) => {
                &&& next.stage == RelationStage::Done
                &&& action matches RelationAction::Created(response)
                &&& response.id@ == self.relation.id@
                &&& response.relation_type@ == self.relation.relation_type@
                &&& response.source_id@ == self.relation.source_id@
                &&& response.target_id@ == self.relation.target_id@
                &&& response.created_at == self.relation.created_at
            },
            (RelationStage::Storing, WriteEvent::StoreFailed(why)) => relation_fails(
                next.stage,
                action,
                INTERNAL_SERVER_ERROR,
                "DatabaseError"@,
                "Failed to create relation: "@ + why@,
            ),
            _ => relation_fails(
                next.stage,
                action,
                INTERNAL_SERVER_ERROR,
                "InternalError"@,
                "unexpected event"@,
            ),
        }
    }

    fn fail(self, failure: Failure) -> (next: (Self, RelationAction))
        ensures
            next.0.stage == RelationStage::Failed,
            next.1 == RelationAction::Fail(failure),
    {
        (RelationCreation { stage: RelationStage::Failed, ..self }, RelationAction::Fail(failure))
    }

    fn store(self) -> (next: (Self, RelationAction))
        ensures
            self.stores(next.0, next.1),
    {
        let stored = self.relation.clone();
        (
            RelationCreation { stage: RelationStage::Storing, ..self },
            RelationAction::StoreRelation(stored),
        )
    }

    fn unexpected(self) -> (next: (Self, RelationAction))
        ensures
            relation_fails(
                next.0.stage,
                next.1,
                INTERNAL_SERVER_ERROR,
                "InternalError"@,
                "unexpected event"@,
            ),
    {
        proof {
            reveal_strlit("");
            assert(""@ + "unexpected event"@ =~= "unexpected event"@);
        }
        self.fail(Failure::new(INTERNAL_SERVER_ERROR, "InternalError", "", "unexpected event"))
    }

    /// Takes what came back from the graph store, and says what to do next. The
    /// relation is checked against the schema that is loaded when its target comes
    /// back.
    pub fn advance(self, event: WriteEvent, validator: Option<&OntologyValidator>) -> (next: (
        Self,
        RelationAction,
    ))
        ensures
            self.leads_to(event, referred(validator), next.0, next.1),
    {
        match self.stage {
            RelationStage::FetchingSource => match event {
                WriteEvent::Fetched(Some(source)) => {
                    let action = RelationAction::FetchEntity(self.relation.target_id.clone());
                    (
                        RelationCreation {
                            relation: self.relation,
                            source_type: Some(source.entity_type),
                            stage: RelationStage::FetchingTarget,
                        },
                        action,
                    )
                },
                WriteEvent::Fetched(None) => {
                    let failure = Failure::not_found(
                        "EntityNotFound",
                        "Source entity",
                        self.relation.source_id.as_str(),
                    );
                    self.fail(failure)
                },
                WriteEvent::StoreFailed(why) => self.fail(
                    Failure::new(
                        INTERNAL_SERVER_ERROR,
                        "DatabaseError",
                        "Failed to get source entity: ",
                        why.as_str(),
                    ),
                ),
                _ => self.unexpected(),
            },
            RelationStage::FetchingTarget => match event {
                WriteEvent::Fetched(Some(target)) => {
                    proof {
                        reveal_strlit("");
                        assert(""@ =~= Seq::<char>::empty());
                    }
                    let source_type: &str = match &self.source_type {
                        Some(t) => t.as_str(),
                        None => "",
                    };
                    match validator {
                        Some(v) => {
                            match v.validate_relation(
                                self.relation.relation_type.as_str(),
                                source_type,
                                target.entity_type.as_str(),
                            ) {
                                Err(e) => {
                                    let message = e.message();
                                    let failure = Failure::new(
                                        BAD_REQUEST,
                                        "ValidationError",
                                        "Relation validation failed: ",
                                        message.as_str(),
                                    );
                                    self.fail(failure)
                                },
                                Ok(()) => {
                                    let functional = match v.schema().relation_type(
                                        self.relation.relation_type.as_str(),
                                    ) {
                                        Some(r) => r.functional,
                                        None => false,
                                    };
                                    if functional {
                                        let action = RelationAction::ListOutgoing {
                                            entity_id: self.relation.source_id.clone(),
                                            relation_type: self.relation.relation_type.clone(),
                                        };
                                        (
                                            RelationCreation {
                                                stage: RelationStage::CheckingFunctional,
                                                ..self
                                            },
                                            action,
                                        )
                                    } else {
                                        self.store()
                                    }
                                },
                            }
                        },
                        None => self.store(),
                    }
                },
                WriteEvent::Fetched(None) => {
                    let failure = Failure::not_found(
                        "EntityNotFound",
                        "Target entity",
                        self.relation.target_id.as_str(),
                    );
                    self.fail(failure)
                },
                WriteEvent::StoreFailed(why) => self.fail(
                    Failure::new(
                        INTERNAL_SERVER_ERROR,
                        "DatabaseError",
                        "Failed to get target entity: ",
                        why.as_str(),
                    ),
                ),
                _ => self.unexpected(),
            },
            RelationStage::CheckingFunctional => match event {
                WriteEvent::Relations(outgoing) => {
                    if outgoing.len() == 0 {
                        self.store()
                    } else {
                        let mut message = owned("Functional relation '");
                        message.append(self.relation.relation_type.as_str());
                        message.append("' already has an edge from '");
                        message.append(self.relation.source_id.as_str());
                        message.append("'");
                        let failure = Failure::new(
                            CONFLICT,
                            "FunctionalRelationExceeded",
                            message.as_str(),
                            "",
                        );
                        proof {
                            reveal_strlit("");
                            assert(message@ + ""@ =~= message@);
                        }
                        self.fail(failure)
                    }
                },
                WriteEvent::StoreFailed(why) => self.fail(
                    Failure::new(
                        INTERNAL_SERVER_ERROR,
                        "DatabaseError",
                        "Failed to list relations: ",
                        why.as_str(),
                    ),
                ),
                _ => self.unexpected(),
            },
            RelationStage::Storing => match event {
                WriteEvent::Stored => {
                    let response = CreateRelationResponse {
                        id: self.relation.id.clone(),
                        relation_type: self.relation.relation_type.clone(),
                        source_id: self.relation.source_id.clone(),
                        target_id: self.relation.target_id.clone(),
                        created_at: self.relation.created_at,
                    };
                    (
                        RelationCreation { stage: RelationStage::Done, ..self },
                        RelationAction::Created(response),
                    )
                },
                WriteEvent::StoreFailed(why) => self.fail(
                    Failure::new(
                        INTERNAL_SERVER_ERROR,
                        "DatabaseError",
                        "Failed to create relation: ",
                        why.as_str(),
                    ),
                ),
                _ => self.unexpected(),
            },
            _ => self.unexpected(),
        }
    }
}

/// The start of the write of a relation with the given identifier, at the given time:
/// the source is fetched.
pub fn create_relation_with(request: CreateRelationRequest, now: i64, fresh: String) -> (started: (
    RelationCreation,
    RelationAction,
))
    ensures
        started.0.stage == RelationStage::FetchingSource,
        started.0.source_type is None,
        started.0.relation == (Relation {
            id: fresh,
            relation_type: request.relation_type,
            source_id: request.source_id,
            target_id: request.target_id,
            properties: request.properties,
            created_at: now,
        }),
        started.1 matches RelationAction::FetchEntity(id) && id@ == request.source_id@,
{
    let action = RelationAction::FetchEntity(request.source_id.clone());
    let relation = Relation::with_id(
        fresh,
        request.relation_type,
        request.source_id,
        request.target_id,
        request.properties,
        now,
    );
    (
        RelationCreation { relation, source_type: None, stage: RelationStage::FetchingSource },
        action,
    )
}

/// The start of the write of a relation, with a fresh identifier, now.
pub fn create_relation(request: CreateRelationRequest) -> (started: (
    RelationCreation,
    RelationAction,
))
    ensures
        started.0.stage == RelationStage::FetchingSource,
        started.0.source_type is None,
        started.0.relation.id@.len() == crate::db::types::ID_LENGTH,
        started.0.relation.relation_type == request.relation_type,
        started.0.relation.source_id == request.source_id,
        started.0.relation.target_id == request.target_id,
        started.0.relation.properties == request.properties,
        started.1 matches RelationAction::FetchEntity(id) && id@ == request.source_id@,
{
    create_relation_with(request, now_millis(), fresh_id(crate::db::types::ID_LENGTH))
}

/// The answer to a request for a relation, given what the graph store said.
pub fn get_relation(relation_id: &str, fetched: Result<Option<Relation>, String>) -> (result:
    Result<RelationResponse, Failure>)
    ensures
        match fetched {
            Ok(Some(relation)) => result matches Ok(response) && response.id == relation.id
                && response.relation_type == relation.relation_type && response.source_id
                == relation.source_id && response.target_id == relation.target_id
                && response.properties == relation.properties && response.created_at
                == relation.created_at,
            Ok(None) => result matches Err(failure) && failure.is(
                NOT_FOUND,
                "RelationNotFound"@,
                "Relation"@ + " '"@ + relation_id@ + "' not found"@,
            ),
            Err(why) => result matches Err(failure) && failure.is(
                INTERNAL_SERVER_ERROR,
                "DatabaseError"@,
                "Failed to get relation: "@ + why@,
            ),
        },
{
    match fetched {
        Ok(Some(relation)) => Ok(RelationResponse::from_relation(relation)),
        Ok(None) => Err(Failure::not_found("RelationNotFound", "Relation", relation_id)),
        Err(why) => Err(
            Failure::new(
                INTERNAL_SERVER_ERROR,
                "DatabaseError",
                "Failed to get relation: ",
                why.as_str(),
            ),
        ),
    }
}

/// Whether a relation may be deleted, given what the graph store said when it was
/// asked for it: it has to be there.
pub fn delete_relation(relation_id: &str, fetched: Result<Option<Relation>, String>) -> (result:
    Result<(), Failure>)
    ensures
        match fetched {
            Ok(Some(_)) => result is Ok,
            Ok(None) => result matches Err(failure) && failure.is(
                NOT_FOUND,
                "RelationNotFound"@,
                "Relation"@ + " '"@ + relation_id@ + "' not found"@,
            ),
            Err(why) => result matches Err(failure) && failure.is(
                INTERNAL_SERVER_ERROR,
                "DatabaseError"@,
                "Failed to get relation: "@ + why@,
            ),
        },
{
    match fetched {
        Ok(Some(_)) => Ok(()),
        Ok(None) => Err(Failure::not_found("RelationNotFound", "Relation", relation_id)),
        Err(why) => Err(
            Failure::new(
                INTERNAL_SERVER_ERROR,
                "DatabaseError",
                "Failed to get relation: ",
                why.as_str(),
            ),
        ),
    }
}

/// A relation is written exactly where the schema lets it: with a schema loaded and
/// both ends there, the write comes to storing the relation if and only if its type is
/// a type of the schema, the type of the source is a subtype of its domain, the type of
/// the target is a subtype of its range, and it is not functional or no edge of its
/// type leaves the source yet.
///
/// `second` is what the write comes to when the target comes back, `third` what it
/// comes to when the edges that leave the source come back, if it asked for them.
pub proof fn relation_is_written_iff_admitted(
    write: RelationCreation,
    validator: OntologyValidator,
    target: Entity,
    outgoing: Vec<Relation>,
    second: (RelationCreation, RelationAction),
    third: (RelationCreation, RelationAction),
)
    requires
        write.stage == RelationStage::FetchingTarget,
        write.source_type is Some,
        write.leads_to(WriteEvent::Fetched(Some(target)), Some(validator), second.0, second.1),
        second.1 is ListOutgoing ==> second.0.leads_to(
            WriteEvent::Relations(outgoing),
            Some(validator),
            third.0,
            third.1,
        ),
    ensures
        ({
            let stored = second.1 is StoreRelation || (second.1 is ListOutgoing && third.1
                is StoreRelation);
            let relation_type = find_relation(
                validator@.relation_types@,
                write.relation.relation_type@,
            );
            stored <==> (relation_type matches Some(r) && r.connects(
                write.source_type->0@,
                target.entity_type@,
                validator@.entity_types@,
            ) && (!r.functional || outgoing@.len() == 0))
        }),
{
}

} // verus!

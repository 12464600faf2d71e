use vectadb::api::entity_write::{
    create_entity, create_entity_with, delete_entity, get_entity, update_entity_at, EntityAction,
    EntityStage,
};
use vectadb::api::relation_write::{
    create_relation, create_relation_with, delete_relation, get_relation, RelationAction,
    RelationStage,
};
use vectadb::api::types::{
    CreateEntityRequest, CreateRelationRequest, ErrorResponse, ExpandQueryResponse,
    HealthResponse, PropertyInfo, UpdateEntityRequest, UploadSchemaResponse,
    ValidateEntityResponse, ValidateRelationResponse,
};
use vectadb::api::write::{Failure, WriteEvent};
use vectadb::db::types::{Entity, Relation};
use vectadb::error::VectaDBError;
use vectadb::intelligence::ontology_reasoner::OntologyReasoner;
use vectadb::ontology::entity_type::{EntityType, PropertyDefinition, PropertyType};
use vectadb::ontology::loader::OntologyLoader;
use vectadb::ontology::relation_type::RelationType;
use vectadb::ontology::schema::OntologySchema;
use vectadb::ontology::validator::OntologyValidator;
use vectadb::ontology::value::{Property, PropertyValue};

fn s(text: &str) -> String {
    text.to_string()
}

fn schema() -> OntologySchema {
    let mut schema = OntologySchema::new(s("ns"), s("1.0"));
    schema.add_entity_type(
        EntityType::new(s("Agent"), s("Agent"))
            .with_property(PropertyDefinition::new(s("name"), PropertyType::String).required()),
    );
    schema.add_entity_type(EntityType::new(s("LLMAgent"), s("LLM")).with_parent(s("Agent")));
    schema.add_entity_type(EntityType::new(s("Task"), s("Task")));
    schema.add_relation_type(RelationType::new(s("executes"), s("executes"), s("Agent"), s("Task")));
    schema.add_relation_type(
        RelationType::new(s("owns"), s("owns"), s("Agent"), s("Task")).functional(),
    );
    schema
}

fn named(name: &str) -> Vec<Property> {
    vec![Property { name: s("name"), value: PropertyValue::String(s(name)) }]
}

fn entity(id: &str, kind: &str) -> Entity {
    Entity::with_id(s(id), s(kind), vec![], 5)
}

fn failed(action: &EntityAction) -> (u16, String, String) {
    match action {
        EntityAction::Fail(f) => (f.status, f.body.error.clone(), f.body.message.clone()),
        other => panic!("not a failure: {:?}", other),
    }
}

fn relation_failed(action: &RelationAction) -> (u16, String, String) {
    match action {
        RelationAction::Fail(f) => (f.status, f.body.error.clone(), f.body.message.clone()),
        other => panic!("not a failure: {:?}", other),
    }
}

#[test]
fn an_entity_is_embedded_stored_and_indexed() {
    let validator = OntologyValidator::new(schema());
    let request = CreateEntityRequest {
        entity_type: s("Agent"),
        properties: named("Ada"),
        metadata: Some(vec![(s("team"), s("blue"))]),
    };
    let (state, action) = create_entity_with(request, Some(&validator), 42, s("id-1"));
    assert_eq!(state.stage, EntityStage::Embedding);
    assert!(matches!(&action, EntityAction::Embed(text) if text == "name: Ada"));
    let (state, action) = state.advance(WriteEvent::Embedded(vec![1, 2, 3]));
    match &action {
        EntityAction::StoreEntity(e) => {
            assert_eq!(e.id, "id-1");
            assert_eq!(e.entity_type, "Agent");
            assert_eq!(e.embedding, Some(vec![1, 2, 3]));
            assert_eq!((e.created_at, e.updated_at), (42, 42));
            assert_eq!(e.metadata, vec![(s("team"), s("blue"))]);
        }
        other => panic!("unexpected {:?}", other),
    }
    let (state, action) = state.advance(WriteEvent::Stored);
    assert!(matches!(&action, EntityAction::CollectionExists(t) if t == "Agent"));
    let (state, action) = state.advance(WriteEvent::CollectionExists(false));
    assert!(matches!(&action, EntityAction::CreateCollection { entity_type, dimension } if entity_type == "Agent" && *dimension == 3));
    let (state, action) = state.advance(WriteEvent::VectorFailed(s("exists")));
    assert!(matches!(&action, EntityAction::UpsertVector { entity_type, id, vector }
        if entity_type == "Agent" && id == "id-1" && vector == &vec![1, 2, 3]));
    let (state, action) = state.advance(WriteEvent::VectorFailed(s("down")));
    assert_eq!(state.stage, EntityStage::Done);
    assert!(matches!(&action, EntityAction::Created(r) if r.id == "id-1" && r.entity_type == "Agent" && r.created_at == 42));
}

#[test]
fn an_entity_that_fails_validation_is_not_written() {
    let validator = OntologyValidator::new(schema());
    let request = CreateEntityRequest { entity_type: s("Agent"), properties: vec![], metadata: None };
    let (state, action) = create_entity_with(request, Some(&validator), 42, s("id-1"));
    assert_eq!(state.stage, EntityStage::Failed);
    assert_eq!(
        failed(&action),
        (400, s("ValidationError"), s("Entity validation failed: Missing required property 'name' for entity type 'Agent'"))
    );
    let unknown = CreateEntityRequest { entity_type: s("Robot"), properties: vec![], metadata: None };
    let (_, action) = create_entity_with(unknown, Some(&validator), 42, s("id-1"));
    assert_eq!(failed(&action).2, "Entity validation failed: Unknown entity type: Robot");

    let unchecked = CreateEntityRequest { entity_type: s("Robot"), properties: vec![], metadata: None };
    let (state, action) = create_entity_with(unchecked, None, 42, s("id-2"));
    assert_eq!(state.stage, EntityStage::Storing);
    assert!(matches!(&action, EntityAction::StoreEntity(e) if e.id == "id-2" && e.embedding.is_none()));
    let (state, action) = state.advance(WriteEvent::Stored);
    assert_eq!(state.stage, EntityStage::Done);
    assert!(matches!(action, EntityAction::Created(_)));
}

#[test]
fn a_failed_embedding_or_store_fails_the_creation() {
    let request = || CreateEntityRequest { entity_type: s("Agent"), properties: named("Ada"), metadata: None };
    let (state, _) = create_entity_with(request(), None, 1, s("i"));
    let (state, action) = state.advance(WriteEvent::EmbeddingFailed(s("no model")));
    assert_eq!(state.stage, EntityStage::Failed);
    assert_eq!(failed(&action), (500, s("EmbeddingError"), s("Failed to generate embedding: no model")));
    let (_, action) = state.advance(WriteEvent::Stored);
    assert_eq!(failed(&action), (500, s("InternalError"), s("unexpected event")));

    let (state, _) = create_entity_with(request(), None, 1, s("i"));
    let (state, _) = state.advance(WriteEvent::Embedded(vec![7]));
    let (_, action) = state.advance(WriteEvent::StoreFailed(s("down")));
    assert_eq!(failed(&action), (500, s("DatabaseError"), s("Failed to create entity: down")));

    let (state, _) = create_entity_with(request(), None, 1, s("i"));
    let (state, _) = state.advance(WriteEvent::Embedded(vec![7]));
    let (state, _) = state.advance(WriteEvent::Stored);
    let (state, action) = state.advance(WriteEvent::CollectionExists(true));
    assert!(matches!(action, EntityAction::UpsertVector { .. }));
    let (_, action) = state.advance(WriteEvent::VectorDone);
    assert!(matches!(action, EntityAction::Created(_)));

    let (fresh, _) = create_entity(request(), None);
    assert_eq!(fresh.entity.id.len(), 21);
    let made = Entity::new(s("Agent"), vec![]);
    assert_eq!(made.id_string(), made.id);
    assert_eq!(made.created_at, made.updated_at);
    assert!(made.with_embedding(vec![1]).embedding.is_some());
}

#[test]
fn an_update_replaces_all_properties() {
    let validator = OntologyValidator::new(schema());
    let request = UpdateEntityRequest { properties: named("Grace") };
    let (state, action) = update_entity_at(s("e1"), request, 99);
    assert!(matches!(&action, EntityAction::FetchEntity(id) if id == "e1"));
    let mut stored = entity("e1", "Agent");
    stored.properties = vec![
        Property { name: s("name"), value: PropertyValue::String(s("Ada")) },
        Property { name: s("age"), value: PropertyValue::Bool(true) },
    ];
    stored.embedding = Some(vec![4]);
    let (state, action) = state.advance(WriteEvent::Fetched(Some(stored)), Some(&validator));
    match &action {
        EntityAction::ReplaceEntity(e) => {
            assert_eq!(e.properties.len(), 1);
            assert_eq!(e.properties[0].name, "name");
            assert_eq!((e.created_at, e.updated_at), (5, 99));
            assert_eq!(e.embedding, Some(vec![4]));
        }
        other => panic!("unexpected {:?}", other),
    }
    let (state, action) = state.advance(WriteEvent::Stored, Some(&validator));
    assert_eq!(state.stage, EntityStage::Done);
    assert!(matches!(action, EntityAction::Finished));

    let (state, _) = update_entity_at(s("e1"), UpdateEntityRequest { properties: vec![] }, 99);
    let (_, action) = state.advance(WriteEvent::Fetched(Some(entity("e1", "Agent"))), Some(&validator));
    assert_eq!(failed(&action).0, 400);
    let (state, _) = update_entity_at(s("e1"), UpdateEntityRequest { properties: vec![] }, 99);
    let (_, action) = state.advance(WriteEvent::Fetched(None), None);
    assert_eq!(failed(&action), (404, s("EntityNotFound"), s("Entity 'e1' not found")));
    let (state, _) = update_entity_at(s("e1"), UpdateEntityRequest { properties: vec![] }, 99);
    let (_, action) = state.advance(WriteEvent::StoreFailed(s("down")), None);
    assert_eq!(failed(&action), (500, s("DatabaseError"), s("Failed to get entity: down")));
    let (state, _) = update_entity_at(s("e1"), UpdateEntityRequest { properties: vec![] }, 99);
    let (state, _) = state.advance(WriteEvent::Fetched(Some(entity("e1", "Agent"))), None);
    let (_, action) = state.advance(WriteEvent::StoreFailed(s("down")), None);
    assert_eq!(failed(&action).2, "Failed to update entity: down");
}

#[test]
fn a_deletion_takes_the_vector_and_leaves_the_relations() {
    let (state, action) = delete_entity(s("e1"));
    assert!(matches!(&action, EntityAction::FetchEntity(id) if id == "e1"));
    let (state, action) = state.advance(WriteEvent::Fetched(Some(entity("e1", "Agent"))));
    assert!(matches!(&action, EntityAction::DeleteEntity(id) if id == "e1"));
    let (state, action) = state.advance(WriteEvent::Stored);
    assert!(matches!(&action, EntityAction::DeleteVector { entity_type, id } if entity_type == "Agent" && id == "e1"));
    let (state, action) = state.advance(WriteEvent::VectorFailed(s("no collection")));
    assert_eq!(state.stage, EntityStage::Done);
    assert!(matches!(action, EntityAction::Finished));

    let (state, _) = delete_entity(s("e1"));
    let (_, action) = state.advance(WriteEvent::Fetched(None));
    assert_eq!(failed(&action).0, 404);
    let (state, _) = delete_entity(s("e1"));
    let (state, _) = state.advance(WriteEvent::Fetched(Some(entity("e1", "Agent"))));
    let (_, action) = state.advance(WriteEvent::StoreFailed(s("down")));
    assert_eq!(failed(&action).2, "Failed to delete entity: down");
}

fn relation_request(kind: &str) -> CreateRelationRequest {
    CreateRelationRequest { relation_type: s(kind), source_id: s("a1"), target_id: s("t1"), properties: vec![] }
}

fn existing(kind: &str) -> Relation {
    Relation::with_id(s("r0"), s(kind), s("a1"), s("t0"), vec![], 0)
}

#[test]
fn a_relation_is_written_where_domain_range_and_function_allow() {
    let validator = OntologyValidator::new(schema());
    let (state, action) = create_relation_with(relation_request("executes"), 7, s("r1"));
    assert_eq!(state.stage, RelationStage::FetchingSource);
    assert!(matches!(&action, RelationAction::FetchEntity(id) if id == "a1"));
    let (state, action) = state.advance(WriteEvent::Fetched(Some(entity("a1", "LLMAgent"))), Some(&validator));
    assert!(matches!(&action, RelationAction::FetchEntity(id) if id == "t1"));
    let (state, action) = state.advance(WriteEvent::Fetched(Some(entity("t1", "Task"))), Some(&validator));
    assert_eq!(state.stage, RelationStage::Storing);
    assert!(matches!(&action, RelationAction::StoreRelation(r)
        if r.id == "r1" && r.relation_type == "executes" && r.source_id == "a1" && r.target_id == "t1" && r.created_at == 7));
    let (state, action) = state.advance(WriteEvent::Stored, Some(&validator));
    assert_eq!(state.stage, RelationStage::Done);
    assert!(matches!(&action, RelationAction::Created(r) if r.id == "r1" && r.created_at == 7));
}

#[test]
fn a_relation_against_its_domain_is_rejected() {
    let validator = OntologyValidator::new(schema());
    let (state, _) = create_relation_with(relation_request("executes"), 7, s("r1"));
    let (state, _) = state.advance(WriteEvent::Fetched(Some(entity("a1", "Task"))), Some(&validator));
    let (state, action) = state.advance(WriteEvent::Fetched(Some(entity("t1", "Agent"))), Some(&validator));
    assert_eq!(state.stage, RelationStage::Failed);
    assert_eq!(
        relation_failed(&action),
        (
            400,
            s("ValidationError"),
            s("Relation validation failed: Invalid relation 'executes' from 'Task' to 'Agent': Expected domain 'Agent' and range 'Task', got source 'Task' and target 'Agent'")
        )
    );
    let (state, _) = create_relation_with(relation_request("unknown"), 7, s("r1"));
    let (state, _) = state.advance(WriteEvent::Fetched(Some(entity("a1", "Agent"))), Some(&validator));
    let (_, action) = state.advance(WriteEvent::Fetched(Some(entity("t1", "Task"))), Some(&validator));
    assert_eq!(relation_failed(&action).2, "Relation validation failed: Unknown relation type: unknown");

    let (state, _) = create_relation_with(relation_request("unknown"), 7, s("r1"));
    let (state, _) = state.advance(WriteEvent::Fetched(Some(entity("a1", "Task"))), None);
    let (_, action) = state.advance(WriteEvent::Fetched(Some(entity("t1", "Agent"))), None);
    assert!(matches!(action, RelationAction::StoreRelation(_)));
}

#[test]
fn a_functional_relation_has_one_edge_per_source() {
    let validator = OntologyValidator::new(schema());
    let start = || {
        let (state, _) = create_relation_with(relation_request("owns"), 7, s("r1"));
        let (state, _) = state.advance(WriteEvent::Fetched(Some(entity("a1", "Agent"))), Some(&validator));
        state.advance(WriteEvent::Fetched(Some(entity("t1", "Task"))), Some(&validator))
    };
    let (state, action) = start();
    assert_eq!(state.stage, RelationStage::CheckingFunctional);
    assert!(matches!(&action, RelationAction::ListOutgoing { entity_id, relation_type }
        if entity_id == "a1" && relation_type == "owns"));
    let (state, action) = state.advance(WriteEvent::Relations(vec![]), Some(&validator));
    assert_eq!(state.stage, RelationStage::Storing);
    assert!(matches!(action, RelationAction::StoreRelation(_)));

    let (state, _) = start();
    let (state, action) = state.advance(WriteEvent::Relations(vec![existing("owns")]), Some(&validator));
    assert_eq!(state.stage, RelationStage::Failed);
    assert_eq!(
        relation_failed(&action),
        (409, s("FunctionalRelationExceeded"), s("Functional relation 'owns' already has an edge from 'a1'"))
    );
    let (state, _) = start();
    let (_, action) = state.advance(WriteEvent::StoreFailed(s("down")), Some(&validator));
    assert_eq!(relation_failed(&action).2, "Failed to list relations: down");
}

#[test]
fn both_ends_of_a_relation_have_to_be_there() {
    let (state, _) = create_relation_with(relation_request("executes"), 7, s("r1"));
    let (_, action) = state.advance(WriteEvent::Fetched(None), None);
    assert_eq!(relation_failed(&action), (404, s("EntityNotFound"), s("Source entity 'a1' not found")));
    let (state, _) = create_relation_with(relation_request("executes"), 7, s("r1"));
    let (_, action) = state.advance(WriteEvent::StoreFailed(s("x")), None);
    assert_eq!(relation_failed(&action).2, "Failed to get source entity: x");
    let (state, _) = create_relation_with(relation_request("executes"), 7, s("r1"));
    let (state, _) = state.advance(WriteEvent::Fetched(Some(entity("a1", "Agent"))), None);
    let (_, action) = state.advance(WriteEvent::Fetched(None), None);
    assert_eq!(relation_failed(&action), (404, s("EntityNotFound"), s("Target entity 't1' not found")));
    let (state, _) = create_relation_with(relation_request("executes"), 7, s("r1"));
    let (state, _) = state.advance(WriteEvent::Fetched(Some(entity("a1", "Agent"))), None);
    let (state, _) = state.advance(WriteEvent::Fetched(Some(entity("t1", "Task"))), None);
    let (state, action) = state.advance(WriteEvent::StoreFailed(s("down")), None);
    assert_eq!(relation_failed(&action).2, "Failed to create relation: down");
    let (_, action) = state.advance(WriteEvent::Stored, None);
    assert_eq!(relation_failed(&action).2, "unexpected event");
    let (fresh, _) = create_relation(relation_request("executes"));
    assert_eq!(fresh.relation.id.len(), 21);
    let made = Relation::new(s("k"), s("a"), s("b"), vec![]);
    assert_eq!(made.id_string().len(), 21);
}

#[test]
fn what_is_not_there_is_not_found() {
    assert_eq!(get_entity("e", Ok(Some(entity("e", "Agent")))).unwrap().entity_type, "Agent");
    let missing = get_entity("e", Ok(None)).unwrap_err();
    assert_eq!((missing.status, missing.body.error.as_str(), missing.body.message.as_str()), (404, "EntityNotFound", "Entity 'e' not found"));
    let down = get_entity("e", Err(s("down"))).unwrap_err();
    assert_eq!((down.status, down.body.message.as_str()), (500, "Failed to get entity: down"));
    assert_eq!(get_relation("r", Ok(Some(existing("owns")))).unwrap().relation_type, "owns");
    assert_eq!(get_relation("r", Ok(None)).unwrap_err().body.message, "Relation 'r' not found");
    assert_eq!(get_relation("r", Err(s("x"))).unwrap_err().body.message, "Failed to get relation: x");
    assert!(delete_relation("r", Ok(Some(existing("owns")))).is_ok());
    assert_eq!(delete_relation("r", Ok(None)).unwrap_err().status, 404);
    assert_eq!(delete_relation("r", Err(s("x"))).unwrap_err().status, 500);
    let f = Failure::new(418, "Teapot", "short ", "and stout");
    assert_eq!((f.status, f.body.error.as_str(), f.body.message.as_str()), (418, "Teapot", "short and stout"));
}

#[test]
fn answers_are_made_of_results() {
    let validator = OntologyValidator::new(schema());
    let ok = ValidateEntityResponse::from_result(&validator.validate_entity("Agent", &named("Ada")));
    assert!(ok.valid && ok.errors.is_empty());
    let bad = ValidateEntityResponse::from_result(&validator.validate_entity("Agent", &vec![]));
    assert!(!bad.valid);
    assert_eq!(bad.errors.len(), 1);
    assert_eq!(bad.errors[0].error_type, "MissingRequiredProperty");
    assert_eq!(bad.errors[0].message, "Missing required property 'name' for entity type 'Agent'");
    let relation = ValidateRelationResponse::from_result(&validator.validate_relation("executes", "Task", "Agent"));
    assert!(!relation.valid && relation.error.unwrap().starts_with("Invalid relation 'executes'"));
    let fine = ValidateRelationResponse::from_result(&validator.validate_relation("executes", "Agent", "Task"));
    assert!(fine.valid && fine.error.is_none());

    let reasoner = OntologyReasoner::new(schema());
    let with = ExpandQueryResponse::from_expansion(reasoner.expand_query("Agent").unwrap(), true);
    assert_eq!(with.expanded_types, vec![s("Agent"), s("LLMAgent")]);
    assert_eq!(with.inferred_relations.len(), 2);
    assert_eq!(with.inferred_relations[0].reason, "SubtypeInheritance");
    let without = ExpandQueryResponse::from_expansion(reasoner.expand_query("Agent").unwrap(), false);
    assert!(without.inferred_relations.is_empty());
    assert_eq!(without.metadata.len(), 2);

    let health = HealthResponse::healthy("0.1.0", Some(reasoner.schema()));
    assert_eq!(health.status, "healthy");
    assert!(health.ontology_loaded);
    assert_eq!(health.ontology_namespace.as_deref(), Some("ns"));
    let bare = HealthResponse::healthy("0.1.0", None);
    assert!(!bare.ontology_loaded && bare.ontology_version.is_none());
    let uploaded = UploadSchemaResponse::accepted(reasoner.schema());
    assert!(uploaded.success);
    assert_eq!(uploaded.version, "1.0");
    let info = PropertyInfo::describe(&reasoner.schema().entity_types[0].properties[0]);
    assert_eq!((info.name.as_str(), info.property_type.as_str(), info.cardinality.as_str(), info.required), ("name", "String", "One", true));
    let error = ErrorResponse::new("NoSchema", "No ontology schema loaded");
    assert_eq!((error.error.as_str(), error.message.as_str()), ("NoSchema", "No ontology schema loaded"));
}

#[test]
fn errors_have_messages_and_statuses() {
    let all = [
        (VectaDBError::SurrealDB(s("x")), "SurrealDB error: x", 500, "Database error: x"),
        (VectaDBError::Qdrant(s("x")), "Qdrant error: x", 500, "Vector DB error: x"),
        (VectaDBError::Embedding(s("x")), "Embedding error: x", 500, "Embedding error: x"),
        (VectaDBError::Config(s("x")), "Configuration error: x", 500, "Config error: x"),
        (VectaDBError::NotFound(s("x")), "Not found: x", 404, "x"),
        (VectaDBError::InvalidInput(s("x")), "Invalid input: x", 400, "x"),
        (VectaDBError::Unauthorized(s("x")), "Authentication failed: x", 401, "x"),
        (VectaDBError::Internal(s("x")), "Internal server error: x", 500, "x"),
        (VectaDBError::Serialization(s("x")), "Serialization error: x", 500, "Serialization error: x"),
    ];
    for (error, message, status, answer) in all {
        assert_eq!(error.message(), message);
        assert_eq!(error.status_code(), status);
        assert_eq!(error.response_message(), answer);
    }
}

#[test]
fn test_validation_failure() {
    let mut broken = OntologySchema::new(s("test"), s("1.0"));
    broken.add_entity_type(EntityType::new(s("LLMAgent"), s("LLM Agent")).with_parent(s("Agent")));
    let result = OntologyLoader::checked(broken);
    assert!(result.is_err());
    assert_eq!(
        result.unwrap_err().message(),
        "Configuration error: Ontology validation failed: Parent type 'Agent' not found for type 'LLMAgent'"
    );
    assert_eq!(OntologyLoader::checked(schema()).unwrap().namespace, "ns");
    assert_eq!(
        OntologyLoader::yaml_parse_error("line 1").message(),
        "Configuration error: Failed to parse ontology YAML: line 1"
    );
    assert_eq!(
        OntologyLoader::json_parse_error("eof").message(),
        "Configuration error: Failed to parse ontology JSON: eof"
    );
}

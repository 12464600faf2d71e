use crate::intelligence::ontology_reasoner::{ExpandedQuery, InferredRelation};
use crate::ontology::entity_type::PropertyDefinition;
use crate::ontology::schema::OntologySchema;
use crate::ontology::validator::{ValidationError, ValidationErrorView};
use crate::ontology::value::Property;
use crate::text::{clone_opt, owned, views};
use vstd::prelude::*;

verus! {

/// The form that a schema document is written in.
#[derive(Debug, Clone, Copy, PartialEq, Eq, Structural)]
pub enum SchemaFormat {
    Json,
    Yaml,
}

/// A request to make a schema the active one.
#[derive(Debug, Clone)]
pub struct UploadSchemaRequest {
    /// The schema document.
    pub schema: String,
    pub format: SchemaFormat,
}

/// The answer to an upload of a schema.
#[derive(Debug, Clone)]
pub struct UploadSchemaResponse {
    pub success: bool,
    pub message: String,
    pub namespace: String,
    pub version: String,
}

impl UploadSchemaResponse {
    /// The answer to the upload of a schema that is now the active one.
    pub fn accepted(schema: &OntologySchema) -> (response: Self)
        ensures
            response.success,
            response.message@ == "Ontology schema uploaded successfully"@,
            response.namespace@ == schema.namespace@,
            response.version@ == schema.version@,
    {
        UploadSchemaResponse {
            success: true,
            message: owned("Ontology schema uploaded successfully"),
            namespace: schema.namespace.clone(),
            version: schema.version.clone(),
        }
    }
}

/// One property of an entity type, as a request for the type is answered.
#[derive(Debug, Clone)]
pub struct PropertyInfo {
    pub name: String,
    pub property_type: String,
    pub required: bool,
    pub cardinality: String,
    pub description: Option<String>,
}

impl PropertyInfo {
    /// What is said of a property definition.
    pub fn describe(def: &PropertyDefinition) -> (info: Self)
        ensures
            info.name@ == def.name@,
            info.property_type@ == def.property_type.written(),
            info.required == def.required,
            info.cardinality@ == def.cardinality.written(),
            info.description == def.description,
    {
        PropertyInfo {
            name: def.name.clone(),
            property_type: def.property_type.describe(),
            required: def.required,
            cardinality: owned(def.cardinality.name()),
            description: clone_opt(&def.description),
        }
    }
}

/// The answer to a request for an entity type.
#[derive(Debug, Clone)]
pub struct GetEntityTypeResponse {
    pub id: String,
    pub label: String,
    pub parent: Option<String>,
    /// The type's own properties.
    pub properties: Vec<PropertyInfo>,
    /// The type's constraints, written out.
    pub constraints: Vec<String>,
}

/// The answer to a request for the subtypes of a type.
#[derive(Debug, Clone)]
pub struct GetSubtypesResponse {
    pub type_id: String,
    pub subtypes: Vec<String>,
}

/// A request to check the properties of an entity against its type.
#[derive(Debug, Clone)]
pub struct ValidateEntityRequest {
    pub entity_type: String,
    pub properties: Vec<Property>,
}

/// One error of a validation, by the name of its kind and in words.
#[derive(Debug, Clone)]
pub struct ValidationErrorInfo {
    pub error_type: String,
    pub message: String,
}

impl ValidationErrorInfo {
    /// What is said of a validation error.
    pub fn describe(error: &ValidationError) -> (info: Self)
        ensures
            info.error_type@ == error@.kind(),
            info.message@ == error@.text(),
    {
        ValidationErrorInfo { error_type: owned(error.kind_name()), message: error.message() }
    }
}

/// The answer to a request to validate an entity.
#[derive(Debug, Clone)]
pub struct ValidateEntityResponse {
    pub valid: bool,
    pub errors: Vec<ValidationErrorInfo>,
}

/// What is said of each error of a list: the name of its kind, and the error in words.
pub open spec fn described(errors: Seq<ValidationErrorView>) -> Seq<(Seq<char>, Seq<char>)> {
    errors.map_values(|e: ValidationErrorView| (e.kind(), e.text()))
}

/// The kind and the message of each entry of a list.
pub open spec fn info_views(infos: Seq<ValidationErrorInfo>) -> Seq<(Seq<char>, Seq<char>)> {
    infos.map_values(|i: ValidationErrorInfo| (i.error_type@, i.message@))
}

impl ValidateEntityResponse {
    /// The answer that the result of a validation becomes: valid and without errors,
    /// or invalid with each error described.
    pub fn from_result(result: &Result<(), Vec<ValidationError>>) -> (response: Self)
        ensures
            response.valid == (result is Ok),
            match *result {
                Ok(()) => response.errors@.len() == 0,
                Err(errors) => info_views(response.errors@) == described(
                    crate::ontology::validator::error_views(errors@),
                ),
            },
    {
        match result {
            Ok(()) => ValidateEntityResponse { valid: true, errors: Vec::new() },
            Err(errors) => {
                let ghost all = described(crate::ontology::validator::error_views(errors@));
                let mut infos: Vec<ValidationErrorInfo> = Vec::new();
                let mut i: usize = 0;
                assert(info_views(infos@) =~= all.take(0));
                while i < errors.len()
                    invariant
                        i <= errors.len(),
                        all == described(crate::ontology::validator::error_views(errors@)),
                        info_views(infos@) == all.take(i as int),
                    decreases errors.len() - i,
                {
                    let ghost before = info_views(infos@);
                    let info = ValidationErrorInfo::describe(&errors[i]);
                    infos.push(info);
                    assert(info_views(infos@) =~= before.push(all[i as int]));
                    assert(all.take(i + 1) =~= all.take(i as int).push(all[i as int]));
                    i += 1;
                }
                assert(all.take(errors.len() as int) == all);
                ValidateEntityResponse { valid: false, errors: infos }
            },
        }
    }
}

/// A request to check a relation between two types.
#[derive(Debug, Clone)]
pub struct ValidateRelationRequest {
    pub relation_type: String,
    pub source_type: String,
    pub target_type: String,
}

/// The answer to a request to validate a relation.
#[derive(Debug, Clone)]
pub struct ValidateRelationResponse {
    pub valid: bool,
    pub error: Option<String>,
}

impl ValidateRelationResponse {
    /// The answer that the result of a validation becomes.
    pub fn from_result(result: &Result<(), ValidationError>) -> (response: Self)
        ensures
            response.valid == (result is Ok),
            match *result {
                Ok(()) => response.error is None,
                Err(e) => response.error matches Some(text) && text@ == e@.text(),
            },
    {
        match result {
            Ok(()) => ValidateRelationResponse { valid: true, error: None },
            Err(e) => ValidateRelationResponse { valid: false, error: Some(e.message()) },
        }
    }
}

/// A request to expand a query for a type.
#[derive(Debug, Clone)]
pub struct ExpandQueryRequest {
    pub entity_type: String,
    pub include_inferred_relations: bool,
}

/// An inferred relation, as a request for an expansion is answered.
#[derive(Debug, Clone)]
pub struct InferredRelationInfo {
    pub relation_type: String,
    pub source_type: String,
    pub target_type: String,
    /// The name of the reason.
    pub reason: String,
}

/// The answer to a request to expand a query.
#[derive(Debug, Clone)]
pub struct ExpandQueryResponse {
    pub original_type: String,
    pub expanded_types: Vec<String>,
    pub inferred_relations: Vec<InferredRelationInfo>,
    pub metadata: Vec<(String, String)>,
}

/// The name of a reason for an inference.
pub open spec fn reason_name(
    reason: crate::intelligence::ontology_reasoner::InferenceReason,
) -> Seq<char> {
    match reason {
        crate::intelligence::ontology_reasoner::InferenceReason::Transitive => "Transitive"@,
        crate::intelligence::ontology_reasoner::InferenceReason::Symmetric => "Symmetric"@,
        crate::intelligence::ontology_reasoner::InferenceReason::Inverse => "Inverse"@,
        crate::intelligence::ontology_reasoner::InferenceReason::SubtypeInheritance => {
            "SubtypeInheritance"@
        },
    }
}

impl InferredRelationInfo {
    /// What is said of an inferred relation.
    pub fn describe(relation: &InferredRelation) -> (info: Self)
        ensures
            info.relation_type@ == relation.relation_type@,
            info.source_type@ == relation.source_type@,
            info.target_type@ == relation.target_type@,
            info.reason@ == reason_name(relation.reason),
    {
        InferredRelationInfo {
            relation_type: relation.relation_type.clone(),
            source_type: relation.source_type.clone(),
            target_type: relation.target_type.clone(),
            reason: owned(relation.reason.name()),
        }
    }
}

impl ExpandQueryResponse {
    /// The answer that an expansion becomes; the inferred relations are left out where
    /// the request does not ask for them.
    pub fn from_expansion(expanded: ExpandedQuery, include_inferred_relations: bool) -> (response:
        Self)
        ensures
            response.original_type == expanded.original_type,
            response.expanded_types == expanded.expanded_types,
            response.metadata == expanded.metadata,
            response.inferred_relations@.len() == if include_inferred_relations {
                expanded.inferred_relations@.len()
            } else {
                0
            },
            forall|i: int|
                0 <= i < response.inferred_relations@.len() ==> {
                    &&& (#[trigger] response.inferred_relations@[i]).relation_type@
                        == expanded.inferred_relations@[i].relation_type@
                    &&& response.inferred_relations@[i].source_type@
                        == expanded.inferred_relations@[i].source_type@
                    &&& response.inferred_relations@[i].target_type@
                        == expanded.inferred_relations@[i].target_type@
                    &&& response.inferred_relations@[i].reason@ == reason_name(
                        expanded.inferred_relations@[i].reason,
                    )
                },
    {
        let mut infos: Vec<InferredRelationInfo> = Vec::new();
        if include_inferred_relations {
            let mut i: usize = 0;
            while i < expanded.inferred_relations.len()
                invariant
                    i <= expanded.inferred_relations.len(),
                    infos.len() == i,
                    forall|k: int|
                        0 <= k < i ==> {
                            &&& (#[trigger] infos@[k]).relation_type@
                                == expanded.inferred_relations@[k].relation_type@
                            &&& infos@[k].source_type@
                                == expanded.inferred_relations@[k].source_type@
                            &&& infos@[k].target_type@
                                == expanded.inferred_relations@[k].target_type@
                            &&& infos@[k].reason@ == reason_name(
                                expanded.inferred_relations@[k].reason,
                            )
                        },
                decreases expanded.inferred_relations.len() - i,
            {
                infos.push(InferredRelationInfo::describe(&expanded.inferred_relations[i]));
                i += 1;
            }
        }
        ExpandQueryResponse {
            original_type: expanded.original_type,
            expanded_types: expanded.expanded_types,
            inferred_relations: infos,
            metadata: expanded.metadata,
        }
    }
}

/// A request for the relations that may run between two types.
#[derive(Debug, Clone)]
pub struct GetCompatibleRelationsRequest {
    pub source_type: String,
    pub target_type: String,
}

/// The answer to a request for compatible relations.
#[derive(Debug, Clone)]
pub struct GetCompatibleRelationsResponse {
    pub source_type: String,
    pub target_type: String,
    pub compatible_relations: Vec<String>,
}

/// The answer to a request for the service's health.
#[derive(Debug, Clone)]
pub struct HealthResponse {
    pub status: String,
    pub version: String,
    pub ontology_loaded: bool,
    pub ontology_namespace: Option<String>,
    pub ontology_version: Option<String>,
}

impl HealthResponse {
    /// The answer of a healthy service of the given version, with the active schema
    /// if there is one.
    pub fn healthy(version: &str, schema: Option<&OntologySchema>) -> (response: Self)
        ensures
            response.status@ == "healthy"@,
            response.version@ == version@,
            response.ontology_loaded == (schema is Some),
            match schema {
                Some(s) => {
                    &&& response.ontology_namespace matches Some(n) && n@ == s.namespace@
                    &&& response.ontology_version matches Some(v) && v@ == s.version@
                },
                None => response.ontology_namespace is None && response.ontology_version
                    is None,
            },
    {
        match schema {
            Some(s) => HealthResponse {
                status: owned("healthy"),
                version: owned(version),
                ontology_loaded: true,
                ontology_namespace: Some(s.namespace.clone()),
                ontology_version: Some(s.version.clone()),
            },
            None => HealthResponse {
                status: owned("healthy"),
                version: owned(version),
                ontology_loaded: false,
                ontology_namespace: None,
                ontology_version: None,
            },
        }
    }
}

/// What a failed request is answered with: the name of the error and a message.
#[derive(Debug, Clone)]
pub struct ErrorResponse {
    pub error: String,
    pub message: String,
}

impl ErrorResponse {
    pub fn new(error: &str, message: &str) -> (response: Self)
        ensures
            response.error@ == error@,
            response.message@ == message@,
    {
        ErrorResponse { error: owned(error), message: owned(message) }
    }
}

/// A request to create an entity.
#[derive(Debug, Clone)]
pub struct CreateEntityRequest {
    pub entity_type: String,
    pub properties: Vec<Property>,
    pub metadata: Option<Vec<(String, String)>>,
}

/// The answer to the creation of an entity.
#[derive(Debug, Clone)]
pub struct CreateEntityResponse {
    pub id: String,
    pub entity_type: String,
    /// When the entity was created, in milliseconds since the start of 1970.
    pub created_at: i64,
}

/// A request to replace the properties of an entity.
#[derive(Debug, Clone)]
pub struct UpdateEntityRequest {
    pub properties: Vec<Property>,
}

/// An entity, as a request for it is answered.
#[derive(Debug, Clone)]
pub struct EntityResponse {
    pub id: String,
    pub entity_type: String,
    pub properties: Vec<Property>,
    pub embedding: Option<Vec<u32>>,
    pub created_at: i64,
    pub updated_at: i64,
    pub metadata: Vec<(String, String)>,
}

impl EntityResponse {
    /// The answer that an entity becomes.
    pub fn from_entity(entity: crate::db::types::Entity) -> (response: Self)
        ensures
            response.id == entity.id,
            response.entity_type == entity.entity_type,
            response.properties == entity.properties,
            response.embedding == entity.embedding,
            response.created_at == entity.created_at,
            response.updated_at == entity.updated_at,
            response.metadata == entity.metadata,
    {
        EntityResponse {
            id: entity.id,
            entity_type: entity.entity_type,
            properties: entity.properties,
            embedding: entity.embedding,
            created_at: entity.created_at,
            updated_at: entity.updated_at,
            metadata: entity.metadata,
        }
    }
}

/// A list of entities, as a request for them is answered.
#[derive(Debug, Clone)]
pub struct ListEntitiesResponse {
    pub entities: Vec<EntityResponse>,
    pub total: usize,
}

/// A request to create a relation.
#[derive(Debug, Clone)]
pub struct CreateRelationRequest {
    pub relation_type: String,
    pub source_id: String,
    pub target_id: String,
    pub properties: Vec<Property>,
}

/// The answer to the creation of a relation.
#[derive(Debug, Clone)]
pub struct CreateRelationResponse {
    pub id: String,
    pub relation_type: String,
    pub source_id: String,
    pub target_id: String,
    pub created_at: i64,
}

/// A relation, as a request for it is answered.
#[derive(Debug, Clone)]
pub struct RelationResponse {
    pub id: String,
    pub relation_type: String,
    pub source_id: String,
    pub target_id: String,
    pub properties: Vec<Property>,
    pub created_at: i64,
}

impl RelationResponse {
    /// The answer that a relation becomes.
    pub fn from_relation(relation: crate::db::types::Relation) -> (response: Self)
        ensures
            response.id == relation.id,
            response.relation_type == relation.relation_type,
            response.source_id == relation.source_id,
            response.target_id == relation.target_id,
            response.properties == relation.properties,
            response.created_at == relation.created_at,
    {
        RelationResponse {
            id: relation.id,
            relation_type: relation.relation_type,
            source_id: relation.source_id,
            target_id: relation.target_id,
            properties: relation.properties,
            created_at: relation.created_at,
        }
    }
}

/// Where an event came from.
#[derive(Debug, Clone)]
pub struct LogSource {
    pub system: String,
    pub log_group: String,
    pub log_stream: String,
    pub log_id: String,
}

/// What an event carries: a text, named values, or something else, kept as JSON text.
#[derive(Debug, Clone)]
pub enum EventPayload {
    Text(String),
    Fields(Vec<Property>),
    Other { json: String },
}

/// An event to ingest.
#[derive(Debug, Clone)]
pub struct EventIngestionRequest {
    pub trace_id: Option<String>,
    /// When the event happened, in milliseconds since the start of 1970.
    pub timestamp: i64,
    pub event_type: Option<String>,
    pub agent_id: Option<String>,
    pub session_id: Option<String>,
    pub properties: EventPayload,
    pub source: Option<LogSource>,
}

/// What `true` a missing option of an ingestion stands for.
pub fn default_true() -> (yes: bool)
    ensures
        yes,
{
    true
}

/// How a batch of events is ingested.
#[derive(Debug, Clone, Copy, PartialEq, Eq, Structural)]
pub struct IngestionOptions {
    /// Whether a trace is created for an event that none is found for.
    pub auto_create_traces: bool,
    pub generate_embeddings: bool,
    pub extract_relationships: bool,
}

impl Default for IngestionOptions {
    fn default() -> (options: Self)
        ensures
            options == (IngestionOptions {
                auto_create_traces: false,
                generate_embeddings: false,
                extract_relationships: false,
            }),
    {
        IngestionOptions {
            auto_create_traces: false,
            generate_embeddings: false,
            extract_relationships: false,
        }
    }
}

/// A batch of events to ingest.
#[derive(Debug, Clone)]
pub struct BulkEventIngestionRequest {
    pub events: Vec<EventIngestionRequest>,
    pub options: IngestionOptions,
}

/// The answer to the ingestion of one event.
#[derive(Debug, Clone)]
pub struct EventIngestionResponse {
    pub event_id: String,
    pub trace_id: String,
    /// The time of the event.
    pub created_at: i64,
}

/// An event of a batch that was not ingested: its place in the batch, and why.
#[derive(Debug, Clone)]
pub struct IngestionError {
    pub index: usize,
    pub error: String,
}

/// The answer to the ingestion of a batch.
#[derive(Debug, Clone)]
pub struct BulkEventIngestionResponse {
    pub ingested: usize,
    pub failed: usize,
    /// The traces that events were added to, each once.
    pub trace_ids: Vec<String>,
    pub errors: Vec<IngestionError>,
}

impl BulkEventIngestionResponse {
    /// Whether the answer counts what it lists: one error for each failed event, no
    /// trace twice, and no more traces than ingested events.
    pub open spec fn well_formed(&self) -> bool {
        &&& self.errors@.len() == self.failed
        &&& views(self.trace_ids@).no_duplicates()
        &&& self.trace_ids@.len() <= self.ingested
    }

    /// The answer to an empty batch.
    pub fn new() -> (response: Self)
        ensures
            response.well_formed(),
            response.ingested == 0,
            response.failed == 0,
            response.trace_ids@.len() == 0,
            response.errors@.len() == 0,
    {
        let response = BulkEventIngestionResponse {
            ingested: 0,
            failed: 0,
            trace_ids: Vec::new(),
            errors: Vec::new(),
        };
        assert(views(response.trace_ids@) =~= Seq::<Seq<char>>::empty());
        response
    }

    /// Counts an event that was ingested into the given trace. A count that cannot grow
    /// stays as it is.
    pub fn record_success(&mut self, trace_id: &str)
        ensures
            final(self).ingested == if old(self).ingested < usize::MAX {
                (old(self).ingested + 1) as usize
            } else {
                usize::MAX
            },
            final(self).failed == old(self).failed,
            final(self).errors == old(self).errors,
            views(final(self).trace_ids@) == if views(old(self).trace_ids@).contains(trace_id@) {
                views(old(self).trace_ids@)
            } else {
                views(old(self).trace_ids@).push(trace_id@)
            },
            old(self).well_formed() && old(self).ingested < usize::MAX ==> final(self).well_formed(),
    {
        if self.ingested < usize::MAX {
            self.ingested = self.ingested + 1;
        }
        crate::text::push_unique(&mut self.trace_ids, trace_id);
    }

    /// Counts an event that was not ingested: the event at `index` of the batch, with
    /// the reason. A count that cannot grow stays as it is.
    pub fn record_failure(&mut self, index: usize, error: String)
        ensures
            final(self).failed == if old(self).failed < usize::MAX {
                (old(self).failed + 1) as usize
            } else {
                usize::MAX
            },
            final(self).ingested == old(self).ingested,
            final(self).trace_ids == old(self).trace_ids,
            final(self).errors@ == old(self).errors@.push(IngestionError { index, error }),
            old(self).well_formed() && old(self).failed < usize::MAX ==> final(self).well_formed(),
    {
        if self.failed < usize::MAX {
            self.failed = self.failed + 1;
        }
        self.errors.push(IngestionError { index, error });
    }
}

} // verus!

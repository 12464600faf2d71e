use vectadb::ontology::entity_type::{Cardinality, Constraint, EntityType, PropertyDefinition, PropertyType};
use vectadb::ontology::relation_type::RelationType;
use vectadb::ontology::schema::{OntologySchema, SchemaError};
use vectadb::ontology::value::Number;

fn s(text: &str) -> String {
    text.to_string()
}

#[test]
fn test_entity_type_creation() {
    let entity_type = EntityType::new("Agent".to_string(), "Agent".to_string())
        .with_property(PropertyDefinition::new("name".to_string(), PropertyType::String).required());

    assert_eq!(entity_type.id, "Agent");
    assert_eq!(entity_type.properties.len(), 1);
    assert!(entity_type.properties[0].required);
}

#[test]
fn test_entity_type_inheritance() {
    let agent = EntityType::new("Agent".to_string(), "Agent".to_string());
    let llm_agent = EntityType::new("LLMAgent".to_string(), "LLM Agent".to_string())
        .with_parent("Agent".to_string());

    let schema = OntologySchema {
        namespace: "test".to_string(),
        version: "1.0".to_string(),
        entity_types: vec![agent, llm_agent.clone()],
        relation_types: Vec::new(),
        rules: Vec::new(),
    };

    assert!(llm_agent.is_subtype_of("Agent", &schema));
    assert!(llm_agent.is_subtype_of("LLMAgent", &schema));
    assert!(!llm_agent.is_subtype_of("Task", &schema));
}

#[test]
fn test_property_types() {
    let string_prop = PropertyDefinition::new("name".to_string(), PropertyType::String);
    assert_eq!(string_prop.property_type, PropertyType::String);

    let ref_prop = PropertyDefinition::new(
        "agent".to_string(),
        PropertyType::Reference("Agent".to_string()),
    );
    assert!(matches!(ref_prop.property_type, PropertyType::Reference(_)));
}

#[test]
fn test_cardinality() {
    let prop = PropertyDefinition::new("tags".to_string(), PropertyType::String)
        .with_cardinality(Cardinality::Many);

    assert_eq!(prop.cardinality, Cardinality::Many);
}

#[test]
fn test_relation_type_creation() {
    let rel = RelationType::new(
        "executes".to_string(),
        "executes".to_string(),
        "Agent".to_string(),
        "Task".to_string(),
    );

    assert_eq!(rel.id, "executes");
    assert_eq!(rel.domain, "Agent");
    assert_eq!(rel.range, "Task");
    assert!(!rel.transitive);
}

#[test]
fn test_transitive_relation() {
    let rel = RelationType::new(
        "hasSubTask".to_string(),
        "has subtask".to_string(),
        "Task".to_string(),
        "Task".to_string(),
    )
    .transitive();

    assert!(rel.transitive);
}

#[test]
fn test_symmetric_relation() {
    let rel = RelationType::new(
        "collaboratesWith".to_string(),
        "collaborates with".to_string(),
        "Agent".to_string(),
        "Agent".to_string(),
    )
    .symmetric();

    assert!(rel.symmetric);
    assert!(!rel.directed());
}

#[test]
fn test_relation_with_inverse() {
    let rel = RelationType::new(
        "executes".to_string(),
        "executes".to_string(),
        "Agent".to_string(),
        "Task".to_string(),
    )
    .with_inverse("executedBy".to_string());

    assert_eq!(rel.inverse, Some("executedBy".to_string()));
}

#[test]
fn test_can_connect() {
    let schema = OntologySchema {
        namespace: "test".to_string(),
        version: "1.0".to_string(),
        entity_types: vec![
            EntityType::new("Agent".to_string(), "Agent".to_string()),
            EntityType::new("Task".to_string(), "Task".to_string()),
            EntityType::new("LLMAgent".to_string(), "LLM Agent".to_string())
                .with_parent("Agent".to_string()),
        ],
        relation_types: Vec::new(),
        rules: Vec::new(),
    };

    let rel = RelationType::new(
        "executes".to_string(),
        "executes".to_string(),
        "Agent".to_string(),
        "Task".to_string(),
    );

    assert!(rel.can_connect("Agent", "Task", &schema));
    assert!(rel.can_connect("LLMAgent", "Task", &schema));
    assert!(!rel.can_connect("Task", "Agent", &schema));
}

#[test]
fn test_schema_creation() {
    let schema = OntologySchema::new(
        "http://vectadb.com/ontology/test".to_string(),
        "1.0.0".to_string(),
    );

    assert_eq!(schema.namespace, "http://vectadb.com/ontology/test");
    assert_eq!(schema.version, "1.0.0");
    assert!(schema.entity_types.is_empty());
    assert!(schema.relation_types.is_empty());
}

#[test]
fn test_add_entity_type() {
    let mut schema = OntologySchema::new("test".to_string(), "1.0".to_string());

    let entity_type = EntityType::new("Agent".to_string(), "Agent".to_string());
    schema.add_entity_type(entity_type);

    assert_eq!(schema.entity_types.len(), 1);
    assert!(schema.has_entity_type("Agent"));
}

#[test]
fn add_entity_type_replaces_the_type_of_the_same_id() {
    let mut schema = OntologySchema::new(s("test"), s("1.0"));
    schema.add_entity_type(EntityType::new(s("Agent"), s("first")));
    schema.add_entity_type(EntityType::new(s("Task"), s("Task")));
    schema.add_entity_type(EntityType::new(s("Agent"), s("second")));

    assert_eq!(schema.entity_types.len(), 2);
    assert_eq!(schema.entity_type("Agent").unwrap().label, "second");
    assert_eq!(schema.entity_types[0].id, "Agent");
    assert!(schema.entity_type("Nobody").is_none());
}

#[test]
fn add_relation_type_replaces_the_relation_of_the_same_id() {
    let mut schema = OntologySchema::new(s("test"), s("1.0"));
    schema.add_relation_type(RelationType::new(s("knows"), s("a"), s("Agent"), s("Agent")));
    schema.add_relation_type(RelationType::new(s("knows"), s("b"), s("Agent"), s("Agent")));
    assert_eq!(schema.relation_types.len(), 1);
    assert_eq!(schema.relation_type("knows").unwrap().label, "b");
    assert!(schema.has_relation_type("knows"));
    assert!(!schema.has_relation_type("owns"));
}

fn agents() -> OntologySchema {
    let mut schema = OntologySchema::new("test".to_string(), "1.0".to_string());
    schema.add_entity_type(EntityType::new("Agent".to_string(), "Agent".to_string()));
    schema.add_entity_type(
        EntityType::new("LLMAgent".to_string(), "LLM Agent".to_string())
            .with_parent("Agent".to_string()),
    );
    schema.add_entity_type(
        EntityType::new("HumanAgent".to_string(), "Human Agent".to_string())
            .with_parent("Agent".to_string()),
    );
    schema
}

#[test]
fn test_get_subtypes() {
    let schema = agents();

    let subtypes = schema.get_subtypes("Agent");
    assert_eq!(subtypes.len(), 3);
    assert!(subtypes.contains(&"Agent".to_string()));
    assert!(subtypes.contains(&"LLMAgent".to_string()));
    assert!(subtypes.contains(&"HumanAgent".to_string()));
}

#[test]
fn subtypes_start_with_the_type_and_follow_the_schema_order() {
    let schema = agents();
    assert_eq!(schema.get_subtypes("Agent"), vec![s("Agent"), s("LLMAgent"), s("HumanAgent")]);
    assert_eq!(schema.get_subtypes("LLMAgent"), vec![s("LLMAgent")]);
    assert_eq!(schema.get_subtypes("Unknown"), vec![s("Unknown")]);
}

#[test]
fn subtypes_reach_through_several_levels() {
    let mut schema = agents();
    schema.add_entity_type(EntityType::new(s("Gpt"), s("Gpt")).with_parent(s("LLMAgent")));
    assert_eq!(
        schema.get_subtypes("Agent"),
        vec![s("Agent"), s("LLMAgent"), s("HumanAgent"), s("Gpt")]
    );
    assert_eq!(schema.get_supertypes("Gpt"), vec![s("Gpt"), s("LLMAgent"), s("Agent")]);
}

#[test]
fn test_get_supertypes() {
    let mut schema = OntologySchema::new("test".to_string(), "1.0".to_string());

    schema.add_entity_type(EntityType::new("Agent".to_string(), "Agent".to_string()));
    schema.add_entity_type(
        EntityType::new("LLMAgent".to_string(), "LLM Agent".to_string())
            .with_parent("Agent".to_string()),
    );

    let supertypes = schema.get_supertypes("LLMAgent");
    assert_eq!(supertypes.len(), 2);
    assert!(supertypes.contains(&"LLMAgent".to_string()));
    assert!(supertypes.contains(&"Agent".to_string()));
    assert_eq!(supertypes, vec![s("LLMAgent"), s("Agent")]);
}

#[test]
fn supertypes_stop_at_the_first_absent_parent() {
    let mut schema = OntologySchema::new(s("test"), s("1.0"));
    schema.add_entity_type(EntityType::new(s("LLMAgent"), s("LLM")).with_parent(s("Agent")));
    assert_eq!(schema.get_supertypes("LLMAgent"), vec![s("LLMAgent"), s("Agent")]);
    assert_eq!(schema.get_supertypes("Nobody"), vec![s("Nobody")]);
}

#[test]
fn supertypes_of_a_circular_chain_are_cut_off() {
    let mut schema = OntologySchema::new(s("test"), s("1.0"));
    schema.add_entity_type(EntityType::new(s("A"), s("A")).with_parent(s("B")));
    schema.add_entity_type(EntityType::new(s("B"), s("B")).with_parent(s("A")));
    assert_eq!(schema.get_supertypes("A"), vec![s("A"), s("B"), s("A")]);
    assert!(schema.entity_type("A").unwrap().is_subtype_of("B", &schema));
    assert!(!schema.entity_type("A").unwrap().is_subtype_of("C", &schema));
}

#[test]
fn test_schema_validation() {
    let mut schema = OntologySchema::new("test".to_string(), "1.0".to_string());

    schema.add_entity_type(EntityType::new("Agent".to_string(), "Agent".to_string()));
    schema.add_entity_type(EntityType::new("Task".to_string(), "Task".to_string()));
    schema.add_relation_type(RelationType::new(
        "executes".to_string(),
        "executes".to_string(),
        "Agent".to_string(),
        "Task".to_string(),
    ));

    assert!(schema.validate().is_ok());
}

#[test]
fn test_schema_validation_missing_parent() {
    let mut schema = OntologySchema::new("test".to_string(), "1.0".to_string());

    schema.add_entity_type(
        EntityType::new("LLMAgent".to_string(), "LLM Agent".to_string())
            .with_parent("Agent".to_string()),
    );

    assert!(schema.validate().is_err());
    assert_eq!(
        schema.validate().unwrap_err(),
        "Parent type 'Agent' not found for type 'LLMAgent'"
    );
}

#[test]
fn test_circular_inheritance_detection() {
    let mut schema = OntologySchema::new("test".to_string(), "1.0".to_string());

    schema.add_entity_type(EntityType::new("A".to_string(), "A".to_string()));
    schema.add_entity_type(
        EntityType::new("B".to_string(), "B".to_string()).with_parent("A".to_string()),
    );

    assert!(!schema.has_circular_inheritance("B").unwrap());
}

#[test]
fn circular_inheritance_is_found_and_reported() {
    let mut schema = OntologySchema::new(s("test"), s("1.0"));
    schema.add_entity_type(EntityType::new(s("A"), s("A")).with_parent(s("C")));
    schema.add_entity_type(EntityType::new(s("B"), s("B")).with_parent(s("A")));
    schema.add_entity_type(EntityType::new(s("C"), s("C")).with_parent(s("B")));
    assert!(schema.has_circular_inheritance("A").unwrap());
    assert!(schema.has_circular_inheritance("B").unwrap());
    assert!(!schema.has_circular_inheritance("Nobody").unwrap());
    assert_eq!(
        schema.validate().unwrap_err(),
        "Circular inheritance detected for type: A"
    );
    assert!(matches!(
        schema.check(),
        Err(SchemaError::CircularInheritance { type_id }) if type_id == "A"
    ));
}

#[test]
fn a_type_that_is_its_own_parent_is_circular() {
    let mut schema = OntologySchema::new(s("test"), s("1.0"));
    schema.add_entity_type(EntityType::new(s("A"), s("A")).with_parent(s("A")));
    assert!(schema.has_circular_inheritance("A").unwrap());
}

#[test]
fn each_schema_error_has_its_input_and_its_message() {
    let mut schema = OntologySchema::new(s("test"), s("1.0"));
    schema.add_entity_type(EntityType::new(s("Agent"), s("Agent")));
    schema.add_relation_type(RelationType::new(s("runs"), s("runs"), s("Robot"), s("Agent")));
    assert_eq!(
        schema.validate().unwrap_err(),
        "Domain type 'Robot' not found for relation 'runs'"
    );

    let mut schema = OntologySchema::new(s("test"), s("1.0"));
    schema.add_entity_type(EntityType::new(s("Agent"), s("Agent")));
    schema.add_relation_type(RelationType::new(s("runs"), s("runs"), s("Agent"), s("Task")));
    assert_eq!(
        schema.validate().unwrap_err(),
        "Range type 'Task' not found for relation 'runs'"
    );

    let mut schema = OntologySchema::new(s("test"), s("1.0"));
    schema.add_entity_type(EntityType::new(s("Agent"), s("Agent")));
    schema.add_relation_type(
        RelationType::new(s("runs"), s("runs"), s("Agent"), s("Agent")).with_inverse(s("run_by")),
    );
    assert_eq!(
        schema.validate().unwrap_err(),
        "Inverse relation 'run_by' not found for relation 'runs'"
    );
    schema.add_relation_type(RelationType::new(s("run_by"), s("run by"), s("Agent"), s("Agent")));
    assert!(schema.validate().is_ok());
}

#[test]
fn inherited_properties_follow_the_type_s_own() {
    let mut schema = OntologySchema::new(s("test"), s("1.0"));
    schema.add_entity_type(
        EntityType::new(s("Agent"), s("Agent"))
            .with_property(PropertyDefinition::new(s("name"), PropertyType::String).required()),
    );
    schema.add_entity_type(
        EntityType::new(s("LLMAgent"), s("LLM"))
            .with_parent(s("Agent"))
            .with_property(PropertyDefinition::new(s("model"), PropertyType::String)),
    );
    let all = schema.entity_type("LLMAgent").unwrap().get_all_properties(&schema);
    let names: Vec<&str> = all.iter().map(|d| d.name.as_str()).collect();
    assert_eq!(names, vec!["model", "name"]);
}

#[test]
fn property_types_are_written_and_compared_by_structure() {
    let array = PropertyType::Array(Box::new(PropertyType::Reference(s("Agent"))));
    assert_eq!(array.describe(), "Array(Reference(\"Agent\"))");
    assert_eq!(array.clone(), array);
    assert!(array != PropertyType::Array(Box::new(PropertyType::Reference(s("Task")))));
    assert!(PropertyType::Embedding != PropertyType::Object);
    assert_eq!(PropertyType::DateTime.describe(), "DateTime");
    assert_eq!(Cardinality::OneOrMore.name(), "OneOrMore");
    assert!(Cardinality::ZeroOrOne.allows(0) && !Cardinality::ZeroOrOne.allows(2));
    assert!(Cardinality::One.allows(1) && !Cardinality::One.allows(0));
    assert!(Cardinality::Many.allows(7) && !Cardinality::OneOrMore.allows(0));
}

#[test]
fn builders_keep_what_they_do_not_set() {
    let def = PropertyDefinition::new(s("age"), PropertyType::Number)
        .with_description(s("years"))
        .required();
    assert_eq!(def.description, Some(s("years")));
    assert!(def.required && def.cardinality == Cardinality::One);
    let t = EntityType::new(s("Agent"), s("Agent")).with_constraint(Constraint::ValueRange {
        min: Number { ordinal: Some(0), text: s("0") },
        max: Number { ordinal: Some(10), text: s("10") },
    });
    assert_eq!(t.constraints.len(), 1);
    assert_eq!(t.metadata, "null");
    let r = RelationType::new(s("r"), s("r"), s("A"), s("B")).functional().reflexive();
    assert!(r.functional && r.reflexive && !r.symmetric && !r.transitive);
}

#[test]
fn an_identifier_that_stands_twice_is_a_fault() {
    let mut schema = OntologySchema::new(s("test"), s("1.0"));
    schema.add_entity_type(EntityType::new(s("A"), s("A")));
    schema.add_entity_type(EntityType::new(s("B"), s("B")).with_parent(s("A")));
    schema.add_entity_type(EntityType::new(s("A"), s("A again")));
    assert_eq!(schema.entity_types.len(), 2);
    assert_eq!(schema.check().is_ok(), true);

    schema.entity_types.push(EntityType::new(s("B"), s("B twice")).with_parent(s("Nobody")));
    assert!(matches!(
        schema.check(),
        Err(SchemaError::DuplicateEntityType { type_id }) if type_id == "B"
    ));
    assert_eq!(schema.validate().unwrap_err(), "Duplicate entity type: B");
    schema.entity_types.pop();

    schema.add_relation_type(RelationType::new(s("r"), s("R"), s("A"), s("B")));
    schema.add_relation_type(RelationType::new(s("q"), s("Q"), s("A"), s("B")));
    assert!(schema.check().is_ok());
    schema.relation_types.push(RelationType::new(s("r"), s("R"), s("A"), s("Nobody")));
    assert!(matches!(
        schema.check(),
        Err(SchemaError::DuplicateRelationType { relation }) if relation == "r"
    ));
    assert_eq!(schema.validate().unwrap_err(), "Duplicate relation type: r");
}

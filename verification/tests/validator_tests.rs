use vectadb::ontology::entity_type::{Cardinality, Constraint, EntityType, PropertyDefinition, PropertyType};
use vectadb::ontology::relation_type::RelationType;
use vectadb::ontology::schema::OntologySchema;
use vectadb::ontology::validator::{listed_text, OntologyValidator, ValidationError};
use vectadb::ontology::value::{Number, Property, PropertyValue};

fn s(text: &str) -> String {
    text.to_string()
}

fn text(name: &str, value: &str) -> Property {
    Property { name: s(name), value: PropertyValue::String(s(value)) }
}

fn number(name: &str, ordinal: i64, written: &str) -> Property {
    Property {
        name: s(name),
        value: PropertyValue::Number(Number { ordinal: Some(ordinal), text: s(written) }),
    }
}

fn agent_validator() -> OntologyValidator {
    let mut schema = OntologySchema::new("test".to_string(), "1.0".to_string());
    let agent = EntityType::new("Agent".to_string(), "Agent".to_string())
        .with_property(PropertyDefinition::new("name".to_string(), PropertyType::String).required());
    schema.add_entity_type(agent);
    OntologyValidator::new(schema)
}

#[test]
fn test_validate_entity_success() {
    let validator = agent_validator();
    let properties = vec![text("name", "Test Agent")];
    assert!(validator.validate_entity("Agent", &properties).is_ok());
}

#[test]
fn test_validate_entity_missing_required() {
    let validator = agent_validator();
    let properties = Vec::new();

    let result = validator.validate_entity("Agent", &properties);
    assert!(result.is_err());

    let errors = result.unwrap_err();
    assert_eq!(errors.len(), 1);
    assert!(matches!(errors[0], ValidationError::MissingRequiredProperty { .. }));
}

#[test]
fn required_property_rejection_names_the_property() {
    let validator = agent_validator();
    let errors = validator.validate_entity("Agent", &vec![text("id", "a")]).unwrap_err();
    assert_eq!(errors.len(), 1);
    match &errors[0] {
        ValidationError::MissingRequiredProperty { entity_type, property } => {
            assert_eq!(entity_type, "Agent");
            assert_eq!(property, "name");
        }
        other => panic!("unexpected error {:?}", other),
    }
    assert_eq!(
        errors[0].message(),
        "Missing required property 'name' for entity type 'Agent'"
    );
    assert_eq!(errors[0].kind_name(), "MissingRequiredProperty");
}

#[test]
fn test_validate_entity_type_mismatch() {
    let mut schema = OntologySchema::new("test".to_string(), "1.0".to_string());
    let agent = EntityType::new("Agent".to_string(), "Agent".to_string())
        .with_property(PropertyDefinition::new("age".to_string(), PropertyType::Number));
    schema.add_entity_type(agent);
    let validator = OntologyValidator::new(schema);

    let properties = vec![text("age", "not a number")];
    let result = validator.validate_entity("Agent", &properties);
    assert!(result.is_err());
    let errors = result.unwrap_err();
    assert_eq!(errors.len(), 1);
    assert_eq!(
        errors[0].message(),
        "Property 'age': expected type 'Number', found 'String'"
    );
}

fn executes_validator() -> OntologyValidator {
    let mut schema = OntologySchema::new("test".to_string(), "1.0".to_string());
    schema.add_entity_type(EntityType::new("Agent".to_string(), "Agent".to_string()));
    schema.add_entity_type(EntityType::new("Task".to_string(), "Task".to_string()));
    schema.add_relation_type(RelationType::new(
        "executes".to_string(),
        "executes".to_string(),
        "Agent".to_string(),
        "Task".to_string(),
    ));
    OntologyValidator::new(schema)
}

#[test]
fn test_validate_relation_success() {
    let validator = executes_validator();
    assert!(validator.validate_relation("executes", "Agent", "Task").is_ok());
}

#[test]
fn test_validate_relation_invalid() {
    let validator = executes_validator();
    let result = validator.validate_relation("executes", "Task", "Agent");
    assert!(result.is_err());
}

#[test]
fn relation_domain_mismatch_is_an_invalid_relation() {
    let validator = executes_validator();
    let error = validator.validate_relation("executes", "Task", "Agent").unwrap_err();
    assert!(matches!(error, ValidationError::InvalidRelation { .. }));
    assert_eq!(
        error.message(),
        "Invalid relation 'executes' from 'Task' to 'Agent': Expected domain 'Agent' and range 'Task', got source 'Task' and target 'Agent'"
    );
    let unknown = validator.validate_relation("owns", "Agent", "Task").unwrap_err();
    assert_eq!(unknown.message(), "Unknown relation type: owns");
    let stranger = validator.validate_relation("executes", "Robot", "Task").unwrap_err();
    assert_eq!(stranger.kind_name(), "InvalidRelation");
}

#[test]
fn a_symmetric_relation_is_still_checked_in_its_direction() {
    let mut schema = OntologySchema::new(s("test"), s("1.0"));
    schema.add_entity_type(EntityType::new(s("Agent"), s("Agent")));
    schema.add_entity_type(EntityType::new(s("Task"), s("Task")));
    schema.add_relation_type(
        RelationType::new(s("touches"), s("touches"), s("Agent"), s("Task")).symmetric(),
    );
    let validator = OntologyValidator::new(schema);
    assert!(validator.validate_relation("touches", "Agent", "Task").is_ok());
    assert!(validator.validate_relation("touches", "Task", "Agent").is_err());
}

#[test]
fn an_unknown_entity_type_is_the_only_error() {
    let validator = agent_validator();
    let errors = validator.validate_entity("Robot", &vec![]).unwrap_err();
    assert_eq!(errors.len(), 1);
    assert_eq!(errors[0].message(), "Unknown entity type: Robot");
}

#[test]
fn every_failure_is_reported_in_order() {
    let mut schema = OntologySchema::new(s("test"), s("1.0"));
    schema.add_entity_type(
        EntityType::new(s("Thing"), s("Thing"))
            .with_property(PropertyDefinition::new(s("name"), PropertyType::String).required()),
    );
    schema.add_entity_type(
        EntityType::new(s("Agent"), s("Agent"))
            .with_parent(s("Thing"))
            .with_property(
                PropertyDefinition::new(s("tags"), PropertyType::Array(Box::new(PropertyType::String)))
                    .with_cardinality(Cardinality::OneOrMore),
            )
            .with_property(PropertyDefinition::new(s("age"), PropertyType::Number))
            .with_constraint(Constraint::ValueRange {
                min: Number { ordinal: Some(0), text: s("0") },
                max: Number { ordinal: Some(150), text: s("150") },
            })
            .with_constraint(Constraint::Pattern(s("^a")))
            .with_constraint(Constraint::Enum(vec![s("x"), s("y")]))
            .with_constraint(Constraint::StringLength { min: Some(2), max: Some(3) })
            .with_constraint(Constraint::Custom(s("anything"))),
    );
    let validator = OntologyValidator::new(schema);
    let properties = vec![
        Property { name: s("tags"), value: PropertyValue::Array { len: 0, json: s("[]") } },
        number("age", 200, "200"),
        text("nick", "z"),
        Property { name: s("extra"), value: PropertyValue::Bool(true) },
    ];
    let errors = validator.validate_entity("Agent", &properties).unwrap_err();
    let messages: Vec<String> = errors.iter().map(|e| e.message()).collect();
    assert_eq!(
        messages,
        vec![
            s("Missing required property 'name' for entity type 'Agent'"),
            s("Property 'tags': expected OneOrMore, found 0 values"),
            s("Property 'age': constraint 'ValueRange(0, 150)' violated by value '200'"),
            s("Property 'nick': constraint 'Enum([\"x\", \"y\"])' violated by value 'z'"),
            s("Property 'nick': constraint 'StringLength(min: 2)' violated by value 'z'"),
        ]
    );
}

#[test]
fn cardinality_alone_asks_for_presence() {
    let mut schema = OntologySchema::new(s("test"), s("1.0"));
    schema.add_entity_type(
        EntityType::new(s("Agent"), s("Agent")).with_property(
            PropertyDefinition::new(s("tags"), PropertyType::String)
                .with_cardinality(Cardinality::OneOrMore),
        ),
    );
    let validator = OntologyValidator::new(schema);
    let errors = validator.validate_entity("Agent", &vec![]).unwrap_err();
    assert_eq!(errors.len(), 1);
    assert!(matches!(errors[0], ValidationError::MissingRequiredProperty { .. }));
}

#[test]
fn shapes_are_matched_against_the_declared_type() {
    let validator = agent_validator();
    let array = PropertyValue::Array { len: 2, json: s("[1,2]") };
    let object = PropertyValue::Object { json: s("{}") };
    let word = PropertyValue::String(s("w"));
    assert!(validator.validate_property_type("p", &word, &PropertyType::DateTime).is_ok());
    assert!(validator.validate_property_type("p", &word, &PropertyType::Reference(s("A"))).is_ok());
    assert!(validator.validate_property_type("p", &array, &PropertyType::Embedding).is_ok());
    assert!(validator.validate_property_type("p", &object, &PropertyType::Object).is_ok());
    assert!(validator.validate_property_type("p", &PropertyValue::Bool(true), &PropertyType::Boolean).is_ok());
    let error = validator
        .validate_property_type("p", &PropertyValue::Null, &PropertyType::Boolean)
        .unwrap_err();
    assert_eq!(error.message(), "Property 'p': expected type 'Boolean', found 'Null'");
    assert!(validator.validate_cardinality("p", &array, &Cardinality::One).is_err());
    assert!(validator.validate_cardinality("p", &array, &Cardinality::Many).is_ok());
    assert!(validator.validate_cardinality("p", &word, &Cardinality::One).is_ok());
    assert_eq!(
        validator.validate_cardinality("p", &array, &Cardinality::ZeroOrOne).unwrap_err().message(),
        "Property 'p': expected ZeroOrOne, found 2 values"
    );
}

#[test]
fn a_length_constraint_counts_bytes_and_reports_the_upper_bound() {
    let validator = agent_validator();
    let constraint = Constraint::StringLength { min: None, max: Some(3) };
    assert!(validator.validate_constraint(&constraint, &vec![text("a", "abc")]).is_ok());
    let error = validator.validate_constraint(&constraint, &vec![text("a", "\u{e9}\u{e9}")]).unwrap_err();
    assert_eq!(
        error.message(),
        "Property 'a': constraint 'StringLength(max: 3)' violated by value '\u{e9}\u{e9}'"
    );
    let range = Constraint::ValueRange {
        min: Number { ordinal: Some(1), text: s("1") },
        max: Number { ordinal: None, text: s("NaN") },
    };
    assert!(validator.validate_constraint(&range, &vec![number("n", 5, "5")]).is_ok());
    assert!(validator.validate_constraint(&range, &vec![number("n", 0, "0")]).is_err());
    assert!(validator.validate_constraint(&range, &vec![text("n", "0")]).is_ok());
    assert_eq!(validator.schema().namespace, "test");
}

#[test]
fn texts_in_messages_are_written_with_their_escapes() {
    let mut schema = OntologySchema::new(s("t"), s("1"));
    schema.add_entity_type(
        EntityType::new(s("Agent"), s("Agent"))
            .with_property(PropertyDefinition::new(s("nick"), PropertyType::String))
            .with_constraint(Constraint::Enum(vec![s("say \"hi\""), s("back\\slash"), s("tab\there")])),
    );
    let validator = OntologyValidator::new(schema);
    let errors = validator.validate_entity("Agent", &vec![text("nick", "z")]).unwrap_err();
    assert_eq!(
        errors[0].message(),
        "Property 'nick': constraint 'Enum([\"say \\\"hi\\\"\", \"back\\\\slash\", \"tab\\there\"])' violated by value 'z'"
    );
    assert_eq!(PropertyType::Reference(s("a\"b")).describe(), "Reference(\"a\\\"b\")");
    assert_eq!(
        PropertyType::Reference(s("a\"b")).describe(),
        format!("Reference({:?})", "a\"b")
    );
}

#[test]
fn admitted_texts_are_listed_between_brackets() {
    assert_eq!(listed_text(&vec![]), "Enum([])");
    assert_eq!(listed_text(&vec![s("\"x\"")]), "Enum([\"x\"])");
    assert_eq!(listed_text(&vec![s("a"), s("b"), s("c")]), "Enum([a, b, c])");
    assert_eq!(PropertyType::reference_text("\"Agent\""), "Reference(\"Agent\")");
}

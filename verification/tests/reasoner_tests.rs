use vectadb::error::VectaDBError;
use vectadb::intelligence::closure::{direct_neighbours, reachable_nodes, AdjacencyEntry};
use vectadb::intelligence::ontology_reasoner::{InferenceReason, OntologyReasoner};
use vectadb::ontology::entity_type::EntityType;
use vectadb::ontology::relation_type::RelationType;
use vectadb::ontology::schema::OntologySchema;

fn s(text: &str) -> String {
    text.to_string()
}

fn create_test_schema() -> OntologySchema {
    let mut schema = OntologySchema::new("test".to_string(), "1.0".to_string());

    schema.add_entity_type(EntityType::new("Agent".to_string(), "Agent".to_string()));
    schema.add_entity_type(
        EntityType::new("LLMAgent".to_string(), "LLM Agent".to_string())
            .with_parent("Agent".to_string()),
    );
    schema.add_entity_type(
        EntityType::new("HumanAgent".to_string(), "Human Agent".to_string())
            .with_parent("Agent".to_string()),
    );
    schema.add_entity_type(EntityType::new("Task".to_string(), "Task".to_string()));

    schema.add_relation_type(RelationType::new(
        "executes".to_string(),
        "executes".to_string(),
        "Agent".to_string(),
        "Task".to_string(),
    ));

    schema.add_relation_type(
        RelationType::new(
            "collaborates_with".to_string(),
            "collaborates with".to_string(),
            "Agent".to_string(),
            "Agent".to_string(),
        )
        .symmetric(),
    );

    schema.add_relation_type(
        RelationType::new(
            "has_subtask".to_string(),
            "has subtask".to_string(),
            "Task".to_string(),
            "Task".to_string(),
        )
        .transitive(),
    );

    schema
}

fn edges(list: &[(&str, &[&str])]) -> Vec<AdjacencyEntry> {
    list.iter()
        .map(|(node, targets)| AdjacencyEntry {
            node: node.to_string(),
            targets: targets.iter().map(|t| t.to_string()).collect(),
        })
        .collect()
}

#[test]
fn test_expand_query() {
    let schema = create_test_schema();
    let reasoner = OntologyReasoner::new(schema);

    let expanded = reasoner.expand_query("Agent").unwrap();

    assert_eq!(expanded.original_type, "Agent");
    assert_eq!(expanded.expanded_types.len(), 3);
    assert!(expanded.expanded_types.contains(&"Agent".to_string()));
    assert!(expanded.expanded_types.contains(&"LLMAgent".to_string()));
    assert!(expanded.expanded_types.contains(&"HumanAgent".to_string()));
    assert_eq!(
        expanded.metadata,
        vec![(s("expansion_count"), s("3")), (s("inference_count"), s("3"))]
    );
}

#[test]
fn test_expand_query_leaf_type() {
    let schema = create_test_schema();
    let reasoner = OntologyReasoner::new(schema);

    let expanded = reasoner.expand_query("LLMAgent").unwrap();

    assert_eq!(expanded.original_type, "LLMAgent");
    assert_eq!(expanded.expanded_types.len(), 1);
    assert!(expanded.expanded_types.contains(&"LLMAgent".to_string()));
}

#[test]
fn test_infer_relations() {
    let schema = create_test_schema();
    let reasoner = OntologyReasoner::new(schema);

    let inferred = reasoner.infer_relations("Agent");

    assert!(!inferred.is_empty());

    let has_executes =
        inferred.iter().any(|r| r.relation_type == "executes" && r.target_type == "Task");
    assert!(has_executes);

    let has_collab = inferred.iter().any(|r| r.relation_type == "collaborates_with");
    assert!(has_collab);
}

#[test]
fn test_symmetric_relation_inference() {
    let schema = create_test_schema();
    let reasoner = OntologyReasoner::new(schema);

    let inferred = reasoner.infer_relations("Agent");

    let symmetric_count =
        inferred.iter().filter(|r| r.reason == InferenceReason::Symmetric).count();
    assert!(symmetric_count > 0);
}

#[test]
fn a_symmetric_relation_is_inferred_forward_and_back() {
    let reasoner = OntologyReasoner::new(create_test_schema());
    let inferred = reasoner.infer_relations("LLMAgent");
    let shown: Vec<(String, String, String, InferenceReason)> = inferred
        .iter()
        .map(|r| (r.relation_type.clone(), r.source_type.clone(), r.target_type.clone(), r.reason))
        .collect();
    assert_eq!(
        shown,
        vec![
            (s("executes"), s("LLMAgent"), s("Task"), InferenceReason::SubtypeInheritance),
            (s("collaborates_with"), s("LLMAgent"), s("Agent"), InferenceReason::SubtypeInheritance),
            (s("collaborates_with"), s("Agent"), s("LLMAgent"), InferenceReason::Symmetric),
        ]
    );
    assert_eq!(InferenceReason::Inverse.name(), "Inverse");
}

#[test]
fn an_inverse_is_inferred_from_the_range_back() {
    let mut schema = create_test_schema();
    schema.add_relation_type(
        RelationType::new(s("owns"), s("owns"), s("Agent"), s("Task")).with_inverse(s("owned_by")),
    );
    let reasoner = OntologyReasoner::new(schema);
    let inferred = reasoner.infer_relations("Agent");
    let last = inferred.last().unwrap();
    assert_eq!(last.relation_type, "owned_by");
    assert_eq!(last.source_type, "Task");
    assert_eq!(last.target_type, "Agent");
    assert_eq!(last.reason, InferenceReason::Inverse);
    assert!(reasoner.infer_relations("Task").iter().all(|r| r.relation_type == "has_subtask"));
    assert!(reasoner.infer_relations("Nobody").is_empty());
}

#[test]
fn test_get_compatible_relations() {
    let schema = create_test_schema();
    let reasoner = OntologyReasoner::new(schema);

    let relations = reasoner.get_compatible_relations("Agent", "Task");
    assert!(relations.contains(&"executes".to_string()));

    let relations = reasoner.get_compatible_relations("LLMAgent", "Task");
    assert!(relations.contains(&"executes".to_string()));
    assert_eq!(relations, vec![s("executes")]);
    assert_eq!(reasoner.get_compatible_relations("Agent", "HumanAgent"), vec![s("collaborates_with")]);
    assert!(reasoner.get_compatible_relations("Task", "Agent").is_empty());
}

#[test]
fn test_transitive_closure() {
    let schema = create_test_schema();
    let reasoner = OntologyReasoner::new(schema);

    let task_graph = edges(&[("task_a", &["task_b"]), ("task_b", &["task_c"])]);

    let closure = reasoner.get_transitive_closure("has_subtask", "task_a", &task_graph);

    assert!(closure.contains(&"task_b".to_string()));
    assert!(closure.contains(&"task_c".to_string()));
    assert_eq!(closure.len(), 2);
}

#[test]
fn a_closure_holds_what_is_reachable_and_nothing_twice() {
    let reasoner = OntologyReasoner::new(create_test_schema());
    let graph = edges(&[
        ("a", &["b", "c"]),
        ("b", &["d", "a"]),
        ("c", &["d"]),
        ("d", &[]),
        ("x", &["y"]),
    ]);
    assert_eq!(
        reasoner.get_transitive_closure("has_subtask", "a", &graph),
        vec![s("b"), s("c"), s("d"), s("a")]
    );
    assert_eq!(reasoner.get_transitive_closure("has_subtask", "d", &graph), Vec::<String>::new());
    assert_eq!(reasoner.get_transitive_closure("has_subtask", "nowhere", &graph), Vec::<String>::new());
    assert_eq!(reasoner.get_transitive_closure("executes", "a", &graph), vec![s("b"), s("c")]);
    assert_eq!(reasoner.get_transitive_closure("unknown", "b", &graph), vec![s("d"), s("a")]);
    assert_eq!(reachable_nodes(&graph, "x"), vec![s("y")]);
    assert_eq!(direct_neighbours(&graph, "c"), vec![s("d")]);
    let looped = edges(&[("a", &["a"])]);
    assert_eq!(reachable_nodes(&looped, "a"), vec![s("a")]);
}

#[test]
fn test_expand_query_unknown_type() {
    let schema = create_test_schema();
    let reasoner = OntologyReasoner::new(schema);

    let result = reasoner.expand_query("UnknownType");
    assert!(result.is_err());
    assert_eq!(
        result.unwrap_err().message(),
        "Invalid input: Entity type 'UnknownType' not found in ontology"
    );
}

#[test]
fn test_update_schema() {
    let schema = create_test_schema();
    let mut reasoner = OntologyReasoner::new(schema);

    let mut new_schema = OntologySchema::new("test2".to_string(), "2.0".to_string());
    new_schema.add_entity_type(EntityType::new("NewType".to_string(), "New Type".to_string()));

    assert!(reasoner.update_schema(new_schema).is_ok());
    assert_eq!(reasoner.schema().version, "2.0");
}

#[test]
fn an_inconsistent_schema_does_not_replace_the_active_one() {
    let mut reasoner = OntologyReasoner::new(create_test_schema());
    let mut broken = OntologySchema::new(s("broken"), s("9"));
    broken.add_entity_type(EntityType::new(s("A"), s("A")).with_parent(s("Missing")));
    let error = reasoner.update_schema(broken).unwrap_err();
    assert!(matches!(error, VectaDBError::InvalidInput(_)));
    assert_eq!(
        error.message(),
        "Invalid input: Invalid ontology schema: Parent type 'Missing' not found for type 'A'"
    );
    assert_eq!(reasoner.schema().version, "1.0");
    assert!(reasoner.is_type_compatible("LLMAgent", "Agent"));
    assert!(reasoner.is_type_compatible("Stranger", "Stranger"));
    assert!(!reasoner.is_type_compatible("Agent", "LLMAgent"));
}

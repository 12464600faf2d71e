use vectadb::db::surrealdb_client::{record_id, tables, traverse_graph, CONTAINS_EDGE};
use vectadb::db::types::{clone_bits, clone_pairs, Entity, Relation};
use vectadb::ontology::value::{clone_properties, has_property, Number, Property, PropertyValue};
use vectadb::query::traversal::{TraversalAction, TraversalEvent, TraversalPhase};
use vectadb::text::{
    clone_list, clone_opt, concat2, decimal_text, join, list_contains, owned, push_unique,
    signed_decimal_text, str_eq,
};

fn s(text: &str) -> String {
    text.to_string()
}

#[test]
fn the_tables_and_their_records() {
    assert_eq!(
        tables(),
        vec![s("ontology_schema"), s("entity"), s("relation"), s("agent_trace"), s("agent_event")]
    );
    assert_eq!(record_id("agent_trace", "abc-1"), "agent_trace:`abc-1`");
    assert_eq!(CONTAINS_EDGE, "contains");
}

#[test]
fn a_traversal_of_depth_zero_asks_nothing() {
    let (state, action) = traverse_graph("a", "knows", 0);
    assert!(matches!(action, TraversalAction::Finish));
    assert_eq!(state.phase, TraversalPhase::Finished);
    assert!(state.found.is_empty());

    let (state, action) = traverse_graph("a", "knows", 1);
    assert!(matches!(&action, TraversalAction::ListRelations { entity_id, relation_type, incoming }
        if entity_id == "a" && relation_type.as_deref() == Some("knows") && !*incoming));
    let edge = Relation::with_id(s("r"), s("knows"), s("a"), s("b"), vec![], 0);
    let (state, action) = state.advance(TraversalEvent::Relations(vec![edge]));
    assert!(matches!(&action, TraversalAction::FetchEntity(id) if id == "b"));
    let (state, action) = state.advance(TraversalEvent::Fetched(Some(Entity::with_id(s("b"), s("T"), vec![], 0))));
    assert!(matches!(action, TraversalAction::Finish));
    assert_eq!(state.found.len(), 1);
    assert_eq!(state.visited, vec![s("a")]);
}

#[test]
fn entities_and_relations_are_copied_whole() {
    let entity = Entity::with_id(
        s("e"),
        s("Agent"),
        vec![Property { name: s("n"), value: PropertyValue::Array { len: 2, json: s("[1,2]") } }],
        9,
    )
    .with_embedding(vec![1, 2])
    .with_metadata(vec![(s("k"), s("v"))]);
    let copy = entity.clone();
    assert_eq!(copy.id, "e");
    assert_eq!(copy.properties.len(), 1);
    assert_eq!(copy.properties[0].value.count(), 2);
    assert_eq!(copy.properties[0].value.shape(), "Array");
    assert_eq!(copy.embedding, Some(vec![1, 2]));
    assert_eq!(copy.metadata, vec![(s("k"), s("v"))]);
    let later = entity.with_properties(vec![], 12);
    assert_eq!((later.created_at, later.updated_at), (9, 12));
    assert!(later.properties.is_empty());
    let relation = Relation::with_id(s("r"), s("knows"), s("a"), s("b"), vec![], 3);
    let twin = relation.clone();
    assert_eq!((twin.id.as_str(), twin.source_id.as_str(), twin.target_id.as_str(), twin.created_at), ("r", "a", "b", 3));
    assert_eq!(clone_bits(&vec![7, 8]), vec![7, 8]);
    assert_eq!(clone_pairs(&vec![(s("a"), s("b"))]), vec![(s("a"), s("b"))]);
}

#[test]
fn values_have_shapes_counts_and_an_order() {
    let n = |o: Option<i64>| Number { ordinal: o, text: s("x") };
    assert!(n(Some(1)).is_below(&n(Some(2))));
    assert!(!n(Some(2)).is_below(&n(Some(2))));
    assert!(!n(None).is_below(&n(Some(2))));
    assert!(!n(Some(1)).is_below(&n(None)));
    assert!(n(Some(0)).is_outside(&n(Some(1)), &n(Some(5))));
    assert!(n(Some(6)).is_outside(&n(Some(1)), &n(Some(5))));
    assert!(!n(Some(5)).is_outside(&n(Some(1)), &n(Some(5))));
    assert!(!n(Some(9)).is_outside(&n(None), &n(None)));
    assert_eq!(PropertyValue::Null.shape(), "Null");
    assert_eq!(PropertyValue::Bool(true).shape(), "Boolean");
    assert_eq!(PropertyValue::Number(n(None)).shape(), "Number");
    assert_eq!(PropertyValue::String(s("a")).shape(), "String");
    assert_eq!(PropertyValue::Object { json: s("{}") }.shape(), "Object");
    assert_eq!(PropertyValue::Object { json: s("{}") }.count(), 1);
    let properties = vec![Property { name: s("a"), value: PropertyValue::Null }];
    assert!(has_property(&properties, "a"));
    assert!(!has_property(&properties, "b"));
    assert_eq!(clone_properties(&properties).len(), 1);
}

#[test]
fn texts_are_joined_compared_and_written() {
    assert!(str_eq("abc", "abc"));
    assert!(!str_eq("abc", "abd"));
    assert!(!str_eq("", "a"));
    assert_eq!(owned("x"), "x");
    assert_eq!(concat2("ab", "cd"), "abcd");
    assert_eq!(join(&vec![], ", "), "");
    assert_eq!(join(&vec![s("a")], ", "), "a");
    assert_eq!(join(&vec![s("a"), s(""), s("c")], ", "), "a, , c");
    assert_eq!(decimal_text(0), "0");
    assert_eq!(decimal_text(9), "9");
    assert_eq!(decimal_text(10), "10");
    assert_eq!(decimal_text(u64::MAX), "18446744073709551615");
    assert_eq!(signed_decimal_text(-7), "-7");
    assert_eq!(signed_decimal_text(i64::MIN), "-9223372036854775808");
    assert_eq!(signed_decimal_text(i64::MAX), "9223372036854775807");
    let list = vec![s("a"), s("b")];
    assert!(list_contains(&list, "b"));
    assert!(!list_contains(&list, "c"));
    assert_eq!(clone_list(&list), list);
    assert_eq!(clone_opt(&Some(s("x"))), Some(s("x")));
    assert_eq!(clone_opt(&None), None);
    let mut unique = vec![s("a")];
    assert!(!push_unique(&mut unique, "a"));
    assert!(push_unique(&mut unique, "b"));
    assert_eq!(unique, list);
}

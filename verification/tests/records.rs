use std::collections::HashMap;

use lorekeeper::data::models::graph::{Conflict, Conversation, Entity, FromRow, Relationship};
use lorekeeper::data::record::{
    find_column, find_property, read_flag, read_node, read_optional_text, read_relation, read_text,
    read_texts, Column, DecodeError, Field, Node, Property, PropertyValue, Relation, Row,
};
use lorekeeper::infrastructure::errors::InfrastructureError;

fn text(key: &str, value: &str) -> Property {
    Property { key: key.to_string(), value: PropertyValue::Text(value.to_string()) }
}

fn texts(key: &str, values: &[&str]) -> Property {
    Property {
        key: key.to_string(),
        value: PropertyValue::TextList(values.iter().map(|s| s.to_string()).collect()),
    }
}

fn flag(key: &str, value: bool) -> Property {
    Property { key: key.to_string(), value: PropertyValue::Boolean(value) }
}

fn other(key: &str) -> Property {
    Property { key: key.to_string(), value: PropertyValue::Other }
}

fn node_row(alias: &str, properties: Vec<Property>) -> Row {
    Row { fields: vec![Field { name: alias.to_string(), column: Column::Node(Node { properties }) }] }
}

fn entity_props() -> Vec<Property> {
    vec![
        text("id", "e1"),
        text("name", "Ada"),
        texts("aliases", &["Countess", "Lady Lovelace"]),
        texts("kind", &["person"]),
        text("description", "mathematician"),
        text("properties", "{\"born\":1815}"),
    ]
}

fn deserialize_error(r: &Result<impl std::fmt::Debug, InfrastructureError>) -> Option<DecodeError> {
    match r {
        Err(InfrastructureError::MemgraphDeserialize(e)) => Some(*e),
        _ => None,
    }
}

#[test]
fn find_property_takes_the_first_match() {
    let props = vec![text("a", "1"), text("b", "2"), text("a", "3")];
    match find_property(&props, "a") {
        Some(PropertyValue::Text(s)) => assert_eq!(s, "1"),
        other => panic!("unexpected {:?}", other),
    }
    assert!(find_property(&props, "c").is_none());
}

#[test]
fn typed_reads_report_missing_and_mistyped_properties() {
    let props = vec![text("name", "Ada"), flag("done", true), texts("tags", &["x", "y"]), other("n")];
    assert_eq!(read_text(&props, "name"), Ok("Ada".to_string()));
    assert_eq!(read_text(&props, "done"), Err(DecodeError::InvalidType));
    assert_eq!(read_text(&props, "missing"), Err(DecodeError::NoSuchProperty));
    assert_eq!(read_flag(&props, "done"), Ok(true));
    assert_eq!(read_flag(&props, "name"), Err(DecodeError::InvalidType));
    assert_eq!(read_texts(&props, "tags"), Ok(vec!["x".to_string(), "y".to_string()]));
    assert_eq!(read_texts(&props, "n"), Err(DecodeError::InvalidType));
    assert_eq!(read_optional_text(&props, "name"), Some("Ada".to_string()));
    assert_eq!(read_optional_text(&props, "done"), None);
    assert_eq!(read_optional_text(&props, "missing"), None);
}

#[test]
fn columns_are_read_by_name_and_kind() {
    let row = Row {
        fields: vec![
            Field { name: "m".to_string(), column: Column::Node(Node { properties: vec![] }) },
            Field {
                name: "r".to_string(),
                column: Column::Relation(Relation { typ: "KNOWS".to_string(), properties: vec![] }),
            },
            Field { name: "x".to_string(), column: Column::Other },
        ],
    };
    assert!(find_column(&row, "m").is_some());
    assert!(find_column(&row, "z").is_none());
    assert!(read_node(&row, "m").is_ok());
    assert_eq!(read_node(&row, "r").err(), Some(DecodeError::InvalidType));
    assert_eq!(read_node(&row, "z").err(), Some(DecodeError::NoSuchProperty));
    assert_eq!(read_relation(&row, "r").map(|r| r.typ.clone()), Ok("KNOWS".to_string()));
    assert_eq!(read_relation(&row, "x").err(), Some(DecodeError::InvalidType));
}

#[test]
fn entity_decodes_every_field() {
    let row = node_row("e", entity_props());
    let e = Entity::from_row(&row, "e").unwrap();
    assert_eq!(e.id, "e1");
    assert_eq!(e.name, "Ada");
    assert_eq!(e.aliases, vec!["Countess".to_string(), "Lady Lovelace".to_string()]);
    assert_eq!(e.kind, vec!["person".to_string()]);
    assert_eq!(e.description, "mathematician");
    assert_eq!(e.properties.len(), 1);
    assert_eq!(e.properties.get("born"), Some(&serde_json::Value::from(1815)));
}

#[test]
fn entity_with_unparsable_properties_gets_an_empty_map() {
    let mut props = entity_props();
    props[5] = text("properties", "not json");
    let e = Entity::from_row(&node_row("e", props), "e").unwrap();
    assert!(e.properties.is_empty());
    let mut props = entity_props();
    props[5] = text("properties", "[1, 2]");
    let e = Entity::from_row(&node_row("e", props), "e").unwrap();
    assert!(e.properties.is_empty());
}

#[test]
fn entity_decoding_fails_at_the_first_bad_field() {
    let mut props = entity_props();
    props.remove(1);
    props[1] = text("aliases", "not a list");
    let r = Entity::from_row(&node_row("e", props), "e");
    assert_eq!(deserialize_error(&r), Some(DecodeError::NoSuchProperty));
    let mut props = entity_props();
    props[2] = text("aliases", "not a list");
    let r = Entity::from_row(&node_row("e", props), "e");
    assert_eq!(deserialize_error(&r), Some(DecodeError::InvalidType));
    let r = Entity::from_row(&node_row("e", entity_props()), "m");
    assert_eq!(deserialize_error(&r), Some(DecodeError::NoSuchProperty));
    let mut props = entity_props();
    props.pop();
    let r = Entity::from_row(&node_row("e", props), "e");
    assert_eq!(deserialize_error(&r), Some(DecodeError::NoSuchProperty));
}

#[test]
fn relationship_decodes_from_a_relation_column() {
    let props = vec![
        text("id", "r1"),
        text("from_id", "e1"),
        text("to_id", "e2"),
        text("description", "met"),
        text("properties", "{}"),
        text("source_conversation", "c1"),
    ];
    let row = Row {
        fields: vec![Field {
            name: "r".to_string(),
            column: Column::Relation(Relation { typ: "KNOWS".to_string(), properties: props }),
        }],
    };
    let r = Relationship::from_row(&row, "r").unwrap();
    assert_eq!(r.id, "r1");
    assert_eq!(r.from_id, "e1");
    assert_eq!(r.to_id, "e2");
    assert_eq!(r.rel_type, "KNOWS");
    assert_eq!(r.description, "met");
    assert!(r.properties.is_empty());
    assert_eq!(r.source_conversation, "c1");
    let as_node = node_row("r", vec![]);
    assert_eq!(deserialize_error(&Relationship::from_row(&as_node, "r")), Some(DecodeError::InvalidType));
}

#[test]
fn conversation_summary_is_optional() {
    let row = node_row("c", vec![text("id", "c1"), text("created_at", "2024-01-01"), text("summary", "hi")]);
    let c = Conversation::from_row(&row, "c").unwrap();
    assert_eq!(c.id, "c1");
    assert_eq!(c.created_at, "2024-01-01");
    assert_eq!(c.summary, Some("hi".to_string()));
    let row = node_row("c", vec![text("id", "c1"), text("created_at", "2024-01-01")]);
    assert_eq!(Conversation::from_row(&row, "c").unwrap().summary, None);
    let row = node_row("c", vec![text("id", "c1"), text("created_at", "t"), flag("summary", true)]);
    assert_eq!(Conversation::from_row(&row, "c").unwrap().summary, None);
    let row = node_row("c", vec![text("id", "c1")]);
    assert_eq!(deserialize_error(&Conversation::from_row(&row, "c")), Some(DecodeError::NoSuchProperty));
}

#[test]
fn conflict_values_parse_or_fall_back_to_null() {
    let row = node_row(
        "c",
        vec![
            text("id", "k1"),
            text("entity_id", "e1"),
            text("field", "name"),
            text("existing_value", "\"Ada\""),
            text("new_value", "oops"),
            text("source_conversation", "c1"),
            flag("resolved", false),
        ],
    );
    let c = Conflict::from_row(&row, "c").unwrap();
    assert_eq!(c.id, "k1");
    assert_eq!(c.entity_id, "e1");
    assert_eq!(c.field, "name");
    assert_eq!(c.existing_value, serde_json::Value::from("Ada"));
    assert_eq!(c.new_value, serde_json::Value::Null);
    assert_eq!(c.source_conversation, "c1");
    assert!(!c.resolved);
    let row = node_row(
        "c",
        vec![
            text("id", "k1"),
            text("entity_id", "e1"),
            text("field", "name"),
            text("existing_value", "1"),
            text("new_value", "2"),
            text("source_conversation", "c1"),
            text("resolved", "yes"),
        ],
    );
    assert_eq!(deserialize_error(&Conflict::from_row(&row, "c")), Some(DecodeError::InvalidType));
}

#[test]
fn entity_round_trips_through_its_creation_parameters() {
    let mut properties = HashMap::new();
    properties.insert("born".to_string(), serde_json::Value::from(1815));
    let entity = Entity {
        id: "e1".to_string(),
        name: "Ada".to_string(),
        aliases: vec!["Countess".to_string()],
        kind: vec!["person".to_string()],
        description: "mathematician".to_string(),
        properties,
    };
    let q = lorekeeper::data::repositories::query::create_entity_query(&entity);
    let stored: Vec<Property> =
        q.params.iter().map(|p| Property { key: p.key.clone(), value: p.value.clone() }).collect();
    let back = Entity::from_row(&node_row("e", stored), "e").unwrap();
    assert_eq!(back.id, entity.id);
    assert_eq!(back.name, entity.name);
    assert_eq!(back.aliases, entity.aliases);
    assert_eq!(back.kind, entity.kind);
    assert_eq!(back.description, entity.description);
    assert_eq!(back.properties, entity.properties);
}

#[test]
fn conversation_without_summary_reads_back_with_an_empty_one() {
    let conversation =
        Conversation { id: "c1".to_string(), created_at: "2024-01-01".to_string(), summary: None };
    let q = lorekeeper::data::repositories::query::create_conversation_query(&conversation);
    let stored: Vec<Property> =
        q.params.iter().map(|p| Property { key: p.key.clone(), value: p.value.clone() }).collect();
    let back = Conversation::from_row(&node_row("c", stored), "c").unwrap();
    assert_eq!(back.id, "c1");
    assert_eq!(back.created_at, "2024-01-01");
    assert_eq!(back.summary, Some(String::new()));
}

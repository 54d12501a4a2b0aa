use std::collections::HashMap;

use lorekeeper::data::models::graph::{Conflict, Conversation, Entity, Relationship};
use lorekeeper::data::record::PropertyValue;
use lorekeeper::data::repositories::query::{
    conflicts_by_entity_query, create_conflict_query, create_conversation_query,
    create_entity_query, create_relationship_query, delete_entity_query,
    entities_by_conversation_query, entity_neighbors_query, find_entity_query, get_entity_query,
    relationships_by_entity_query, update_conflict_query, update_conversation_query,
    update_entity_query, update_relationship_query, Query,
};

fn keys(q: &Query) -> Vec<&str> {
    q.params.iter().map(|p| p.key.as_str()).collect()
}

fn text_of<'a>(q: &'a Query, key: &str) -> &'a str {
    match &q.params.iter().find(|p| p.key == key).unwrap().value {
        PropertyValue::Text(s) => s.as_str(),
        other => panic!("not text: {:?}", other),
    }
}

fn entity() -> Entity {
    let mut properties = HashMap::new();
    properties.insert("born".to_string(), serde_json::Value::from(1815));
    Entity {
        id: "e1".to_string(),
        name: "Ada".to_string(),
        aliases: vec!["Countess".to_string()],
        kind: vec!["person".to_string(), "scientist".to_string()],
        description: "mathematician".to_string(),
        properties,
    }
}

fn relationship() -> Relationship {
    Relationship {
        id: "r1".to_string(),
        from_id: "e1".to_string(),
        to_id: "e2".to_string(),
        rel_type: "KNOWS".to_string(),
        description: "met in London".to_string(),
        properties: HashMap::new(),
        source_conversation: "c1".to_string(),
    }
}

#[test]
fn create_entity_query_writes_every_field() {
    let q = create_entity_query(&entity());
    assert_eq!(
        q.text,
        "CREATE (e:Entity {\n                   id: $id,\n                   name: $name,\n                   aliases: $aliases,\n                   kind: $kind,\n                   description: $description,\n                   properties: $properties\n               })"
    );
    assert_eq!(keys(&q), vec!["id", "name", "aliases", "kind", "description", "properties"]);
    assert_eq!(text_of(&q, "id"), "e1");
    assert_eq!(text_of(&q, "name"), "Ada");
    assert_eq!(text_of(&q, "description"), "mathematician");
    assert_eq!(text_of(&q, "properties"), "{\"born\":1815}");
    match &q.params[3].value {
        PropertyValue::TextList(v) => assert_eq!(v, &vec!["person".to_string(), "scientist".to_string()]),
        other => panic!("unexpected {:?}", other),
    }
}

#[test]
fn update_entity_query_matches_by_the_given_id() {
    let q = update_entity_query("other-id", &entity());
    assert!(q.text.starts_with("MATCH (e:Entity {id: $id})\n             SET e.name = $name,"));
    assert!(q.text.ends_with("RETURN e.id AS id"));
    assert_eq!(keys(&q), vec!["id", "name", "aliases", "kind", "description", "properties"]);
    assert_eq!(text_of(&q, "id"), "other-id");
}

#[test]
fn keyed_queries_pass_the_id_as_a_parameter() {
    let q = find_entity_query("x') DETACH DELETE n //");
    assert_eq!(q.text, "MATCH (e:Entity {id: $id}) RETURN e.id AS id");
    assert_eq!(text_of(&q, "id"), "x') DETACH DELETE n //");
    assert_eq!(delete_entity_query("e1").text, "MATCH (e:Entity {id: $id}) DETACH DELETE e");
    assert_eq!(get_entity_query("e1").text, "MATCH (e: Entity {id: $id}) RETURN e");
    let q = conflicts_by_entity_query("e1");
    assert_eq!(keys(&q), vec!["entity_id"]);
    assert_eq!(
        q.text,
        "MATCH (e:Entity {id: $entity_id})-[:HAS_CONFLICT]->(c:Conflict)\n                 RETURN c"
    );
    assert_eq!(
        relationships_by_entity_query("e1").text,
        "MATCH (e:Entity {id: $entity_id})-[r]-()\n                 RETURN r"
    );
    let q = entities_by_conversation_query("c1");
    assert_eq!(keys(&q), vec!["conversation_id"]);
    assert_eq!(text_of(&q, "conversation_id"), "c1");
}

#[test]
fn neighbors_query_without_filters() {
    let q = entity_neighbors_query("e1", None, None);
    assert_eq!(q.text, "MATCH (e:Entity {id: $id})-[r]-(m:Entity)\n         \n         RETURN r, m");
    assert_eq!(keys(&q), vec!["id"]);
}

#[test]
fn neighbors_query_with_type_and_kind() {
    let q = entity_neighbors_query("e1", Some("KNOWS"), Some("person"));
    assert_eq!(
        q.text,
        "MATCH (e:Entity {id: $id})-[r:KNOWS]-(m:Entity)\n         WHERE $kind IN m.kind\n         RETURN r, m"
    );
    assert_eq!(keys(&q), vec!["id", "kind"]);
    assert_eq!(text_of(&q, "kind"), "person");
    let q = entity_neighbors_query("e1", None, Some("person"));
    assert_eq!(
        q.text,
        "MATCH (e:Entity {id: $id})-[r]-(m:Entity)\n         WHERE $kind IN m.kind\n         RETURN r, m"
    );
    let q = entity_neighbors_query("e1", Some("KNOWS"), None);
    assert_eq!(q.text, "MATCH (e:Entity {id: $id})-[r:KNOWS]-(m:Entity)\n         \n         RETURN r, m");
}

#[test]
fn create_relationship_query_splices_the_type() {
    let q = create_relationship_query(&relationship());
    assert_eq!(
        q.text,
        "MATCH (a:Entity {id: $from_id}), (b:Entity {id: $to_id})\n         CREATE (a)-[r:KNOWS {\n             id: $id,\n             from_id: $from_id,\n             to_id: $to_id,\n             description: $description,\n             properties: $properties,\n             source_conversation: $source_conversation\n         }]->(b)"
    );
    assert_eq!(
        keys(&q),
        vec!["id", "from_id", "to_id", "description", "properties", "source_conversation"]
    );
    assert_eq!(text_of(&q, "properties"), "{}");
}

#[test]
fn update_relationship_query_sets_description_and_properties() {
    let q = update_relationship_query("r9", &relationship());
    assert_eq!(
        q.text,
        "MATCH ()-[r {id: $id}]-()\n             SET r.description = $description,\n                 r.properties = $properties\n             RETURN r.id AS id"
    );
    assert_eq!(keys(&q), vec!["id", "description", "properties"]);
    assert_eq!(text_of(&q, "id"), "r9");
    assert_eq!(text_of(&q, "description"), "met in London");
}

#[test]
fn conversation_queries_store_a_missing_summary_as_empty_text() {
    let c = Conversation { id: "c1".to_string(), created_at: "now".to_string(), summary: None };
    let q = create_conversation_query(&c);
    assert_eq!(keys(&q), vec!["id", "created_at", "summary"]);
    assert_eq!(text_of(&q, "summary"), "");
    let c = Conversation { summary: Some("talk".to_string()), ..c };
    let q = update_conversation_query("c2", &c);
    assert_eq!(keys(&q), vec!["id", "summary"]);
    assert_eq!(text_of(&q, "id"), "c2");
    assert_eq!(text_of(&q, "summary"), "talk");
}

#[test]
fn conflict_queries_encode_values_and_flag() {
    let c = Conflict {
        id: "k1".to_string(),
        entity_id: "e1".to_string(),
        field: "name".to_string(),
        existing_value: serde_json::Value::from("Ada"),
        new_value: serde_json::Value::from(vec![1, 2]),
        source_conversation: "c1".to_string(),
        resolved: true,
    };
    let q = create_conflict_query(&c);
    assert_eq!(
        keys(&q),
        vec!["id", "entity_id", "field", "existing_value", "new_value", "source_conversation", "resolved"]
    );
    assert_eq!(text_of(&q, "existing_value"), "\"Ada\"");
    assert_eq!(text_of(&q, "new_value"), "[1,2]");
    assert!(matches!(q.params[6].value, PropertyValue::Boolean(true)));
    let q = update_conflict_query("k2", &c);
    assert_eq!(
        q.text,
        "MATCH (c:Conflict {id: $id})\n                 SET c.resolved = $resolved\n                 RETURN c.id AS id"
    );
    assert_eq!(keys(&q), vec!["id", "resolved"]);
}

#[test]
fn conflict_values_are_stored_as_their_printed_text() {
    let mut obj = serde_json::Map::new();
    obj.insert("b".to_string(), serde_json::Value::from(2));
    obj.insert("a".to_string(), serde_json::Value::from(true));
    let c = Conflict {
        id: "k1".to_string(),
        entity_id: "e1".to_string(),
        field: "f".to_string(),
        existing_value: serde_json::Value::Object(obj.clone()),
        new_value: serde_json::Value::Null,
        source_conversation: "c1".to_string(),
        resolved: false,
    };
    let q = create_conflict_query(&c);
    assert_eq!(text_of(&q, "existing_value"), serde_json::to_string(&serde_json::Value::Object(obj)).unwrap());
    assert_eq!(text_of(&q, "new_value"), "null");
}

#[test]
fn properties_are_stored_as_their_object_text() {
    let mut e = entity();
    e.properties.insert("alive".to_string(), serde_json::Value::from(false));
    let q = create_entity_query(&e);
    let stored = text_of(&q, "properties");
    assert!(
        stored == "{\"born\":1815,\"alive\":false}" || stored == "{\"alive\":false,\"born\":1815}",
        "unexpected {}",
        stored
    );
    let mut r = relationship();
    r.properties.insert("since".to_string(), serde_json::Value::from("1833"));
    assert_eq!(text_of(&update_relationship_query("r1", &r), "properties"), "{\"since\":\"1833\"}");
}

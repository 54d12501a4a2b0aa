use lorekeeper::data::models::graph::{Conversation, Entity};
use lorekeeper::data::record::{Column, DecodeError, Field, Node, Property, PropertyValue, Relation, Row};
use lorekeeper::data::repositories::graph::{
    Delete, Event, FetchAll, FetchOne, Neighbors, Phase, Probe, Step, Write,
};
use lorekeeper::data::repositories::query::{
    delete_entity_query, entity_neighbors_query, find_entity_query, get_conversation_query,
    relationships_by_entity_query, Query,
};
use lorekeeper::infrastructure::errors::InfrastructureError;

fn text(key: &str, value: &str) -> Property {
    Property { key: key.to_string(), value: PropertyValue::Text(value.to_string()) }
}

fn conversation_row(id: &str) -> Row {
    Row {
        fields: vec![Field {
            name: "c".to_string(),
            column: Column::Node(Node { properties: vec![text("id", id), text("created_at", "t")] }),
        }],
    }
}

fn query_text<O>(step: &Step<O>) -> Option<&str> {
    match step {
        Step::Execute(q) | Step::Run(q) => Some(q.text.as_str()),
        _ => None,
    }
}

fn plain(text: &str) -> Query {
    Query { text: text.to_string(), params: vec![] }
}

#[test]
fn write_is_done_once_accepted() {
    let (mut op, step) = Write::start(plain("CREATE (n)"));
    assert!(matches!(step, Step::Run(_)));
    assert_eq!(op.phase, Phase::Sending);
    assert!(matches!(op.on(Event::Accepted), Step::Done(Ok(()))));
    assert_eq!(op.phase, Phase::Over);
}

#[test]
fn probe_reports_whether_a_row_came_back() {
    let (mut op, step) = Probe::start(plain("MATCH"));
    assert!(matches!(step, Step::Execute(_)));
    assert!(matches!(op.on(Event::Accepted), Step::Pull));
    assert!(matches!(op.on(Event::Row(conversation_row("c1"))), Step::Done(Ok(true))));
    let (mut op, _) = Probe::start(plain("MATCH"));
    op.on(Event::Accepted);
    assert!(matches!(op.on(Event::End), Step::Done(Ok(false))));
}

#[test]
fn delete_removes_only_what_it_found() {
    let (mut op, step) = Delete::start(find_entity_query("e1"), delete_entity_query("e1"));
    assert_eq!(query_text(&step), Some("MATCH (e:Entity {id: $id}) RETURN e.id AS id"));
    assert!(matches!(op.on(Event::Accepted), Step::Pull));
    let step = op.on(Event::Row(conversation_row("e1")));
    assert!(matches!(step, Step::Run(_)));
    assert_eq!(query_text(&step), Some("MATCH (e:Entity {id: $id}) DETACH DELETE e"));
    assert!(matches!(op.on(Event::Accepted), Step::Done(Ok(true))));

    let (mut op, _) = Delete::start(find_entity_query("e1"), delete_entity_query("e1"));
    op.on(Event::Accepted);
    assert!(matches!(op.on(Event::End), Step::Done(Ok(false))));
    assert_eq!(op.phase, Phase::Over);
}

#[test]
fn fetch_one_decodes_the_first_row_or_none() {
    let (mut op, step) = FetchOne::<Conversation>::start(get_conversation_query("c1"), "c");
    assert_eq!(query_text(&step), Some("MATCH (c:Conversation {id: $id}) RETURN c"));
    assert!(matches!(op.on(Event::Accepted), Step::Pull));
    match op.on(Event::Row(conversation_row("c1"))) {
        Step::Done(Ok(Some(c))) => assert_eq!(c.id, "c1"),
        other => panic!("unexpected {:?}", other),
    }
    let (mut op, _) = FetchOne::<Conversation>::start(get_conversation_query("c1"), "c");
    op.on(Event::Accepted);
    assert!(matches!(op.on(Event::End), Step::Done(Ok(None))));
    let (mut op, _) = FetchOne::<Entity>::start(get_conversation_query("c1"), "e");
    op.on(Event::Accepted);
    assert!(matches!(
        op.on(Event::Row(conversation_row("c1"))),
        Step::Done(Err(InfrastructureError::MemgraphDeserialize(DecodeError::NoSuchProperty)))
    ));
}

#[test]
fn fetch_all_keeps_rows_in_order() {
    let (mut op, _) = FetchAll::<Conversation>::start(plain("MATCH"), "c");
    assert!(matches!(op.on(Event::Accepted), Step::Pull));
    assert!(matches!(op.on(Event::Row(conversation_row("a"))), Step::Pull));
    assert!(matches!(op.on(Event::Row(conversation_row("b"))), Step::Pull));
    match op.on(Event::End) {
        Step::Done(Ok(v)) => {
            let ids: Vec<&str> = v.iter().map(|c| c.id.as_str()).collect();
            assert_eq!(ids, vec!["a", "b"]);
        },
        other => panic!("unexpected {:?}", other),
    }
}

#[test]
fn fetch_all_stops_at_the_first_undecodable_row() {
    let (mut op, _) = FetchAll::<Conversation>::start(plain("MATCH"), "c");
    op.on(Event::Accepted);
    assert!(matches!(op.on(Event::Row(conversation_row("a"))), Step::Pull));
    let bad = Row { fields: vec![Field { name: "c".to_string(), column: Column::Other }] };
    assert!(matches!(
        op.on(Event::Row(bad)),
        Step::Done(Err(InfrastructureError::MemgraphDeserialize(DecodeError::InvalidType)))
    ));
    assert_eq!(op.phase, Phase::Over);
}

#[test]
fn fetch_all_of_nothing_is_empty() {
    let (mut op, step) = FetchAll::<Conversation>::start(relationships_by_entity_query("e1"), "r");
    assert!(matches!(step, Step::Execute(_)));
    op.on(Event::Accepted);
    assert!(matches!(op.on(Event::End), Step::Done(Ok(v)) if v.is_empty()));
}

fn neighbor_row(entity_id: &str, with_relation: bool) -> Row {
    let entity = Node {
        properties: vec![
            text("id", entity_id),
            text("name", "n"),
            Property { key: "aliases".to_string(), value: PropertyValue::TextList(vec![]) },
            Property { key: "kind".to_string(), value: PropertyValue::TextList(vec![]) },
            text("description", "d"),
            text("properties", "{}"),
        ],
    };
    let relation = Relation {
        typ: "KNOWS".to_string(),
        properties: vec![
            text("id", "r"),
            text("from_id", "e0"),
            text("to_id", entity_id),
            text("description", "d"),
            text("properties", "{}"),
            text("source_conversation", "c"),
        ],
    };
    let mut fields = vec![Field { name: "m".to_string(), column: Column::Node(entity) }];
    if with_relation {
        fields.push(Field { name: "r".to_string(), column: Column::Relation(relation) });
    }
    Row { fields }
}

#[test]
fn neighbors_pairs_each_entity_with_its_relation() {
    let (mut op, step) = Neighbors::start(entity_neighbors_query("e0", None, None));
    assert!(matches!(step, Step::Execute(_)));
    op.on(Event::Accepted);
    assert!(matches!(op.on(Event::Row(neighbor_row("e1", true))), Step::Pull));
    match op.on(Event::End) {
        Step::Done(Ok(v)) => {
            assert_eq!(v.len(), 1);
            assert_eq!(v[0].0.id, "e1");
            assert_eq!(v[0].1.rel_type, "KNOWS");
            assert_eq!(v[0].1.to_id, "e1");
        },
        other => panic!("unexpected {:?}", other),
    }
    let (mut op, _) = Neighbors::start(entity_neighbors_query("e0", None, None));
    op.on(Event::Accepted);
    assert!(matches!(
        op.on(Event::Row(neighbor_row("e1", false))),
        Step::Done(Err(InfrastructureError::MemgraphDeserialize(DecodeError::NoSuchProperty)))
    ));
}

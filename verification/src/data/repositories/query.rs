//! The Cypher queries the graph repository sends: their text and their
//! parameters.

use std::collections::HashMap;

use vstd::prelude::*;
use vstd::string::*;

use crate::data::json::{encode_properties, encode_value, json_text_of, properties_encoded};
use crate::data::models::graph::{Conflict, Conversation, Entity, Relationship};
use crate::data::record::{PropertyValue, ValueView};

verus! {

pub const CREATE_ENTITY: &'static str = "CREATE (e:Entity {\n                   id: $id,\n                   name: $name,\n                   aliases: $aliases,\n                   kind: $kind,\n                   description: $description,\n                   properties: $properties\n               })";
pub const UPDATE_ENTITY: &'static str = "MATCH (e:Entity {id: $id})\n             SET e.name = $name,\n                 e.aliases = $aliases,\n                 e.kind = $kind,\n                 e.description = $description,\n                 e.properties = $properties\n             RETURN e.id AS id";
pub const FIND_ENTITY: &'static str = "MATCH (e:Entity {id: $id}) RETURN e.id AS id";
pub const DELETE_ENTITY: &'static str = "MATCH (e:Entity {id: $id}) DETACH DELETE e";
pub const GET_ENTITY: &'static str = "MATCH (e: Entity {id: $id}) RETURN e";
pub const NEIGHBORS_HEAD: &'static str = "MATCH (e:Entity {id: $id})-[r";
pub const NEIGHBORS_MIDDLE: &'static str = "]-(m:Entity)\n         ";
pub const NEIGHBORS_TAIL: &'static str = "\n         RETURN r, m";
pub const KIND_FILTER: &'static str = "WHERE $kind IN m.kind";
pub const CREATE_RELATIONSHIP_HEAD: &'static str = "MATCH (a:Entity {id: $from_id}), (b:Entity {id: $to_id})\n         CREATE (a)-[r:";
pub const CREATE_RELATIONSHIP_TAIL: &'static str = " {\n             id: $id,\n             from_id: $from_id,\n             to_id: $to_id,\n             description: $description,\n             properties: $properties,\n             source_conversation: $source_conversation\n         }]->(b)";
pub const UPDATE_RELATIONSHIP: &'static str = "MATCH ()-[r {id: $id}]-()\n             SET r.description = $description,\n                 r.properties = $properties\n             RETURN r.id AS id";
pub const FIND_RELATIONSHIP: &'static str = "MATCH ()-[r {id: $id}]-() RETURN r.id AS id";
pub const DELETE_RELATIONSHIP: &'static str = "MATCH ()-[r {id: $id}]-() DELETE r";
pub const CREATE_CONVERSATION: &'static str = "CREATE (c:Conversation {\n                    id: $id,\n                    created_at: $created_at,\n                    summary: $summary\n                })";
pub const UPDATE_CONVERSATION: &'static str = "MATCH (c:Conversation {id: $id})\n                 SET c.summary = $summary\n                 RETURN c.id AS id";
pub const FIND_CONVERSATION: &'static str = "MATCH (c:Conversation {id: $id}) RETURN c.id AS id";
pub const DELETE_CONVERSATION: &'static str = "MATCH (c:Conversation {id: $id}) DETACH DELETE c";
pub const GET_CONVERSATION: &'static str = "MATCH (c:Conversation {id: $id}) RETURN c";
pub const CREATE_CONFLICT: &'static str = "MATCH (e:Entity {id: $entity_id})\n                 CREATE (e)-[:HAS_CONFLICT]->(c:Conflict {\n                     id: $id,\n                     entity_id: $entity_id,\n                     field: $field,\n                     existing_value: $existing_value,\n                     new_value: $new_value,\n                     source_conversation: $source_conversation,\n                     resolved: $resolved\n                 })";
pub const UPDATE_CONFLICT: &'static str = "MATCH (c:Conflict {id: $id})\n                 SET c.resolved = $resolved\n                 RETURN c.id AS id";
pub const GET_CONFLICT: &'static str = "MATCH (c:Conflict {id: $id}) RETURN c";
pub const CONFLICTS_BY_ENTITY: &'static str = "MATCH (e:Entity {id: $entity_id})-[:HAS_CONFLICT]->(c:Conflict)\n                 RETURN c";
pub const RELATIONSHIPS_BY_ENTITY: &'static str = "MATCH (e:Entity {id: $entity_id})-[r]-()\n                 RETURN r";
pub const ENTITIES_BY_CONVERSATION: &'static str = "MATCH (e:Entity)-[r]-()\n                 WHERE r.source_conversation = $conversation_id\n                 RETURN DISTINCT e";

/// One named parameter of a query.
#[derive(Clone, Debug)]
pub struct Param {
    pub key: String,
    pub value: PropertyValue,
}

/// A Cypher query: its text and its named parameters, in the order they were given.
#[derive(Clone, Debug)]
pub struct Query {
    pub text: String,
    pub params: Vec<Param>,
}

/// The abstract form of a query.
pub struct QueryView {
    pub text: Seq<char>,
    pub params: Seq<(Seq<char>, ValueView)>,
}

impl View for Param {
    type V = (Seq<char>, ValueView);

    open spec fn view(&self) -> (Seq<char>, ValueView) {
        (self.key@, self.value@)
    }
}

impl View for Query {
    type V = QueryView;

    open spec fn view(&self) -> QueryView {
        QueryView { text: self.text@, params: self.params@.map_values(|p: Param| p@) }
    }
}

/// A parameter holding the JSON text a property map is stored as.
pub open spec fn json_object_param(v: ValueView, m: HashMap<String, serde_json::Value>) -> bool {
    v matches ValueView::Text(t) && properties_encoded(t, m)
}

fn text_param(key: &str, value: String) -> (r: Param)
    ensures
        r@ == (key@, ValueView::Text(value@)),
{
    Param { key: key.to_owned(), value: PropertyValue::Text(value) }
}

fn str_param(key: &str, value: &str) -> (r: Param)
    ensures
        r@ == (key@, ValueView::Text(value@)),
{
    Param { key: key.to_owned(), value: PropertyValue::Text(value.to_owned()) }
}

fn texts_param(key: &str, value: &Vec<String>) -> (r: Param)
    ensures
        r@ == (key@, ValueView::TextList(value.deep_view())),
{
    Param { key: key.to_owned(), value: PropertyValue::TextList(crate::data::record::copy_texts(value)) }
}

fn flag_param(key: &str, value: bool) -> (r: Param)
    ensures
        r@ == (key@, ValueView::Boolean(value)),
{
    Param { key: key.to_owned(), value: PropertyValue::Boolean(value) }
}

fn make_query(text: &str, params: Vec<Param>) -> (r: Query)
    ensures
        r@ == (QueryView { text: text@, params: params@.map_values(|p: Param| p@) }),
{
    Query { text: text.to_owned(), params }
}

/// A query with the single text parameter `key`.
pub open spec fn keyed(text: Seq<char>, key: Seq<char>, value: Seq<char>) -> QueryView {
    QueryView { text, params: seq![(key, ValueView::Text(value))] }
}

/// A query with the single text parameter `key`.
fn keyed_query(text: &str, key: &str, value: &str) -> (r: Query)
    ensures
        r@ == keyed(text@, key@, value@),
{
    let params = vec![str_param(key, value)];
    let r = make_query(text, params);
    assert(r@.params =~= seq![(key@, ValueView::Text(value@))]);
    r
}

/// The query that creates the node of `entity`.
pub open spec fn creates_entity(q: QueryView, entity: Entity) -> bool {
    &&& q.text == CREATE_ENTITY@
    &&& q.params == seq![
        ("id"@, ValueView::Text(entity.id@)),
        ("name"@, ValueView::Text(entity.name@)),
        ("aliases"@, ValueView::TextList(entity.aliases.deep_view())),
        ("kind"@, ValueView::TextList(entity.kind.deep_view())),
        ("description"@, ValueView::Text(entity.description@)),
        ("properties"@, q.params[5].1),
    ]
    &&& json_object_param(q.params[5].1, entity.properties)
}

/// Creates an entity node with all its fields.
pub fn create_entity_query(entity: &Entity) -> (r: Query)
    ensures
        creates_entity(r@, *entity),
{
    let params = vec![
        text_param("id", entity.id.clone()),
        text_param("name", entity.name.clone()),
        texts_param("aliases", &entity.aliases),
        texts_param("kind", &entity.kind),
        text_param("description", entity.description.clone()),
        text_param("properties", encode_properties(&entity.properties)),
    ];
    let r = make_query(CREATE_ENTITY, params);
    assert(r@.params =~= seq![
        ("id"@, ValueView::Text(entity.id@)),
        ("name"@, ValueView::Text(entity.name@)),
        ("aliases"@, ValueView::TextList(entity.aliases.deep_view())),
        ("kind"@, ValueView::TextList(entity.kind.deep_view())),
        ("description"@, ValueView::Text(entity.description@)),
        ("properties"@, r@.params[5].1),
    ]);
    r
}

/// The query that sets the fields of the entity `id` to those of `entity`.
pub open spec fn updates_entity(q: QueryView, id: Seq<char>, entity: Entity) -> bool {
    &&& q.text == UPDATE_ENTITY@
    &&& q.params == seq![
        ("id"@, ValueView::Text(id)),
        ("name"@, ValueView::Text(entity.name@)),
        ("aliases"@, ValueView::TextList(entity.aliases.deep_view())),
        ("kind"@, ValueView::TextList(entity.kind.deep_view())),
        ("description"@, ValueView::Text(entity.description@)),
        ("properties"@, q.params[5].1),
    ]
    &&& json_object_param(q.params[5].1, entity.properties)
}

/// Sets the fields of the entity `id`, answering its id if it exists.
pub fn update_entity_query(id: &str, entity: &Entity) -> (r: Query)
    ensures
        updates_entity(r@, id@, *entity),
{
    let params = vec![
        str_param("id", id),
        text_param("name", entity.name.clone()),
        texts_param("aliases", &entity.aliases),
        texts_param("kind", &entity.kind),
        text_param("description", entity.description.clone()),
        text_param("properties", encode_properties(&entity.properties)),
    ];
    let r = make_query(UPDATE_ENTITY, params);
    assert(r@.params =~= seq![
        ("id"@, ValueView::Text(id@)),
        ("name"@, ValueView::Text(entity.name@)),
        ("aliases"@, ValueView::TextList(entity.aliases.deep_view())),
        ("kind"@, ValueView::TextList(entity.kind.deep_view())),
        ("description"@, ValueView::Text(entity.description@)),
        ("properties"@, r@.params[5].1),
    ]);
    r
}

/// Answers the id of the entity `id`, if it exists.
pub fn find_entity_query(id: &str) -> (r: Query)
    ensures
        r@ == keyed(FIND_ENTITY@, "id"@, id@),
{
    keyed_query(FIND_ENTITY, "id", id)
}

/// Deletes the entity `id` together with its relations.
pub fn delete_entity_query(id: &str) -> (r: Query)
    ensures
        r@ == keyed(DELETE_ENTITY@, "id"@, id@),
{
    keyed_query(DELETE_ENTITY, "id", id)
}

/// Answers the entity `id` in column `e`.
pub fn get_entity_query(id: &str) -> (r: Query)
    ensures
        r@ == keyed(GET_ENTITY@, "id"@, id@),
{
    keyed_query(GET_ENTITY, "id", id)
}

/// The text of the neighbours query: the relation pattern names the type
/// `rel_type` when one is given, and a filter on the neighbour's kinds is
/// added when a kind is given.
pub open spec fn neighbors_text(rel_type: Option<Seq<char>>, kind_filtered: bool) -> Seq<char> {
    NEIGHBORS_HEAD@ + match rel_type {
        Some(t) => ":"@ + t,
        None => Seq::<char>::empty(),
    } + NEIGHBORS_MIDDLE@ + (if kind_filtered {
        KIND_FILTER@
    } else {
        Seq::<char>::empty()
    }) + NEIGHBORS_TAIL@
}

/// An optional text argument, by its view.
pub open spec fn opt_view(o: Option<&str>) -> Option<Seq<char>> {
    match o {
        Some(s) => Some(s@),
        None => None,
    }
}

/// The query that answers the neighbours of the entity `id`: the neighbour in
/// column `m`, the relation in column `r`; the kind, when one is given, is a
/// parameter of its own.
pub open spec fn neighbors_of(
    q: QueryView,
    id: Seq<char>,
    rel_type: Option<Seq<char>>,
    kind: Option<Seq<char>>,
) -> bool {
    &&& q.text == neighbors_text(rel_type, kind is Some)
    &&& q.params == match kind {
        Some(k) => seq![("id"@, ValueView::Text(id)), ("kind"@, ValueView::Text(k))],
        None => seq![("id"@, ValueView::Text(id))],
    }
}

/// Answers each neighbour of the entity `id` in column `m` and the relation
/// that links them in column `r`, optionally restricted to relations of type
/// `rel_type` and to neighbours of kind `kind`.
pub fn entity_neighbors_query(id: &str, rel_type: Option<&str>, kind: Option<&str>) -> (r: Query)
    ensures
        neighbors_of(r@, id@, opt_view(rel_type), opt_view(kind)),
        r@.text == NEIGHBORS_HEAD@ + match rel_type {
            Some(t) => ":"@ + t@,
            None => Seq::<char>::empty(),
        } + NEIGHBORS_MIDDLE@ + (if kind is Some {
            KIND_FILTER@
        } else {
            Seq::<char>::empty()
        }) + NEIGHBORS_TAIL@,
        r@.params == match kind {
            Some(k) => seq![("id"@, ValueView::Text(id@)), ("kind"@, ValueView::Text(k@))],
            None => seq![("id"@, ValueView::Text(id@))],
        },
{
    let mut text = NEIGHBORS_HEAD.to_owned();
    match rel_type {
        Some(t) => {
            text.append(":");
            text.append(t);
        },
        None => {},
    }
    text.append(NEIGHBORS_MIDDLE);
    if kind.is_some() {
        text.append(KIND_FILTER);
    }
    text.append(NEIGHBORS_TAIL);
    let mut params = vec![str_param("id", id)];
    match kind {
        Some(k) => params.push(str_param("kind", k)),
        None => {},
    }
    let r = Query { text, params };
    assert(r@.text =~= neighbors_text(opt_view(rel_type), kind is Some));
    match kind {
        Some(k) => {
            assert(r@.params =~= seq![("id"@, ValueView::Text(id@)), ("kind"@, ValueView::Text(k@))]);
        },
        None => {
            assert(r@.params =~= seq![("id"@, ValueView::Text(id@))]);
        },
    }
    r
}

/// The text of the query that creates a relationship: its type is spliced
/// into the pattern as given.
pub open spec fn create_relationship_text(rel_type: Seq<char>) -> Seq<char> {
    CREATE_RELATIONSHIP_HEAD@ + rel_type + CREATE_RELATIONSHIP_TAIL@
}

/// The query that creates `relationship`.
pub open spec fn creates_relationship(q: QueryView, relationship: Relationship) -> bool {
    &&& q.text == create_relationship_text(relationship.rel_type@)
    &&& q.params == seq![
        ("id"@, ValueView::Text(relationship.id@)),
        ("from_id"@, ValueView::Text(relationship.from_id@)),
        ("to_id"@, ValueView::Text(relationship.to_id@)),
        ("description"@, ValueView::Text(relationship.description@)),
        ("properties"@, q.params[4].1),
        ("source_conversation"@, ValueView::Text(relationship.source_conversation@)),
    ]
    &&& json_object_param(q.params[4].1, relationship.properties)
}

/// Creates a relationship between the entities `from_id` and `to_id`.
pub fn create_relationship_query(relationship: &Relationship) -> (r: Query)
    ensures
        creates_relationship(r@, *relationship),
{
    let mut text = CREATE_RELATIONSHIP_HEAD.to_owned();
    text.append(relationship.rel_type.as_str());
    text.append(CREATE_RELATIONSHIP_TAIL);
    let params = vec![
        text_param("id", relationship.id.clone()),
        text_param("from_id", relationship.from_id.clone()),
        text_param("to_id", relationship.to_id.clone()),
        text_param("description", relationship.description.clone()),
        text_param("properties", encode_properties(&relationship.properties)),
        text_param("source_conversation", relationship.source_conversation.clone()),
    ];
    let r = Query { text, params };
    assert(r@.text =~= create_relationship_text(relationship.rel_type@));
    assert(r@.params =~= seq![
        ("id"@, ValueView::Text(relationship.id@)),
        ("from_id"@, ValueView::Text(relationship.from_id@)),
        ("to_id"@, ValueView::Text(relationship.to_id@)),
        ("description"@, ValueView::Text(relationship.description@)),
        ("properties"@, r@.params[4].1),
        ("source_conversation"@, ValueView::Text(relationship.source_conversation@)),
    ]);
    r
}

/// The query that sets the description and properties of the relationship `id`.
pub open spec fn updates_relationship(q: QueryView, id: Seq<char>, relationship: Relationship) -> bool {
    &&& q.text == UPDATE_RELATIONSHIP@
    &&& q.params == seq![
        ("id"@, ValueView::Text(id)),
        ("description"@, ValueView::Text(relationship.description@)),
        ("properties"@, q.params[2].1),
    ]
    &&& json_object_param(q.params[2].1, relationship.properties)
}

/// Sets the description and properties of the relationship `id`, answering
/// its id if it exists.
pub fn update_relationship_query(id: &str, relationship: &Relationship) -> (r: Query)
    ensures
        updates_relationship(r@, id@, *relationship),
{
    let params = vec![
        str_param("id", id),
        text_param("description", relationship.description.clone()),
        text_param("properties", encode_properties(&relationship.properties)),
    ];
    let r = make_query(UPDATE_RELATIONSHIP, params);
    assert(r@.params =~= seq![
        ("id"@, ValueView::Text(id@)),
        ("description"@, ValueView::Text(relationship.description@)),
        ("properties"@, r@.params[2].1),
    ]);
    r
}

/// Answers the id of the relationship `id`, if it exists.
pub fn find_relationship_query(id: &str) -> (r: Query)
    ensures
        r@ == keyed(FIND_RELATIONSHIP@, "id"@, id@),
{
    keyed_query(FIND_RELATIONSHIP, "id", id)
}

/// Deletes the relationship `id`.
pub fn delete_relationship_query(id: &str) -> (r: Query)
    ensures
        r@ == keyed(DELETE_RELATIONSHIP@, "id"@, id@),
{
    keyed_query(DELETE_RELATIONSHIP, "id", id)
}

/// The summary a conversation is stored with: its summary, or the empty text.
pub open spec fn stored_summary(summary: Option<String>) -> Seq<char> {
    match summary {
        Some(s) => s@,
        None => Seq::<char>::empty(),
    }
}

fn summary_text(summary: &Option<String>) -> (r: String)
    ensures
        r@ == stored_summary(*summary),
        match *summary {
            Some(s) => r@ == s@,
            None => r@.len() == 0,
        },
{
    match summary {
        Some(s) => s.clone(),
        None => String::new(),
    }
}

/// A conversation with a summary is stored with that summary; one without is
/// stored with the empty text.
pub proof fn lemma_stored_summary(summary: Option<String>)
    ensures
        summary matches Some(s) ==> stored_summary(summary) == s@,
        summary is None ==> stored_summary(summary).len() == 0,
{
}

/// The query that creates the node of `conversation`.
pub open spec fn creates_conversation(q: QueryView, conversation: Conversation) -> bool {
    &&& q == (QueryView {
        text: CREATE_CONVERSATION@,
        params: seq![
            ("id"@, ValueView::Text(conversation.id@)),
            ("created_at"@, ValueView::Text(conversation.created_at@)),
            ("summary"@, ValueView::Text(stored_summary(conversation.summary))),
        ],
    })
}

/// Creates a conversation node.
pub fn create_conversation_query(conversation: &Conversation) -> (r: Query)
    ensures
        creates_conversation(r@, *conversation),
        r@.text == CREATE_CONVERSATION@,
        r@.params == seq![
            ("id"@, ValueView::Text(conversation.id@)),
            ("created_at"@, ValueView::Text(conversation.created_at@)),
            ("summary"@, ValueView::Text(match conversation.summary {
                Some(s) => s@,
                None => Seq::<char>::empty(),
            })),
        ],
{
    let params = vec![
        text_param("id", conversation.id.clone()),
        text_param("created_at", conversation.created_at.clone()),
        text_param("summary", summary_text(&conversation.summary)),
    ];
    let r = make_query(CREATE_CONVERSATION, params);
    assert(r@.params =~= seq![
        ("id"@, ValueView::Text(conversation.id@)),
        ("created_at"@, ValueView::Text(conversation.created_at@)),
        ("summary"@, ValueView::Text(stored_summary(conversation.summary))),
    ]);
    r
}

/// The query that sets the summary of the conversation `id`.
pub open spec fn updates_conversation(q: QueryView, id: Seq<char>, conversation: Conversation) -> bool {
    &&& q == (QueryView {
        text: UPDATE_CONVERSATION@,
        params: seq![
            ("id"@, ValueView::Text(id)),
            ("summary"@, ValueView::Text(stored_summary(conversation.summary))),
        ],
    })
}

/// Sets the summary of the conversation `id`, answering its id if it exists.
pub fn update_conversation_query(id: &str, conversation: &Conversation) -> (r: Query)
    ensures
        updates_conversation(r@, id@, *conversation),
        r@.text == UPDATE_CONVERSATION@,
        r@.params == seq![
            ("id"@, ValueView::Text(id@)),
            ("summary"@, ValueView::Text(match conversation.summary {
                Some(s) => s@,
                None => Seq::<char>::empty(),
            })),
        ],
{
    let params = vec![str_param("id", id), text_param("summary", summary_text(&conversation.summary))];
    let r = make_query(UPDATE_CONVERSATION, params);
    assert(r@.params =~= seq![
        ("id"@, ValueView::Text(id@)),
        ("summary"@, ValueView::Text(stored_summary(conversation.summary))),
    ]);
    r
}

/// Answers the id of the conversation `id`, if it exists.
pub fn find_conversation_query(id: &str) -> (r: Query)
    ensures
        r@ == keyed(FIND_CONVERSATION@, "id"@, id@),
{
    keyed_query(FIND_CONVERSATION, "id", id)
}

/// Deletes the conversation `id` together with its relations.
pub fn delete_conversation_query(id: &str) -> (r: Query)
    ensures
        r@ == keyed(DELETE_CONVERSATION@, "id"@, id@),
{
    keyed_query(DELETE_CONVERSATION, "id", id)
}

/// Answers the conversation `id` in column `c`.
pub fn get_conversation_query(id: &str) -> (r: Query)
    ensures
        r@ == keyed(GET_CONVERSATION@, "id"@, id@),
{
    keyed_query(GET_CONVERSATION, "id", id)
}

/// The query that creates the node of `conflict`.
pub open spec fn creates_conflict(q: QueryView, conflict: Conflict) -> bool {
    &&& q.text == CREATE_CONFLICT@
    &&& q.params == seq![
        ("id"@, ValueView::Text(conflict.id@)),
        ("entity_id"@, ValueView::Text(conflict.entity_id@)),
        ("field"@, ValueView::Text(conflict.field@)),
        ("existing_value"@, ValueView::Text(json_text_of(conflict.existing_value))),
        ("new_value"@, ValueView::Text(json_text_of(conflict.new_value))),
        ("source_conversation"@, ValueView::Text(conflict.source_conversation@)),
        ("resolved"@, ValueView::Boolean(conflict.resolved)),
    ]
}

/// Creates a conflict node linked from its entity.
pub fn create_conflict_query(conflict: &Conflict) -> (r: Query)
    ensures
        creates_conflict(r@, *conflict),
{
    let params = vec![
        text_param("id", conflict.id.clone()),
        text_param("entity_id", conflict.entity_id.clone()),
        text_param("field", conflict.field.clone()),
        text_param("existing_value", encode_value(&conflict.existing_value)),
        text_param("new_value", encode_value(&conflict.new_value)),
        text_param("source_conversation", conflict.source_conversation.clone()),
        flag_param("resolved", conflict.resolved),
    ];
    let r = make_query(CREATE_CONFLICT, params);
    assert(r@.params =~= seq![
        ("id"@, ValueView::Text(conflict.id@)),
        ("entity_id"@, ValueView::Text(conflict.entity_id@)),
        ("field"@, ValueView::Text(conflict.field@)),
        ("existing_value"@, ValueView::Text(json_text_of(conflict.existing_value))),
        ("new_value"@, ValueView::Text(json_text_of(conflict.new_value))),
        ("source_conversation"@, ValueView::Text(conflict.source_conversation@)),
        ("resolved"@, ValueView::Boolean(conflict.resolved)),
    ]);
    r
}

/// The query that sets whether the conflict `id` is resolved.
pub open spec fn updates_conflict(q: QueryView, id: Seq<char>, conflict: Conflict) -> bool {
    &&& q == (QueryView {
        text: UPDATE_CONFLICT@,
        params: seq![
            ("id"@, ValueView::Text(id)),
            ("resolved"@, ValueView::Boolean(conflict.resolved)),
        ],
    })
}

/// Sets whether the conflict `id` is resolved, answering its id if it exists.
pub fn update_conflict_query(id: &str, conflict: &Conflict) -> (r: Query)
    ensures
        updates_conflict(r@, id@, *conflict),
        r@.text == UPDATE_CONFLICT@,
        r@.params == seq![
            ("id"@, ValueView::Text(id@)),
            ("resolved"@, ValueView::Boolean(conflict.resolved)),
        ],
{
    let params = vec![str_param("id", id), flag_param("resolved", conflict.resolved)];
    let r = make_query(UPDATE_CONFLICT, params);
    assert(r@.params =~= seq![
        ("id"@, ValueView::Text(id@)),
        ("resolved"@, ValueView::Boolean(conflict.resolved)),
    ]);
    r
}

/// Answers the conflict `id` in column `c`.
pub fn get_conflict_query(id: &str) -> (r: Query)
    ensures
        r@ == keyed(GET_CONFLICT@, "id"@, id@),
{
    keyed_query(GET_CONFLICT, "id", id)
}

/// Answers each conflict of the entity `entity_id` in column `c`.
pub fn conflicts_by_entity_query(entity_id: &str) -> (r: Query)
    ensures
        r@ == keyed(CONFLICTS_BY_ENTITY@, "entity_id"@, entity_id@),
{
    keyed_query(CONFLICTS_BY_ENTITY, "entity_id", entity_id)
}

/// Answers each relation of the entity `entity_id` in column `r`.
pub fn relationships_by_entity_query(entity_id: &str) -> (r: Query)
    ensures
        r@ == keyed(RELATIONSHIPS_BY_ENTITY@, "entity_id"@, entity_id@),
{
    keyed_query(RELATIONSHIPS_BY_ENTITY, "entity_id", entity_id)
}

/// Answers, once each, the entities with a relation drawn from the
/// conversation `conversation_id`, in column `e`.
pub fn entities_by_conversation_query(conversation_id: &str) -> (r: Query)
    ensures
        r@ == keyed(ENTITIES_BY_CONVERSATION@, "conversation_id"@, conversation_id@),
{
    keyed_query(ENTITIES_BY_CONVERSATION, "conversation_id", conversation_id)
}

} // verus!

//! What reading a record back gives of what writing it stored.

use vstd::prelude::*;

use crate::data::json::{
    is_json_object_text, json_object_parses, json_text_of, json_value_of, key_texts, value_decoded,
};
use crate::data::models::graph::{Conflict, Conversation, Entity, FromRow, Relationship};
use crate::data::record::{node_at, property_of, relation_at, Property, Row, ValueView};
use crate::data::repositories::query::{
    creates_conflict, creates_conversation, creates_entity, creates_relationship, stored_summary,
    updates_conflict, updates_entity, QueryView,
};

verus! {

/// The properties `props` hold each parameter of a query under its name.
pub open spec fn holds_params(props: Seq<Property>, params: Seq<(Seq<char>, ValueView)>) -> bool {
    forall|i: int|
        0 <= i < params.len() ==> ((#[trigger] property_of(props, params[i].0)) matches Some(v)
            && v@ == params[i].1)
}

/// An entity read back from a node that holds the parameters its creation
/// wrote decodes, and gives back its id, name, aliases, kinds and description;
/// its properties are stored as their JSON object text, and whenever that
/// text parses back, the properties read back have the entity's keys.
pub proof fn lemma_entity_round_trip(
    entity: Entity,
    q: QueryView,
    row: Row,
    alias: Seq<char>,
    back: Entity,
)
    requires
        creates_entity(q, entity),
        node_at(row, alias) matches Ok(n) && holds_params(n.properties@, q.params),
        Entity::decodes_to(row, alias, back),
    ensures
        Entity::decode_failure(row, alias) is None,
        back.id@ == entity.id@,
        back.name@ == entity.name@,
        back.aliases.deep_view() == entity.aliases.deep_view(),
        back.kind.deep_view() == entity.kind.deep_view(),
        back.description@ == entity.description@,
        is_json_object_text(q.params[5].1->Text_0, entity.properties@),
        json_object_parses(q.params[5].1->Text_0) ==> key_texts(back.properties) == key_texts(
            entity.properties,
        ),
{
    let p = node_at(row, alias)->Ok_0.properties@;
    assert(property_of(p, q.params[0].0) is Some);
    assert(property_of(p, q.params[1].0) is Some);
    assert(property_of(p, q.params[2].0) is Some);
    assert(property_of(p, q.params[3].0) is Some);
    assert(property_of(p, q.params[4].0) is Some);
    assert(property_of(p, q.params[5].0) is Some);
}

/// An entity read back from a node that holds the parameters an update of
/// the entity `id` wrote decodes, and gives back that id (not the id of the
/// record given to the update), with the name, aliases, kinds and description
/// of that record; whenever the stored JSON text of its properties parses
/// back, the properties read back have the keys of the record's properties.
pub proof fn lemma_entity_update_round_trip(
    id: Seq<char>,
    entity: Entity,
    q: QueryView,
    row: Row,
    alias: Seq<char>,
    back: Entity,
)
    requires
        updates_entity(q, id, entity),
        node_at(row, alias) matches Ok(n) && holds_params(n.properties@, q.params),
        Entity::decodes_to(row, alias, back),
    ensures
        Entity::decode_failure(row, alias) is None,
        back.id@ == id,
        back.name@ == entity.name@,
        back.aliases.deep_view() == entity.aliases.deep_view(),
        back.kind.deep_view() == entity.kind.deep_view(),
        back.description@ == entity.description@,
        is_json_object_text(q.params[5].1->Text_0, entity.properties@),
        json_object_parses(q.params[5].1->Text_0) ==> key_texts(back.properties) == key_texts(
            entity.properties,
        ),
{
    let p = node_at(row, alias)->Ok_0.properties@;
    assert(property_of(p, q.params[0].0) is Some);
    assert(property_of(p, q.params[1].0) is Some);
    assert(property_of(p, q.params[2].0) is Some);
    assert(property_of(p, q.params[3].0) is Some);
    assert(property_of(p, q.params[4].0) is Some);
    assert(property_of(p, q.params[5].0) is Some);
}

/// A relationship read back from a relation of the type its creation named
/// that holds the parameters its creation wrote decodes, and gives back its
/// id, endpoints, type, description and source conversation; whenever the
/// stored JSON text of its properties parses back, the properties read back
/// have the keys of the relationship's properties.
pub proof fn lemma_relationship_round_trip(
    relationship: Relationship,
    q: QueryView,
    row: Row,
    alias: Seq<char>,
    back: Relationship,
)
    requires
        creates_relationship(q, relationship),
        relation_at(row, alias) matches Ok(x) && x.typ@ == relationship.rel_type@
            && holds_params(x.properties@, q.params),
        Relationship::decodes_to(row, alias, back),
    ensures
        Relationship::decode_failure(row, alias) is None,
        back.id@ == relationship.id@,
        back.from_id@ == relationship.from_id@,
        back.to_id@ == relationship.to_id@,
        back.rel_type@ == relationship.rel_type@,
        back.description@ == relationship.description@,
        back.source_conversation@ == relationship.source_conversation@,
        is_json_object_text(q.params[4].1->Text_0, relationship.properties@),
        json_object_parses(q.params[4].1->Text_0) ==> key_texts(back.properties) == key_texts(
            relationship.properties,
        ),
{
    let p = relation_at(row, alias)->Ok_0.properties@;
    assert(property_of(p, q.params[0].0) is Some);
    assert(property_of(p, q.params[1].0) is Some);
    assert(property_of(p, q.params[2].0) is Some);
    assert(property_of(p, q.params[3].0) is Some);
    assert(property_of(p, q.params[4].0) is Some);
    assert(property_of(p, q.params[5].0) is Some);
}

/// A conversation read back from a node that holds the parameters its
/// creation wrote decodes, and gives back its id and creation time; its
/// summary comes back present, as the stored summary (the empty text when it
/// had none).
pub proof fn lemma_conversation_round_trip(
    conversation: Conversation,
    q: QueryView,
    row: Row,
    alias: Seq<char>,
    back: Conversation,
)
    requires
        creates_conversation(q, conversation),
        node_at(row, alias) matches Ok(n) && holds_params(n.properties@, q.params),
        Conversation::decodes_to(row, alias, back),
    ensures
        Conversation::decode_failure(row, alias) is None,
        back.id@ == conversation.id@,
        back.created_at@ == conversation.created_at@,
        back.summary matches Some(s) && s@ == stored_summary(conversation.summary),
        conversation.summary matches Some(s) ==> (back.summary matches Some(t) && t@ == s@),
{
    let p = node_at(row, alias)->Ok_0.properties@;
    assert(property_of(p, q.params[0].0) is Some);
    assert(property_of(p, q.params[1].0) is Some);
    assert(property_of(p, q.params[2].0) is Some);
}

/// A conflict read back from a node that holds the parameters its creation
/// wrote decodes, and gives back its id, entity, field, source conversation
/// and whether it is resolved; each of its two values comes back as the
/// decoding of the JSON text that value prints as.
pub proof fn lemma_conflict_round_trip(
    conflict: Conflict,
    q: QueryView,
    row: Row,
    alias: Seq<char>,
    back: Conflict,
)
    requires
        creates_conflict(q, conflict),
        node_at(row, alias) matches Ok(n) && holds_params(n.properties@, q.params),
        Conflict::decodes_to(row, alias, back),
    ensures
        Conflict::decode_failure(row, alias) is None,
        back.id@ == conflict.id@,
        back.entity_id@ == conflict.entity_id@,
        back.field@ == conflict.field@,
        back.source_conversation@ == conflict.source_conversation@,
        back.resolved == conflict.resolved,
        value_decoded(json_text_of(conflict.existing_value), back.existing_value),
        value_decoded(json_text_of(conflict.new_value), back.new_value),
        json_value_of(json_text_of(conflict.existing_value)) == Some(conflict.existing_value)
            ==> back.existing_value == conflict.existing_value,
        json_value_of(json_text_of(conflict.new_value)) == Some(conflict.new_value)
            ==> back.new_value == conflict.new_value,
{
    let p = node_at(row, alias)->Ok_0.properties@;
    assert(property_of(p, q.params[0].0) is Some);
    assert(property_of(p, q.params[1].0) is Some);
    assert(property_of(p, q.params[2].0) is Some);
    assert(property_of(p, q.params[3].0) is Some);
    assert(property_of(p, q.params[4].0) is Some);
    assert(property_of(p, q.params[5].0) is Some);
    assert(property_of(p, q.params[6].0) is Some);
}

/// A conflict read back from a node that holds the parameters an update of
/// the conflict `id` wrote decodes, and gives back that id and the resolved
/// flag of the record given to the update.
pub proof fn lemma_conflict_update_round_trip(
    id: Seq<char>,
    conflict: Conflict,
    q: QueryView,
    row: Row,
    alias: Seq<char>,
    back: Conflict,
)
    requires
        updates_conflict(q, id, conflict),
        node_at(row, alias) matches Ok(n) && holds_params(n.properties@, q.params),
        Conflict::decodes_to(row, alias, back),
    ensures
        back.id@ == id,
        back.resolved == conflict.resolved,
{
    let p = node_at(row, alias)->Ok_0.properties@;
    assert(property_of(p, q.params[0].0) is Some);
    assert(property_of(p, q.params[1].0) is Some);
}

} // verus!

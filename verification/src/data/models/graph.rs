//! The records of the knowledge graph and how each is decoded from a row.

use std::collections::HashMap;

use vstd::prelude::*;

use crate::data::json::{
    decode_properties, decode_value, json_value_of, properties_decoded, value_decoded,
};
use crate::data::record::{
    failure, first_failure, flag_at, node_at, read_flag, read_node, read_optional_text,
    read_relation, read_text, read_texts, relation_at, text_at, texts_at, DecodeError, Row,
};
use crate::infrastructure::errors::InfrastructureError;

verus! {

/// A record that can be decoded from column `alias` of a row.
pub trait FromRow: Sized {
    /// The failure of decoding `row` under `alias`, if it fails.
    spec fn decode_failure(row: Row, alias: Seq<char>) -> Option<DecodeError>;

    /// `value` is what decoding `row` under `alias` gives.
    spec fn decodes_to(row: Row, alias: Seq<char>, value: Self) -> bool;

    /// Decodes column `alias` of `row`.
    fn from_row(row: &Row, alias: &str) -> (r: Result<Self, InfrastructureError>)
        ensures
            match Self::decode_failure(*row, alias@) {
                Some(e) => r == Err::<Self, InfrastructureError>(
                    InfrastructureError::MemgraphDeserialize(e),
                ),
                None => r matches Ok(v) && Self::decodes_to(*row, alias@, v),
            },
    ;
}

/// A thing the conversations speak of.
#[derive(Debug, Clone)]
pub struct Entity {
    pub id: String,
    pub name: String,
    pub aliases: Vec<String>,
    pub kind: Vec<String>,
    pub description: String,
    pub properties: HashMap<String, serde_json::Value>,
}

/// A typed link between two entities.
#[derive(Debug, Clone)]
pub struct Relationship {
    pub id: String,
    pub from_id: String,
    pub to_id: String,
    pub rel_type: String,
    pub description: String,
    pub properties: HashMap<String, serde_json::Value>,
    pub source_conversation: String,
}

/// A conversation from which entities and relationships were drawn.
#[derive(Debug, Clone)]
pub struct Conversation {
    pub id: String,
    pub created_at: String,
    pub summary: Option<String>,
}

/// Two disagreeing values of one field of an entity.
#[derive(Debug, Clone)]
pub struct Conflict {
    pub id: String,
    pub entity_id: String,
    pub field: String,
    pub existing_value: serde_json::Value,
    pub new_value: serde_json::Value,
    pub source_conversation: String,
    pub resolved: bool,
}

/// Wraps a failed read as a storage error.
fn deserialize_error(e: DecodeError) -> (r: InfrastructureError)
    ensures
        r == InfrastructureError::MemgraphDeserialize(e),
{
    InfrastructureError::MemgraphDeserialize(e)
}

impl FromRow for Entity {
    open spec fn decode_failure(row: Row, alias: Seq<char>) -> Option<DecodeError> {
        match node_at(row, alias) {
            Err(e) => Some(e),
            Ok(n) => {
                let p = n.properties@;
                first_failure(
                    failure(text_at(p, "id"@)),
                    first_failure(
                        failure(text_at(p, "name"@)),
                        first_failure(
                            failure(texts_at(p, "aliases"@)),
                            first_failure(
                                failure(texts_at(p, "kind"@)),
                                first_failure(
                                    failure(text_at(p, "description"@)),
                                    failure(text_at(p, "properties"@)),
                                ),
                            ),
                        ),
                    ),
                )
            },
        }
    }

    open spec fn decodes_to(row: Row, alias: Seq<char>, value: Self) -> bool {
        match node_at(row, alias) {
            Err(_) => false,
            Ok(n) => {
                let p = n.properties@;
                &&& text_at(p, "id"@) == Ok::<Seq<char>, DecodeError>(value.id@)
                &&& text_at(p, "name"@) == Ok::<Seq<char>, DecodeError>(value.name@)
                &&& texts_at(p, "aliases"@) == Ok::<Seq<Seq<char>>, DecodeError>(
                    value.aliases.deep_view(),
                )
                &&& texts_at(p, "kind"@) == Ok::<Seq<Seq<char>>, DecodeError>(
                    value.kind.deep_view(),
                )
                &&& text_at(p, "description"@) == Ok::<Seq<char>, DecodeError>(
                    value.description@,
                )
                &&& text_at(p, "properties"@) is Ok
                &&& properties_decoded(text_at(p, "properties"@)->Ok_0, value.properties)
            },
        }
    }

    fn from_row(row: &Row, alias: &str) -> (r: Result<Self, InfrastructureError>) {
        let node = match read_node(row, alias) {
            Ok(n) => n,
            Err(e) => return Err(deserialize_error(e)),
        };
        let p = &node.properties;
        let id = match read_text(p, "id") {
            Ok(v) => v,
            Err(e) => return Err(deserialize_error(e)),
        };
        let name = match read_text(p, "name") {
            Ok(v) => v,
            Err(e) => return Err(deserialize_error(e)),
        };
        let aliases = match read_texts(p, "aliases") {
            Ok(v) => v,
            Err(e) => return Err(deserialize_error(e)),
        };
        let kind = match read_texts(p, "kind") {
            Ok(v) => v,
            Err(e) => return Err(deserialize_error(e)),
        };
        let description = match read_text(p, "description") {
            Ok(v) => v,
            Err(e) => return Err(deserialize_error(e)),
        };
        let properties_text = match read_text(p, "properties") {
            Ok(v) => v,
            Err(e) => return Err(deserialize_error(e)),
        };
        let properties = decode_properties(properties_text.as_str());
        Ok(Entity { id, name, aliases, kind, description, properties })
    }
}

impl FromRow for Relationship {
    open spec fn decode_failure(row: Row, alias: Seq<char>) -> Option<DecodeError> {
        match relation_at(row, alias) {
            Err(e) => Some(e),
            Ok(x) => {
                let p = x.properties@;
                first_failure(
                    failure(text_at(p, "id"@)),
                    first_failure(
                        failure(text_at(p, "from_id"@)),
                        first_failure(
                            failure(text_at(p, "to_id"@)),
                            first_failure(
                                failure(text_at(p, "description"@)),
                                first_failure(
                                    failure(text_at(p, "properties"@)),
                                    failure(text_at(p, "source_conversation"@)),
                                ),
                            ),
                        ),
                    ),
                )
            },
        }
    }

    open spec fn decodes_to(row: Row, alias: Seq<char>, value: Self) -> bool {
        match relation_at(row, alias) {
            Err(_) => false,
            Ok(x) => {
                let p = x.properties@;
                &&& text_at(p, "id"@) == Ok::<Seq<char>, DecodeError>(value.id@)
                &&& text_at(p, "from_id"@) == Ok::<Seq<char>, DecodeError>(value.from_id@)
                &&& text_at(p, "to_id"@) == Ok::<Seq<char>, DecodeError>(value.to_id@)
                &&& value.rel_type@ == x.typ@
                &&& text_at(p, "description"@) == Ok::<Seq<char>, DecodeError>(
                    value.description@,
                )
                &&& text_at(p, "properties"@) is Ok
                &&& properties_decoded(text_at(p, "properties"@)->Ok_0, value.properties)
                &&& text_at(p, "source_conversation"@) == Ok::<Seq<char>, DecodeError>(
                    value.source_conversation@,
                )
            },
        }
    }

    fn from_row(row: &Row, alias: &str) -> (r: Result<Self, InfrastructureError>) {
        let rel = match read_relation(row, alias) {
            Ok(x) => x,
            Err(e) => return Err(deserialize_error(e)),
        };
        let p = &rel.properties;
        let id = match read_text(p, "id") {
            Ok(v) => v,
            Err(e) => return Err(deserialize_error(e)),
        };
        let from_id = match read_text(p, "from_id") {
            Ok(v) => v,
            Err(e) => return Err(deserialize_error(e)),
        };
        let to_id = match read_text(p, "to_id") {
            Ok(v) => v,
            Err(e) => return Err(deserialize_error(e)),
        };
        let rel_type = rel.typ.clone();
        let description = match read_text(p, "description") {
            Ok(v) => v,
            Err(e) => return Err(deserialize_error(e)),
        };
        let properties_text = match read_text(p, "properties") {
            Ok(v) => v,
            Err(e) => return Err(deserialize_error(e)),
        };
        let properties = decode_properties(properties_text.as_str());
        let source_conversation = match read_text(p, "source_conversation") {
            Ok(v) => v,
            Err(e) => return Err(deserialize_error(e)),
        };
        Ok(Relationship {
            id,
            from_id,
            to_id,
            rel_type,
            description,
            properties,
            source_conversation,
        })
    }
}

/// The summary that a stored conversation node reads as: the `summary`
/// property when it is a string, and no summary otherwise.
pub open spec fn summary_at(p: Seq<crate::data::record::Property>) -> Option<Seq<char>> {
    match text_at(p, "summary"@) {
        Ok(s) => Some(s),
        Err(_) => None,
    }
}

impl FromRow for Conversation {
    open spec fn decode_failure(row: Row, alias: Seq<char>) -> Option<DecodeError> {
        match node_at(row, alias) {
            Err(e) => Some(e),
            Ok(n) => {
                let p = n.properties@;
                first_failure(failure(text_at(p, "id"@)), failure(text_at(p, "created_at"@)))
            },
        }
    }

    open spec fn decodes_to(row: Row, alias: Seq<char>, value: Self) -> bool {
        match node_at(row, alias) {
            Err(_) => false,
            Ok(n) => {
                let p = n.properties@;
                &&& text_at(p, "id"@) == Ok::<Seq<char>, DecodeError>(value.id@)
                &&& text_at(p, "created_at"@) == Ok::<Seq<char>, DecodeError>(
                    value.created_at@,
                )
                &&& match summary_at(p) {
                    Some(s) => value.summary matches Some(t) && t@ == s,
                    None => value.summary is None,
                }
            },
        }
    }

    fn from_row(row: &Row, alias: &str) -> (r: Result<Self, InfrastructureError>) {
        let node = match read_node(row, alias) {
            Ok(n) => n,
            Err(e) => return Err(deserialize_error(e)),
        };
        let p = &node.properties;
        let id = match read_text(p, "id") {
            Ok(v) => v,
            Err(e) => return Err(deserialize_error(e)),
        };
        let created_at = match read_text(p, "created_at") {
            Ok(v) => v,
            Err(e) => return Err(deserialize_error(e)),
        };
        let summary = read_optional_text(p, "summary");
        Ok(Conversation { id, created_at, summary })
    }
}

/// A conflict decoded from a node holds, as each of its two values, the JSON
/// value that the stored text of that value parses to, whenever it parses.
pub proof fn lemma_conflict_values_parsed(row: Row, alias: Seq<char>, c: Conflict)
    requires
        Conflict::decodes_to(row, alias, c),
    ensures
        node_at(row, alias) is Ok,
        text_at(node_at(row, alias)->Ok_0.properties@, "existing_value"@) matches Ok(t)
            && (json_value_of(t) matches Some(w) ==> c.existing_value == w),
        text_at(node_at(row, alias)->Ok_0.properties@, "new_value"@) matches Ok(t)
            && (json_value_of(t) matches Some(w) ==> c.new_value == w),
{
}

impl FromRow for Conflict {
    open spec fn decode_failure(row: Row, alias: Seq<char>) -> Option<DecodeError> {
        match node_at(row, alias) {
            Err(e) => Some(e),
            Ok(n) => {
                let p = n.properties@;
                first_failure(
                    failure(text_at(p, "id"@)),
                    first_failure(
                        failure(text_at(p, "entity_id"@)),
                        first_failure(
                            failure(text_at(p, "field"@)),
                            first_failure(
                                failure(text_at(p, "existing_value"@)),
                                first_failure(
                                    failure(text_at(p, "new_value"@)),
                                    first_failure(
                                        failure(text_at(p, "source_conversation"@)),
                                        failure(flag_at(p, "resolved"@)),
                                    ),
                                ),
                            ),
                        ),
                    ),
                )
            },
        }
    }

    open spec fn decodes_to(row: Row, alias: Seq<char>, value: Self) -> bool {
        match node_at(row, alias) {
            Err(_) => false,
            Ok(n) => {
                let p = n.properties@;
                &&& text_at(p, "id"@) == Ok::<Seq<char>, DecodeError>(value.id@)
                &&& text_at(p, "entity_id"@) == Ok::<Seq<char>, DecodeError>(value.entity_id@)
                &&& text_at(p, "field"@) == Ok::<Seq<char>, DecodeError>(value.field@)
                &&& text_at(p, "existing_value"@) is Ok
                &&& value_decoded(text_at(p, "existing_value"@)->Ok_0, value.existing_value)
                &&& text_at(p, "new_value"@) is Ok
                &&& value_decoded(text_at(p, "new_value"@)->Ok_0, value.new_value)
                &&& text_at(p, "source_conversation"@) == Ok::<Seq<char>, DecodeError>(
                    value.source_conversation@,
                )
                &&& flag_at(p, "resolved"@) == Ok::<bool, DecodeError>(value.resolved)
            },
        }
    }

    fn from_row(row: &Row, alias: &str) -> (r: Result<Self, InfrastructureError>) {
        let node = match read_node(row, alias) {
            Ok(n) => n,
            Err(e) => return Err(deserialize_error(e)),
        };
        let p = &node.properties;
        let id = match read_text(p, "id") {
            Ok(v) => v,
            Err(e) => return Err(deserialize_error(e)),
        };
        let entity_id = match read_text(p, "entity_id") {
            Ok(v) => v,
            Err(e) => return Err(deserialize_error(e)),
        };
        let field = match read_text(p, "field") {
            Ok(v) => v,
            Err(e) => return Err(deserialize_error(e)),
        };
        let existing_text = match read_text(p, "existing_value") {
            Ok(v) => v,
            Err(e) => return Err(deserialize_error(e)),
        };
        let existing_value = decode_value(existing_text.as_str());
        let new_text = match read_text(p, "new_value") {
            Ok(v) => v,
            Err(e) => return Err(deserialize_error(e)),
        };
        let new_value = decode_value(new_text.as_str());
        let source_conversation = match read_text(p, "source_conversation") {
            Ok(v) => v,
            Err(e) => return Err(deserialize_error(e)),
        };
        let resolved = match read_flag(p, "resolved") {
            Ok(v) => v,
            Err(e) => return Err(deserialize_error(e)),
        };
        Ok(Conflict {
            id,
            entity_id,
            field,
            existing_value,
            new_value,
            source_conversation,
            resolved,
        })
    }
}

} // verus!

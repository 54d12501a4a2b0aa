//! Failures of the storage layer.

use vstd::prelude::*;

use crate::data::record::DecodeError;

verus! {

/// The error type of the `sqlx` crate, carried as it came.
#[verifier::external_type_specification]
#[verifier::external_body]
pub struct ExSqlxError(sqlx::Error);

/// The error type of the `neo4rs` crate, carried as it came.
#[verifier::external_type_specification]
#[verifier::external_body]
pub struct ExNeo4jError(neo4rs::Error);

/// A failure of the relational database, of the graph database, or of
/// decoding a row the graph database returned.
#[derive(Debug)]
pub enum InfrastructureError {
    Database(sqlx::Error),
    Memgraph(neo4rs::Error),
    MemgraphDeserialize(DecodeError),
}

impl InfrastructureError {
    /// The text that describes this error.
    pub open spec fn message_spec(&self) -> Seq<char> {
        match self {
            InfrastructureError::Database(_) => "Database error"@,
            InfrastructureError::Memgraph(_) => "Memgraph error"@,
            InfrastructureError::MemgraphDeserialize(_) => "Memgraph deserialization error"@,
        }
    }

    /// The text that describes this error.
    pub fn message(&self) -> (r: String)
        ensures
            r@ == self.message_spec(),
    {
        match self {
            InfrastructureError::Database(_) => "Database error".to_owned(),
            InfrastructureError::Memgraph(_) => "Memgraph error".to_owned(),
            InfrastructureError::MemgraphDeserialize(_) => "Memgraph deserialization error".to_owned(),
        }
    }
}

} // verus!

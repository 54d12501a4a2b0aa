//! Storage and authentication logic of the lorekeeper backend: the graph
//! records it reads, the Cypher queries it sends, the decisions taken on the
//! database's answers, and the credential checks of the authentication service.

pub mod data;
pub mod infrastructure;
pub mod service;

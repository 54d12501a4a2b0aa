//! The connection settings of the graph database.

use vstd::prelude::*;

use neo4rs::Config as ConnectionConfig;

use crate::infrastructure::config::{MemgraphConfig, Settings};

verus! {

/// The connection configuration of the `neo4rs` crate.
#[verifier::external_type_specification]
#[verifier::external_body]
pub struct ExNeo4jConfig(ConnectionConfig);

/// The configuration that `neo4rs::ConfigBuilder` builds from the given uri,
/// user, password, connection limit and fetch size, every other setting left
/// at its default.
pub uninterp spec fn memgraph_connection_config(
    uri: Seq<char>,
    user: Seq<char>,
    password: Seq<char>,
    max_connections: usize,
    fetch_size: usize,
) -> ConnectionConfig;

/// `neo4rs::ConfigBuilder::default()` given the uri, user, password,
/// connection limit and fetch size, then `build()`. `build` fails only when
/// the uri, the user or the password is missing (its source); all three are
/// set here, so it succeeds, with the configuration that those five settings
/// determine.
#[verifier::external_body]
fn build_memgraph_config(
    uri: &str,
    user: &str,
    password: &str,
    max_connections: usize,
    fetch_size: usize,
) -> (r: Result<ConnectionConfig, neo4rs::Error>)
    ensures
        r is Ok,
        r->Ok_0 == memgraph_connection_config(uri@, user@, password@, max_connections, fetch_size),
{
    neo4rs::ConfigBuilder::default()
        .uri(uri)
        .user(user)
        .password(password)
        .max_connections(max_connections)
        .fetch_size(fetch_size)
        .build()
}

/// The configuration to connect to the graph database with: the uri and
/// credentials of the settings, the pool size and fetch size of the
/// configuration file. Making it cannot fail.
pub fn memgraph_config(settings: &Settings, config: &MemgraphConfig) -> (r: ConnectionConfig)
    ensures
        r == memgraph_connection_config(
            settings.memgraph_uri@,
            settings.memgraph_user@,
            settings.memgraph_password@,
            config.max_connections,
            config.fetch_size,
        ),
{
    let built = build_memgraph_config(
        settings.memgraph_uri.as_str(),
        settings.memgraph_user.as_str(),
        settings.memgraph_password.as_str(),
        config.max_connections,
        config.fetch_size,
    );
    built.expect("Invalid Memgraph Config")
}

} // verus!

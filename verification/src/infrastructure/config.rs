//! The settings the service starts with: connection details from the
//! environment, pool sizes and timeouts from the configuration file.

use vstd::prelude::*;

verus! {

/// Where the databases are and how to log in to them.
#[derive(Debug)]
pub struct Settings {
    pub database_url: String,
    pub memgraph_uri: String,
    pub memgraph_user: String,
    pub memgraph_password: String,
}

/// The connection pool of the relational database: its bounds, and its
/// timeouts in seconds.
#[derive(Debug)]
pub struct DatabaseConfig {
    pub max_connections: u32,
    pub min_connections: u32,
    pub acquire_timeout: u64,
    pub idle_timeout: u64,
    pub max_lifetime: u64,
}

/// The connection pool of the graph database and the number of rows fetched
/// per request.
#[derive(Debug)]
pub struct MemgraphConfig {
    pub max_connections: usize,
    pub fetch_size: usize,
}

/// The configuration file: one section per database.
#[derive(Debug)]
pub struct Config {
    pub(crate) db: DatabaseConfig,
    pub(crate) memgraph: MemgraphConfig,
}

impl Config {
    /// The section of the relational database.
    pub closed spec fn db_spec(&self) -> DatabaseConfig {
        self.db
    }

    /// The section of the graph database.
    pub closed spec fn memgraph_spec(&self) -> MemgraphConfig {
        self.memgraph
    }

    /// A configuration made of its two sections.
    pub fn new(db: DatabaseConfig, memgraph: MemgraphConfig) -> (r: Config)
        ensures
            r.db_spec() == db,
            r.memgraph_spec() == memgraph,
    {
        Config { db, memgraph }
    }

    /// The section of the relational database.
    pub fn db(&self) -> (r: &DatabaseConfig)
        ensures
            *r == self.db_spec(),
    {
        &self.db
    }

    /// The section of the graph database.
    pub fn memgraph(&self) -> (r: &MemgraphConfig)
        ensures
            *r == self.memgraph_spec(),
    {
        &self.memgraph
    }
}

} // verus!

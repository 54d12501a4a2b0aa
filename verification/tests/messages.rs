use lorekeeper::data::record::DecodeError;
use lorekeeper::infrastructure::config::{Config, DatabaseConfig, MemgraphConfig, Settings};
use lorekeeper::infrastructure::database::memgraph_config;
use lorekeeper::infrastructure::errors::InfrastructureError;
use lorekeeper::service::errors::ServiceError;

#[test]
fn service_error_messages() {
    assert_eq!(ServiceError::InternalError("boom".to_string()).message(), "Internal error: boom");
    assert_eq!(ServiceError::NotFound("user".to_string()).message(), "Resource not found: user");
    assert_eq!(ServiceError::AuthError.message(), "Invalid Credentials");
}

#[test]
fn infrastructure_error_messages() {
    assert_eq!(
        InfrastructureError::MemgraphDeserialize(DecodeError::NoSuchProperty).message(),
        "Memgraph deserialization error"
    );
    assert_eq!(InfrastructureError::Database(sqlx::Error::RowNotFound).message(), "Database error");
    assert_eq!(InfrastructureError::Memgraph(neo4rs::Error::InvalidConfig).message(), "Memgraph error");
}

#[test]
fn config_keeps_its_sections() {
    let config = Config::new(
        DatabaseConfig {
            max_connections: 10,
            min_connections: 1,
            acquire_timeout: 5,
            idle_timeout: 60,
            max_lifetime: 600,
        },
        MemgraphConfig { max_connections: 4, fetch_size: 100 },
    );
    assert_eq!(config.db().max_connections, 10);
    assert_eq!(config.db().max_lifetime, 600);
    assert_eq!(config.memgraph().fetch_size, 100);
}

#[test]
fn memgraph_config_builds_without_failing() {
    let settings = Settings {
        database_url: "postgres://localhost/db".to_string(),
        memgraph_uri: "127.0.0.1:7687".to_string(),
        memgraph_user: "memgraph".to_string(),
        memgraph_password: "SECRET-REDACTED".to_string(),
    };
    let _ = memgraph_config(&settings, &MemgraphConfig { max_connections: 4, fetch_size: 100 });
}

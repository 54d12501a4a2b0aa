[package]
name = "lorekeeper"
version = "0.1.0"
edition = "2021"
publish = false

[dependencies]
argon2 = "*"
axum = "*"
chrono = { version = "*", features = ["serde"] }
envy = "*"
neo4rs = "*"
serde = { version = "1", features = ["derive"] }
serde_json = "1"
serde_yaml_bw = "*"
sqlx = { version = "*", default-features = false, features = ["postgres", "runtime-tokio", "uuid", "chrono"] }
thiserror = "*"
tokio = { version = "1", features = ["full"] }
tower-http = { version = "*", features = ["trace"] }
tracing = "*"
tracing-subscriber = { version = "*", features = ["env-filter", "fmt"] }
uuid = { version = "1", features = ["serde", "v4"] }

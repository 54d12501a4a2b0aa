# lorekeeper

The storage and authentication logic of the lorekeeper backend, with its
behaviour stated in contracts and proved.

- `src/data/record.rs` — the shape of a graph-database row (columns holding
  nodes or relations, properties holding strings, string lists or booleans)
  and the typed reads of it.
- `src/data/models/` — entities, relationships, conversations and conflicts,
  and how each decodes from a row (`FromRow`); users and their responses.
- `src/data/repositories/query.rs` — the exact Cypher text and parameters of
  every repository query.
- `src/data/repositories/graph.rs` — each repository operation as an exchange
  with the database: the next request is decided from the last answer.
- `src/data/repositories/round_trip.rs` — what reading a record back gives of
  what writing it stored.
- `src/service/` — password hashing and the credential check, and the
  service's errors.
- `src/infrastructure/` — settings, configuration, storage errors, and the
  graph connection configuration.
- `app/` — the server: reading the environment and configuration file,
  connecting, carrying the repository's exchanges out on a live connection,
  the users table, and the HTTP router.

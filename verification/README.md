# page_config

A page-configuration service: page configurations are JSON documents kept in
a Redis cache in front of a MongoDB store, and edited field by field over an
HTTP interface and over MCP tool calls.

- `src/` is the verified library (Verus):
  - `json.rs` — JSON documents as plain values, their mathematical view, and
    member and name lookups;
  - `fields.rs` — field ranges and the field changes (add, edit, delete);
  - `field_laws.rs` — what holds of the field changes across calls;
  - `errors.rs` — the failures of a request and their messages;
  - `text.rs` — reading and writing JSON text with serde_json;
  - `service.rs` — the request sessions: read through the cache, apply a
    change, write back, sync to the store; one storage action at a time;
  - `service_laws.rs` — what a request does to the cache and the store;
  - `rest.rs`, `mcp.rs` — request bodies, tool descriptions, tool calls and
    the answers of both interfaces;
  - `models.rs` — the shape of a page configuration.
- `app/` is the server around it: Redis and MongoDB access (the cache holds
  the JSON text that the library reads and writes), the loop that
  performs each session's actions, the axum routes, and the serde forms of
  the library's types.
- `tests/` runs the library on concrete values.

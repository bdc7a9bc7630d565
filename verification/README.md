# persistent_postgres

A manager for one PostgreSQL connection pool that survives connection loss,
with an optional notification listener and callbacks registered by channel
and tag.

- `src/` is the verified core, written in Verus. It takes every decision:
  - `persistent/mod.rs` holds the manager's state (address, pool, listener,
    channels, callbacks) and its operations (`set_uri`, `listen`, `unlisten`,
    `add_listener`, `remove_listener`, ...).
  - `persistent/establish.rs` is the step machine that establishes a pool, a
    listener on it and the listening on each channel.
  - `persistent/registry.rs` is the callback registry, a map from channel to
    a map from tag to callback.
  - `persistent/tasks.rs` decides what the monitoring task, the notification
    task and a shutdown do.
  - `persistent/laws.rs` states and proves the properties that relate the
    operations.
  - `error/` holds the error types with their codes and texts;
    `postgres_uri.rs` the connection string type.
- `app/` is the asynchronous shell: it owns the sqlx pool and listener, runs
  the tokio tasks, performs the network calls the core asks for and prints
  progress.
- `tests/` exercises the core on concrete values.

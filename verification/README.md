# sqlite_backend

A storage backend on SQLite: tables of items, streams of what changes in them,
queues of messages, and a Raft log. What the backend decides is a Verus library;
running statements against a database is left to a thin layer around it.

- `src/` is the library. Its functions make the statements to run, read the rows
  that come back, and decide what follows. An operation that alternates between
  the two is a state machine: a function from a state and an event to the next
  state and action (`machine::Step`).
- `app/` opens databases, runs the statements, and drives the state machines.
- `tests/` runs the library, most of it against SQLite in memory.

What the library rests on without proof is stated at the wrappers of `uuid` and
`serde_json`, in `src/uuids.rs`, `src/sync_raft_log_store.rs` and
`src/queue_provider.rs`.

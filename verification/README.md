# litigraph

The domain model and use cases of a workspace manager for case files: a
workspace holds entities (people, evidence, events, …) and typed
relationships between them; a catalog remembers where workspaces are stored,
most recently used first.

- `src/` is the library, verified with Verus: the domain model
  (`domain::{entity, relationship, workspace, catalog, repository}`), the use
  cases (`application::workspace::{create, open, delete, list_recent}`, each
  a state machine whose verified step function takes a storage reply to the
  next state, driven by the use case's `execute`), text
  trimming (`text`), random identifiers (`identifier`), the storage failures
  the use cases read (`io_failure`), and the file locations and the
  decisions on read and delete failures of the file-based storage
  (`infrastructure`).
- `app/` holds the file-based storage: JSON files written through a
  temporary file, the classification of `std::io::Error` values into
  storage failures, and serializable mirrors of the domain types.
- `tests/` runs the use cases against in-memory storage and exercises the
  domain model.

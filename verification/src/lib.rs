//! Domain model and use cases of a workspace manager: workspaces holding
//! entities and relationships, a catalog of recently used workspaces, and the
//! use cases that create, open, delete and list workspaces through storage
//! abstractions.

pub mod text;
pub mod identifier;
pub mod seq_facts;
pub mod io_failure;
pub mod domain;
pub mod application;
pub mod infrastructure;

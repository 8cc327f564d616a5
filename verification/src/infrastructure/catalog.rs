//! The catalog as kept in a file, together with the domain catalog types it
//! stores, under one path.

pub use crate::domain::catalog::{WorkspaceCatalog, WorkspaceCatalogStore, WorkspaceEntry};
pub use crate::infrastructure::FileWorkspaceCatalogStore;

//! Workspaces as kept in files.

pub use crate::infrastructure::WorkspaceFileRepository;

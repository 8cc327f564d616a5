//! Where workspaces are kept.

use vstd::prelude::*;
use crate::domain::workspace::Workspace;
use crate::io_failure::StorageFailure;

verus! {

/// Storage of workspaces, each at a location given as text. Implementations
/// decide how; nothing is assumed of what they answer.
pub trait WorkspaceRepository {
    /// Stores `workspace` at `path`, replacing what was there.
    fn save(&self, workspace: &Workspace, path: &str) -> Result<(), StorageFailure>;

    /// The workspace stored at `path`.
    fn load(&self, path: &str) -> Result<Workspace, StorageFailure>;

    /// Removes the workspace stored at `path`.
    fn delete(&self, path: &str) -> Result<(), StorageFailure>;

    /// Whether a workspace is stored at `path`; unless an implementation says
    /// otherwise, whether loading it succeeds.
    fn exists_at(&self, path: &str) -> bool {
        self.load(path).is_ok()
    }
}

} // verus!

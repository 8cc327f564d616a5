//! Use cases on workspaces.

pub mod create;
pub mod delete;
pub mod list_recent;
pub mod open;
pub mod protocol;

use vstd::prelude::*;
use crate::domain::workspace::Workspace;
use crate::identifier::is_v4_uuid_text;
use crate::text::is_blank_text;

verus! {

/// Entry points that act on a workspace held in memory.
pub struct WorkspaceApplication;

impl WorkspaceApplication {
    /// A new empty workspace named `name`, with a fresh random identifier.
    pub fn create(name: &str) -> (w: Workspace)
        ensures
            is_v4_uuid_text(w.id.0@),
            w.name@ == name@,
            w.entities@.len() == 0,
            w.relationships@.len() == 0,
    {
        Workspace::new(name)
    }

    /// Renames `workspace`; a blank name is refused by the precondition.
    pub fn rename(workspace: &mut Workspace, name: &str)
        requires
            !is_blank_text(name@),
        ensures
            final(workspace).name@ == name@,
            final(workspace).id == old(workspace).id,
            final(workspace).entities == old(workspace).entities,
            final(workspace).relationships == old(workspace).relationships,
    {
        workspace.rename(name);
    }
}

} // verus!

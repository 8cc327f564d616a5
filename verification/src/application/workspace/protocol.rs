//! What storage answers to the requests of the use cases. Each use case is a
//! state machine: every state but the final one waits for the answer to one
//! storage request, and a verified step function takes that answer to the
//! next state.

use vstd::prelude::*;
use vstd::string::StringExecFns;
use crate::domain::catalog::{WorkspaceCatalog, WorkspaceCatalogStore};
use crate::domain::repository::WorkspaceRepository;
use crate::domain::workspace::Workspace;
use crate::io_failure::StorageFailure;

verus! {

/// A request to storage.
pub enum StorageRequest<'a> {
    /// Is a workspace stored at this location?
    IsOccupied(&'a str),
    /// Store this workspace at this location.
    SaveWorkspace(&'a Workspace, &'a str),
    /// Load the workspace stored at this location.
    LoadWorkspace(&'a str),
    /// Remove the workspace stored at this location.
    RemoveWorkspace(&'a str),
    /// Load the catalog.
    LoadCatalog,
    /// Replace the stored catalog with this one.
    SaveCatalog(&'a WorkspaceCatalog),
    /// Nothing: the use case is over.
    Nothing,
}

/// The answer of storage to one request.
pub enum StorageReply {
    /// Whether a workspace is stored at the location asked about.
    Occupied(bool),
    /// The outcome of storing, removing or saving something.
    Written(Result<(), StorageFailure>),
    /// The outcome of loading a workspace.
    WorkspaceLoaded(Result<Workspace, StorageFailure>),
    /// The outcome of loading the catalog.
    CatalogLoaded(Result<WorkspaceCatalog, StorageFailure>),
}

/// `reply` is of the kind that answers `request`.
pub open spec fn answers(request: StorageRequest, reply: StorageReply) -> bool {
    match request {
        StorageRequest::IsOccupied(_) => reply is Occupied,
        StorageRequest::SaveWorkspace(_, _) => reply is Written,
        StorageRequest::LoadWorkspace(_) => reply is WorkspaceLoaded,
        StorageRequest::RemoveWorkspace(_) => reply is Written,
        StorageRequest::LoadCatalog => reply is CatalogLoaded,
        StorageRequest::SaveCatalog(_) => reply is Written,
        StorageRequest::Nothing => false,
    }
}

/// `reply` is an answer that storage can give to `request`: the value that
/// the call the request stands for (`exists_at`, `save`, `load` or `delete`
/// on `repository`, `load` or `save` on `catalog_store`), made with the
/// request's arguments, can return.
pub open spec fn performed<R: WorkspaceRepository, C: WorkspaceCatalogStore>(
    repository: &R,
    catalog_store: &C,
    request: StorageRequest,
    reply: StorageReply,
) -> bool {
    match request {
        StorageRequest::IsOccupied(path) => reply matches StorageReply::Occupied(b)
            && call_ensures(R::exists_at, (repository, path), b),
        StorageRequest::SaveWorkspace(workspace, path) => reply matches StorageReply::Written(r)
            && call_ensures(R::save, (repository, workspace, path), r),
        StorageRequest::LoadWorkspace(path) => reply matches StorageReply::WorkspaceLoaded(r)
            && call_ensures(R::load, (repository, path), r),
        StorageRequest::RemoveWorkspace(path) => reply matches StorageReply::Written(r)
            && call_ensures(R::delete, (repository, path), r),
        StorageRequest::LoadCatalog => reply matches StorageReply::CatalogLoaded(r) && call_ensures(
            C::load,
            (catalog_store,),
            r,
        ),
        StorageRequest::SaveCatalog(catalog) => reply matches StorageReply::Written(r)
            && call_ensures(C::save, (catalog_store, catalog), r),
        StorageRequest::Nothing => false,
    }
}

/// Makes `request`: `exists_at`, `save`, `load` or `delete` on the
/// repository, or `load` or `save` on the catalog store, with the request's
/// arguments, and returns the answer as a reply. What storage answers is up
/// to its implementation.
pub fn perform<R: WorkspaceRepository, C: WorkspaceCatalogStore>(
    repository: &R,
    catalog_store: &C,
    request: StorageRequest,
) -> (reply: StorageReply)
    requires
        !(request is Nothing),
    ensures
        answers(request, reply),
        performed(repository, catalog_store, request, reply),
{
    match request {
        StorageRequest::IsOccupied(path) => StorageReply::Occupied(repository.exists_at(path)),
        StorageRequest::SaveWorkspace(workspace, path) => StorageReply::Written(
            repository.save(workspace, path),
        ),
        StorageRequest::LoadWorkspace(path) => StorageReply::WorkspaceLoaded(repository.load(path)),
        StorageRequest::RemoveWorkspace(path) => StorageReply::Written(repository.delete(path)),
        StorageRequest::LoadCatalog => StorageReply::CatalogLoaded(catalog_store.load()),
        StorageRequest::SaveCatalog(catalog) => StorageReply::Written(catalog_store.save(catalog)),
        StorageRequest::Nothing => StorageReply::Occupied(false),
    }
}

/// The text shown for a storage failure: `prefix` followed by `detail`, the
/// failure's own description.
pub fn failure_message(prefix: &str, detail: &str) -> (m: String)
    ensures
        m@ == prefix@ + detail@,
{
    let mut m = prefix.to_owned();
    m.append(detail);
    m
}

} // verus!

//! Creating a workspace at a location and registering it in the catalog.

use vstd::prelude::*;
use vstd::string::StringExecFns;
use crate::application::workspace::protocol::{
    failure_message, perform, performed, StorageReply, StorageRequest,
};
use crate::domain::catalog::{
    is_entry_for, with_entry, WorkspaceCatalog, WorkspaceCatalogStore, WorkspaceEntry,
};
use crate::domain::repository::WorkspaceRepository;
use crate::domain::workspace::Workspace;
use crate::identifier::{is_fresh_uuid, is_v4_uuid_text};
use crate::io_failure::{new_io_error, CreatedErrorKind, StorageFailure};
use crate::text::{is_blank, is_blank_text, trim, trimmed};

verus! {

/// Why a workspace could not be created.
#[derive(Debug)]
pub enum CreateWorkspaceError {
    /// The name is blank.
    EmptyName,
    /// A workspace is already stored at this location.
    AlreadyExists(String),
    /// Storing the workspace failed.
    Repository(StorageFailure),
    /// Loading or saving the catalog failed.
    Catalog(StorageFailure),
}

impl CreateWorkspaceError {
    /// The storage failure underneath the error, if any.
    pub fn source(&self) -> (e: Option<&std::io::Error>)
        ensures
            self matches CreateWorkspaceError::Repository(failure) ==> (e matches Some(inner) && *inner
                == failure.error),
            self matches CreateWorkspaceError::Catalog(failure) ==> (e matches Some(inner) && *inner
                == failure.error),
            !(self is Repository || self is Catalog) ==> e is None,
    {
        match self {
            CreateWorkspaceError::Repository(failure) => Some(&failure.error),
            CreateWorkspaceError::Catalog(failure) => Some(&failure.error),
            _ => None,
        }
    }

    /// The text shown for the error.
    pub fn message(&self) -> (m: String)
        ensures
            self is EmptyName ==> m@ == "Workspace name cannot be empty"@,
            self matches CreateWorkspaceError::AlreadyExists(path) ==> m@
                == "Workspace already exists at path: "@ + path@,
            self matches CreateWorkspaceError::Repository(failure) ==> m@ == "Repository error: "@
                + failure.description@,
            self matches CreateWorkspaceError::Catalog(failure) ==> m@ == "Catalog error: "@
                + failure.description@,
    {
        match self {
            CreateWorkspaceError::EmptyName => "Workspace name cannot be empty".to_owned(),
            CreateWorkspaceError::AlreadyExists(path) => {
                let mut m = "Workspace already exists at path: ".to_owned();
                m.append(path.as_str());
                m
            },
            CreateWorkspaceError::Repository(failure) => failure_message(
                "Repository error: ",
                failure.description.as_str(),
            ),
            CreateWorkspaceError::Catalog(failure) => failure_message(
                "Catalog error: ",
                failure.description.as_str(),
            ),
        }
    }

    /// The kind and text of the `std::io::Error` that the library builds for
    /// this error: `InvalidInput` with the message for a blank name,
    /// `AlreadyExists` with the message for an occupied location; `None` for
    /// a storage failure, which is handed back as it came.
    pub fn io_error_parts(&self) -> (p: Option<(CreatedErrorKind, String)>)
        ensures
            self is EmptyName ==> (p matches Some((kind, text)) && kind is InvalidInput && text@
                == "Workspace name cannot be empty"@),
            self matches CreateWorkspaceError::AlreadyExists(path) ==> (p matches Some((kind, text))
                && kind is AlreadyExists && text@ == "Workspace already exists at path: "@ + path@),
            (self is Repository || self is Catalog) ==> p is None,
    {
        match self {
            CreateWorkspaceError::EmptyName => Some((CreatedErrorKind::InvalidInput, self.message())),
            CreateWorkspaceError::AlreadyExists(_) => Some(
                (CreatedErrorKind::AlreadyExists, self.message()),
            ),
            CreateWorkspaceError::Repository(_) => None,
            CreateWorkspaceError::Catalog(_) => None,
        }
    }

    /// The error as an `std::io::Error`: one built from `io_error_parts` when
    /// there are parts, the storage failure as it came otherwise.
    pub fn into_io_error(self) -> (e: std::io::Error)
        ensures
            self matches CreateWorkspaceError::Repository(failure) ==> e == failure.error,
            self matches CreateWorkspaceError::Catalog(failure) ==> e == failure.error,
    {
        match self.io_error_parts() {
            Some((kind, text)) => new_io_error(kind, text),
            None => match self {
                CreateWorkspaceError::Repository(failure) => failure.error,
                CreateWorkspaceError::Catalog(failure) => failure.error,
                _ => {
                    assert(false);
                    new_io_error(CreatedErrorKind::InvalidInput, String::new())
                },
            },
        }
    }
}

/// Where a creation stands. Every state but `Finished` waits for the answer
/// to one storage request:
/// - `CheckingLocation`: whether a workspace is stored at `path`;
/// - `SavingWorkspace`: storing `workspace` at `path`;
/// - `LoadingCatalog`: loading the catalog;
/// - `SavingCatalog`: saving `catalog`, which already lists `workspace`.
pub enum CreateState {
    CheckingLocation { workspace: Workspace, path: String },
    SavingWorkspace { workspace: Workspace, path: String },
    LoadingCatalog { workspace: Workspace, path: String },
    SavingCatalog { workspace: Workspace, path: String, catalog: WorkspaceCatalog },
    Finished(Result<Workspace, CreateWorkspaceError>),
}

/// `reply` answers the request that `state` waits for.
pub open spec fn create_awaits(state: CreateState, reply: StorageReply) -> bool {
    match state {
        CreateState::CheckingLocation { .. } => reply is Occupied,
        CreateState::SavingWorkspace { .. } => reply is Written,
        CreateState::LoadingCatalog { .. } => reply is CatalogLoaded,
        CreateState::SavingCatalog { .. } => reply is Written,
        CreateState::Finished(_) => false,
    }
}

/// `request` is the storage request that `state` makes: whether `path` is
/// occupied; storing `workspace` at `path`; loading the catalog; saving
/// `catalog`; nothing once finished.
pub open spec fn create_asks(state: CreateState, request: StorageRequest) -> bool {
    match state {
        CreateState::CheckingLocation { path, .. } => request matches StorageRequest::IsOccupied(p)
            && p@ == path@,
        CreateState::SavingWorkspace { workspace, path } => request matches StorageRequest::SaveWorkspace(
            w,
            p,
        ) && *w == workspace && p@ == path@,
        CreateState::LoadingCatalog { .. } => request is LoadCatalog,
        CreateState::SavingCatalog { catalog, .. } => request matches StorageRequest::SaveCatalog(c)
            && *c == catalog,
        CreateState::Finished(_) => request is Nothing,
    }
}

/// `next` is the state that `state` moves to on `reply`.
pub open spec fn create_follows(state: CreateState, reply: StorageReply, next: CreateState) -> bool {
    match state {
        CreateState::CheckingLocation { workspace, path } => match reply {
            StorageReply::Occupied(true) => next matches CreateState::Finished(
                Err(CreateWorkspaceError::AlreadyExists(p)),
            ) && p@ == path@,
            StorageReply::Occupied(false) => next == CreateState::SavingWorkspace {
                workspace,
                path,
            },
            _ => false,
        },
        CreateState::SavingWorkspace { workspace, path } => match reply {
            StorageReply::Written(Ok(())) => next == CreateState::LoadingCatalog { workspace, path },
            StorageReply::Written(Err(e)) => next == CreateState::Finished(
                Err(CreateWorkspaceError::Repository(e)),
            ),
            _ => false,
        },
        CreateState::LoadingCatalog { workspace, path } => match reply {
            StorageReply::CatalogLoaded(Ok(c)) => next matches CreateState::SavingCatalog {
                workspace: w,
                path: p,
                catalog,
            } && w == workspace && p == path && catalog@.len() > 0 && is_entry_for(
                catalog@[0],
                workspace,
                path@,
            ) && catalog@ == with_entry(c@, catalog@[0]),
            StorageReply::CatalogLoaded(Err(e)) => next == CreateState::Finished(
                Err(CreateWorkspaceError::Catalog(e)),
            ),
            _ => false,
        },
        CreateState::SavingCatalog { workspace, path, catalog } => match reply {
            StorageReply::Written(Ok(())) => next == CreateState::Finished(Ok(workspace)),
            StorageReply::Written(Err(e)) => next == CreateState::Finished(
                Err(CreateWorkspaceError::Catalog(e)),
            ),
            _ => false,
        },
        CreateState::Finished(_) => false,
    }
}

/// How many storage requests `state` may still make at most.
pub open spec fn create_requests_left(state: CreateState) -> nat {
    match state {
        CreateState::CheckingLocation { .. } => 4,
        CreateState::SavingWorkspace { .. } => 3,
        CreateState::LoadingCatalog { .. } => 2,
        CreateState::SavingCatalog { .. } => 1,
        CreateState::Finished(_) => 0,
    }
}

/// What holds of every state of a creation of a workspace named `name` at
/// `location`: any workspace in it is the new one, named after the trimmed
/// name, empty, with a random identifier; any location in it is `location`;
/// and it has refused a blank name exactly when `name` is blank.
pub open spec fn create_state_fits(state: CreateState, name: Seq<char>, location: Seq<char>) -> bool {
    &&& (state matches CreateState::Finished(Err(CreateWorkspaceError::EmptyName))) <==> is_blank_text(name)
    &&& match state {
        CreateState::CheckingLocation { workspace, path } => new_workspace_named(workspace, name)
            && path@ == location,
        CreateState::SavingWorkspace { workspace, path } => new_workspace_named(workspace, name)
            && path@ == location,
        CreateState::LoadingCatalog { workspace, path } => new_workspace_named(workspace, name)
            && path@ == location,
        CreateState::SavingCatalog { workspace, path, .. } => new_workspace_named(workspace, name)
            && path@ == location,
        CreateState::Finished(Ok(workspace)) => new_workspace_named(workspace, name),
        CreateState::Finished(Err(CreateWorkspaceError::AlreadyExists(path))) => path@ == location,
        CreateState::Finished(_) => true,
    }
}

/// `workspace` is a new workspace named after `name` trimmed, with a freshly
/// generated identifier.
pub open spec fn new_workspace_named(workspace: Workspace, name: Seq<char>) -> bool {
    &&& workspace.name@ == trimmed(name)
    &&& is_v4_uuid_text(workspace.id.0@)
    &&& is_fresh_uuid(workspace.id.0)
    &&& workspace.entities@.len() == 0
    &&& workspace.relationships@.len() == 0
}

/// `state` is a first state of the creation of a workspace named `name` at
/// `location`: finished with `EmptyName` when the name is blank; otherwise
/// asking whether `location` is occupied, with a new workspace named after
/// the trimmed name ready.
pub open spec fn create_begins(state: CreateState, name: Seq<char>, location: Seq<char>) -> bool {
    &&& is_blank_text(name) ==> state == CreateState::Finished(Err(CreateWorkspaceError::EmptyName))
    &&& !is_blank_text(name) ==> (state matches CreateState::CheckingLocation { workspace, path }
        && new_workspace_named(workspace, name) && path@ == location)
}

/// `states` and `replies` record a run of the creation of a workspace named
/// `name` at `location`: it begins as `create_begins` says, each state waits
/// for the reply recorded next to it, and each state after the first is the
/// one the step function gives for the state and reply before it.
pub open spec fn create_run(
    name: Seq<char>,
    location: Seq<char>,
    states: Seq<CreateState>,
    replies: Seq<StorageReply>,
) -> bool {
    &&& states.len() == replies.len() + 1
    &&& create_begins(states[0], name, location)
    &&& forall|i: int|
        0 <= i < replies.len() ==> create_awaits(states[i], #[trigger] replies[i])
            && create_follows(states[i], replies[i], states[i + 1])
}

/// `reply` is an answer that storage can give, on `repository` and
/// `catalog_store`, to the request that `state` makes.
pub open spec fn create_answered_by<R: WorkspaceRepository, C: WorkspaceCatalogStore>(
    repository: &R,
    catalog_store: &C,
    state: CreateState,
    reply: StorageReply,
) -> bool {
    exists|q: StorageRequest| create_asks(state, q) && performed(repository, catalog_store, q, reply)
}

/// Every reply recorded in the run is an answer that storage can give to the
/// request its state makes, on `repository` and `catalog_store`.
pub open spec fn create_answered<R: WorkspaceRepository, C: WorkspaceCatalogStore>(
    repository: &R,
    catalog_store: &C,
    states: Seq<CreateState>,
    replies: Seq<StorageReply>,
) -> bool {
    forall|i: int|
        0 <= i < replies.len() ==> create_answered_by(
            repository,
            catalog_store,
            states[i],
            #[trigger] replies[i],
        )
}

/// A successful creation of a workspace at `location` returns the workspace
/// that it stored: the repository answered that `location` was free, its
/// `save` accepted the returned workspace at `location`, the catalog store's
/// `load` answered a catalog, and its `save` accepted that catalog with the
/// new workspace's entry put first.
pub proof fn law_created_workspace_is_stored_and_listed<R: WorkspaceRepository, C: WorkspaceCatalogStore>(
    repository: &R,
    catalog_store: &C,
    name: Seq<char>,
    location: Seq<char>,
    states: Seq<CreateState>,
    replies: Seq<StorageReply>,
    workspace: Workspace,
)
    requires
        create_run(name, location, states, replies),
        create_answered(repository, catalog_store, states, replies),
        states.last() == CreateState::Finished(Ok(workspace)),
    ensures
        exists|p: &str| p@ == location && call_ensures(R::exists_at, (repository, p), false),
        exists|p: &str|
            p@ == location && call_ensures(
                R::save,
                (repository, &workspace, p),
                Ok::<(), StorageFailure>(()),
            ),
        exists|loaded: WorkspaceCatalog, saved: WorkspaceCatalog|
            call_ensures(C::load, (catalog_store,), Ok::<WorkspaceCatalog, StorageFailure>(loaded))
                && saved@.len() > 0 && is_entry_for(saved@[0], workspace, location) && saved@
                == with_entry(loaded@, saved@[0]) && call_ensures(
                C::save,
                (catalog_store, &saved),
                Ok::<(), StorageFailure>(()),
            ),
{
    let n = replies.len();
    assert(n > 0);
    assert(create_follows(states[0], replies[0], states[1]));
    assert(states[1] is SavingWorkspace) by {
        if n > 1 {
            assert(create_follows(states[1], replies[1], states[2]));
        }
    }
    assert(n > 1);
    assert(create_follows(states[1], replies[1], states[2]));
    assert(states[2] is LoadingCatalog) by {
        if n > 2 {
            assert(create_follows(states[2], replies[2], states[3]));
        }
    }
    assert(n > 2);
    assert(create_follows(states[2], replies[2], states[3]));
    assert(states[3] is SavingCatalog) by {
        if n > 3 {
            assert(create_follows(states[3], replies[3], states[4]));
        }
    }
    assert(n > 3);
    assert(create_follows(states[3], replies[3], states[4]));
    assert(n == 4) by {
        if n > 4 {
            assert(create_follows(states[4], replies[4], states[5]));
        }
    }
    assert(create_answered_by(repository, catalog_store, states[0], replies[0]));
    assert(create_answered_by(repository, catalog_store, states[1], replies[1]));
    assert(create_answered_by(repository, catalog_store, states[2], replies[2]));
    assert(create_answered_by(repository, catalog_store, states[3], replies[3]));
    let q0 = choose|q: StorageRequest|
        create_asks(states[0], q) && performed(repository, catalog_store, q, replies[0]);
    let q1 = choose|q: StorageRequest|
        create_asks(states[1], q) && performed(repository, catalog_store, q, replies[1]);
    let q3 = choose|q: StorageRequest|
        create_asks(states[3], q) && performed(repository, catalog_store, q, replies[3]);
    assert(call_ensures(R::exists_at, (repository, q0->IsOccupied_0), false));
    let p1 = q1->SaveWorkspace_1;
    let stored = *(q1->SaveWorkspace_0);
    assert(replies[1]->Written_0->Ok_0 == ());
    assert(call_ensures(R::save, (repository, q1->SaveWorkspace_0, p1), Ok::<(), StorageFailure>(())));
    assert(stored == workspace);
    assert(call_ensures(R::save, (repository, &workspace, p1), Ok::<(), StorageFailure>(())));
    let loaded = replies[2]->CatalogLoaded_0->Ok_0;
    let saved = *(q3->SaveCatalog_0);
    assert(call_ensures(C::load, (catalog_store,), Ok::<WorkspaceCatalog, StorageFailure>(loaded)));
    assert(replies[3]->Written_0->Ok_0 == ());
    assert(call_ensures(C::save, (catalog_store, q3->SaveCatalog_0), Ok::<(), StorageFailure>(())));
    assert(call_ensures(C::save, (catalog_store, &saved), Ok::<(), StorageFailure>(())));
}

impl CreateState {
    /// The first state of the creation of a workspace named `name` at `path`:
    /// finished with `EmptyName` when the name is blank, before any storage
    /// request; otherwise asking whether `path` is occupied, with the new
    /// workspace ready.
    pub fn start(name: &str, path: &str) -> (s: CreateState)
        ensures
            create_begins(s, name@, path@),
    {
        if is_blank(name) {
            return CreateState::Finished(Err(CreateWorkspaceError::EmptyName));
        }
        let trimmed_name = trim(name);
        CreateState::CheckingLocation {
            workspace: Workspace::new(trimmed_name.as_str()),
            path: path.to_owned(),
        }
    }

    /// The storage request this state makes.
    pub fn request(&self) -> (q: StorageRequest<'_>)
        ensures
            create_asks(*self, q),
    {
        match self {
            CreateState::CheckingLocation { path, .. } => StorageRequest::IsOccupied(path.as_str()),
            CreateState::SavingWorkspace { workspace, path } => StorageRequest::SaveWorkspace(
                workspace,
                path.as_str(),
            ),
            CreateState::LoadingCatalog { .. } => StorageRequest::LoadCatalog,
            CreateState::SavingCatalog { catalog, .. } => StorageRequest::SaveCatalog(catalog),
            CreateState::Finished(_) => StorageRequest::Nothing,
        }
    }

    /// Whether the creation is over.
    pub fn is_finished(&self) -> (b: bool)
        ensures
            b == (self is Finished),
    {
        match self {
            CreateState::Finished(_) => true,
            _ => false,
        }
    }

    /// The state after `reply`: an occupied location ends the creation with
    /// `AlreadyExists`; a failure to store the workspace with `Repository`;
    /// a failure to load or save the catalog with `Catalog`; otherwise the
    /// next request follows, and the loaded catalog gets the new workspace's
    /// entry first before it is saved.
    pub fn step(self, reply: StorageReply) -> (next: CreateState)
        requires
            create_awaits(self, reply),
        ensures
            create_follows(self, reply, next),
            create_requests_left(next) < create_requests_left(self),
    {
        match self {
            CreateState::CheckingLocation { workspace, path } => match reply {
                StorageReply::Occupied(occupied) => {
                    if occupied {
                        CreateState::Finished(Err(CreateWorkspaceError::AlreadyExists(path)))
                    } else {
                        CreateState::SavingWorkspace { workspace, path }
                    }
                },
                _ => CreateState::CheckingLocation { workspace, path },
            },
            CreateState::SavingWorkspace { workspace, path } => match reply {
                StorageReply::Written(Ok(())) => CreateState::LoadingCatalog { workspace, path },
                StorageReply::Written(Err(e)) => CreateState::Finished(
                    Err(CreateWorkspaceError::Repository(e)),
                ),
                _ => CreateState::SavingWorkspace { workspace, path },
            },
            CreateState::LoadingCatalog { workspace, path } => match reply {
                StorageReply::CatalogLoaded(Ok(catalog)) => {
                    let mut catalog = catalog;
                    let entry = WorkspaceEntry::new(&workspace, path.as_str());
                    catalog.add(entry);
                    CreateState::SavingCatalog { workspace, path, catalog }
                },
                StorageReply::CatalogLoaded(Err(e)) => CreateState::Finished(
                    Err(CreateWorkspaceError::Catalog(e)),
                ),
                _ => CreateState::LoadingCatalog { workspace, path },
            },
            CreateState::SavingCatalog { workspace, path, catalog } => match reply {
                StorageReply::Written(Ok(())) => CreateState::Finished(Ok(workspace)),
                StorageReply::Written(Err(e)) => CreateState::Finished(
                    Err(CreateWorkspaceError::Catalog(e)),
                ),
                _ => CreateState::SavingCatalog { workspace, path, catalog },
            },
            CreateState::Finished(r) => CreateState::Finished(r),
        }
    }

    /// The outcome of a finished creation.
    pub fn outcome(self) -> (r: Result<Workspace, CreateWorkspaceError>)
        requires
            self is Finished,
        ensures
            self == CreateState::Finished(r),
    {
        match self {
            CreateState::Finished(r) => r,
            _ => {
                assert(false);
                Err(CreateWorkspaceError::EmptyName)
            },
        }
    }
}

/// Creates workspaces: checks the name and the location, stores the new
/// workspace, then registers it in the catalog.
pub struct CreateWorkspace<R, C> where R: WorkspaceRepository, C: WorkspaceCatalogStore {
    repository: R,
    catalog_store: C,
}

impl<R, C> CreateWorkspace<R, C> where R: WorkspaceRepository, C: WorkspaceCatalogStore {
    /// The repository the use case stores workspaces in.
    pub closed spec fn repository(&self) -> R {
        self.repository
    }

    /// The store the use case keeps the catalog in.
    pub closed spec fn catalog_store(&self) -> C {
        self.catalog_store
    }

    /// The use case working on `repository` and `catalog_store`.
    pub fn new(repository: R, catalog_store: C) -> (u: Self)
        ensures
            u.repository() == repository,
            u.catalog_store() == catalog_store,
    {
        CreateWorkspace { repository, catalog_store }
    }

    /// Creates a workspace named after `name` with its surrounding whitespace
    /// removed, stores it at `workspace_path` and registers it as the most
    /// recent entry of the catalog.
    ///
    /// Runs the creation from `CreateState::start`, making for each state the
    /// storage request `CreateState::request` gives, with `perform`, and
    /// moving on with `CreateState::step`, until the creation is finished. A
    /// blank name is refused before storage is asked anything. Every reply of
    /// the recorded run is an answer that the repository or the catalog store
    /// can give to the request its state makes; so a success means that the
    /// location was answered free, the returned workspace was stored there,
    /// and the loaded catalog with its entry put first was saved.
    pub fn execute(&self, name: &str, workspace_path: &str) -> (r: Result<
        Workspace,
        CreateWorkspaceError,
    >)
        ensures
            r matches Err(CreateWorkspaceError::EmptyName) <==> is_blank_text(name@),
            r matches Ok(w) ==> new_workspace_named(w, name@),
            r matches Err(CreateWorkspaceError::AlreadyExists(path)) ==> path@ == workspace_path@,
            exists|states: Seq<CreateState>, replies: Seq<StorageReply>|
                create_run(name@, workspace_path@, states, replies) && create_answered(
                    &self.repository(),
                    &self.catalog_store(),
                    states,
                    replies,
                ) && states.last() == CreateState::Finished(r),
            r matches Ok(workspace) ==> exists|p: &str|
                p@ == workspace_path@ && call_ensures(R::exists_at, (&self.repository(), p), false),
            r matches Ok(workspace) ==> exists|p: &str|
                p@ == workspace_path@ && call_ensures(
                    R::save,
                    (&self.repository(), &workspace, p),
                    Ok::<(), StorageFailure>(()),
                ),
            r matches Ok(workspace) ==> exists|loaded: WorkspaceCatalog, saved: WorkspaceCatalog|
                call_ensures(
                    C::load,
                    (&self.catalog_store(),),
                    Ok::<WorkspaceCatalog, StorageFailure>(loaded),
                ) && saved@.len() > 0 && is_entry_for(saved@[0], workspace, workspace_path@)
                    && saved@ == with_entry(loaded@, saved@[0]) && call_ensures(
                    C::save,
                    (&self.catalog_store(), &saved),
                    Ok::<(), StorageFailure>(()),
                ),
    {
        let mut state = CreateState::start(name, workspace_path);
        let ghost mut states: Seq<CreateState> = seq![state];
        let ghost mut replies: Seq<StorageReply> = Seq::empty();
        while !state.is_finished()
            invariant
                create_state_fits(state, name@, workspace_path@),
                create_run(name@, workspace_path@, states, replies),
                create_answered(&self.repository, &self.catalog_store, states, replies),
                states.last() == state,
            decreases create_requests_left(state),
        {
            let request = state.request();
            let ghost asked = request;
            let reply = perform(&self.repository, &self.catalog_store, request);
            let ghost before = state;
            let ghost answer = reply;
            state = state.step(reply);
            proof {
                let old_states = states;
                let old_replies = replies;
                states = old_states.push(state);
                replies = old_replies.push(answer);
                assert forall|i: int| 0 <= i < replies.len() implies create_awaits(
                    states[i],
                    #[trigger] replies[i],
                ) && create_follows(states[i], replies[i], states[i + 1]) by {
                    if i < old_replies.len() {
                        assert(states[i] == old_states[i]);
                        assert(states[i + 1] == old_states[i + 1]);
                        assert(replies[i] == old_replies[i]);
                    } else {
                        assert(states[i] == before);
                    }
                }
                assert(states[0] == old_states[0]);
                assert forall|i: int| 0 <= i < replies.len() implies create_answered_by(
                    &self.repository,
                    &self.catalog_store,
                    states[i],
                    #[trigger] replies[i],
                ) by {
                    if i < old_replies.len() {
                        assert(states[i] == old_states[i]);
                        assert(replies[i] == old_replies[i]);
                    } else {
                        assert(states[i] == before);
                        assert(replies[i] == answer);
                        assert(create_asks(states[i], asked));
                    }
                }
            }
        }
        let r = state.outcome();
        proof {
            if r is Ok {
                law_created_workspace_is_stored_and_listed(
                    &self.repository,
                    &self.catalog_store,
                    name@,
                    workspace_path@,
                    states,
                    replies,
                    r->Ok_0,
                );
            }
        }
        r
    }
}

} // verus!

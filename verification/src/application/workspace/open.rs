//! Opening a stored workspace and registering it in the catalog.

use vstd::prelude::*;
use vstd::string::StringExecFns;
use crate::application::workspace::protocol::{
    failure_message, perform, performed, StorageReply, StorageRequest,
};
use crate::domain::catalog::{
    is_entry_for, with_entry, WorkspaceCatalog, WorkspaceCatalogStore, WorkspaceEntry,
};
use crate::domain::repository::WorkspaceRepository;
use crate::domain::workspace::Workspace;
use crate::io_failure::{new_io_error, CreatedErrorKind, FailureKind, StorageFailure};

verus! {

/// Why a workspace could not be opened.
#[derive(Debug)]
pub enum OpenWorkspaceError {
    /// No workspace is stored at this location.
    NotFound(String),
    /// Loading the workspace failed for another reason.
    Repository(StorageFailure),
    /// Loading or saving the catalog failed.
    Catalog(StorageFailure),
}

impl OpenWorkspaceError {
    /// The error for a failed load of the workspace at `path`: `NotFound`
    /// when the failure says that nothing is stored there, the failure itself
    /// otherwise.
    pub fn from_load_failure(failure: StorageFailure, path: &str) -> (e: OpenWorkspaceError)
        ensures
            failure.kind == FailureKind::NothingThere ==> (e matches OpenWorkspaceError::NotFound(p)
                && p@ == path@),
            failure.kind != FailureKind::NothingThere ==> e == OpenWorkspaceError::Repository(
                failure,
            ),
    {
        match failure.kind {
            FailureKind::NothingThere => OpenWorkspaceError::NotFound(path.to_owned()),
            FailureKind::Other => OpenWorkspaceError::Repository(failure),
        }
    }

    /// The storage failure underneath the error, if any.
    pub fn source(&self) -> (e: Option<&std::io::Error>)
        ensures
            self matches OpenWorkspaceError::Repository(failure) ==> (e matches Some(inner) && *inner
                == failure.error),
            self matches OpenWorkspaceError::Catalog(failure) ==> (e matches Some(inner) && *inner
                == failure.error),
            !(self is Repository || self is Catalog) ==> e is None,
    {
        match self {
            OpenWorkspaceError::Repository(failure) => Some(&failure.error),
            OpenWorkspaceError::Catalog(failure) => Some(&failure.error),
            _ => None,
        }
    }

    /// The text shown for the error.
    pub fn message(&self) -> (m: String)
        ensures
            self matches OpenWorkspaceError::NotFound(path) ==> m@
                == "Workspace not found at path: "@ + path@,
            self matches OpenWorkspaceError::Repository(failure) ==> m@ == "Repository error: "@
                + failure.description@,
            self matches OpenWorkspaceError::Catalog(failure) ==> m@ == "Catalog error: "@
                + failure.description@,
    {
        match self {
            OpenWorkspaceError::NotFound(path) => {
                let mut m = "Workspace not found at path: ".to_owned();
                m.append(path.as_str());
                m
            },
            OpenWorkspaceError::Repository(failure) => failure_message(
                "Repository error: ",
                failure.description.as_str(),
            ),
            OpenWorkspaceError::Catalog(failure) => failure_message(
                "Catalog error: ",
                failure.description.as_str(),
            ),
        }
    }

    /// The kind and text of the `std::io::Error` that the library builds for
    /// this error: `NotFound` with the message for a missing workspace;
    /// `None` for a storage failure, which is handed back as it came.
    pub fn io_error_parts(&self) -> (p: Option<(CreatedErrorKind, String)>)
        ensures
            self matches OpenWorkspaceError::NotFound(path) ==> (p matches Some((kind, text))
                && kind is NotFound && text@ == "Workspace not found at path: "@ + path@),
            (self is Repository || self is Catalog) ==> p is None,
    {
        match self {
            OpenWorkspaceError::NotFound(_) => Some((CreatedErrorKind::NotFound, self.message())),
            OpenWorkspaceError::Repository(_) => None,
            OpenWorkspaceError::Catalog(_) => None,
        }
    }

    /// The error as an `std::io::Error`: one built from `io_error_parts` when
    /// there are parts, the storage failure as it came otherwise.
    pub fn into_io_error(self) -> (e: std::io::Error)
        ensures
            self matches OpenWorkspaceError::Repository(failure) ==> e == failure.error,
            self matches OpenWorkspaceError::Catalog(failure) ==> e == failure.error,
    {
        match self.io_error_parts() {
            Some((kind, text)) => new_io_error(kind, text),
            None => match self {
                OpenWorkspaceError::Repository(failure) => failure.error,
                OpenWorkspaceError::Catalog(failure) => failure.error,
                _ => {
                    assert(false);
                    new_io_error(CreatedErrorKind::NotFound, String::new())
                },
            },
        }
    }
}

/// Where an opening stands. Every state but `Finished` waits for the answer
/// to one storage request:
/// - `LoadingWorkspace`: loading the workspace stored at `path`;
/// - `LoadingCatalog`: loading the catalog;
/// - `SavingCatalog`: saving `catalog`, which already lists `workspace`.
pub enum OpenState {
    LoadingWorkspace { path: String },
    LoadingCatalog { workspace: Workspace, path: String },
    SavingCatalog { workspace: Workspace, path: String, catalog: WorkspaceCatalog },
    Finished(Result<Workspace, OpenWorkspaceError>),
}

/// `reply` answers the request that `state` waits for.
pub open spec fn open_awaits(state: OpenState, reply: StorageReply) -> bool {
    match state {
        OpenState::LoadingWorkspace { .. } => reply is WorkspaceLoaded,
        OpenState::LoadingCatalog { .. } => reply is CatalogLoaded,
        OpenState::SavingCatalog { .. } => reply is Written,
        OpenState::Finished(_) => false,
    }
}

/// `request` is the storage request that `state` makes: loading the
/// workspace at `path`; loading the catalog; saving `catalog`; nothing once
/// finished.
pub open spec fn open_asks(state: OpenState, request: StorageRequest) -> bool {
    match state {
        OpenState::LoadingWorkspace { path } => request matches StorageRequest::LoadWorkspace(p)
            && p@ == path@,
        OpenState::LoadingCatalog { .. } => request is LoadCatalog,
        OpenState::SavingCatalog { catalog, .. } => request matches StorageRequest::SaveCatalog(c)
            && *c == catalog,
        OpenState::Finished(_) => request is Nothing,
    }
}

/// `next` is the state that `state` moves to on `reply`.
pub open spec fn open_follows(state: OpenState, reply: StorageReply, next: OpenState) -> bool {
    match state {
        OpenState::LoadingWorkspace { path } => match reply {
            StorageReply::WorkspaceLoaded(Ok(workspace)) => next == OpenState::LoadingCatalog {
                workspace,
                path,
            },
            StorageReply::WorkspaceLoaded(Err(failure)) => if failure.kind
                == FailureKind::NothingThere {
                next matches OpenState::Finished(Err(OpenWorkspaceError::NotFound(p))) && p@
                    == path@
            } else {
                next == OpenState::Finished(Err(OpenWorkspaceError::Repository(failure)))
            },
            _ => false,
        },
        OpenState::LoadingCatalog { workspace, path } => match reply {
            StorageReply::CatalogLoaded(Ok(c)) => next matches OpenState::SavingCatalog {
                workspace: w,
                path: p,
                catalog,
            } && w == workspace && p == path && catalog@.len() > 0 && is_entry_for(
                catalog@[0],
                workspace,
                path@,
            ) && catalog@ == with_entry(c@, catalog@[0]),
            StorageReply::CatalogLoaded(Err(e)) => next == OpenState::Finished(
                Err(OpenWorkspaceError::Catalog(e)),
            ),
            _ => false,
        },
        OpenState::SavingCatalog { workspace, path, catalog } => match reply {
            StorageReply::Written(Ok(())) => next == OpenState::Finished(Ok(workspace)),
            StorageReply::Written(Err(e)) => next == OpenState::Finished(
                Err(OpenWorkspaceError::Catalog(e)),
            ),
            _ => false,
        },
        OpenState::Finished(_) => false,
    }
}

/// How many storage requests `state` may still make at most.
pub open spec fn open_requests_left(state: OpenState) -> nat {
    match state {
        OpenState::LoadingWorkspace { .. } => 3,
        OpenState::LoadingCatalog { .. } => 2,
        OpenState::SavingCatalog { .. } => 1,
        OpenState::Finished(_) => 0,
    }
}

/// What holds of every state of the opening of the workspace at `location`:
/// any location in it is `location`.
pub open spec fn open_state_fits(state: OpenState, location: Seq<char>) -> bool {
    match state {
        OpenState::LoadingWorkspace { path } => path@ == location,
        OpenState::LoadingCatalog { path, .. } => path@ == location,
        OpenState::SavingCatalog { path, .. } => path@ == location,
        OpenState::Finished(Err(OpenWorkspaceError::NotFound(path))) => path@ == location,
        OpenState::Finished(_) => true,
    }
}

/// `states` and `replies` record a run of the opening of the workspace at
/// `location`: it starts by loading the workspace there, each state waits for
/// the reply recorded next to it, and each state after the first is the one
/// the step function gives for the state and reply before it.
pub open spec fn open_run(
    location: Seq<char>,
    states: Seq<OpenState>,
    replies: Seq<StorageReply>,
) -> bool {
    &&& states.len() == replies.len() + 1
    &&& states[0] matches OpenState::LoadingWorkspace { path } && path@ == location
    &&& forall|i: int|
        0 <= i < replies.len() ==> open_awaits(states[i], #[trigger] replies[i])
            && open_follows(states[i], replies[i], states[i + 1])
}

/// `reply` is an answer that storage can give, on `repository` and
/// `catalog_store`, to the request that `state` makes.
pub open spec fn open_answered_by<R: WorkspaceRepository, C: WorkspaceCatalogStore>(
    repository: &R,
    catalog_store: &C,
    state: OpenState,
    reply: StorageReply,
) -> bool {
    exists|q: StorageRequest| open_asks(state, q) && performed(repository, catalog_store, q, reply)
}

/// Every reply recorded in the run is an answer that storage can give to the
/// request its state makes, on `repository` and `catalog_store`.
pub open spec fn open_answered<R: WorkspaceRepository, C: WorkspaceCatalogStore>(
    repository: &R,
    catalog_store: &C,
    states: Seq<OpenState>,
    replies: Seq<StorageReply>,
) -> bool {
    forall|i: int|
        0 <= i < replies.len() ==> open_answered_by(repository, catalog_store, states[i], #[trigger] replies[i])
}

/// A successful opening of the workspace at `location` returns the very
/// workspace that the repository's `load` answered for that location, after
/// the catalog store's `load` answered a catalog and its `save` accepted
/// that catalog with the workspace's entry put first.
pub proof fn law_opened_workspace_is_the_loaded_one<R: WorkspaceRepository, C: WorkspaceCatalogStore>(
    repository: &R,
    catalog_store: &C,
    location: Seq<char>,
    states: Seq<OpenState>,
    replies: Seq<StorageReply>,
    workspace: Workspace,
)
    requires
        open_run(location, states, replies),
        open_answered(repository, catalog_store, states, replies),
        states.last() == OpenState::Finished(Ok(workspace)),
    ensures
        exists|p: &str|
            p@ == location && call_ensures(
                R::load,
                (repository, p),
                Ok::<Workspace, StorageFailure>(workspace),
            ),
        exists|loaded: WorkspaceCatalog, saved: WorkspaceCatalog|
            call_ensures(C::load, (catalog_store,), Ok::<WorkspaceCatalog, StorageFailure>(loaded))
                && saved@.len() > 0 && is_entry_for(saved@[0], workspace, location) && saved@
                == with_entry(loaded@, saved@[0]) && call_ensures(
                C::save,
                (catalog_store, &saved),
                Ok::<(), StorageFailure>(()),
            ),
{
    let n = replies.len();
    assert(n > 0);
    assert(open_awaits(states[0], replies[0]) && open_follows(states[0], replies[0], states[1]));
    assert(states[1] is LoadingCatalog) by {
        if n > 1 {
            assert(open_follows(states[1], replies[1], states[2]));
        }
    }
    assert(n > 1);
    assert(open_follows(states[1], replies[1], states[2]));
    assert(states[2] is SavingCatalog) by {
        if n > 2 {
            assert(open_follows(states[2], replies[2], states[3]));
        }
    }
    assert(n > 2);
    assert(open_follows(states[2], replies[2], states[3]));
    assert(n == 3) by {
        if n > 3 {
            assert(open_follows(states[3], replies[3], states[4]));
        }
    }
    assert(open_answered_by(repository, catalog_store, states[0], replies[0]));
    assert(open_answered_by(repository, catalog_store, states[1], replies[1]));
    assert(open_answered_by(repository, catalog_store, states[2], replies[2]));
    let q0 = choose|q: StorageRequest|
        open_asks(states[0], q) && performed(repository, catalog_store, q, replies[0]);
    let q2 = choose|q: StorageRequest|
        open_asks(states[2], q) && performed(repository, catalog_store, q, replies[2]);
    let p = q0->LoadWorkspace_0;
    assert(call_ensures(R::load, (repository, p), Ok::<Workspace, StorageFailure>(workspace)));
    let loaded = replies[1]->CatalogLoaded_0->Ok_0;
    let saved = *(q2->SaveCatalog_0);
    assert(call_ensures(C::load, (catalog_store,), Ok::<WorkspaceCatalog, StorageFailure>(loaded)));
    assert(replies[2]->Written_0->Ok_0 == ());
    assert(call_ensures(C::save, (catalog_store, q2->SaveCatalog_0), Ok::<(), StorageFailure>(())));
    assert(call_ensures(C::save, (catalog_store, &saved), Ok::<(), StorageFailure>(())));
}

/// An opening of the workspace at `location` reports `NotFound` only when the
/// repository's `load` answered, for that location, a failure whose kind is
/// `NothingThere`, and reports `Repository` with a failure only when `load`
/// answered that very failure, of another kind.
pub proof fn law_load_failures_are_classified<R: WorkspaceRepository, C: WorkspaceCatalogStore>(
    repository: &R,
    catalog_store: &C,
    location: Seq<char>,
    states: Seq<OpenState>,
    replies: Seq<StorageReply>,
    error: OpenWorkspaceError,
)
    requires
        open_run(location, states, replies),
        open_answered(repository, catalog_store, states, replies),
        states.last() == OpenState::Finished(Err(error)),
        error is NotFound || error is Repository,
    ensures
        error is NotFound ==> exists|p: &str, failure: StorageFailure|
            p@ == location && failure.kind == FailureKind::NothingThere && call_ensures(
                R::load,
                (repository, p),
                Err::<Workspace, StorageFailure>(failure),
            ),
        error matches OpenWorkspaceError::Repository(failure) ==> failure.kind
            != FailureKind::NothingThere && exists|p: &str|
            p@ == location && call_ensures(
                R::load,
                (repository, p),
                Err::<Workspace, StorageFailure>(failure),
            ),
{
    let n = replies.len();
    assert(n > 0);
    assert(open_follows(states[0], replies[0], states[1]));
    if n > 1 {
        assert(open_follows(states[1], replies[1], states[2]));
        if n > 2 {
            assert(open_follows(states[2], replies[2], states[3]));
            if n > 3 {
                assert(open_follows(states[3], replies[3], states[4]));
            }
        }
    }
    assert(n == 1);
    assert(open_answered_by(repository, catalog_store, states[0], replies[0]));
    let q0 = choose|q: StorageRequest|
        open_asks(states[0], q) && performed(repository, catalog_store, q, replies[0]);
    let p = q0->LoadWorkspace_0;
    let failure = replies[0]->WorkspaceLoaded_0->Err_0;
    assert(call_ensures(R::load, (repository, p), Err::<Workspace, StorageFailure>(failure)));
}

impl OpenState {
    /// The first state of the opening of the workspace at `path`: loading it.
    pub fn start(path: &str) -> (s: OpenState)
        ensures
            s matches OpenState::LoadingWorkspace { path: p } && p@ == path@,
    {
        OpenState::LoadingWorkspace { path: path.to_owned() }
    }

    /// The storage request this state makes.
    pub fn request(&self) -> (q: StorageRequest<'_>)
        ensures
            open_asks(*self, q),
    {
        match self {
            OpenState::LoadingWorkspace { path } => StorageRequest::LoadWorkspace(path.as_str()),
            OpenState::LoadingCatalog { .. } => StorageRequest::LoadCatalog,
            OpenState::SavingCatalog { catalog, .. } => StorageRequest::SaveCatalog(catalog),
            OpenState::Finished(_) => StorageRequest::Nothing,
        }
    }

    /// Whether the opening is over.
    pub fn is_finished(&self) -> (b: bool)
        ensures
            b == (self is Finished),
    {
        match self {
            OpenState::Finished(_) => true,
            _ => false,
        }
    }

    /// The state after `reply`: a failed load of the workspace ends the
    /// opening with `NotFound` when the failure's kind is `NothingThere` and
    /// with `Repository` otherwise; a failure to load or save the catalog ends it
    /// with `Catalog`; otherwise the next request follows, the loaded catalog
    /// gets the workspace's entry first before it is saved, and the loaded
    /// workspace is the outcome.
    pub fn step(self, reply: StorageReply) -> (next: OpenState)
        requires
            open_awaits(self, reply),
        ensures
            open_follows(self, reply, next),
            open_requests_left(next) < open_requests_left(self),
    {
        match self {
            OpenState::LoadingWorkspace { path } => match reply {
                StorageReply::WorkspaceLoaded(Ok(workspace)) => OpenState::LoadingCatalog {
                    workspace,
                    path,
                },
                StorageReply::WorkspaceLoaded(Err(failure)) => OpenState::Finished(
                    Err(OpenWorkspaceError::from_load_failure(failure, path.as_str())),
                ),
                _ => OpenState::LoadingWorkspace { path },
            },
            OpenState::LoadingCatalog { workspace, path } => match reply {
                StorageReply::CatalogLoaded(Ok(catalog)) => {
                    let mut catalog = catalog;
                    let entry = WorkspaceEntry::new(&workspace, path.as_str());
                    catalog.add(entry);
                    OpenState::SavingCatalog { workspace, path, catalog }
                },
                StorageReply::CatalogLoaded(Err(e)) => OpenState::Finished(
                    Err(OpenWorkspaceError::Catalog(e)),
                ),
                _ => OpenState::LoadingCatalog { workspace, path },
            },
            OpenState::SavingCatalog { workspace, path, catalog } => match reply {
                StorageReply::Written(Ok(())) => OpenState::Finished(Ok(workspace)),
                StorageReply::Written(Err(e)) => OpenState::Finished(
                    Err(OpenWorkspaceError::Catalog(e)),
                ),
                _ => OpenState::SavingCatalog { workspace, path, catalog },
            },
            OpenState::Finished(r) => OpenState::Finished(r),
        }
    }

    /// The outcome of a finished opening.
    pub fn outcome(self) -> (r: Result<Workspace, OpenWorkspaceError>)
        requires
            self is Finished,
        ensures
            self == OpenState::Finished(r),
    {
        match self {
            OpenState::Finished(r) => r,
            _ => {
                assert(false);
                Err(OpenWorkspaceError::NotFound(String::new()))
            },
        }
    }
}

/// Opens workspaces: loads the stored workspace, then registers it as the
/// most recent entry of the catalog.
pub struct OpenWorkspace<R, C> where R: WorkspaceRepository, C: WorkspaceCatalogStore {
    repository: R,
    catalog_store: C,
}

impl<R, C> OpenWorkspace<R, C> where R: WorkspaceRepository, C: WorkspaceCatalogStore {
    /// The repository the use case loads workspaces from.
    pub closed spec fn repository(&self) -> R {
        self.repository
    }

    /// The store the use case keeps the catalog in.
    pub closed spec fn catalog_store(&self) -> C {
        self.catalog_store
    }

    /// The use case working on `repository` and `catalog_store`.
    pub fn new(repository: R, catalog_store: C) -> (u: Self)
        ensures
            u.repository() == repository,
            u.catalog_store() == catalog_store,
    {
        OpenWorkspace { repository, catalog_store }
    }

    /// Loads the workspace stored at `workspace_path`, registers it as the
    /// most recent entry of the catalog and returns it.
    ///
    /// Runs the opening from `OpenState::start`, making for each state the
    /// storage request `OpenState::request` gives, with `perform`, and moving
    /// on with `OpenState::step`, until the opening is finished. Every reply
    /// of the recorded run is an answer that the repository or the catalog
    /// store can give to the request its state makes: a failed load whose
    /// kind is `NothingThere` is reported as `NotFound` with the location,
    /// and a success returns the workspace the repository loaded.
    pub fn execute(&self, workspace_path: &str) -> (r: Result<Workspace, OpenWorkspaceError>)
        ensures
            r matches Err(OpenWorkspaceError::NotFound(path)) ==> path@ == workspace_path@,
            exists|states: Seq<OpenState>, replies: Seq<StorageReply>|
                open_run(workspace_path@, states, replies) && open_answered(
                    &self.repository(),
                    &self.catalog_store(),
                    states,
                    replies,
                ) && states.last() == OpenState::Finished(r),
            r matches Err(OpenWorkspaceError::NotFound(_)) ==> exists|p: &str, failure: StorageFailure|
                p@ == workspace_path@ && failure.kind == FailureKind::NothingThere && call_ensures(
                    R::load,
                    (&self.repository(), p),
                    Err::<Workspace, StorageFailure>(failure),
                ),
            r matches Err(OpenWorkspaceError::Repository(failure)) ==> failure.kind
                != FailureKind::NothingThere && exists|p: &str|
                p@ == workspace_path@ && call_ensures(
                    R::load,
                    (&self.repository(), p),
                    Err::<Workspace, StorageFailure>(failure),
                ),
            r matches Ok(workspace) ==> exists|p: &str|
                p@ == workspace_path@ && call_ensures(
                    R::load,
                    (&self.repository(), p),
                    Ok::<Workspace, StorageFailure>(workspace),
                ),
            r matches Ok(workspace) ==> exists|loaded: WorkspaceCatalog, saved: WorkspaceCatalog|
                call_ensures(
                    C::load,
                    (&self.catalog_store(),),
                    Ok::<WorkspaceCatalog, StorageFailure>(loaded),
                ) && saved@.len() > 0 && is_entry_for(saved@[0], workspace, workspace_path@)
                    && saved@ == with_entry(loaded@, saved@[0]) && call_ensures(
                    C::save,
                    (&self.catalog_store(), &saved),
                    Ok::<(), StorageFailure>(()),
                ),
    {
        let mut state = OpenState::start(workspace_path);
        let ghost mut states: Seq<OpenState> = seq![state];
        let ghost mut replies: Seq<StorageReply> = Seq::empty();
        while !state.is_finished()
            invariant
                open_state_fits(state, workspace_path@),
                open_run(workspace_path@, states, replies),
                open_answered(&self.repository, &self.catalog_store, states, replies),
                states.last() == state,
            decreases open_requests_left(state),
        {
            let request = state.request();
            let ghost asked = request;
            let reply = perform(&self.repository, &self.catalog_store, request);
            let ghost before = state;
            let ghost answer = reply;
            assert(open_asks(before, asked) && performed(
                &self.repository,
                &self.catalog_store,
                asked,
                answer,
            ));
            state = state.step(reply);
            proof {
                let old_states = states;
                let old_replies = replies;
                states = old_states.push(state);
                replies = old_replies.push(answer);
                assert forall|i: int| 0 <= i < replies.len() implies open_awaits(
                    states[i],
                    #[trigger] replies[i],
                ) && open_follows(states[i], replies[i], states[i + 1]) by {
                    if i < old_replies.len() {
                        assert(states[i] == old_states[i]);
                        assert(states[i + 1] == old_states[i + 1]);
                        assert(replies[i] == old_replies[i]);
                    } else {
                        assert(states[i] == before);
                    }
                }
                assert(states[0] == old_states[0]);
                assert forall|i: int| 0 <= i < replies.len() implies open_answered_by(
                    &self.repository,
                    &self.catalog_store,
                    states[i],
                    #[trigger] replies[i],
                ) by {
                    if i < old_replies.len() {
                        assert(states[i] == old_states[i]);
                        assert(replies[i] == old_replies[i]);
                    } else {
                        assert(states[i] == before);
                        assert(replies[i] == answer);
                        assert(open_asks(states[i], asked));
                        assert(performed(&self.repository, &self.catalog_store, asked, replies[i]));
                    }
                }
            }
        }
        let r = state.outcome();
        proof {
            if r is Ok {
                law_opened_workspace_is_the_loaded_one(
                    &self.repository,
                    &self.catalog_store,
                    workspace_path@,
                    states,
                    replies,
                    r->Ok_0,
                );
            }
            if r matches Err(OpenWorkspaceError::NotFound(_)) || r matches Err(
                OpenWorkspaceError::Repository(_),
            ) {
                law_load_failures_are_classified(
                    &self.repository,
                    &self.catalog_store,
                    workspace_path@,
                    states,
                    replies,
                    r->Err_0,
                );
            }
        }
        r
    }
}

} // verus!

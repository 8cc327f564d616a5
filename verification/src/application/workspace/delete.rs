//! Deleting a workspace and forgetting it in the catalog.

use vstd::prelude::*;
use crate::application::workspace::protocol::{
    failure_message, perform, performed, StorageReply, StorageRequest,
};
use crate::domain::catalog::{path_differs, WorkspaceCatalog, WorkspaceCatalogStore};
use crate::domain::repository::WorkspaceRepository;
use crate::io_failure::StorageFailure;

verus! {

/// Why a workspace could not be deleted.
#[derive(Debug)]
pub enum DeleteWorkspaceError {
    /// Removing the workspace failed.
    Repository(StorageFailure),
    /// Loading or saving the catalog failed.
    Catalog(StorageFailure),
}

impl DeleteWorkspaceError {
    /// The storage failure underneath the error, if any.
    pub fn source(&self) -> (e: Option<&std::io::Error>)
        ensures
            self matches DeleteWorkspaceError::Repository(failure) ==> (e matches Some(inner) && *inner
                == failure.error),
            self matches DeleteWorkspaceError::Catalog(failure) ==> (e matches Some(inner) && *inner
                == failure.error),
    {
        match self {
            DeleteWorkspaceError::Repository(failure) => Some(&failure.error),
            DeleteWorkspaceError::Catalog(failure) => Some(&failure.error),
        }
    }

    /// The text shown for the error.
    pub fn message(&self) -> (m: String)
        ensures
            self matches DeleteWorkspaceError::Repository(failure) ==> m@ == "Repository error: "@
                + failure.description@,
            self matches DeleteWorkspaceError::Catalog(failure) ==> m@ == "Catalog error: "@
                + failure.description@,
    {
        match self {
            DeleteWorkspaceError::Repository(failure) => failure_message(
                "Repository error: ",
                failure.description.as_str(),
            ),
            DeleteWorkspaceError::Catalog(failure) => failure_message(
                "Catalog error: ",
                failure.description.as_str(),
            ),
        }
    }

    /// The storage failure inside the error, handed back as it came.
    pub fn into_io_error(self) -> (e: std::io::Error)
        ensures
            self matches DeleteWorkspaceError::Repository(failure) ==> e == failure.error,
            self matches DeleteWorkspaceError::Catalog(failure) ==> e == failure.error,
    {
        match self {
            DeleteWorkspaceError::Repository(failure) => failure.error,
            DeleteWorkspaceError::Catalog(failure) => failure.error,
        }
    }
}

/// Where a deletion stands. Every state but `Finished` waits for the answer
/// to one storage request:
/// - `RemovingWorkspace`: removing the workspace stored at `path`;
/// - `LoadingCatalog`: loading the catalog;
/// - `SavingCatalog`: saving `catalog`, which no longer lists `path`.
pub enum DeleteState {
    RemovingWorkspace { path: String },
    LoadingCatalog { path: String },
    SavingCatalog { catalog: WorkspaceCatalog },
    Finished(Result<(), DeleteWorkspaceError>),
}

/// `reply` answers the request that `state` waits for.
pub open spec fn delete_awaits(state: DeleteState, reply: StorageReply) -> bool {
    match state {
        DeleteState::RemovingWorkspace { .. } => reply is Written,
        DeleteState::LoadingCatalog { .. } => reply is CatalogLoaded,
        DeleteState::SavingCatalog { .. } => reply is Written,
        DeleteState::Finished(_) => false,
    }
}

/// `request` is the storage request that `state` makes: removing the
/// workspace at `path`; loading the catalog; saving `catalog`; nothing once
/// finished.
pub open spec fn delete_asks(state: DeleteState, request: StorageRequest) -> bool {
    match state {
        DeleteState::RemovingWorkspace { path } => request matches StorageRequest::RemoveWorkspace(
            p,
        ) && p@ == path@,
        DeleteState::LoadingCatalog { .. } => request is LoadCatalog,
        DeleteState::SavingCatalog { catalog } => request matches StorageRequest::SaveCatalog(c)
            && *c == catalog,
        DeleteState::Finished(_) => request is Nothing,
    }
}

/// `next` is the state that `state` moves to on `reply`.
pub open spec fn delete_follows(state: DeleteState, reply: StorageReply, next: DeleteState) -> bool {
    match state {
        DeleteState::RemovingWorkspace { path } => match reply {
            StorageReply::Written(Ok(())) => next == DeleteState::LoadingCatalog { path },
            StorageReply::Written(Err(e)) => next == DeleteState::Finished(
                Err(DeleteWorkspaceError::Repository(e)),
            ),
            _ => false,
        },
        DeleteState::LoadingCatalog { path } => match reply {
            StorageReply::CatalogLoaded(Ok(c)) => next matches DeleteState::SavingCatalog {
                catalog,
            } && catalog@ == c@.filter(path_differs(path@)),
            StorageReply::CatalogLoaded(Err(e)) => next == DeleteState::Finished(
                Err(DeleteWorkspaceError::Catalog(e)),
            ),
            _ => false,
        },
        DeleteState::SavingCatalog { .. } => match reply {
            StorageReply::Written(Ok(())) => next == DeleteState::Finished(Ok(())),
            StorageReply::Written(Err(e)) => next == DeleteState::Finished(
                Err(DeleteWorkspaceError::Catalog(e)),
            ),
            _ => false,
        },
        DeleteState::Finished(_) => false,
    }
}

/// How many storage requests `state` may still make at most.
pub open spec fn delete_requests_left(state: DeleteState) -> nat {
    match state {
        DeleteState::RemovingWorkspace { .. } => 3,
        DeleteState::LoadingCatalog { .. } => 2,
        DeleteState::SavingCatalog { .. } => 1,
        DeleteState::Finished(_) => 0,
    }
}

/// What holds of every state of the deletion of the workspace at
/// `location`: any location in it is `location`, and a catalog waiting to be
/// saved lists nothing at `location`.
pub open spec fn delete_state_fits(state: DeleteState, location: Seq<char>) -> bool {
    match state {
        DeleteState::RemovingWorkspace { path } => path@ == location,
        DeleteState::LoadingCatalog { path } => path@ == location,
        DeleteState::SavingCatalog { catalog } => forall|i: int|
            0 <= i < catalog@.len() ==> (#[trigger] catalog@[i]).path@ != location,
        DeleteState::Finished(_) => true,
    }
}

/// `states` and `replies` record a run of the deletion of the workspace at
/// `location`: it starts by removing the workspace there, each state waits
/// for the reply recorded next to it, and each state after the first is the
/// one the step function gives for the state and reply before it.
pub open spec fn delete_run(
    location: Seq<char>,
    states: Seq<DeleteState>,
    replies: Seq<StorageReply>,
) -> bool {
    &&& states.len() == replies.len() + 1
    &&& states[0] matches DeleteState::RemovingWorkspace { path } && path@ == location
    &&& forall|i: int|
        0 <= i < replies.len() ==> delete_awaits(states[i], #[trigger] replies[i])
            && delete_follows(states[i], replies[i], states[i + 1])
}

/// `reply` is an answer that storage can give, on `repository` and
/// `catalog_store`, to the request that `state` makes.
pub open spec fn delete_answered_by<R: WorkspaceRepository, C: WorkspaceCatalogStore>(
    repository: &R,
    catalog_store: &C,
    state: DeleteState,
    reply: StorageReply,
) -> bool {
    exists|q: StorageRequest| delete_asks(state, q) && performed(repository, catalog_store, q, reply)
}

/// Every reply recorded in the run is an answer that storage can give to the
/// request its state makes, on `repository` and `catalog_store`.
pub open spec fn delete_answered<R: WorkspaceRepository, C: WorkspaceCatalogStore>(
    repository: &R,
    catalog_store: &C,
    states: Seq<DeleteState>,
    replies: Seq<StorageReply>,
) -> bool {
    forall|i: int|
        0 <= i < replies.len() ==> delete_answered_by(
            repository,
            catalog_store,
            states[i],
            #[trigger] replies[i],
        )
}

/// A successful deletion of the workspace at `location` removed it through
/// the repository's `delete`, which accepted, and then saved, through the
/// catalog store's `save`, which accepted, exactly the catalog that the
/// store's `load` answered with every entry at `location` dropped and the
/// others kept in order.
pub proof fn law_deletion_forgets_the_location<R: WorkspaceRepository, C: WorkspaceCatalogStore>(
    repository: &R,
    catalog_store: &C,
    location: Seq<char>,
    states: Seq<DeleteState>,
    replies: Seq<StorageReply>,
)
    requires
        delete_run(location, states, replies),
        delete_answered(repository, catalog_store, states, replies),
        states.last() == DeleteState::Finished(Ok(())),
    ensures
        exists|p: &str|
            p@ == location && call_ensures(R::delete, (repository, p), Ok::<(), StorageFailure>(())),
        exists|loaded: WorkspaceCatalog, saved: WorkspaceCatalog|
            call_ensures(C::load, (catalog_store,), Ok::<WorkspaceCatalog, StorageFailure>(loaded))
                && saved@ == loaded@.filter(path_differs(location)) && call_ensures(
                C::save,
                (catalog_store, &saved),
                Ok::<(), StorageFailure>(()),
            ),
{
    let n = replies.len();
    assert(n > 0);
    assert(delete_follows(states[0], replies[0], states[1]));
    assert(states[1] is LoadingCatalog) by {
        if n > 1 {
            assert(delete_follows(states[1], replies[1], states[2]));
        }
    }
    assert(n > 1);
    assert(delete_follows(states[1], replies[1], states[2]));
    assert(states[2] is SavingCatalog) by {
        if n > 2 {
            assert(delete_follows(states[2], replies[2], states[3]));
        }
    }
    assert(n > 2);
    assert(delete_follows(states[2], replies[2], states[3]));
    assert(n == 3) by {
        if n > 3 {
            assert(delete_follows(states[3], replies[3], states[4]));
        }
    }
    assert(delete_answered_by(repository, catalog_store, states[0], replies[0]));
    assert(delete_answered_by(repository, catalog_store, states[1], replies[1]));
    assert(delete_answered_by(repository, catalog_store, states[2], replies[2]));
    let q0 = choose|q: StorageRequest|
        delete_asks(states[0], q) && performed(repository, catalog_store, q, replies[0]);
    let q2 = choose|q: StorageRequest|
        delete_asks(states[2], q) && performed(repository, catalog_store, q, replies[2]);
    let p = q0->RemoveWorkspace_0;
    assert(replies[0]->Written_0->Ok_0 == ());
    assert(call_ensures(R::delete, (repository, p), Ok::<(), StorageFailure>(())));
    let loaded = replies[1]->CatalogLoaded_0->Ok_0;
    let saved = *(q2->SaveCatalog_0);
    assert(call_ensures(C::load, (catalog_store,), Ok::<WorkspaceCatalog, StorageFailure>(loaded)));
    assert(replies[2]->Written_0->Ok_0 == ());
    assert(call_ensures(C::save, (catalog_store, q2->SaveCatalog_0), Ok::<(), StorageFailure>(())));
    assert(call_ensures(C::save, (catalog_store, &saved), Ok::<(), StorageFailure>(())));
}

impl DeleteState {
    /// The first state of the deletion of the workspace at `path`: removing
    /// it.
    pub fn start(path: &str) -> (s: DeleteState)
        ensures
            s matches DeleteState::RemovingWorkspace { path: p } && p@ == path@,
    {
        DeleteState::RemovingWorkspace { path: path.to_owned() }
    }

    /// The storage request this state makes.
    pub fn request(&self) -> (q: StorageRequest<'_>)
        ensures
            delete_asks(*self, q),
    {
        match self {
            DeleteState::RemovingWorkspace { path } => StorageRequest::RemoveWorkspace(path.as_str()),
            DeleteState::LoadingCatalog { .. } => StorageRequest::LoadCatalog,
            DeleteState::SavingCatalog { catalog } => StorageRequest::SaveCatalog(catalog),
            DeleteState::Finished(_) => StorageRequest::Nothing,
        }
    }

    /// Whether the deletion is over.
    pub fn is_finished(&self) -> (b: bool)
        ensures
            b == (self is Finished),
    {
        match self {
            DeleteState::Finished(_) => true,
            _ => false,
        }
    }

    /// The state after `reply`: a failure to remove the workspace ends the
    /// deletion with `Repository`; a failure to load or save the catalog
    /// with `Catalog`; otherwise the next request follows, and the loaded
    /// catalog loses its entries for the location before it is saved.
    pub fn step(self, reply: StorageReply) -> (next: DeleteState)
        requires
            delete_awaits(self, reply),
        ensures
            delete_follows(self, reply, next),
            delete_requests_left(next) < delete_requests_left(self),
    {
        match self {
            DeleteState::RemovingWorkspace { path } => match reply {
                StorageReply::Written(Ok(())) => DeleteState::LoadingCatalog { path },
                StorageReply::Written(Err(e)) => DeleteState::Finished(
                    Err(DeleteWorkspaceError::Repository(e)),
                ),
                _ => DeleteState::RemovingWorkspace { path },
            },
            DeleteState::LoadingCatalog { path } => match reply {
                StorageReply::CatalogLoaded(Ok(catalog)) => {
                    let mut catalog = catalog;
                    catalog.remove_by_path(path.as_str());
                    DeleteState::SavingCatalog { catalog }
                },
                StorageReply::CatalogLoaded(Err(e)) => DeleteState::Finished(
                    Err(DeleteWorkspaceError::Catalog(e)),
                ),
                _ => DeleteState::LoadingCatalog { path },
            },
            DeleteState::SavingCatalog { catalog } => match reply {
                StorageReply::Written(Ok(())) => DeleteState::Finished(Ok(())),
                StorageReply::Written(Err(e)) => DeleteState::Finished(
                    Err(DeleteWorkspaceError::Catalog(e)),
                ),
                _ => DeleteState::SavingCatalog { catalog },
            },
            DeleteState::Finished(r) => DeleteState::Finished(r),
        }
    }

    /// The outcome of a finished deletion.
    pub fn outcome(self) -> (r: Result<(), DeleteWorkspaceError>)
        requires
            self is Finished,
        ensures
            self == DeleteState::Finished(r),
    {
        match self {
            DeleteState::Finished(r) => r,
            _ => {
                assert(false);
                Ok(())
            },
        }
    }
}

/// Deletes workspaces: removes the stored workspace, then drops its location
/// from the catalog.
pub struct DeleteWorkspace<R, C> where R: WorkspaceRepository, C: WorkspaceCatalogStore {
    repository: R,
    catalog_store: C,
}

impl<R, C> DeleteWorkspace<R, C> where R: WorkspaceRepository, C: WorkspaceCatalogStore {
    /// The repository the use case removes workspaces from.
    pub closed spec fn repository(&self) -> R {
        self.repository
    }

    /// The store the use case keeps the catalog in.
    pub closed spec fn catalog_store(&self) -> C {
        self.catalog_store
    }

    /// The use case working on `repository` and `catalog_store`.
    pub fn new(repository: R, catalog_store: C) -> (u: Self)
        ensures
            u.repository() == repository,
            u.catalog_store() == catalog_store,
    {
        DeleteWorkspace { repository, catalog_store }
    }

    /// Removes the workspace stored at `workspace_path`, then saves the
    /// catalog without the entries for that location.
    ///
    /// Runs the deletion from `DeleteState::start`, making for each state the
    /// storage request `DeleteState::request` gives, with `perform`, and
    /// moving on with `DeleteState::step`, until the deletion is finished.
    /// Every reply of the recorded run is an answer that the repository or
    /// the catalog store can give to the request its state makes: the first
    /// failure ends the use case, wrapped as a repository or a catalog error
    /// according to where it happened, and a success means that the removal
    /// was accepted and the loaded catalog, without the location, was saved.
    pub fn execute(&self, workspace_path: &str) -> (r: Result<(), DeleteWorkspaceError>)
        ensures
            exists|states: Seq<DeleteState>, replies: Seq<StorageReply>|
                delete_run(workspace_path@, states, replies) && delete_answered(
                    &self.repository(),
                    &self.catalog_store(),
                    states,
                    replies,
                ) && states.last() == DeleteState::Finished(r),
            r is Ok ==> exists|p: &str|
                p@ == workspace_path@ && call_ensures(
                    R::delete,
                    (&self.repository(), p),
                    Ok::<(), StorageFailure>(()),
                ),
            r is Ok ==> exists|loaded: WorkspaceCatalog, saved: WorkspaceCatalog|
                call_ensures(
                    C::load,
                    (&self.catalog_store(),),
                    Ok::<WorkspaceCatalog, StorageFailure>(loaded),
                ) && saved@ == loaded@.filter(path_differs(workspace_path@)) && call_ensures(
                    C::save,
                    (&self.catalog_store(), &saved),
                    Ok::<(), StorageFailure>(()),
                ),
    {
        let mut state = DeleteState::start(workspace_path);
        let ghost mut states: Seq<DeleteState> = seq![state];
        let ghost mut replies: Seq<StorageReply> = Seq::empty();
        while !state.is_finished()
            invariant
                delete_state_fits(state, workspace_path@),
                delete_run(workspace_path@, states, replies),
                delete_answered(&self.repository, &self.catalog_store, states, replies),
                states.last() == state,
            decreases delete_requests_left(state),
        {
            let request = state.request();
            let ghost asked = request;
            let reply = perform(&self.repository, &self.catalog_store, request);
            let ghost before = state;
            let ghost answer = reply;
            state = state.step(reply);
            proof {
                let old_states = states;
                let old_replies = replies;
                states = old_states.push(state);
                replies = old_replies.push(answer);
                assert forall|i: int| 0 <= i < replies.len() implies delete_awaits(
                    states[i],
                    #[trigger] replies[i],
                ) && delete_follows(states[i], replies[i], states[i + 1]) by {
                    if i < old_replies.len() {
                        assert(states[i] == old_states[i]);
                        assert(states[i + 1] == old_states[i + 1]);
                        assert(replies[i] == old_replies[i]);
                    } else {
                        assert(states[i] == before);
                    }
                }
                assert(states[0] == old_states[0]);
                assert forall|i: int| 0 <= i < replies.len() implies delete_answered_by(
                    &self.repository,
                    &self.catalog_store,
                    states[i],
                    #[trigger] replies[i],
                ) by {
                    if i < old_replies.len() {
                        assert(states[i] == old_states[i]);
                        assert(replies[i] == old_replies[i]);
                    } else {
                        assert(states[i] == before);
                        assert(replies[i] == answer);
                        assert(delete_asks(states[i], asked));
                    }
                }
            }
        }
        let r = state.outcome();
        proof {
            if r is Ok {
                assert(r->Ok_0 == ());
                law_deletion_forgets_the_location(
                    &self.repository,
                    &self.catalog_store,
                    workspace_path@,
                    states,
                    replies,
                );
            }
        }
        r
    }
}

} // verus!

use std::io;

use litigraph::application::workspace::create::{CreateState, CreateWorkspaceError};
use litigraph::application::workspace::delete::{DeleteState, DeleteWorkspaceError};
use litigraph::application::workspace::list_recent::listing;
use litigraph::application::workspace::open::{OpenState, OpenWorkspaceError};
use litigraph::application::workspace::protocol::{
    failure_message, perform, StorageReply, StorageRequest,
};
use litigraph::domain::catalog::WorkspaceCatalogStore;
use litigraph::domain::repository::WorkspaceRepository;
use litigraph::domain::catalog::{WorkspaceCatalog, WorkspaceEntry};
use litigraph::domain::workspace::{Workspace, WorkspaceId};
use litigraph::infrastructure::{FileWorkspaceCatalogStore, WorkspaceFileRepository};
use litigraph::io_failure::{CreatedErrorKind, FailureKind, StorageFailure};

fn failure_of(kind: FailureKind, io_kind: io::ErrorKind, text: &str) -> StorageFailure {
    StorageFailure { kind, description: text.to_string(), error: io::Error::new(io_kind, text) }
}

fn failure(text: &str) -> StorageFailure {
    failure_of(FailureKind::Other, io::ErrorKind::Other, text)
}

fn missing(text: &str) -> StorageFailure {
    failure_of(FailureKind::NothingThere, io::ErrorKind::NotFound, text)
}

fn catalog_with(paths: &[&str]) -> WorkspaceCatalog {
    let mut catalog = WorkspaceCatalog::default();
    for (i, p) in paths.iter().enumerate().rev() {
        catalog.add(WorkspaceEntry::new(
            &Workspace::with_id(WorkspaceId(format!("id{}", i)), "W"),
            p,
        ));
    }
    catalog
}

#[test]
fn create_start_refuses_blank_names() {
    assert!(matches!(
        CreateState::start("  ", "/p"),
        CreateState::Finished(Err(CreateWorkspaceError::EmptyName))
    ));
    match CreateState::start(" Name ", "/p") {
        CreateState::CheckingLocation { workspace, path } => {
            assert_eq!(workspace.name, "Name");
            assert_eq!(path, "/p");
        }
        _ => panic!("expected a location check"),
    }
}

#[test]
fn create_steps_through_the_happy_path() {
    let state = CreateState::start("Name", "/p");
    assert!(!state.is_finished());
    let state = state.step(StorageReply::Occupied(false));
    assert!(matches!(state, CreateState::SavingWorkspace { .. }));
    let state = state.step(StorageReply::Written(Ok(())));
    assert!(matches!(state, CreateState::LoadingCatalog { .. }));
    let state = state.step(StorageReply::CatalogLoaded(Ok(catalog_with(&["/a", "/p"]))));
    let id = match &state {
        CreateState::SavingCatalog { workspace, catalog, .. } => {
            let paths: Vec<&str> = catalog.entries().iter().map(|e| e.path.as_str()).collect();
            assert_eq!(paths, vec!["/p", "/a"]);
            assert_eq!(catalog.entries()[0].id, workspace.id);
            workspace.id.clone()
        }
        _ => panic!("expected a catalog save"),
    };
    let state = state.step(StorageReply::Written(Ok(())));
    assert!(state.is_finished());
    let ws = state.outcome().unwrap();
    assert_eq!(ws.id, id);
    assert_eq!(ws.name, "Name");
}

#[test]
fn create_steps_to_each_failure() {
    let occupied = CreateState::start("Name", "/p").step(StorageReply::Occupied(true));
    assert!(matches!(
        occupied.outcome(),
        Err(CreateWorkspaceError::AlreadyExists(p)) if p == "/p"
    ));
    let saving = CreateState::start("Name", "/p").step(StorageReply::Occupied(false));
    assert!(matches!(
        saving.step(StorageReply::Written(Err(failure("disk")))).outcome(),
        Err(CreateWorkspaceError::Repository(e)) if e.description == "disk"
    ));
    let loading = CreateState::start("Name", "/p")
        .step(StorageReply::Occupied(false))
        .step(StorageReply::Written(Ok(())));
    assert!(matches!(
        loading.step(StorageReply::CatalogLoaded(Err(failure("read")))).outcome(),
        Err(CreateWorkspaceError::Catalog(e)) if e.description == "read"
    ));
    let saving_catalog = CreateState::start("Name", "/p")
        .step(StorageReply::Occupied(false))
        .step(StorageReply::Written(Ok(())))
        .step(StorageReply::CatalogLoaded(Ok(WorkspaceCatalog::default())));
    assert!(matches!(
        saving_catalog.step(StorageReply::Written(Err(failure("write")))).outcome(),
        Err(CreateWorkspaceError::Catalog(e)) if e.description == "write"
    ));
}

#[test]
fn open_steps() {
    let ws = Workspace::with_id(WorkspaceId("w".into()), "W");
    let state = OpenState::start("/p");
    assert!(matches!(&state, OpenState::LoadingWorkspace { path } if path == "/p"));
    let state = state.step(StorageReply::WorkspaceLoaded(Ok(ws)));
    let state = state.step(StorageReply::CatalogLoaded(Ok(catalog_with(&["/q"]))));
    match &state {
        OpenState::SavingCatalog { catalog, .. } => {
            assert_eq!(catalog.len(), 2);
            assert_eq!(catalog.entries()[0].path, "/p");
            assert_eq!(catalog.entries()[0].id, WorkspaceId("w".into()));
        }
        _ => panic!("expected a catalog save"),
    }
    let opened = state.step(StorageReply::Written(Ok(()))).outcome().unwrap();
    assert_eq!(opened.id, WorkspaceId("w".into()));

    let absent = OpenState::start("/p").step(StorageReply::WorkspaceLoaded(Err(missing("gone"))));
    assert!(matches!(absent.outcome(), Err(OpenWorkspaceError::NotFound(p)) if p == "/p"));
    let broken = OpenState::start("/p").step(StorageReply::WorkspaceLoaded(Err(failure("bad"))));
    assert!(matches!(broken.outcome(), Err(OpenWorkspaceError::Repository(e)) if e.description == "bad"));
    let no_catalog = OpenState::start("/p")
        .step(StorageReply::WorkspaceLoaded(Ok(Workspace::new("W"))))
        .step(StorageReply::CatalogLoaded(Err(failure("cat"))));
    assert!(matches!(no_catalog.outcome(), Err(OpenWorkspaceError::Catalog(_))));
    let unsaved = OpenState::start("/p")
        .step(StorageReply::WorkspaceLoaded(Ok(Workspace::new("W"))))
        .step(StorageReply::CatalogLoaded(Ok(WorkspaceCatalog::default())))
        .step(StorageReply::Written(Err(failure("save"))));
    assert!(matches!(unsaved.outcome(), Err(OpenWorkspaceError::Catalog(e)) if e.description == "save"));
}

#[test]
fn delete_steps() {
    let state = DeleteState::start("/b");
    let state = state.step(StorageReply::Written(Ok(())));
    let state = state.step(StorageReply::CatalogLoaded(Ok(catalog_with(&["/a", "/b", "/c"]))));
    match &state {
        DeleteState::SavingCatalog { catalog } => {
            let paths: Vec<&str> = catalog.entries().iter().map(|e| e.path.as_str()).collect();
            assert_eq!(paths, vec!["/a", "/c"]);
        }
        _ => panic!("expected a catalog save"),
    }
    assert!(state.step(StorageReply::Written(Ok(()))).outcome().is_ok());

    let refused = DeleteState::start("/b").step(StorageReply::Written(Err(failure("busy"))));
    assert!(matches!(refused.outcome(), Err(DeleteWorkspaceError::Repository(_))));
    let no_catalog = DeleteState::start("/b")
        .step(StorageReply::Written(Ok(())))
        .step(StorageReply::CatalogLoaded(Err(failure("cat"))));
    assert!(matches!(no_catalog.outcome(), Err(DeleteWorkspaceError::Catalog(_))));
    let unsaved = DeleteState::start("/b")
        .step(StorageReply::Written(Ok(())))
        .step(StorageReply::CatalogLoaded(Ok(WorkspaceCatalog::default())))
        .step(StorageReply::Written(Err(failure("save"))));
    assert!(matches!(unsaved.outcome(), Err(DeleteWorkspaceError::Catalog(e)) if e.description == "save"));
}

#[test]
fn listing_gives_the_loaded_entries() {
    let list = listing(Ok(catalog_with(&["/x", "/y"]))).unwrap();
    let paths: Vec<&str> = list.iter().map(|e| e.path.as_str()).collect();
    assert_eq!(paths, vec!["/x", "/y"]);
    assert_eq!(listing(Err(failure("no"))).unwrap_err().to_string(), "no");
    assert_eq!(listing(Err(missing("none"))).unwrap_err().kind(), io::ErrorKind::NotFound);
}

#[test]
fn missing_catalog_file_means_empty_catalog() {
    let c = FileWorkspaceCatalogStore::catalog_after_read_failure(missing("x")).unwrap();
    assert!(c.is_empty());
    let e = FileWorkspaceCatalogStore::catalog_after_read_failure(failure("denied")).unwrap_err();
    assert_eq!(e.description, "denied");
    assert_eq!(e.error.to_string(), "denied");
}

#[test]
fn deleting_a_missing_workspace_file_counts_as_done() {
    assert!(WorkspaceFileRepository::delete_outcome(Ok(())).is_ok());
    assert!(WorkspaceFileRepository::delete_outcome(Err(missing("gone"))).is_ok());
    let e = WorkspaceFileRepository::delete_outcome(Err(failure("busy"))).unwrap_err();
    assert_eq!(e.kind, FailureKind::Other);
    assert_eq!(e.description, "busy");
}

#[test]
fn io_error_parts_choose_kind_and_text() {
    assert!(matches!(
        CreateWorkspaceError::EmptyName.io_error_parts(),
        Some((CreatedErrorKind::InvalidInput, t)) if t == "Workspace name cannot be empty"
    ));
    assert!(matches!(
        CreateWorkspaceError::AlreadyExists("/p".into()).io_error_parts(),
        Some((CreatedErrorKind::AlreadyExists, t)) if t == "Workspace already exists at path: /p"
    ));
    assert!(CreateWorkspaceError::Repository(failure("r")).io_error_parts().is_none());
    assert!(matches!(
        OpenWorkspaceError::NotFound("/q".into()).io_error_parts(),
        Some((CreatedErrorKind::NotFound, t)) if t == "Workspace not found at path: /q"
    ));
    assert!(OpenWorkspaceError::Catalog(failure("c")).io_error_parts().is_none());
}

#[test]
fn failure_message_joins_prefix_and_detail() {
    assert_eq!(failure_message("Catalog error: ", "boom"), "Catalog error: boom");
    assert_eq!(failure_message("", "x"), "x");
    assert_eq!(failure_message("p", ""), "p");
}

/// A repository answering from fixed values, recording nothing.
struct FixedRepository {
    occupied: bool,
}

impl WorkspaceRepository for FixedRepository {
    fn save(&self, _workspace: &Workspace, path: &str) -> Result<(), StorageFailure> {
        Err(failure(path))
    }

    fn load(&self, path: &str) -> Result<Workspace, StorageFailure> {
        Ok(Workspace::with_id(WorkspaceId("loaded".into()), path))
    }

    fn delete(&self, path: &str) -> Result<(), StorageFailure> {
        Err(missing(path))
    }

    fn exists_at(&self, _path: &str) -> bool {
        self.occupied
    }
}

struct FixedCatalogStore;

impl WorkspaceCatalogStore for FixedCatalogStore {
    fn load(&self) -> Result<WorkspaceCatalog, StorageFailure> {
        Ok(catalog_with(&["/only"]))
    }

    fn save(&self, catalog: &WorkspaceCatalog) -> Result<(), StorageFailure> {
        Err(failure(&format!("{} entries", catalog.len())))
    }
}

#[test]
fn perform_hands_each_request_to_its_storage_call() {
    let repo = FixedRepository { occupied: true };
    let store = FixedCatalogStore;
    assert!(matches!(perform(&repo, &store, StorageRequest::IsOccupied("/p")), StorageReply::Occupied(true)));
    let ws = Workspace::new("W");
    assert!(matches!(
        perform(&repo, &store, StorageRequest::SaveWorkspace(&ws, "/s")),
        StorageReply::Written(Err(e)) if e.description == "/s"
    ));
    assert!(matches!(
        perform(&repo, &store, StorageRequest::LoadWorkspace("/l")),
        StorageReply::WorkspaceLoaded(Ok(w)) if w.name == "/l"
    ));
    assert!(matches!(
        perform(&repo, &store, StorageRequest::RemoveWorkspace("/r")),
        StorageReply::Written(Err(e)) if e.kind == FailureKind::NothingThere && e.description == "/r"
    ));
    assert!(matches!(
        perform(&repo, &store, StorageRequest::LoadCatalog),
        StorageReply::CatalogLoaded(Ok(c)) if c.len() == 1
    ));
    let c = catalog_with(&["/a", "/b"]);
    assert!(matches!(
        perform(&repo, &store, StorageRequest::SaveCatalog(&c)),
        StorageReply::Written(Err(e)) if e.description == "2 entries"
    ));
}

#[test]
fn each_state_asks_for_its_storage_call() {
    let state = CreateState::start("Name", "/p");
    assert!(matches!(state.request(), StorageRequest::IsOccupied(p) if p == "/p"));
    let state = state.step(StorageReply::Occupied(false));
    assert!(matches!(state.request(), StorageRequest::SaveWorkspace(w, p) if w.name == "Name" && p == "/p"));
    let state = OpenState::start("/o");
    assert!(matches!(state.request(), StorageRequest::LoadWorkspace(p) if p == "/o"));
    let state = DeleteState::start("/d");
    assert!(matches!(state.request(), StorageRequest::RemoveWorkspace(p) if p == "/d"));
    let state = state.step(StorageReply::Written(Ok(())));
    assert!(matches!(state.request(), StorageRequest::LoadCatalog));
    let finished = state.step(StorageReply::CatalogLoaded(Err(failure("x"))));
    assert!(matches!(finished.request(), StorageRequest::Nothing));
}

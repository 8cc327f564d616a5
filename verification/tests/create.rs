use std::collections::HashMap;
use std::io;
use std::sync::{Arc, Mutex};

use litigraph::application::workspace::create::{CreateWorkspace, CreateWorkspaceError};
use litigraph::domain::catalog::{WorkspaceCatalog, WorkspaceCatalogStore};
use litigraph::domain::repository::WorkspaceRepository;
use litigraph::domain::workspace::Workspace;
use litigraph::io_failure::{FailureKind, StorageFailure};

/// A storage failure as the file-based storage reports it.
fn failure(kind: io::ErrorKind, text: &str) -> StorageFailure {
    let error = io::Error::new(kind, text);
    let kind = if error.kind() == io::ErrorKind::NotFound {
        FailureKind::NothingThere
    } else {
        FailureKind::Other
    };
    StorageFailure { kind, description: error.to_string(), error }
}

#[derive(Default, Clone)]
struct MockWorkspaceRepository {
    workspaces: Arc<Mutex<HashMap<String, Workspace>>>,
}

impl WorkspaceRepository for MockWorkspaceRepository {
    fn save(&self, workspace: &Workspace, path: &str) -> Result<(), StorageFailure> {
        self.workspaces
            .lock()
            .unwrap()
            .insert(path.to_string(), workspace.clone());
        Ok(())
    }

    fn load(&self, path: &str) -> Result<Workspace, StorageFailure> {
        self.workspaces
            .lock()
            .unwrap()
            .get(path)
            .cloned()
            .ok_or_else(|| failure(io::ErrorKind::NotFound, "Not found"))
    }

    fn delete(&self, path: &str) -> Result<(), StorageFailure> {
        self.workspaces.lock().unwrap().remove(path);
        Ok(())
    }

    fn exists_at(&self, path: &str) -> bool {
        self.workspaces.lock().unwrap().contains_key(path)
    }
}

#[derive(Default, Clone)]
struct MockCatalogStore {
    catalog: Arc<Mutex<WorkspaceCatalog>>,
}

impl WorkspaceCatalogStore for MockCatalogStore {
    fn load(&self) -> Result<WorkspaceCatalog, StorageFailure> {
        Ok(self.catalog.lock().unwrap().clone())
    }

    fn save(&self, catalog: &WorkspaceCatalog) -> Result<(), StorageFailure> {
        *self.catalog.lock().unwrap() = catalog.clone();
        Ok(())
    }
}

/// A catalog store whose every operation fails.
struct BrokenCatalogStore;

impl WorkspaceCatalogStore for BrokenCatalogStore {
    fn load(&self) -> Result<WorkspaceCatalog, StorageFailure> {
        Err(failure(io::ErrorKind::PermissionDenied, "catalog locked"))
    }

    fn save(&self, _catalog: &WorkspaceCatalog) -> Result<(), StorageFailure> {
        Err(failure(io::ErrorKind::PermissionDenied, "catalog locked"))
    }
}

/// A repository that refuses to store anything.
struct ReadOnlyRepository;

impl WorkspaceRepository for ReadOnlyRepository {
    fn save(&self, _workspace: &Workspace, _path: &str) -> Result<(), StorageFailure> {
        Err(failure(io::ErrorKind::PermissionDenied, "read-only"))
    }

    fn load(&self, _path: &str) -> Result<Workspace, StorageFailure> {
        Err(failure(io::ErrorKind::NotFound, "Not found"))
    }

    fn delete(&self, _path: &str) -> Result<(), StorageFailure> {
        Ok(())
    }
}

#[test]
fn test_create_workspace_success() {
    let repo = MockWorkspaceRepository::default();
    let catalog_store = MockCatalogStore::default();
    let use_case = CreateWorkspace::new(repo.clone(), catalog_store.clone());

    let path = "/tmp/test_ws";
    let ws = use_case.execute("My Test WS", path).unwrap();

    assert_eq!(ws.name, "My Test WS");
    assert!(repo.load(path).is_ok());

    let catalog = catalog_store.load().unwrap();
    assert_eq!(catalog.len(), 1);
    assert_eq!(catalog.entries()[0].id, ws.id);
}

#[test]
fn test_create_workspace_rejects_empty_name() {
    let repo = MockWorkspaceRepository::default();
    let catalog_store = MockCatalogStore::default();
    let use_case = CreateWorkspace::new(repo, catalog_store);

    let path = "/tmp/test_ws";
    assert!(matches!(
        use_case.execute("   ", path),
        Err(CreateWorkspaceError::EmptyName)
    ));
}

#[test]
fn test_create_workspace_rejects_if_already_exists() {
    let repo = MockWorkspaceRepository::default();
    let catalog_store = MockCatalogStore::default();
    let use_case = CreateWorkspace::new(repo.clone(), catalog_store.clone());

    let path = "/tmp/test_ws";
    use_case.execute("First WS", path).unwrap();

    let result = use_case.execute("Duplicate WS", path);
    assert!(matches!(
        result,
        Err(CreateWorkspaceError::AlreadyExists(_))
    ));
}

#[test]
fn create_trims_the_name_and_registers_the_location() {
    let repo = MockWorkspaceRepository::default();
    let catalog_store = MockCatalogStore::default();
    let use_case = CreateWorkspace::new(repo.clone(), catalog_store.clone());

    let ws = use_case.execute("\t  Case Files \u{3000}\n", "/cases/a").unwrap();
    assert_eq!(ws.name, "Case Files");
    assert!(ws.entities.is_empty());
    assert!(ws.relationships.is_empty());
    assert_eq!(repo.load("/cases/a").unwrap().id, ws.id);

    let catalog = catalog_store.load().unwrap();
    assert_eq!(catalog.entries()[0].name, "Case Files");
    assert_eq!(catalog.entries()[0].path, "/cases/a");
}

#[test]
fn create_rejects_empty_and_unicode_blank_names_before_touching_storage() {
    let repo = MockWorkspaceRepository::default();
    let catalog_store = MockCatalogStore::default();
    let use_case = CreateWorkspace::new(repo.clone(), catalog_store.clone());

    assert!(matches!(use_case.execute("", "/x"), Err(CreateWorkspaceError::EmptyName)));
    assert!(matches!(
        use_case.execute("\u{a0}\u{2003}\u{85}", "/x"),
        Err(CreateWorkspaceError::EmptyName)
    ));
    assert!(repo.load("/x").is_err());
    assert!(catalog_store.load().unwrap().is_empty());
}

#[test]
fn create_reports_the_occupied_location() {
    let repo = MockWorkspaceRepository::default();
    let catalog_store = MockCatalogStore::default();
    let use_case = CreateWorkspace::new(repo, catalog_store.clone());
    use_case.execute("One", "/occupied").unwrap();
    match use_case.execute("Two", "/occupied") {
        Err(CreateWorkspaceError::AlreadyExists(path)) => assert_eq!(path, "/occupied"),
        other => panic!("unexpected outcome: {:?}", other.map(|w| w.name)),
    }
    assert_eq!(catalog_store.load().unwrap().len(), 1);
}

#[test]
fn create_wraps_repository_failures() {
    let use_case = CreateWorkspace::new(ReadOnlyRepository, MockCatalogStore::default());
    match use_case.execute("Name", "/somewhere") {
        Err(CreateWorkspaceError::Repository(err)) => {
            assert_eq!(err.error.kind(), io::ErrorKind::PermissionDenied)
        }
        other => panic!("unexpected outcome: {:?}", other.map(|w| w.name)),
    }
}

#[test]
fn create_wraps_catalog_failures() {
    let repo = MockWorkspaceRepository::default();
    let use_case = CreateWorkspace::new(repo.clone(), BrokenCatalogStore);
    match use_case.execute("Name", "/somewhere") {
        Err(CreateWorkspaceError::Catalog(err)) => assert_eq!(err.description, "catalog locked"),
        other => panic!("unexpected outcome: {:?}", other.map(|w| w.name)),
    }
    // The workspace itself was stored before the catalog failed.
    assert!(repo.load("/somewhere").is_ok());
}

#[test]
fn create_error_messages() {
    assert_eq!(
        CreateWorkspaceError::EmptyName.message(),
        "Workspace name cannot be empty"
    );
    assert_eq!(
        CreateWorkspaceError::AlreadyExists("/a/b".to_string()).message(),
        "Workspace already exists at path: /a/b"
    );
    let err = failure(io::ErrorKind::Other, "disk full");
    assert_eq!(
        CreateWorkspaceError::Repository(err).message(),
        "Repository error: disk full"
    );
    let err = failure(io::ErrorKind::Other, "bad json");
    assert_eq!(
        CreateWorkspaceError::Catalog(err).message(),
        "Catalog error: bad json"
    );
}

#[test]
fn create_error_into_io_error() {
    let e = CreateWorkspaceError::EmptyName.into_io_error();
    assert_eq!(e.kind(), io::ErrorKind::InvalidInput);
    assert_eq!(e.to_string(), "Workspace name cannot be empty");

    let e = CreateWorkspaceError::AlreadyExists("/p".to_string()).into_io_error();
    assert_eq!(e.kind(), io::ErrorKind::AlreadyExists);
    assert_eq!(e.to_string(), "Workspace already exists at path: /p");

    let inner = failure(io::ErrorKind::PermissionDenied, "nope");
    let e = CreateWorkspaceError::Repository(inner).into_io_error();
    assert_eq!(e.kind(), io::ErrorKind::PermissionDenied);
    assert_eq!(e.to_string(), "nope");

    let inner = failure(io::ErrorKind::TimedOut, "slow");
    let e = CreateWorkspaceError::Catalog(inner).into_io_error();
    assert_eq!(e.kind(), io::ErrorKind::TimedOut);
}

#[test]
fn create_error_source() {
    assert!(CreateWorkspaceError::EmptyName.source().is_none());
    assert!(CreateWorkspaceError::AlreadyExists("/p".to_string()).source().is_none());
    let err = CreateWorkspaceError::Repository(failure(io::ErrorKind::PermissionDenied, "nope"));
    assert_eq!(err.source().unwrap().kind(), io::ErrorKind::PermissionDenied);
    let err = CreateWorkspaceError::Catalog(failure(io::ErrorKind::TimedOut, "slow"));
    assert_eq!(err.source().unwrap().to_string(), "slow");
}

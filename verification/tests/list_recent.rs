use std::io;
use std::sync::{Arc, Mutex};

use litigraph::application::workspace::list_recent::ListRecentWorkspaces;
use litigraph::domain::catalog::{WorkspaceCatalog, WorkspaceCatalogStore, WorkspaceEntry};
use litigraph::domain::workspace::Workspace;
use litigraph::io_failure::{FailureKind, StorageFailure};

/// A storage failure as the file-based storage reports it.
fn failure(kind: io::ErrorKind, text: &str) -> StorageFailure {
    let error = io::Error::new(kind, text);
    let kind = if error.kind() == io::ErrorKind::NotFound {
        FailureKind::NothingThere
    } else {
        FailureKind::Other
    };
    StorageFailure { kind, description: error.to_string(), error }
}

#[derive(Default, Clone)]
struct MockCatalogStore {
    catalog: Arc<Mutex<WorkspaceCatalog>>,
}

impl WorkspaceCatalogStore for MockCatalogStore {
    fn load(&self) -> Result<WorkspaceCatalog, StorageFailure> {
        Ok(self.catalog.lock().unwrap().clone())
    }

    fn save(&self, catalog: &WorkspaceCatalog) -> Result<(), StorageFailure> {
        *self.catalog.lock().unwrap() = catalog.clone();
        Ok(())
    }
}

struct UnreadableStore;

impl WorkspaceCatalogStore for UnreadableStore {
    fn load(&self) -> Result<WorkspaceCatalog, StorageFailure> {
        Err(failure(io::ErrorKind::PermissionDenied, "denied"))
    }

    fn save(&self, _catalog: &WorkspaceCatalog) -> Result<(), StorageFailure> {
        Ok(())
    }
}

#[test]
fn test_list_recent_workspaces() {
    let catalog_store = MockCatalogStore::default();
    let ws = Workspace::new("Recent One");
    let entry = WorkspaceEntry::new(&ws, "/recent/1");

    let mut catalog = WorkspaceCatalog::default();
    catalog.add(entry.clone());
    catalog_store.save(&catalog).unwrap();

    let use_case = ListRecentWorkspaces::new(catalog_store);
    let list = use_case.execute().unwrap();

    assert_eq!(list.len(), 1);
    assert_eq!(list[0].id, ws.id);
}

#[test]
fn list_recent_gives_most_recent_first() {
    let catalog_store = MockCatalogStore::default();
    let mut catalog = WorkspaceCatalog::default();
    for (name, path) in [("a", "/a"), ("b", "/b"), ("c", "/c")] {
        catalog.add(WorkspaceEntry::new(&Workspace::new(name), path));
    }
    catalog_store.save(&catalog).unwrap();
    let list = ListRecentWorkspaces::new(catalog_store).execute().unwrap();
    let paths: Vec<&str> = list.iter().map(|e| e.path.as_str()).collect();
    assert_eq!(paths, vec!["/c", "/b", "/a"]);
}

#[test]
fn list_recent_passes_load_failures_on() {
    let err = ListRecentWorkspaces::new(UnreadableStore).execute().unwrap_err();
    assert_eq!(err.kind(), io::ErrorKind::PermissionDenied);
}

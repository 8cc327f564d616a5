//! Listing the workspaces of the catalog.

use vstd::prelude::*;
use crate::io_failure::StorageFailure;
use crate::domain::catalog::{paths_unique, WorkspaceCatalog, WorkspaceCatalogStore, WorkspaceEntry};

verus! {

/// Lists the known workspaces, most recently registered first.
pub struct ListRecentWorkspaces<C> where C: WorkspaceCatalogStore {
    catalog_store: C,
}

/// The answer to a listing, given what loading the catalog gave: its entries,
/// in its order, or the `std::io::Error` of the failure as it came.
pub fn listing(loaded: Result<WorkspaceCatalog, StorageFailure>) -> (r: Result<
    Vec<WorkspaceEntry>,
    std::io::Error,
>)
    ensures
        loaded matches Ok(catalog) ==> (r matches Ok(entries) && entries@ == catalog@),
        loaded matches Err(failure) ==> r == Err::<Vec<WorkspaceEntry>, std::io::Error>(
            failure.error,
        ),
        r matches Ok(entries) ==> paths_unique(entries@),
{
    match loaded {
        Ok(catalog) => Ok(catalog.into_entries()),
        Err(failure) => Err(failure.error),
    }
}

impl<C> ListRecentWorkspaces<C> where C: WorkspaceCatalogStore {
    /// The store the use case reads the catalog from.
    pub closed spec fn catalog_store(&self) -> C {
        self.catalog_store
    }

    /// The use case reading from `catalog_store`.
    pub fn new(catalog_store: C) -> (u: Self)
        ensures
            u.catalog_store() == catalog_store,
    {
        ListRecentWorkspaces { catalog_store }
    }

    /// The entries of the stored catalog, in its order, or the failure to
    /// load it: `listing` of what the catalog store's `load` answers. On
    /// success the entries are exactly those of the catalog `load` returned,
    /// none left out, none added, in its order (and so no two share a
    /// location); on failure the error is the one inside the failure `load`
    /// returned.
    pub fn execute(&self) -> (r: Result<Vec<WorkspaceEntry>, std::io::Error>)
        ensures
            r matches Ok(entries) ==> paths_unique(entries@),
            r matches Ok(entries) ==> exists|catalog: WorkspaceCatalog|
                call_ensures(
                    C::load,
                    (&self.catalog_store(),),
                    Ok::<WorkspaceCatalog, StorageFailure>(catalog),
                ) && entries@ == catalog@,
            r matches Err(error) ==> exists|failure: StorageFailure|
                call_ensures(
                    C::load,
                    (&self.catalog_store(),),
                    Err::<WorkspaceCatalog, StorageFailure>(failure),
                ) && error == failure.error,
    {
        let loaded = self.catalog_store.load();
        let ghost answer = loaded;
        let r = listing(loaded);
        proof {
            if answer is Ok {
                let catalog = answer->Ok_0;
                assert(call_ensures(
                    C::load,
                    (&self.catalog_store,),
                    Ok::<WorkspaceCatalog, StorageFailure>(catalog),
                ));
            } else {
                let failure = answer->Err_0;
                assert(call_ensures(
                    C::load,
                    (&self.catalog_store,),
                    Err::<WorkspaceCatalog, StorageFailure>(failure),
                ));
            }
        }
        r
    }
}

} // verus!

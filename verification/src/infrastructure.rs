//! Locations used by the file-based storage: where the catalog file lives
//! and where a workspace's file lives inside its directory. The reading and
//! writing itself happens outside the library.

pub mod catalog;
pub mod workspace;

use vstd::prelude::*;
use vstd::string::{StrSliceExecFns, StringExecFns};
use crate::domain::catalog::WorkspaceCatalog;
use crate::io_failure::{FailureKind, StorageFailure};
use crate::identifier::{fresh_uuid_text, is_fresh_uuid, is_v4_uuid_text};

verus! {

/// `name` appended to `base` as one more path component, the way
/// `std::path::Path::join` does on Unix for a relative `name`: a `/` is put
/// between them unless `base` is empty or already ends with one.
pub open spec fn joined(base: Seq<char>, name: Seq<char>) -> Seq<char> {
    if base.len() == 0 || base.last() == '/' {
        base + name
    } else {
        base + seq!['/'] + name
    }
}

/// Appends the path component `name`, which must be relative, to `base`.
fn join_component(base: &str, name: &str) -> (r: String)
    ensures
        r@ == joined(base@, name@),
{
    let n = base.unicode_len();
    let mut r = base.to_owned();
    if n > 0 && base.get_char(n - 1) != '/' {
        r.append("/");
        proof {
            reveal_strlit("/");
        }
    }
    r.append(name);
    r
}

/// The name of the temporary file that a new version of the file `name` is
/// written to before it replaces it: `.{name}.tmp.{nonce}`.
pub open spec fn temporary_name(name: Seq<char>, nonce: Seq<char>) -> Seq<char> {
    seq!['.'] + name + seq!['.', 't', 'm', 'p', '.'] + nonce
}

/// The temporary file name for `name` with the given `nonce`.
pub fn temporary_file_name_with(name: &str, nonce: &str) -> (r: String)
    ensures
        r@ == temporary_name(name@, nonce@),
{
    let mut r = ".".to_owned();
    r.append(name);
    r.append(".tmp.");
    r.append(nonce);
    proof {
        reveal_strlit(".");
        reveal_strlit(".tmp.");
        assert(r@ =~= temporary_name(name@, nonce@));
    }
    r
}

/// A fresh temporary file name for `name`, made unique by a random UUID.
pub fn temporary_file_name(name: &str) -> (r: String)
    ensures
        exists|nonce: Seq<char>| is_v4_uuid_text(nonce) && r@ == temporary_name(name@, nonce),
        exists|nonce: String| is_fresh_uuid(nonce) && r@ == temporary_name(name@, nonce@),
{
    let nonce = fresh_uuid_text();
    temporary_file_name_with(name, nonce.as_str())
}

/// The catalog kept in one JSON file.
pub struct FileWorkspaceCatalogStore {
    path: String,
}

impl FileWorkspaceCatalogStore {
    /// The location of the catalog file.
    pub closed spec fn location(&self) -> Seq<char> {
        self.path@
    }

    /// A store keeping the catalog in the file at `path`.
    pub fn new(path: &str) -> (s: FileWorkspaceCatalogStore)
        ensures
            s.location() == path@,
    {
        FileWorkspaceCatalogStore { path: path.to_owned() }
    }

    /// What loading gives when reading the catalog file failed with
    /// `failure`: an empty catalog when the file is missing (the failure's
    /// kind is `NothingThere`), the failure otherwise.
    pub fn catalog_after_read_failure(failure: StorageFailure) -> (r: Result<
        WorkspaceCatalog,
        StorageFailure,
    >)
        ensures
            failure.kind == FailureKind::NothingThere ==> (r matches Ok(catalog) && catalog@.len()
                == 0),
            failure.kind != FailureKind::NothingThere ==> r == Err::<
                WorkspaceCatalog,
                StorageFailure,
            >(failure),
    {
        match failure.kind {
            FailureKind::NothingThere => Ok(WorkspaceCatalog::new()),
            FailureKind::Other => Err(failure),
        }
    }

    /// The location of the catalog file.
    pub fn path(&self) -> (p: &str)
        ensures
            p@ == self.location(),
    {
        self.path.as_str()
    }
}

/// Workspaces kept as one JSON file inside each workspace's directory.
pub struct WorkspaceFileRepository;

impl WorkspaceFileRepository {
    /// The file holding the workspace whose directory is `path`.
    pub fn workspace_file(path: &str) -> (f: String)
        ensures
            f@ == joined(path@, "workspace.json"@),
    {
        join_component(path, "workspace.json")
    }

    /// What deleting gives once removing the workspace file answered
    /// `removed`: a file that was already missing (a failure of kind
    /// `NothingThere`) counts as removed; any other answer stands.
    pub fn delete_outcome(removed: Result<(), StorageFailure>) -> (r: Result<(), StorageFailure>)
        ensures
            removed is Ok ==> r is Ok,
            removed matches Err(failure) ==> (failure.kind == FailureKind::NothingThere ==> r is Ok)
                && (failure.kind != FailureKind::NothingThere ==> r == removed),
    {
        match removed {
            Err(failure) => match failure.kind {
                FailureKind::NothingThere => Ok(()),
                FailureKind::Other => Err(failure),
            },
            done => done,
        }
    }
}

} // verus!

//! The failures that storage reports, and the `std::io::Error` values that
//! the library builds for its own errors.

use vstd::prelude::*;

verus! {

/// `std::io::Error`, known to Verus as an opaque type.
#[verifier::external_type_specification]
#[verifier::external_body]
pub struct ExIoError(std::io::Error);

/// What the library reads of a storage failure.
#[derive(Debug, Clone, Copy, PartialEq, Eq)]
pub enum FailureKind {
    /// Nothing is stored at the location asked about.
    NothingThere,
    /// Any other failure.
    Other,
}

/// A failure reported by storage: what the library reads of it, as plain
/// values, next to the `std::io::Error` itself, which is handed on as it
/// came. Whoever performs the input or output fills it in: `kind` is
/// `NothingThere` for an error of kind `std::io::ErrorKind::NotFound`, and
/// `description` is the error's `Display` text.
#[derive(Debug)]
pub struct StorageFailure {
    pub kind: FailureKind,
    pub description: String,
    pub error: std::io::Error,
}

/// The kinds of `std::io::Error` that the library creates itself.
pub enum CreatedErrorKind {
    InvalidInput,
    AlreadyExists,
    NotFound,
}

/// Calls `std::io::Error::new` with the `std::io::ErrorKind` variant of the
/// same name as `kind`, and `message`. Nothing is promised of the error value,
/// which is opaque here.
#[verifier::external_body]
pub(crate) fn new_io_error(kind: CreatedErrorKind, message: String) -> std::io::Error {
    let kind = match kind {
        CreatedErrorKind::InvalidInput => std::io::ErrorKind::InvalidInput,
        CreatedErrorKind::AlreadyExists => std::io::ErrorKind::AlreadyExists,
        CreatedErrorKind::NotFound => std::io::ErrorKind::NotFound,
    };
    std::io::Error::new(kind, message)
}

} // verus!

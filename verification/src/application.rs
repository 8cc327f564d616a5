//! The use cases of the application.

pub mod workspace;

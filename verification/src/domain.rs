//! The domain model: entities, relationships, workspaces and the catalog of
//! known workspaces.

pub mod entity;
pub mod relationship;
pub mod workspace;
pub mod catalog;
pub mod repository;

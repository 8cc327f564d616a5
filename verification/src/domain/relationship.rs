//! Relationships: typed, directed edges between two entities.

use vstd::prelude::*;
use crate::domain::entity::EntityId;
use crate::identifier::{fresh_uuid_text, is_fresh_uuid, is_v4_uuid_text};

verus! {

/// The identifier of a relationship.
#[derive(Debug, Clone, PartialEq, Eq, Hash)]
pub struct RelationshipId(pub String);

/// What a relationship says about its source and its target.
#[derive(Debug, Clone, PartialEq, Eq)]
pub enum RelationshipType {
    Supports,
    References,
    Contradicts,
    Represents,
    RelatedTo,
    Custom(String),
}

/// A directed edge from `source` to `target`.
#[derive(Debug, Clone)]
pub struct Relationship {
    pub id: RelationshipId,
    pub source: EntityId,
    pub target: EntityId,
    pub relationship_type: RelationshipType,
}

impl Relationship {
    /// The relationship starts or ends at the entity whose identifier is `entity`.
    pub open spec fn touches(self, entity: Seq<char>) -> bool {
        self.source.0@ == entity || self.target.0@ == entity
    }

    /// A new relationship with a fresh random identifier.
    pub fn new(source: EntityId, target: EntityId, relationship_type: RelationshipType) -> (r:
        Relationship)
        ensures
            is_v4_uuid_text(r.id.0@),
            is_fresh_uuid(r.id.0),
            r.source == source,
            r.target == target,
            r.relationship_type == relationship_type,
    {
        Relationship::with_id(
            RelationshipId(fresh_uuid_text()),
            source,
            target,
            relationship_type,
        )
    }

    /// A new relationship with the given identifier.
    pub fn with_id(
        id: RelationshipId,
        source: EntityId,
        target: EntityId,
        relationship_type: RelationshipType,
    ) -> (r: Relationship)
        ensures
            r.id == id,
            r.source == source,
            r.target == target,
            r.relationship_type == relationship_type,
    {
        Relationship { id, source, target, relationship_type }
    }

    /// Replaces the relationship's type.
    pub fn change_type(&mut self, relationship_type: RelationshipType)
        ensures
            final(self).relationship_type == relationship_type,
            final(self).id == old(self).id,
            final(self).source == old(self).source,
            final(self).target == old(self).target,
    {
        self.relationship_type = relationship_type;
    }

    /// Whether the relationship starts or ends at `entity_id`.
    pub fn connects(&self, entity_id: &EntityId) -> (b: bool)
        ensures
            b == self.touches(entity_id.0@),
    {
        self.source.0 == entity_id.0 || self.target.0 == entity_id.0
    }
}

} // verus!

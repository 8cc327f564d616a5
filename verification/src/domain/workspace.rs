//! Workspaces: the aggregate that owns a set of entities and the relationships
//! between them.

use vstd::prelude::*;
use crate::domain::entity::{Entity, EntityId};
use crate::domain::relationship::{Relationship, RelationshipId};
use crate::identifier::{fresh_uuid_text, is_fresh_uuid, is_v4_uuid_text};
use crate::seq_facts::lemma_filter_keeps_distinct_keys;
use crate::text::is_blank_text;

verus! {

broadcast use vstd::seq_lib::group_filter_ensures;

/// The identifier of a workspace.
#[derive(Debug, Clone, PartialEq, Eq, Hash)]
pub struct WorkspaceId(pub String);

/// A named collection of entities and of relationships between them.
#[derive(Debug, Clone)]
pub struct Workspace {
    pub id: WorkspaceId,
    pub name: String,
    pub entities: Vec<Entity>,
    pub relationships: Vec<Relationship>,
}

/// Keeps the entities whose identifier differs from `id`.
pub open spec fn entity_id_differs(id: Seq<char>) -> spec_fn(Entity) -> bool {
    |e: Entity| e.id.0@ != id
}

/// Keeps the relationships that neither start nor end at `id`.
pub open spec fn avoids_entity(id: Seq<char>) -> spec_fn(Relationship) -> bool {
    |r: Relationship| !r.touches(id)
}

/// Keeps the relationships whose identifier differs from `id`.
pub open spec fn relationship_id_differs(id: Seq<char>) -> spec_fn(Relationship) -> bool {
    |r: Relationship| r.id.0@ != id
}

/// The identifier of a relationship, as text.
pub open spec fn relationship_key() -> spec_fn(Relationship) -> Seq<char> {
    |r: Relationship| r.id.0@
}

/// Some entity of `entities` has the identifier `id`.
pub open spec fn has_entity(entities: Seq<Entity>, id: Seq<char>) -> bool {
    exists|i: int| 0 <= i < entities.len() && #[trigger] entities[i].id.0@ == id
}

/// Some relationship of `relationships` has the identifier `id`.
pub open spec fn has_relationship(relationships: Seq<Relationship>, id: Seq<char>) -> bool {
    exists|i: int| 0 <= i < relationships.len() && #[trigger] relationships[i].id.0@ == id
}

/// No two relationships of `relationships` share an identifier.
pub open spec fn relationship_ids_unique(relationships: Seq<Relationship>) -> bool {
    forall|i: int, j: int|
        0 <= i < j < relationships.len() ==> #[trigger] relationships[i].id.0@
            != #[trigger] relationships[j].id.0@
}

proof fn lemma_unique_ids_survive_filter(s: Seq<Relationship>, pred: spec_fn(Relationship) -> bool)
    requires
        relationship_ids_unique(s),
    ensures
        relationship_ids_unique(s.filter(pred)),
{
    let key = relationship_key();
    assert forall|i: int, j: int| 0 <= i < j < s.len() implies key(#[trigger] s[i]) != key(
        #[trigger] s[j],
    ) by {}
    lemma_filter_keeps_distinct_keys(s, pred, key);
    let f = s.filter(pred);
    assert forall|i: int, j: int| 0 <= i < j < f.len() implies #[trigger] f[i].id.0@
        != #[trigger] f[j].id.0@ by {
        assert(key(f[i]) != key(f[j]));
    }
}

impl Workspace {
    /// A new empty workspace with a fresh random identifier.
    pub fn new(name: &str) -> (w: Workspace)
        ensures
            is_v4_uuid_text(w.id.0@),
            is_fresh_uuid(w.id.0),
            w.name@ == name@,
            w.entities@.len() == 0,
            w.relationships@.len() == 0,
    {
        Workspace::with_id(WorkspaceId(fresh_uuid_text()), name)
    }

    /// A new empty workspace with the given identifier.
    pub fn with_id(id: WorkspaceId, name: &str) -> (w: Workspace)
        ensures
            w.id == id,
            w.name@ == name@,
            w.entities@.len() == 0,
            w.relationships@.len() == 0,
    {
        Workspace { id, name: name.to_owned(), entities: Vec::new(), relationships: Vec::new() }
    }

    /// Replaces the name. A name made only of whitespace is refused by the
    /// precondition.
    pub fn rename(&mut self, name: &str)
        requires
            !is_blank_text(name@),
        ensures
            final(self).name@ == name@,
            final(self).id == old(self).id,
            final(self).entities == old(self).entities,
            final(self).relationships == old(self).relationships,
    {
        self.name = name.to_owned();
    }

    /// Appends an entity.
    pub fn add_entity(&mut self, entity: Entity)
        ensures
            final(self).entities@ == old(self).entities@.push(entity),
            final(self).id == old(self).id,
            final(self).name == old(self).name,
            final(self).relationships == old(self).relationships,
    {
        self.entities.push(entity);
    }

    /// Removes every entity with identifier `id` together with every
    /// relationship that starts or ends at `id`; tells whether an entity was
    /// removed.
    pub fn remove_entity(&mut self, id: &EntityId) -> (removed: bool)
        ensures
            final(self).entities@ == old(self).entities@.filter(entity_id_differs(id.0@)),
            final(self).relationships@ == old(self).relationships@.filter(avoids_entity(id.0@)),
            removed == has_entity(old(self).entities@, id.0@),
            forall|i: int|
                0 <= i < final(self).relationships@.len() ==> !(
                #[trigger] final(self).relationships@[i]).touches(id.0@),
            relationship_ids_unique(old(self).relationships@) ==> relationship_ids_unique(
                final(self).relationships@,
            ),
            final(self).id == old(self).id,
            final(self).name == old(self).name,
    {
        let ghost keep_entity = entity_id_differs(id.0@);
        let mut rest: Vec<Entity> = Vec::new();
        std::mem::swap(&mut rest, &mut self.entities);
        let ghost all = rest@;
        let mut kept: Vec<Entity> = Vec::new();
        let mut removed = false;
        for e in it: rest
            invariant
                it.seq() == all,
                keep_entity == entity_id_differs(id.0@),
                kept@ == all.take(it.index() as int).filter(keep_entity),
                removed == has_entity(all.take(it.index() as int), id.0@),
        {
            proof {
                let before = all.take(it.index() as int);
                let after = all.take(it.index() + 1);
                assert(after =~= before.push(e));
                before.lemma_filter_push(e, keep_entity);
                if has_entity(before, id.0@) {
                    let k = choose|k: int| 0 <= k < before.len() && #[trigger] before[k].id.0@ == id.0@;
                    assert(after[k] == before[k]);
                }
                if e.id.0@ == id.0@ {
                    assert(after[before.len() as int] == e);
                }
                if has_entity(after, id.0@) && e.id.0@ != id.0@ {
                    let k = choose|k: int| 0 <= k < after.len() && #[trigger] after[k].id.0@ == id.0@;
                    assert(before[k] == after[k]);
                }
            }
            if e.id.0 == id.0 {
                removed = true;
            } else {
                kept.push(e);
            }
        }
        proof {
            assert(all.take(all.len() as int) =~= all);
        }
        self.entities = kept;

        let ghost keep_relationship = avoids_entity(id.0@);
        let mut rest_relationships: Vec<Relationship> = Vec::new();
        std::mem::swap(&mut rest_relationships, &mut self.relationships);
        let ghost all_relationships = rest_relationships@;
        let mut kept_relationships: Vec<Relationship> = Vec::new();
        for r in it: rest_relationships
            invariant
                it.seq() == all_relationships,
                keep_relationship == avoids_entity(id.0@),
                kept_relationships@ == all_relationships.take(it.index() as int).filter(
                    keep_relationship,
                ),
        {
            proof {
                assert(all_relationships.take(it.index() + 1) =~= all_relationships.take(
                    it.index() as int,
                ).push(r));
                all_relationships.take(it.index() as int).lemma_filter_push(r, keep_relationship);
            }
            if !r.connects(id) {
                kept_relationships.push(r);
            }
        }
        proof {
            assert(all_relationships.take(all_relationships.len() as int) =~= all_relationships);
            if relationship_ids_unique(all_relationships) {
                lemma_unique_ids_survive_filter(all_relationships, keep_relationship);
            }
            let f = all_relationships.filter(keep_relationship);
            assert forall|i: int| 0 <= i < f.len() implies !(#[trigger] f[i]).touches(id.0@) by {
                assert(keep_relationship(f[i]));
            }
        }
        self.relationships = kept_relationships;
        removed
    }

    /// Appends `relationship` unless a relationship with the same identifier
    /// is already present, in which case nothing changes.
    pub fn add_relationship(&mut self, relationship: Relationship)
        ensures
            final(self).relationships@ == (if has_relationship(
                old(self).relationships@,
                relationship.id.0@,
            ) {
                old(self).relationships@
            } else {
                old(self).relationships@.push(relationship)
            }),
            relationship_ids_unique(old(self).relationships@) ==> relationship_ids_unique(
                final(self).relationships@,
            ),
            final(self).id == old(self).id,
            final(self).name == old(self).name,
            final(self).entities == old(self).entities,
    {
        let n = self.relationships.len();
        let mut i: usize = 0;
        while i < n
            invariant
                n == self.relationships@.len(),
                i <= n,
                forall|j: int|
                    0 <= j < i ==> #[trigger] self.relationships@[j].id.0@ != relationship.id.0@,
            decreases n - i,
        {
            if self.relationships[i].id.0 == relationship.id.0 {
                return;
            }
            i = i + 1;
        }
        let ghost before = self.relationships@;
        self.relationships.push(relationship);
        proof {
            let after = self.relationships@;
            if relationship_ids_unique(before) {
                assert forall|a: int, b: int| 0 <= a < b < after.len() implies #[trigger] after[a].id.0@
                    != #[trigger] after[b].id.0@ by {
                    if b == before.len() {
                        assert(after[a] == before[a]);
                    } else {
                        assert(after[a] == before[a] && after[b] == before[b]);
                    }
                }
            }
        }
    }

    /// Removes every relationship with identifier `id`; tells whether one was
    /// removed.
    pub fn remove_relationship(&mut self, id: &RelationshipId) -> (removed: bool)
        ensures
            final(self).relationships@ == old(self).relationships@.filter(
                relationship_id_differs(id.0@),
            ),
            removed == has_relationship(old(self).relationships@, id.0@),
            relationship_ids_unique(old(self).relationships@) ==> relationship_ids_unique(
                final(self).relationships@,
            ),
            final(self).id == old(self).id,
            final(self).name == old(self).name,
            final(self).entities == old(self).entities,
    {
        let ghost keep = relationship_id_differs(id.0@);
        let mut rest: Vec<Relationship> = Vec::new();
        std::mem::swap(&mut rest, &mut self.relationships);
        let ghost all = rest@;
        let mut kept: Vec<Relationship> = Vec::new();
        let mut removed = false;
        for r in it: rest
            invariant
                it.seq() == all,
                keep == relationship_id_differs(id.0@),
                kept@ == all.take(it.index() as int).filter(keep),
                removed == has_relationship(all.take(it.index() as int), id.0@),
        {
            proof {
                let before = all.take(it.index() as int);
                let after = all.take(it.index() + 1);
                assert(after =~= before.push(r));
                before.lemma_filter_push(r, keep);
                if has_relationship(before, id.0@) {
                    let k = choose|k: int| 0 <= k < before.len() && #[trigger] before[k].id.0@ == id.0@;
                    assert(after[k] == before[k]);
                }
                if r.id.0@ == id.0@ {
                    assert(after[before.len() as int] == r);
                }
                if has_relationship(after, id.0@) && r.id.0@ != id.0@ {
                    let k = choose|k: int| 0 <= k < after.len() && #[trigger] after[k].id.0@ == id.0@;
                    assert(before[k] == after[k]);
                }
            }
            if r.id.0 == id.0 {
                removed = true;
            } else {
                kept.push(r);
            }
        }
        proof {
            assert(all.take(all.len() as int) =~= all);
            if relationship_ids_unique(all) {
                lemma_unique_ids_survive_filter(all, keep);
            }
        }
        self.relationships = kept;
        removed
    }
}

/// After removing an entity by identifier, no entity with that identifier
/// is left, so removing it again removes nothing.
pub proof fn law_removed_entity_is_gone(entities: Seq<Entity>, id: Seq<char>)
    ensures
        !has_entity(entities.filter(entity_id_differs(id)), id),
{
    let f = entities.filter(entity_id_differs(id));
    if has_entity(f, id) {
        let k = choose|k: int| 0 <= k < f.len() && #[trigger] f[k].id.0@ == id;
        assert(entity_id_differs(id)(f[k]));
    }
}

/// Adding an entity and then removing its identifier leaves the entities as
/// removing that identifier alone would.
pub proof fn law_remove_added_entity(entities: Seq<Entity>, entity: Entity)
    ensures
        entities.push(entity).filter(entity_id_differs(entity.id.0@)) == entities.filter(
            entity_id_differs(entity.id.0@),
        ),
{
    entities.lemma_filter_push(entity, entity_id_differs(entity.id.0@));
}

/// Adding a relationship whose identifier is new and then removing it by
/// that identifier gives the relationships back.
pub proof fn law_remove_added_relationship(
    relationships: Seq<Relationship>,
    relationship: Relationship,
)
    requires
        !has_relationship(relationships, relationship.id.0@),
    ensures
        relationships.push(relationship).filter(relationship_id_differs(relationship.id.0@))
            == relationships,
{
    let keep = relationship_id_differs(relationship.id.0@);
    relationships.lemma_filter_push(relationship, keep);
    assert forall|i: int| 0 <= i < relationships.len() implies keep(#[trigger] relationships[i]) by {
        if relationships[i].id.0@ == relationship.id.0@ {
            assert(has_relationship(relationships, relationship.id.0@));
        }
    }
    crate::seq_facts::lemma_filter_all_pass(relationships, keep);
}

/// Removing an entity keeps the workspace consistent: afterwards no entity
/// has the removed identifier and no relationship starts or ends at it, so no
/// relationship is left dangling on the removed entity.
pub proof fn law_removal_leaves_nothing_dangling(
    entities: Seq<Entity>,
    relationships: Seq<Relationship>,
    id: Seq<char>,
)
    ensures
        !has_entity(entities.filter(entity_id_differs(id)), id),
        forall|i: int|
            0 <= i < relationships.filter(avoids_entity(id)).len() ==> !(
            #[trigger] relationships.filter(avoids_entity(id))[i]).touches(id),
{
    law_removed_entity_is_gone(entities, id);
    let f = relationships.filter(avoids_entity(id));
    assert forall|i: int| 0 <= i < f.len() implies !(#[trigger] f[i]).touches(id) by {
        assert(avoids_entity(id)(f[i]));
    }
}

/// `relationship` starts and ends at entities of `entities`.
pub open spec fn is_attached(entities: Seq<Entity>, relationship: Relationship) -> bool {
    has_entity(entities, relationship.source.0@) && has_entity(entities, relationship.target.0@)
}

/// Every relationship of `relationships` starts and ends at an entity of
/// `entities`.
pub open spec fn all_attached(entities: Seq<Entity>, relationships: Seq<Relationship>) -> bool {
    forall|i: int| 0 <= i < relationships.len() ==> #[trigger] is_attached(entities, relationships[i])
}

proof fn lemma_other_entity_stays(entities: Seq<Entity>, id: Seq<char>, other: Seq<char>)
    requires
        has_entity(entities, other),
        other != id,
    ensures
        has_entity(entities.filter(entity_id_differs(id)), other),
{
    let keep = entity_id_differs(id);
    let j = choose|j: int| 0 <= j < entities.len() && #[trigger] entities[j].id.0@ == other;
    entities.lemma_filter_contains(keep, j);
    let kept = entities.filter(keep);
    let k = choose|k: int| 0 <= k < kept.len() && kept[k] == entities[j];
    assert(kept[k].id.0@ == other);
}

/// Removing an entity keeps the workspace consistent: when every
/// relationship started and ended at an existing entity before, every
/// relationship that is left still does afterwards.
pub proof fn law_removal_keeps_relationships_attached(
    entities: Seq<Entity>,
    relationships: Seq<Relationship>,
    id: Seq<char>,
)
    requires
        all_attached(entities, relationships),
    ensures
        all_attached(
            entities.filter(entity_id_differs(id)),
            relationships.filter(avoids_entity(id)),
        ),
{
    let kept_entities = entities.filter(entity_id_differs(id));
    let f = relationships.filter(avoids_entity(id));
    assert forall|i: int| 0 <= i < f.len() implies #[trigger] is_attached(kept_entities, f[i]) by {
        let r = f[i];
        assert(avoids_entity(id)(r));
        assert(f.contains(r));
        relationships.lemma_filter_contains_rev(avoids_entity(id), r);
        let k = choose|k: int| 0 <= k < relationships.len() && relationships[k] == r;
        assert(is_attached(entities, relationships[k]));
        lemma_other_entity_stays(entities, id, r.source.0@);
        lemma_other_entity_stays(entities, id, r.target.0@);
    }
}

} // verus!

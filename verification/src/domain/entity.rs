//! Entities: the nodes of a workspace, each with a title, a type, a position
//! on the canvas and a list of key/value properties.

use vstd::prelude::*;
use crate::identifier::{fresh_uuid_text, is_fresh_uuid, is_v4_uuid_text};

verus! {

broadcast use vstd::seq_lib::group_filter_ensures;

/// The identifier of an entity.
#[derive(Debug, Clone, PartialEq, Eq, Hash)]
pub struct EntityId(pub String);

/// What an entity stands for.
#[derive(Debug, Clone, PartialEq, Eq)]
pub enum EntityType {
    Person,
    Evidence,
    Event,
    Argument,
    Court,
    Note,
    Custom(String),
}

/// A key/value annotation of an entity.
#[derive(Debug, Clone, PartialEq, Eq)]
pub struct Property {
    pub key: String,
    pub value: String,
}

/// A point on the canvas. Each coordinate is the IEEE 754 bit pattern of a
/// 64-bit floating-point number (`f64::to_bits`); the library stores and moves
/// positions but never computes with them, and offers no `==` on them: equal
/// bit patterns and equal numbers differ for `0.0` and `-0.0` and for NaN.
#[derive(Debug, Clone, Copy)]
pub struct Position {
    pub x: u64,
    pub y: u64,
}

/// A node of a workspace.
#[derive(Debug, Clone)]
pub struct Entity {
    pub id: EntityId,
    pub title: String,
    pub entity_type: EntityType,
    pub properties: Vec<Property>,
    pub position: Position,
}

/// Keeps the properties whose key differs from `key`.
pub open spec fn property_key_differs(key: Seq<char>) -> spec_fn(Property) -> bool {
    |p: Property| p.key@ != key
}

/// Index of the first property of `props` whose key is `key`, if any.
pub open spec fn first_property_index(props: Seq<Property>, key: Seq<char>) -> Option<int>
    decreases props.len(),
{
    if props.len() == 0 {
        None
    } else if props[0].key@ == key {
        Some(0)
    } else {
        shifted(first_property_index(props.drop_first(), key), 1)
    }
}

/// `o` with `k` added to the index it holds.
pub open spec fn shifted(o: Option<int>, k: int) -> Option<int> {
    match o {
        Some(i) => Some(i + k),
        None => None,
    }
}

impl Entity {
    /// A new entity with a fresh random identifier and no properties.
    pub fn new(title: &str, entity_type: EntityType, position: Position) -> (e: Entity)
        ensures
            is_v4_uuid_text(e.id.0@),
            is_fresh_uuid(e.id.0),
            e.title@ == title@,
            e.entity_type == entity_type,
            e.properties@.len() == 0,
            e.position == position,
    {
        Entity::with_id(EntityId(fresh_uuid_text()), title, entity_type, position)
    }

    /// A new entity with the given identifier and no properties.
    pub fn with_id(id: EntityId, title: &str, entity_type: EntityType, position: Position) -> (e:
        Entity)
        ensures
            e.id == id,
            e.title@ == title@,
            e.entity_type == entity_type,
            e.properties@.len() == 0,
            e.position == position,
    {
        Entity { id, title: title.to_owned(), entity_type, properties: Vec::new(), position }
    }

    /// Replaces the title.
    pub fn rename(&mut self, title: &str)
        ensures
            final(self).title@ == title@,
            final(self).id == old(self).id,
            final(self).entity_type == old(self).entity_type,
            final(self).properties == old(self).properties,
            final(self).position == old(self).position,
    {
        self.title = title.to_owned();
    }

    /// Moves the entity to `position`.
    pub fn move_to(&mut self, position: Position)
        ensures
            final(self).position == position,
            final(self).id == old(self).id,
            final(self).title == old(self).title,
            final(self).entity_type == old(self).entity_type,
            final(self).properties == old(self).properties,
    {
        self.position = position;
    }

    /// Appends a property; an earlier property with the same key stays.
    pub fn add_property(&mut self, property: Property)
        ensures
            final(self).properties@ == old(self).properties@.push(property),
            final(self).id == old(self).id,
            final(self).title == old(self).title,
            final(self).entity_type == old(self).entity_type,
            final(self).position == old(self).position,
    {
        self.properties.push(property);
    }

    /// Removes every property whose key is `key`, keeping the order of the rest.
    pub fn remove_property(&mut self, key: &str)
        ensures
            final(self).properties@ == old(self).properties@.filter(property_key_differs(key@)),
            final(self).id == old(self).id,
            final(self).title == old(self).title,
            final(self).entity_type == old(self).entity_type,
            final(self).position == old(self).position,
    {
        let ghost keep = property_key_differs(key@);
        let wanted: String = key.to_owned();
        let mut rest: Vec<Property> = Vec::new();
        std::mem::swap(&mut rest, &mut self.properties);
        let ghost all = rest@;
        let mut kept: Vec<Property> = Vec::new();
        for p in it: rest
            invariant
                it.seq() == all,
                kept@ == all.take(it.index() as int).filter(keep),
                wanted@ == key@,
                keep == property_key_differs(key@),
        {
            proof {
                assert(all.take(it.index() + 1) =~= all.take(it.index() as int).push(p));
                all.take(it.index() as int).lemma_filter_push(p, keep);
            }
            if !(p.key == wanted) {
                kept.push(p);
            }
        }
        proof {
            assert(all.take(all.len() as int) =~= all);
        }
        self.properties = kept;
    }

    /// The first property whose key is `key`, if any.
    pub fn property(&self, key: &str) -> (r: Option<&Property>)
        ensures
            r == (match first_property_index(self.properties@, key@) {
                Some(i) => Some(&self.properties@[i]),
                None => None,
            }),
    {
        let wanted: String = key.to_owned();
        let n = self.properties.len();
        let mut i: usize = 0;
        assert(self.properties@.skip(0) =~= self.properties@);
        assert(shifted(first_property_index(self.properties@, key@), 0) == first_property_index(
            self.properties@,
            key@,
        ));
        while i < n
            invariant
                n == self.properties@.len(),
                i <= n,
                wanted@ == key@,
                first_property_index(self.properties@, key@) == shifted(
                    first_property_index(self.properties@.skip(i as int), key@),
                    i as int,
                ),
            decreases n - i,
        {
            let ghost s = self.properties@.skip(i as int);
            assert(s[0] == self.properties@[i as int]);
            if self.properties[i].key == wanted {
                return Some(&self.properties[i]);
            }
            assert(s.drop_first() =~= self.properties@.skip(i + 1));
            i = i + 1;
        }
        assert(self.properties@.skip(n as int).len() == 0);
        None
    }
}

/// Some property of `props` has the key `key`.
pub open spec fn has_property(props: Seq<Property>, key: Seq<char>) -> bool {
    exists|i: int| 0 <= i < props.len() && #[trigger] props[i].key@ == key
}

proof fn lemma_first_index_absent(props: Seq<Property>, key: Seq<char>)
    requires
        !has_property(props, key),
    ensures
        first_property_index(props, key) is None,
    decreases props.len(),
{
    if props.len() > 0 {
        let t = props.drop_first();
        assert(props[0].key@ != key);
        if has_property(t, key) {
            let k = choose|k: int| 0 <= k < t.len() && #[trigger] t[k].key@ == key;
            assert(props[k + 1] == t[k]);
        }
        lemma_first_index_absent(t, key);
    }
}

/// The first property with a key is found exactly when some property has it.
pub proof fn law_property_found_iff_present(props: Seq<Property>, key: Seq<char>)
    ensures
        first_property_index(props, key) is Some <==> has_property(props, key),
        first_property_index(props, key) matches Some(i) ==> 0 <= i < props.len() && props[i].key@
            == key,
    decreases props.len(),
{
    if props.len() > 0 {
        let t = props.drop_first();
        law_property_found_iff_present(t, key);
        if props[0].key@ != key {
            if has_property(props, key) {
                let k = choose|k: int| 0 <= k < props.len() && #[trigger] props[k].key@ == key;
                assert(t[k - 1] == props[k]);
            }
            if has_property(t, key) {
                let k = choose|k: int| 0 <= k < t.len() && #[trigger] t[k].key@ == key;
                assert(props[k + 1] == t[k]);
            }
            if let Some(i) = first_property_index(t, key) {
                assert(props[i + 1] == t[i]);
            }
        }
    }
}

/// After removing a key, looking it up finds nothing.
pub proof fn law_removed_property_is_gone(props: Seq<Property>, key: Seq<char>)
    ensures
        first_property_index(props.filter(property_key_differs(key)), key) is None,
{
    let f = props.filter(property_key_differs(key));
    if has_property(f, key) {
        let k = choose|k: int| 0 <= k < f.len() && #[trigger] f[k].key@ == key;
        assert(property_key_differs(key)(f[k]));
    }
    lemma_first_index_absent(f, key);
}

/// Adding a property under a key that no property has yet makes the lookup
/// of that key find it.
pub proof fn law_added_property_is_found(props: Seq<Property>, property: Property)
    requires
        !has_property(props, property.key@),
    ensures
        first_property_index(props.push(property), property.key@) == Some(props.len() as int),
    decreases props.len(),
{
    let s = props.push(property);
    if props.len() == 0 {
        assert(s[0] == property);
    } else {
        let t = props.drop_first();
        assert(props[0].key@ != property.key@);
        if has_property(t, property.key@) {
            let k = choose|k: int| 0 <= k < t.len() && #[trigger] t[k].key@ == property.key@;
            assert(props[k + 1] == t[k]);
        }
        law_added_property_is_found(t, property);
        assert(s.drop_first() =~= t.push(property));
        assert(s[0] == props[0]);
    }
}

} // verus!

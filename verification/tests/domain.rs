use litigraph::application::workspace::WorkspaceApplication;
use litigraph::domain::catalog::{WorkspaceCatalog, WorkspaceEntry};
use litigraph::domain::entity::{Entity, EntityId, EntityType, Position, Property};
use litigraph::domain::relationship::{Relationship, RelationshipId, RelationshipType};
use litigraph::domain::workspace::{Workspace, WorkspaceId};
use litigraph::infrastructure::{
    temporary_file_name, temporary_file_name_with, FileWorkspaceCatalogStore,
    WorkspaceFileRepository,
};
use litigraph::text::{is_blank, is_whitespace, trim};

fn origin() -> Position {
    Position { x: 0.0f64.to_bits(), y: 0.0f64.to_bits() }
}

fn entity(id: &str, title: &str) -> Entity {
    Entity::with_id(EntityId(id.to_string()), title, EntityType::Note, origin())
}

fn edge(id: &str, source: &str, target: &str) -> Relationship {
    Relationship::with_id(
        RelationshipId(id.to_string()),
        EntityId(source.to_string()),
        EntityId(target.to_string()),
        RelationshipType::Supports,
    )
}

fn property(key: &str, value: &str) -> Property {
    Property { key: key.to_string(), value: value.to_string() }
}

fn looks_like_v4_uuid(s: &str) -> bool {
    let chars: Vec<char> = s.chars().collect();
    chars.len() == 36
        && chars.iter().enumerate().all(|(i, c)| {
            if [8, 13, 18, 23].contains(&i) {
                *c == '-'
            } else {
                c.is_ascii_digit() || ('a'..='f').contains(c)
            }
        })
        && chars[14] == '4'
        && "89ab".contains(chars[19])
}

#[test]
fn new_values_get_distinct_v4_identifiers() {
    let a = Workspace::new("A");
    let b = Workspace::new("A");
    assert!(looks_like_v4_uuid(&a.id.0));
    assert!(looks_like_v4_uuid(&b.id.0));
    assert_ne!(a.id, b.id);
    let e = Entity::new("E", EntityType::Person, origin());
    assert!(looks_like_v4_uuid(&e.id.0));
    let r = Relationship::new(e.id.clone(), EntityId("x".into()), RelationshipType::RelatedTo);
    assert!(looks_like_v4_uuid(&r.id.0));
    assert_ne!(r.id.0, e.id.0);
}

#[test]
fn new_workspace_is_empty_and_named() {
    let ws = Workspace::new("My Novel");
    assert_eq!(ws.name, "My Novel");
    assert!(ws.entities.is_empty());
    assert!(ws.relationships.is_empty());
    let app = WorkspaceApplication::create("Via app");
    assert_eq!(app.name, "Via app");
    assert!(looks_like_v4_uuid(&app.id.0));
}

#[test]
fn rename_workspace_keeps_everything_else() {
    let mut ws = Workspace::with_id(WorkspaceId("w".into()), "Old");
    ws.add_entity(entity("e1", "One"));
    ws.rename("  New  ");
    assert_eq!(ws.name, "  New  ");
    assert_eq!(ws.id, WorkspaceId("w".into()));
    assert_eq!(ws.entities.len(), 1);
    WorkspaceApplication::rename(&mut ws, "Newer");
    assert_eq!(ws.name, "Newer");
}

#[test]
fn remove_entity_cascades_to_relationships() {
    let mut ws = Workspace::with_id(WorkspaceId("w".into()), "W");
    ws.add_entity(entity("a", "A"));
    ws.add_entity(entity("b", "B"));
    ws.add_entity(entity("c", "C"));
    ws.add_relationship(edge("r1", "a", "b"));
    ws.add_relationship(edge("r2", "b", "c"));
    ws.add_relationship(edge("r3", "c", "a"));

    assert!(ws.remove_entity(&EntityId("b".into())));
    let ids: Vec<&str> = ws.entities.iter().map(|e| e.id.0.as_str()).collect();
    assert_eq!(ids, vec!["a", "c"]);
    let rel_ids: Vec<&str> = ws.relationships.iter().map(|r| r.id.0.as_str()).collect();
    assert_eq!(rel_ids, vec!["r3"]);
    assert!(ws.relationships.iter().all(|r| !r.connects(&EntityId("b".into()))));

    // Removing it again removes nothing.
    assert!(!ws.remove_entity(&EntityId("b".into())));
    assert_eq!(ws.entities.len(), 2);
}

#[test]
fn remove_entity_removes_every_entity_with_that_id() {
    let mut ws = Workspace::with_id(WorkspaceId("w".into()), "W");
    ws.add_entity(entity("a", "A1"));
    ws.add_entity(entity("b", "B"));
    ws.add_entity(entity("a", "A2"));
    assert!(ws.remove_entity(&EntityId("a".into())));
    assert_eq!(ws.entities.len(), 1);
    assert_eq!(ws.entities[0].title, "B");
}

#[test]
fn remove_unknown_entity_keeps_unrelated_relationships() {
    let mut ws = Workspace::with_id(WorkspaceId("w".into()), "W");
    ws.add_entity(entity("a", "A"));
    ws.add_relationship(edge("r1", "a", "ghost"));
    assert!(!ws.remove_entity(&EntityId("zzz".into())));
    assert_eq!(ws.entities.len(), 1);
    assert_eq!(ws.relationships.len(), 1);
    // A relationship to an entity that was never added still goes with it.
    assert!(!ws.remove_entity(&EntityId("ghost".into())));
    assert!(ws.relationships.is_empty());
}

#[test]
fn add_relationship_ignores_duplicate_ids() {
    let mut ws = Workspace::with_id(WorkspaceId("w".into()), "W");
    ws.add_relationship(edge("r1", "a", "b"));
    ws.add_relationship(edge("r1", "x", "y"));
    assert_eq!(ws.relationships.len(), 1);
    assert_eq!(ws.relationships[0].source, EntityId("a".into()));
    ws.add_relationship(edge("r2", "x", "y"));
    assert_eq!(ws.relationships.len(), 2);
}

#[test]
fn remove_relationship_reports_whether_it_removed() {
    let mut ws = Workspace::with_id(WorkspaceId("w".into()), "W");
    ws.add_relationship(edge("r1", "a", "b"));
    ws.add_relationship(edge("r2", "b", "c"));
    assert!(ws.remove_relationship(&RelationshipId("r1".into())));
    assert!(!ws.remove_relationship(&RelationshipId("r1".into())));
    assert_eq!(ws.relationships.len(), 1);
    assert_eq!(ws.relationships[0].id, RelationshipId("r2".into()));
}

#[test]
fn add_then_remove_relationship_restores_the_workspace() {
    let mut ws = Workspace::with_id(WorkspaceId("w".into()), "W");
    ws.add_relationship(edge("r1", "a", "b"));
    let before: Vec<String> = ws.relationships.iter().map(|r| r.id.0.clone()).collect();
    ws.add_relationship(edge("r9", "b", "c"));
    assert!(ws.remove_relationship(&RelationshipId("r9".into())));
    let after: Vec<String> = ws.relationships.iter().map(|r| r.id.0.clone()).collect();
    assert_eq!(before, after);
}

#[test]
fn relationship_connects_and_change_type() {
    let mut r = edge("r", "a", "b");
    assert!(r.connects(&EntityId("a".into())));
    assert!(r.connects(&EntityId("b".into())));
    assert!(!r.connects(&EntityId("c".into())));
    r.change_type(RelationshipType::Custom("cites".into()));
    assert_eq!(r.relationship_type, RelationshipType::Custom("cites".into()));
    assert_eq!(r.source, EntityId("a".into()));
    assert_eq!(r.id, RelationshipId("r".into()));
}

#[test]
fn entity_rename_and_move() {
    let mut e = Entity::new("Witness", EntityType::Person, origin());
    let id = e.id.clone();
    e.rename("Key witness");
    assert_eq!(e.title, "Key witness");
    let p = Position { x: 12.5f64.to_bits(), y: (-3.25f64).to_bits() };
    e.move_to(p);
    assert_eq!(f64::from_bits(e.position.x), 12.5);
    assert_eq!(f64::from_bits(e.position.y), -3.25);
    assert_eq!(e.id, id);
    assert_eq!(e.entity_type, EntityType::Person);
}

#[test]
fn entity_properties_lookup_and_removal() {
    let mut e = entity("e", "E");
    assert!(e.property("date").is_none());
    e.add_property(property("date", "2020-01-01"));
    e.add_property(property("place", "Court 3"));
    e.add_property(property("date", "2021-02-02"));
    assert_eq!(e.property("date").unwrap().value, "2020-01-01");
    assert_eq!(e.property("place").unwrap().value, "Court 3");
    e.remove_property("date");
    assert!(e.property("date").is_none());
    assert_eq!(e.properties, vec![property("place", "Court 3")]);
    e.remove_property("unknown");
    assert_eq!(e.properties.len(), 1);
}

#[test]
fn catalog_add_puts_entry_first_and_replaces_same_location() {
    let a = Workspace::with_id(WorkspaceId("a".into()), "A");
    let b = Workspace::with_id(WorkspaceId("b".into()), "B");
    let mut catalog = WorkspaceCatalog::default();
    assert!(catalog.is_empty());
    catalog.add(WorkspaceEntry::new(&a, "/one"));
    catalog.add(WorkspaceEntry::new(&b, "/two"));
    assert_eq!(catalog.len(), 2);
    assert_eq!(catalog.entries()[0].id, WorkspaceId("b".into()));
    catalog.add(WorkspaceEntry::new(&b, "/one"));
    assert_eq!(catalog.len(), 2);
    assert_eq!(catalog.entries()[0].path, "/one");
    assert_eq!(catalog.entries()[0].id, WorkspaceId("b".into()));
    assert_eq!(catalog.entries()[1].path, "/two");
}

#[test]
fn catalog_add_twice_is_add_once() {
    let a = Workspace::with_id(WorkspaceId("a".into()), "A");
    let mut once = WorkspaceCatalog::default();
    once.add(WorkspaceEntry::new(&a, "/x"));
    let mut twice = once.clone();
    twice.add(WorkspaceEntry::new(&a, "/x"));
    assert_eq!(once.len(), twice.len());
    assert_eq!(once.entries()[0].path, twice.entries()[0].path);
}

#[test]
fn catalog_remove_by_path_undoes_add_of_new_location() {
    let a = Workspace::with_id(WorkspaceId("a".into()), "A");
    let b = Workspace::with_id(WorkspaceId("b".into()), "B");
    let mut catalog = WorkspaceCatalog::default();
    catalog.add(WorkspaceEntry::new(&a, "/a"));
    catalog.add(WorkspaceEntry::new(&b, "/b"));
    let before: Vec<String> = catalog.entries().iter().map(|e| e.path.clone()).collect();
    catalog.add(WorkspaceEntry::new(&a, "/new"));
    catalog.remove_by_path("/new");
    let after: Vec<String> = catalog.entries().iter().map(|e| e.path.clone()).collect();
    assert_eq!(before, after);
    catalog.remove_by_path("/missing");
    assert_eq!(catalog.len(), 2);
}

#[test]
fn catalog_from_entries_keeps_order_and_first_of_each_location() {
    let a = Workspace::with_id(WorkspaceId("a".into()), "A");
    let b = Workspace::with_id(WorkspaceId("b".into()), "B");
    let c = Workspace::with_id(WorkspaceId("c".into()), "C");
    let catalog = WorkspaceCatalog::from_entries(vec![
        WorkspaceEntry::new(&a, "/1"),
        WorkspaceEntry::new(&b, "/2"),
        WorkspaceEntry::new(&c, "/1"),
    ]);
    let ids: Vec<&str> = catalog.entries().iter().map(|e| e.id.0.as_str()).collect();
    assert_eq!(ids, vec!["a", "b"]);
    let entries = catalog.into_entries();
    assert_eq!(entries.len(), 2);
    assert!(WorkspaceCatalog::from_entries(Vec::new()).is_empty());
}

#[test]
fn entry_copies_workspace_identity() {
    let ws = Workspace::with_id(WorkspaceId("id-1".into()), "Name");
    let entry = WorkspaceEntry::new(&ws, "/loc");
    assert_eq!(entry.id, ws.id);
    assert_eq!(entry.name, "Name");
    assert_eq!(entry.path, "/loc");
}

#[test]
fn trim_and_blank() {
    assert_eq!(trim("  a b  "), "a b");
    assert_eq!(trim("\u{3000}\u{2028}x\u{85}"), "x");
    assert_eq!(trim("   "), "");
    assert_eq!(trim(""), "");
    assert_eq!(trim("é\u{200b}"), "é\u{200b}");
    assert!(is_blank(""));
    assert!(is_blank(" \t\r\n\u{a0}"));
    assert!(!is_blank(" x "));
    for c in ['\u{9}', '\u{d}', ' ', '\u{85}', '\u{a0}', '\u{1680}', '\u{2000}', '\u{200a}',
              '\u{2028}', '\u{2029}', '\u{202f}', '\u{205f}', '\u{3000}'] {
        assert!(is_whitespace(c), "{:?}", c);
        assert_eq!(is_whitespace(c), c.is_whitespace());
    }
    for c in ['a', '\u{200b}', '\u{180e}', '\u{feff}', '0', '-'] {
        assert!(!is_whitespace(c), "{:?}", c);
        assert_eq!(is_whitespace(c), c.is_whitespace());
    }
    for s in ["", " a ", "\u{a0}b\u{3000}", "x y", "\n\n"] {
        assert_eq!(trim(s), s.trim());
    }
}

#[test]
fn workspace_file_joins_like_path_join() {
    assert_eq!(WorkspaceFileRepository::workspace_file("/tmp/ws"), "/tmp/ws/workspace.json");
    assert_eq!(WorkspaceFileRepository::workspace_file("/tmp/ws/"), "/tmp/ws/workspace.json");
    assert_eq!(WorkspaceFileRepository::workspace_file(""), "workspace.json");
    for base in ["/tmp/ws", "/tmp/ws/", "", "rel/dir", "/"] {
        let expected = std::path::Path::new(base).join("workspace.json");
        assert_eq!(
            WorkspaceFileRepository::workspace_file(base),
            expected.to_str().unwrap()
        );
    }
}

#[test]
fn catalog_store_remembers_its_path() {
    let store = FileWorkspaceCatalogStore::new("/data/catalog.json");
    assert_eq!(store.path(), "/data/catalog.json");
}

#[test]
fn temporary_file_names() {
    assert_eq!(temporary_file_name_with("catalog.json", "n1"), ".catalog.json.tmp.n1");
    assert_eq!(temporary_file_name_with("", ""), "..tmp.");
    let a = temporary_file_name("workspace.json");
    let b = temporary_file_name("workspace.json");
    assert!(a.starts_with(".workspace.json.tmp."));
    assert!(looks_like_v4_uuid(&a[".workspace.json.tmp.".len()..]));
    assert_ne!(a, b);
}

#[test]
fn rebuilding_a_catalog_from_its_entries_restores_it() {
    let mut catalog = WorkspaceCatalog::default();
    for (id, path) in [("x", "/x"), ("y", "/y"), ("z", "/z"), ("x2", "/x")] {
        catalog.add(WorkspaceEntry::new(&Workspace::with_id(WorkspaceId(id.into()), id), path));
    }
    let before: Vec<(String, String)> =
        catalog.entries().iter().map(|e| (e.id.0.clone(), e.path.clone())).collect();
    let rebuilt = WorkspaceCatalog::from_entries(catalog.into_entries());
    let after: Vec<(String, String)> =
        rebuilt.entries().iter().map(|e| (e.id.0.clone(), e.path.clone())).collect();
    assert_eq!(before, after);
    assert_eq!(after[0], ("x2".to_string(), "/x".to_string()));
}

#[test]
fn removing_an_entity_keeps_remaining_relationships_attached() {
    let mut ws = Workspace::with_id(WorkspaceId("w".into()), "W");
    for id in ["a", "b", "c", "d"] {
        ws.add_entity(entity(id, id));
    }
    ws.add_relationship(edge("r1", "a", "b"));
    ws.add_relationship(edge("r2", "c", "d"));
    ws.add_relationship(edge("r3", "d", "a"));
    ws.add_relationship(edge("r4", "b", "b"));
    assert!(ws.remove_entity(&EntityId("a".into())));
    let rel_ids: Vec<&str> = ws.relationships.iter().map(|r| r.id.0.as_str()).collect();
    assert_eq!(rel_ids, vec!["r2", "r4"]);
    for r in &ws.relationships {
        assert!(ws.entities.iter().any(|e| e.id == r.source));
        assert!(ws.entities.iter().any(|e| e.id == r.target));
    }
}

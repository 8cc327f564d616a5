//! The catalog of known workspaces: one entry per workspace location, the
//! most recently registered first.

use vstd::prelude::*;
use crate::domain::workspace::{Workspace, WorkspaceId};
use crate::io_failure::StorageFailure;
use crate::seq_facts::lemma_filter_keeps_distinct_keys;

verus! {

broadcast use vstd::seq_lib::group_filter_ensures;

/// What the catalog remembers of a workspace: its identifier, its name and
/// where it is stored.
#[derive(Debug)]
pub struct WorkspaceEntry {
    pub id: WorkspaceId,
    pub name: String,
    pub path: String,
}

/// `entry` records `workspace` as stored at `path`.
pub open spec fn is_entry_for(entry: WorkspaceEntry, workspace: Workspace, path: Seq<char>) -> bool {
    &&& entry.id.0@ == workspace.id.0@
    &&& entry.name@ == workspace.name@
    &&& entry.path@ == path
}

impl WorkspaceEntry {
    /// The entry for `workspace` stored at `path`.
    pub fn new(workspace: &Workspace, path: &str) -> (e: WorkspaceEntry)
        ensures
            is_entry_for(e, *workspace, path@),
    {
        WorkspaceEntry {
            id: WorkspaceId(workspace.id.0.clone()),
            name: workspace.name.clone(),
            path: path.to_owned(),
        }
    }
}

impl Clone for WorkspaceEntry {
    fn clone(&self) -> (e: WorkspaceEntry)
        ensures
            e == *self,
    {
        WorkspaceEntry {
            id: WorkspaceId(self.id.0.clone()),
            name: self.name.clone(),
            path: self.path.clone(),
        }
    }
}

/// Keeps the entries stored somewhere other than `path`.
pub open spec fn path_differs(path: Seq<char>) -> spec_fn(WorkspaceEntry) -> bool {
    |e: WorkspaceEntry| e.path@ != path
}

/// The location of an entry, as text.
pub open spec fn entry_path() -> spec_fn(WorkspaceEntry) -> Seq<char> {
    |e: WorkspaceEntry| e.path@
}

/// No two entries of `entries` share a location.
pub open spec fn paths_unique(entries: Seq<WorkspaceEntry>) -> bool {
    forall|i: int, j: int|
        0 <= i < j < entries.len() ==> #[trigger] entries[i].path@ != #[trigger] entries[j].path@
}

/// The entries after registering `entry`: it comes first, and any earlier
/// entry for the same location is dropped.
pub open spec fn with_entry(entries: Seq<WorkspaceEntry>, entry: WorkspaceEntry) -> Seq<
    WorkspaceEntry,
> {
    seq![entry] + entries.filter(path_differs(entry.path@))
}

/// The entries of a catalog built by registering the entries of `s` from the
/// last to the first, so that for each location the first entry of `s` wins.
pub open spec fn built_from(s: Seq<WorkspaceEntry>) -> Seq<WorkspaceEntry>
    decreases s.len(),
{
    if s.len() == 0 {
        Seq::empty()
    } else {
        with_entry(built_from(s.drop_first()), s[0])
    }
}

proof fn lemma_with_entry_unique(entries: Seq<WorkspaceEntry>, entry: WorkspaceEntry)
    requires
        paths_unique(entries),
    ensures
        paths_unique(with_entry(entries, entry)),
{
    let keep = path_differs(entry.path@);
    let key = entry_path();
    assert forall|i: int, j: int| 0 <= i < j < entries.len() implies key(#[trigger] entries[i])
        != key(#[trigger] entries[j]) by {}
    lemma_filter_keeps_distinct_keys(entries, keep, key);
    let f = entries.filter(keep);
    let r = with_entry(entries, entry);
    assert forall|i: int, j: int| 0 <= i < j < r.len() implies #[trigger] r[i].path@
        != #[trigger] r[j].path@ by {
        assert(r[j] == f[j - 1]);
        assert(keep(f[j - 1]));
        if i > 0 {
            assert(r[i] == f[i - 1]);
            assert(key(f[i - 1]) != key(f[j - 1]));
        }
    }
}

proof fn lemma_filter_unique(entries: Seq<WorkspaceEntry>, path: Seq<char>)
    requires
        paths_unique(entries),
    ensures
        paths_unique(entries.filter(path_differs(path))),
{
    let keep = path_differs(path);
    let key = entry_path();
    assert forall|i: int, j: int| 0 <= i < j < entries.len() implies key(#[trigger] entries[i])
        != key(#[trigger] entries[j]) by {}
    lemma_filter_keeps_distinct_keys(entries, keep, key);
    let f = entries.filter(keep);
    assert forall|i: int, j: int| 0 <= i < j < f.len() implies #[trigger] f[i].path@
        != #[trigger] f[j].path@ by {
        assert(key(f[i]) != key(f[j]));
    }
}

/// The workspaces the application knows about, most recently registered
/// first, with at most one entry per location.
#[derive(Debug)]
pub struct WorkspaceCatalog {
    entries: Vec<WorkspaceEntry>,
}

impl View for WorkspaceCatalog {
    type V = Seq<WorkspaceEntry>;

    closed spec fn view(&self) -> Seq<WorkspaceEntry> {
        self.entries@
    }
}

impl WorkspaceCatalog {
    #[verifier::type_invariant]
    spec fn locations_unique(self) -> bool {
        paths_unique(self.entries@)
    }

    /// An empty catalog.
    pub fn new() -> (c: WorkspaceCatalog)
        ensures
            c@ == Seq::<WorkspaceEntry>::empty(),
    {
        WorkspaceCatalog { entries: Vec::new() }
    }

    /// Registers `entry` as the most recent one, replacing any entry for the
    /// same location.
    pub fn add(&mut self, entry: WorkspaceEntry)
        ensures
            final(self)@ == with_entry(old(self)@, entry),
    {
        proof {
            use_type_invariant(&*self);
        }
        let ghost keep = path_differs(entry.path@);
        let mut rest: Vec<WorkspaceEntry> = Vec::new();
        std::mem::swap(&mut rest, &mut self.entries);
        let ghost all = rest@;
        let mut kept: Vec<WorkspaceEntry> = Vec::new();
        for e in it: rest
            invariant
                it.seq() == all,
                keep == path_differs(entry.path@),
                kept@ == all.take(it.index() as int).filter(keep),
        {
            proof {
                assert(all.take(it.index() + 1) =~= all.take(it.index() as int).push(e));
                all.take(it.index() as int).lemma_filter_push(e, keep);
            }
            if !(e.path == entry.path) {
                kept.push(e);
            }
        }
        proof {
            assert(all.take(all.len() as int) =~= all);
            lemma_with_entry_unique(all, entry);
        }
        let mut entries: Vec<WorkspaceEntry> = Vec::new();
        entries.push(entry);
        entries.append(&mut kept);
        assert(entries@ =~= with_entry(all, entry));
        self.entries = entries;
    }

    /// Forgets every entry stored at `path`, keeping the order of the rest.
    pub fn remove_by_path(&mut self, path: &str)
        ensures
            final(self)@ == old(self)@.filter(path_differs(path@)),
    {
        proof {
            use_type_invariant(&*self);
        }
        let ghost keep = path_differs(path@);
        let wanted: String = path.to_owned();
        let mut rest: Vec<WorkspaceEntry> = Vec::new();
        std::mem::swap(&mut rest, &mut self.entries);
        let ghost all = rest@;
        let mut kept: Vec<WorkspaceEntry> = Vec::new();
        for e in it: rest
            invariant
                it.seq() == all,
                keep == path_differs(path@),
                wanted@ == path@,
                kept@ == all.take(it.index() as int).filter(keep),
        {
            proof {
                assert(all.take(it.index() + 1) =~= all.take(it.index() as int).push(e));
                all.take(it.index() as int).lemma_filter_push(e, keep);
            }
            if !(e.path == wanted) {
                kept.push(e);
            }
        }
        proof {
            assert(all.take(all.len() as int) =~= all);
            lemma_filter_unique(all, path@);
        }
        self.entries = kept;
    }

    /// A catalog holding `entries`: they are registered from the last to the
    /// first, so the order is kept and, for each location, the first entry
    /// of `entries` is the one that stays.
    pub fn from_entries(entries: Vec<WorkspaceEntry>) -> (c: WorkspaceCatalog)
        ensures
            c@ == built_from(entries@),
    {
        let ghost all = entries@;
        let mut rest = entries;
        let mut catalog = WorkspaceCatalog::new();
        assert(all.subrange(all.len() as int, all.len() as int) =~= Seq::<WorkspaceEntry>::empty());
        while rest.len() > 0
            invariant
                rest@.len() <= all.len(),
                rest@ == all.subrange(0, rest@.len() as int),
                catalog@ == built_from(all.subrange(rest@.len() as int, all.len() as int)),
            decreases rest@.len(),
        {
            let k = rest.len();
            let e = rest.pop().unwrap();
            proof {
                let tail = all.subrange(k - 1, all.len() as int);
                assert(tail[0] == e);
                assert(tail.drop_first() =~= all.subrange(k as int, all.len() as int));
            }
            catalog.add(e);
            assert(rest@ =~= all.subrange(0, rest@.len() as int));
        }
        assert(all.subrange(0, all.len() as int) =~= all);
        catalog
    }

    /// Number of entries.
    pub fn len(&self) -> (n: usize)
        ensures
            n == self@.len(),
    {
        self.entries.len()
    }

    /// Whether the catalog has no entry.
    pub fn is_empty(&self) -> (b: bool)
        ensures
            b == (self@.len() == 0),
    {
        self.entries.len() == 0
    }

    /// The entries, most recent first.
    pub fn entries(&self) -> (s: &[WorkspaceEntry])
        ensures
            s@ == self@,
            paths_unique(s@),
    {
        proof {
            use_type_invariant(self);
        }
        self.entries.as_slice()
    }

    /// The entries, most recent first, taken out of the catalog.
    pub fn into_entries(self) -> (v: Vec<WorkspaceEntry>)
        ensures
            v@ == self@,
            paths_unique(v@),
    {
        proof {
            use_type_invariant(&self);
        }
        self.entries
    }
}

impl Clone for WorkspaceCatalog {
    fn clone(&self) -> (c: WorkspaceCatalog)
        ensures
            c@ == self@,
    {
        proof {
            use_type_invariant(self);
        }
        let n = self.entries.len();
        let mut copy: Vec<WorkspaceEntry> = Vec::new();
        let mut i: usize = 0;
        while i < n
            invariant
                n == self.entries@.len(),
                i <= n,
                copy@ == self.entries@.take(i as int),
            decreases n - i,
        {
            copy.push(self.entries[i].clone());
            assert(copy@ =~= self.entries@.take(i + 1));
            i = i + 1;
        }
        assert(copy@ =~= self.entries@);
        WorkspaceCatalog { entries: copy }
    }
}

impl Default for WorkspaceCatalog {
    fn default() -> (c: WorkspaceCatalog)
        ensures
            c@ == Seq::<WorkspaceEntry>::empty(),
    {
        WorkspaceCatalog::new()
    }
}

/// Where the catalog is kept. Implementations decide how; the use cases only
/// load it, change it and save it back.
pub trait WorkspaceCatalogStore {
    /// The stored catalog.
    fn load(&self) -> Result<WorkspaceCatalog, StorageFailure>;

    /// Replaces the stored catalog with `catalog`.
    fn save(&self, catalog: &WorkspaceCatalog) -> Result<(), StorageFailure>;
}

/// Registering an entry puts it first, and no other entry keeps its location.
pub proof fn law_added_entry_comes_first(entries: Seq<WorkspaceEntry>, entry: WorkspaceEntry)
    ensures
        with_entry(entries, entry)[0] == entry,
        forall|i: int|
            0 < i < with_entry(entries, entry).len() ==> (#[trigger] with_entry(entries, entry)[i]).path@
                != entry.path@,
{
    let keep = path_differs(entry.path@);
    let f = entries.filter(keep);
    assert forall|i: int| 0 < i < with_entry(entries, entry).len() implies (
    #[trigger] with_entry(entries, entry)[i]).path@ != entry.path@ by {
        assert(with_entry(entries, entry)[i] == f[i - 1]);
        assert(keep(f[i - 1]));
    }
}

proof fn lemma_filtered_by_path_again(entries: Seq<WorkspaceEntry>, path: Seq<char>)
    ensures
        entries.filter(path_differs(path)).filter(path_differs(path)) == entries.filter(
            path_differs(path),
        ),
{
    let keep = path_differs(path);
    let f = entries.filter(keep);
    assert forall|i: int| 0 <= i < f.len() implies keep(#[trigger] f[i]) by {}
    crate::seq_facts::lemma_filter_all_pass(f, keep);
}

/// Forgetting a location right after registering an entry for it leaves the
/// catalog as forgetting that location alone would.
pub proof fn law_forget_after_add(entries: Seq<WorkspaceEntry>, entry: WorkspaceEntry)
    ensures
        with_entry(entries, entry).filter(path_differs(entry.path@)) == entries.filter(
            path_differs(entry.path@),
        ),
{
    let keep = path_differs(entry.path@);
    reveal(Seq::filter);
    let head = seq![entry];
    assert(head.drop_last() =~= Seq::<WorkspaceEntry>::empty());
    assert(Seq::<WorkspaceEntry>::empty().filter(keep) =~= Seq::<WorkspaceEntry>::empty());
    assert(head.last() == entry);
    assert(!keep(entry));
    assert(head.filter(keep) =~= Seq::<WorkspaceEntry>::empty());
    Seq::filter_distributes_over_add(head, entries.filter(keep), keep);
    lemma_filtered_by_path_again(entries, entry.path@);
    assert(head.filter(keep) + entries.filter(keep).filter(keep) =~= entries.filter(keep));
}

/// Forgetting a location the catalog has no entry for changes nothing; in
/// particular registering an entry for a new location and forgetting that
/// location gives the catalog back.
pub proof fn law_forget_absent_location(entries: Seq<WorkspaceEntry>, path: Seq<char>)
    requires
        forall|i: int| 0 <= i < entries.len() ==> (#[trigger] entries[i]).path@ != path,
    ensures
        entries.filter(path_differs(path)) == entries,
{
    let keep = path_differs(path);
    assert forall|i: int| 0 <= i < entries.len() implies keep(#[trigger] entries[i]) by {}
    crate::seq_facts::lemma_filter_all_pass(entries, keep);
}

/// Registering the same entry twice is the same as registering it once.
pub proof fn law_add_twice(entries: Seq<WorkspaceEntry>, entry: WorkspaceEntry)
    ensures
        with_entry(with_entry(entries, entry), entry) == with_entry(entries, entry),
{
    law_forget_after_add(entries, entry);
    lemma_filtered_by_path_again(entries, entry.path@);
}

/// Building a catalog from entries that already have one location each gives
/// the same entries back, in the same order: loading a saved catalog restores
/// it.
pub proof fn law_rebuild_keeps_unique_entries(entries: Seq<WorkspaceEntry>)
    requires
        paths_unique(entries),
    ensures
        built_from(entries) == entries,
    decreases entries.len(),
{
    if entries.len() > 0 {
        let first = entries[0];
        let rest = entries.drop_first();
        assert forall|i: int, j: int| 0 <= i < j < rest.len() implies #[trigger] rest[i].path@
            != #[trigger] rest[j].path@ by {
            assert(rest[i] == entries[i + 1] && rest[j] == entries[j + 1]);
        }
        law_rebuild_keeps_unique_entries(rest);
        assert forall|i: int| 0 <= i < rest.len() implies (#[trigger] rest[i]).path@
            != first.path@ by {
            assert(rest[i] == entries[i + 1]);
        }
        law_forget_absent_location(rest, first.path@);
        assert(seq![first] + rest =~= entries);
    }
}

} // verus!

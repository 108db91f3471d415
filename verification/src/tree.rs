//! The store as a mathematical object: a finite map from paths to entries,
//! with the counters and limits that govern it.

use crate::entry::{EntryKind, EntryView};
use crate::error::FsError;
use crate::extent::{WriteMode, MAX_ALLOCATION};
use crate::names::valid_name;
use crate::path::{is_child_of, is_under, rebased, valid_path};
use vstd::prelude::*;

verus! {

/// How many entries the volume holds and may hold, and how many bytes.
#[derive(Debug, Clone, Copy, PartialEq, Eq)]
pub struct VolumeCounters {
    /// The bytes that all files together may hold.
    pub total_capacity_bytes: u64,
    /// The number of entries the volume may hold, the root among them.
    pub node_capacity: u64,
    /// The number of entries the volume holds, the root among them.
    pub used_nodes: u64,
}

/// Whether the entries form a tree: the root is a folder; each entry is well
/// formed and stored under its own path; the parent of each entry but the root
/// is a folder among the entries.
pub open spec fn tree_wf(m: Map<Seq<Seq<u16>>, EntryView>) -> bool {
    &&& m.contains_key(Seq::empty()) && m[Seq::empty()].is_folder()
    &&& forall|k: Seq<Seq<u16>>| #[trigger] m.contains_key(k) ==> m[k].wf() && m[k].path == k
    &&& forall|k: Seq<Seq<u16>>| #[trigger]
        m.contains_key(k) && k.len() > 0 ==> m.contains_key(k.drop_last())
            && m[k.drop_last()].is_folder()
}

/// Whether no file among the entries is larger than `limit`.
pub open spec fn within_limit(m: Map<Seq<Seq<u16>>, EntryView>, limit: nat) -> bool {
    forall|k: Seq<Seq<u16>>| #[trigger]
        m.contains_key(k) && m[k].is_file() ==> m[k].content->0.file_size <= limit
}

/// The entry `e` where a rename of `old` to `new` puts it.
pub open spec fn moved_entry(e: EntryView, old: Seq<Seq<u16>>, new: Seq<Seq<u16>>) -> EntryView {
    if is_under(e.path, old) {
        e.with_path(rebased(e.path, old.len() as int, new))
    } else {
        e
    }
}

/// The entries of `s`, each where a rename of `old` to `new` puts it.
pub open spec fn moved_views(s: Seq<EntryView>, old: Seq<Seq<u16>>, new: Seq<Seq<u16>>) -> Seq<
    EntryView,
> {
    Seq::new(s.len(), |i: int| moved_entry(s[i], old, new))
}

/// The entries after a rename of `old` to `new`: what was stored at or below
/// `old` is stored at the same place below `new`, under its new path, and
/// nothing is left at or below `old`; every other entry stays.
pub open spec fn moved_entries(
    m: Map<Seq<Seq<u16>>, EntryView>,
    old: Seq<Seq<u16>>,
    new: Seq<Seq<u16>>,
) -> Map<Seq<Seq<u16>>, EntryView> {
    Map::new(
        |k: Seq<Seq<u16>>|
            if is_under(k, new) {
                m.contains_key(rebased(k, new.len() as int, old))
            } else {
                m.contains_key(k) && !is_under(k, old)
            },
        |k: Seq<Seq<u16>>|
            if is_under(k, new) {
                m[rebased(k, new.len() as int, old)].with_path(k)
            } else {
                m[k]
            },
    )
}

/// The state of a store.
pub ghost struct TableState {
    /// The entries by path. The empty path is the root.
    pub entries: Map<Seq<Seq<u16>>, EntryView>,
    pub counters: VolumeCounters,
    /// The greatest size a file may have.
    pub max_file_size: nat,
    /// Whether the store rejects every change.
    pub read_only: bool,
}

impl TableState {
    pub open spec fn contains(self, path: Seq<Seq<u16>>) -> bool {
        self.entries.contains_key(path)
    }

    pub open spec fn is_folder_at(self, path: Seq<Seq<u16>>) -> bool {
        self.entries.contains_key(path) && self.entries[path].is_folder()
    }

    /// Whether some entry lies directly in `path`.
    pub open spec fn has_child(self, path: Seq<Seq<u16>>) -> bool {
        exists|k: Seq<Seq<u16>>| #[trigger] self.entries.contains_key(k) && is_child_of(k, path)
    }

    /// The invariant of a store: the root is a folder and stays; each entry is
    /// well formed and stored under its own path; the parent of each entry but
    /// the root is a folder of the store; the counters count the entries and
    /// stay within the capacity; no file is larger than a file may be, and the
    /// capacity in bytes is that of as many files of the greatest size as the
    /// store may hold entries.
    pub open spec fn wf(self) -> bool {
        &&& self.entries.dom().finite()
        &&& tree_wf(self.entries)
        &&& self.counters.used_nodes == self.entries.dom().len()
        &&& self.counters.used_nodes <= self.counters.node_capacity
        &&& self.max_file_size <= MAX_ALLOCATION
        &&& self.counters.total_capacity_bytes == self.counters.node_capacity * self.max_file_size
        &&& within_limit(self.entries, self.max_file_size)
    }

    /// This state with `e` stored under its path, in place of what was there.
    pub open spec fn with_entry(self, e: EntryView) -> TableState {
        TableState { entries: self.entries.insert(e.path, e), ..self }
    }

    /// Why `path` has no file to work on, if it has none.
    pub open spec fn file_error(self, path: Seq<Seq<u16>>) -> Option<FsError> {
        if !self.contains(path) {
            Some(FsError::NotFound)
        } else if self.entries[path].is_folder() {
            Some(FsError::NotAFile)
        } else {
            None
        }
    }

    /// Why a read at `offset` fails, if it does.
    pub open spec fn read_error(self, path: Seq<Seq<u16>>, offset: nat) -> Option<FsError> {
        if self.file_error(path) is Some {
            self.file_error(path)
        } else if offset >= self.entries[path].content->0.file_size {
            Some(FsError::EndOfFile)
        } else {
            None
        }
    }

    /// Why a write of `len` bytes in `mode` fails, if it does. A write that may
    /// grow the file fails if it would end past the size allowed to a file.
    pub open spec fn write_error(self, path: Seq<Seq<u16>>, len: nat, mode: WriteMode) -> Option<
        FsError,
    > {
        if self.read_only {
            Some(FsError::ReadOnly)
        } else if self.file_error(path) is Some {
            self.file_error(path)
        } else if !(mode is ConstrainedIO) && self.entries[path].content->0.write_end(len, mode)
            > self.max_file_size {
            Some(FsError::QuotaExceeded)
        } else {
            None
        }
    }

    /// Why a change of the size of a file to `new_size` fails, if it does.
    pub open spec fn resize_error(self, path: Seq<Seq<u16>>, new_size: nat) -> Option<FsError> {
        if self.read_only {
            Some(FsError::ReadOnly)
        } else if self.file_error(path) is Some {
            self.file_error(path)
        } else if new_size > self.max_file_size {
            Some(FsError::QuotaExceeded)
        } else {
            None
        }
    }

    /// Why a change to the entry at `path` fails, if it does.
    pub open spec fn change_error(self, path: Seq<Seq<u16>>) -> Option<FsError> {
        if self.read_only {
            Some(FsError::ReadOnly)
        } else if !self.contains(path) {
            Some(FsError::NotFound)
        } else {
            None
        }
    }

    /// Why an entry cannot be created, if it cannot.
    pub open spec fn create_error(
        self,
        path: Seq<Seq<u16>>,
        kind: EntryKind,
        allocation_size: nat,
    ) -> Option<FsError> {
        if self.read_only {
            Some(FsError::ReadOnly)
        } else if self.contains(path) {
            Some(FsError::AlreadyExists)
        } else if !self.contains(path.drop_last()) {
            Some(FsError::ParentNotFound)
        } else if !self.entries[path.drop_last()].is_folder() {
            Some(FsError::NotADirectory)
        } else if self.counters.used_nodes >= self.counters.node_capacity {
            Some(FsError::QuotaExceeded)
        } else if kind == EntryKind::File && allocation_size > self.max_file_size {
            Some(FsError::QuotaExceeded)
        } else {
            None
        }
    }

    /// This state with the new entry `e` added and counted.
    pub open spec fn created(self, e: EntryView) -> TableState {
        TableState {
            entries: self.entries.insert(e.path, e),
            counters: VolumeCounters {
                used_nodes: (self.counters.used_nodes + 1) as u64,
                ..self.counters
            },
            ..self
        }
    }

    /// Why `old` cannot be renamed to `new`, if it cannot. A folder at `new` is
    /// never replaced; a file at `new` is replaced only on request. The root
    /// cannot be renamed, nothing can be moved into itself, and the parent of
    /// `new` must be a folder of the store.
    pub open spec fn rename_error(
        self,
        old: Seq<Seq<u16>>,
        new: Seq<Seq<u16>>,
        replace_if_exists: bool,
    ) -> Option<FsError> {
        if self.read_only {
            Some(FsError::ReadOnly)
        } else if !self.contains(old) {
            Some(FsError::NotFound)
        } else if old.len() == 0 {
            Some(FsError::AccessDenied)
        } else if self.is_folder_at(new) {
            Some(FsError::AccessDenied)
        } else if self.contains(new) && !replace_if_exists {
            Some(FsError::AlreadyExists)
        } else if is_under(new, old) && new != old {
            Some(FsError::AccessDenied)
        } else if !self.contains(new.drop_last()) {
            Some(FsError::ParentNotFound)
        } else if !self.entries[new.drop_last()].is_folder() {
            Some(FsError::NotADirectory)
        } else {
            None
        }
    }

    /// This state after `old` is renamed to `new`. A file that was at `new`
    /// is gone and no longer counted; renaming a file to itself changes nothing.
    pub open spec fn renamed(self, old: Seq<Seq<u16>>, new: Seq<Seq<u16>>) -> TableState {
        if old == new {
            self
        } else {
            TableState {
                entries: moved_entries(self.entries, old, new),
                counters: VolumeCounters {
                    used_nodes: if self.contains(new) {
                        (self.counters.used_nodes - 1) as u64
                    } else {
                        self.counters.used_nodes
                    },
                    ..self.counters
                },
                ..self
            }
        }
    }

    /// Why an entry cannot be removed, if it cannot. A folder with entries in
    /// it is reported as such whatever else may be in the way.
    pub open spec fn remove_error(self, path: Seq<Seq<u16>>) -> Option<FsError> {
        if self.has_child(path) {
            Some(FsError::NotEmpty)
        } else if self.read_only {
            Some(FsError::ReadOnly)
        } else if path.len() == 0 {
            Some(FsError::AccessDenied)
        } else if !self.contains(path) {
            Some(FsError::NotFound)
        } else {
            None
        }
    }

    /// This state without the entry at `path`.
    pub open spec fn removed(self, path: Seq<Seq<u16>>) -> TableState {
        TableState {
            entries: self.entries.remove(path),
            counters: VolumeCounters {
                used_nodes: (self.counters.used_nodes - 1) as u64,
                ..self.counters
            },
            ..self
        }
    }
}

/// Putting another entry of the same kind in the place of one keeps the store
/// well formed.
pub proof fn lemma_with_entry_wf(s: TableState, e: EntryView)
    requires
        s.wf(),
        s.contains(e.path),
        e.wf(),
        e.is_folder() == s.entries[e.path].is_folder(),
        e.content matches Some(c) ==> c.file_size <= s.max_file_size,
    ensures
        s.with_entry(e).wf(),
{
    let t = s.with_entry(e);
    assert(t.entries.dom() =~= s.entries.dom());
    assert forall|k: Seq<Seq<u16>>| #[trigger]
        t.entries.contains_key(k) && k.len() > 0 implies t.is_folder_at(k.drop_last()) by {
        assert(s.entries.contains_key(k));
        assert(s.is_folder_at(k.drop_last()));
    }
}

/// Moving a path from below one prefix to below another and back gives the
/// path again.
pub proof fn lemma_rebased_back(k: Seq<Seq<u16>>, old: Seq<Seq<u16>>, new: Seq<Seq<u16>>)
    requires
        is_under(k, old),
    ensures
        is_under(rebased(k, old.len() as int, new), new),
        rebased(rebased(k, old.len() as int, new), new.len() as int, old) == k,
        rebased(k, old.len() as int, new).len() == new.len() + k.len() - old.len(),
{
    let r = rebased(k, old.len() as int, new);
    assert(r.subrange(0, new.len() as int) =~= new);
    assert(k.subrange(0, old.len() as int) == old);
    assert forall|i: int| 0 <= i < old.len() implies k[i] == old[i] by {
        assert(k.subrange(0, old.len() as int)[i] == k[i]);
    }
    assert(rebased(r, new.len() as int, old) =~= k);
}

/// A path that is not among the entries, or is that of a file, has no entry
/// below it.
pub proof fn lemma_nothing_below(
    m: Map<Seq<Seq<u16>>, EntryView>,
    p: Seq<Seq<u16>>,
    k: Seq<Seq<u16>>,
)
    requires
        tree_wf(m),
        !m.contains_key(p) || m[p].is_file(),
        is_under(k, p),
        k != p,
    ensures
        !m.contains_key(k),
    decreases k.len(),
{
    if m.contains_key(k) {
        if k.len() == p.len() {
            assert(k.subrange(0, p.len() as int) =~= k);
        }
        let parent = k.drop_last();
        assert(m.contains_key(parent) && m[parent].is_folder());
        if parent != p {
            assert(parent.subrange(0, p.len() as int) =~= k.subrange(0, p.len() as int));
            lemma_nothing_below(m, p, parent);
        }
    }
}

/// Taking a file out of a tree leaves a tree.
pub proof fn lemma_tree_without_file(m: Map<Seq<Seq<u16>>, EntryView>, p: Seq<Seq<u16>>)
    requires
        tree_wf(m),
        m.contains_key(p),
        m[p].is_file(),
    ensures
        tree_wf(m.remove(p)),
{
    let r = m.remove(p);
    assert forall|k: Seq<Seq<u16>>| #[trigger] r.contains_key(k) && k.len() > 0 implies r.contains_key(
        k.drop_last(),
    ) && r[k.drop_last()].is_folder() by {
        assert(m.contains_key(k));
        assert(m.contains_key(k.drop_last()) && m[k.drop_last()].is_folder());
    }
}

/// A rename sees the same entries whether or not a file at the new path was
/// taken out first.
pub proof fn lemma_moved_over(
    m: Map<Seq<Seq<u16>>, EntryView>,
    old: Seq<Seq<u16>>,
    new: Seq<Seq<u16>>,
)
    requires
        !is_under(new, old),
    ensures
        moved_entries(m.remove(new), old, new) == moved_entries(m, old, new),
{
    let a = moved_entries(m.remove(new), old, new);
    let b = moved_entries(m, old, new);
    assert forall|k: Seq<Seq<u16>>| #[trigger] a.dom().contains(k) == b.dom().contains(k) by {
        if is_under(k, new) {
            lemma_rebased_back(k, new, old);
        } else {
            assert(new.subrange(0, new.len() as int) =~= new);
        }
    }
    assert forall|k: Seq<Seq<u16>>| a.dom().contains(k) implies #[trigger] a[k] == b[k] by {
        if is_under(k, new) {
            lemma_rebased_back(k, new, old);
        } else {
            assert(new.subrange(0, new.len() as int) =~= new);
        }
    }
    assert(a =~= b);
}

/// The entries of a sequence, each moved by a rename, make up the renamed map,
/// and no two of them are stored under the same path.
pub proof fn lemma_table_moved(s: Seq<EntryView>, old: Seq<Seq<u16>>, new: Seq<Seq<u16>>)
    requires
        distinct_paths(s),
        forall|i: int| 0 <= i < s.len() ==> !is_under((#[trigger] s[i]).path, new),
    ensures
        distinct_paths(moved_views(s, old, new)),
        table_of(moved_views(s, old, new)) == moved_entries(table_of(s), old, new),
{
    let t = moved_views(s, old, new);
    let m = table_of(s);
    let r = moved_entries(m, old, new);
    assert forall|i: int| 0 <= i < s.len() implies (is_under(s[i].path, old) ==> is_under(
        (#[trigger] t[i]).path,
        new,
    ) && rebased(t[i].path, new.len() as int, old) == s[i].path) && (!is_under(s[i].path, old)
        ==> t[i] == s[i]) by {
        if is_under(s[i].path, old) {
            lemma_rebased_back(s[i].path, old, new);
        }
    }
    assert forall|i: int, j: int| 0 <= i < j < t.len() implies (#[trigger] t[i]).path != (
    #[trigger] t[j]).path by {
        assert(s[i].path != s[j].path);
        assert(!is_under(s[i].path, new) && !is_under(s[j].path, new));
    }
    assert forall|k: Seq<Seq<u16>>| has_path(t, k) == r.contains_key(k) by {
        if has_path(t, k) {
            let i = position(t, k);
            lemma_table_lookup(s, i);
            assert(!is_under(s[i].path, new));
        }
        if r.contains_key(k) {
            if is_under(k, new) {
                let kk = rebased(k, new.len() as int, old);
                lemma_rebased_back(k, new, old);
                let i = position(s, kk);
                assert(s[i].path == kk);
                assert(t[i].path == k);
            } else {
                let i = position(s, k);
                assert(s[i].path == k);
                assert(t[i].path == k);
            }
        }
    }
    assert forall|k: Seq<Seq<u16>>| has_path(t, k) implies #[trigger] table_of(t)[k] == r[k] by {
        let i = position(t, k);
        lemma_table_lookup(t, i);
        lemma_table_lookup(s, i);
        assert(!is_under(s[i].path, new));
    }
    assert(table_of(t) =~= r);
}

/// A rename that is not refused leaves a tree.
pub proof fn lemma_moved_tree(
    m: Map<Seq<Seq<u16>>, EntryView>,
    old: Seq<Seq<u16>>,
    new: Seq<Seq<u16>>,
)
    requires
        tree_wf(m),
        old.len() > 0,
        new.len() > 0,
        valid_path(new),
        !is_under(new, old),
        m.contains_key(new.drop_last()) && m[new.drop_last()].is_folder(),
    ensures
        tree_wf(moved_entries(m, old, new)),
{
    let r = moved_entries(m, old, new);
    let root = Seq::<Seq<u16>>::empty();
    assert(!is_under(root, new) && !is_under(root, old));
    assert forall|k: Seq<Seq<u16>>| #[trigger] r.contains_key(k) implies r[k].wf() && r[k].path
        == k by {
        if is_under(k, new) {
            let kk = rebased(k, new.len() as int, old);
            lemma_rebased_back(k, new, old);
            assert(m[kk].wf() && m[kk].path == kk);
            assert forall|i: int| 0 <= i < k.len() implies valid_name(#[trigger] k[i]) by {
                if i < new.len() {
                    assert(k.subrange(0, new.len() as int)[i] == k[i]);
                    assert(valid_name(new[i]));
                } else {
                    assert(kk[old.len() + i - new.len()] == k[i]);
                }
            }
        }
    }
    assert forall|k: Seq<Seq<u16>>| #[trigger] r.contains_key(k) && k.len() > 0 implies r.contains_key(
        k.drop_last(),
    ) && r[k.drop_last()].is_folder() by {
        let pk = k.drop_last();
        if is_under(k, new) {
            if k.len() == new.len() {
                assert(k.subrange(0, new.len() as int) =~= k);
                assert(pk == new.drop_last());
                assert(!is_under(pk, new));
                if is_under(pk, old) {
                    assert(new.subrange(0, old.len() as int) =~= pk.subrange(0, old.len() as int));
                }
            } else {
                let kk = rebased(k, new.len() as int, old);
                lemma_rebased_back(k, new, old);
                assert(pk.subrange(0, new.len() as int) =~= k.subrange(0, new.len() as int));
                assert(rebased(pk, new.len() as int, old) =~= kk.drop_last());
                assert(m.contains_key(kk.drop_last()) && m[kk.drop_last()].is_folder());
            }
        } else {
            assert(m.contains_key(pk) && m[pk].is_folder());
            if is_under(pk, new) {
                assert(k.subrange(0, new.len() as int) =~= pk.subrange(0, new.len() as int));
            }
            if is_under(pk, old) {
                assert(k.subrange(0, old.len() as int) =~= pk.subrange(0, old.len() as int));
            }
        }
    }
}

/// Whether some entry of `s` is stored under `path`.
pub open spec fn has_path(s: Seq<EntryView>, path: Seq<Seq<u16>>) -> bool {
    exists|i: int| 0 <= i < s.len() && (#[trigger] s[i]).path == path
}

/// A position in `s` of an entry stored under `path`.
pub open spec fn position(s: Seq<EntryView>, path: Seq<Seq<u16>>) -> int {
    choose|i: int| 0 <= i < s.len() && (#[trigger] s[i]).path == path
}

/// Whether no two entries of `s` are stored under the same path.
pub open spec fn distinct_paths(s: Seq<EntryView>) -> bool {
    forall|i: int, j: int| 0 <= i < j < s.len() ==> (#[trigger] s[i]).path != (#[trigger] s[j]).path
}

/// The map from paths to the entries of `s`.
pub open spec fn table_of(s: Seq<EntryView>) -> Map<Seq<Seq<u16>>, EntryView> {
    Map::new(|p: Seq<Seq<u16>>| has_path(s, p), |p: Seq<Seq<u16>>| s[position(s, p)])
}

/// Each entry of a sequence with distinct paths is found under its path.
pub proof fn lemma_table_lookup(s: Seq<EntryView>, i: int)
    requires
        distinct_paths(s),
        0 <= i < s.len(),
    ensures
        table_of(s).contains_key(s[i].path),
        table_of(s)[s[i].path] == s[i],
{
    let p = s[i].path;
    assert(has_path(s, p));
    let j = position(s, p);
    assert(0 <= j < s.len() && s[j].path == p);
    if i < j {
        assert(s[i].path != s[j].path);
    }
    if j < i {
        assert(s[j].path != s[i].path);
    }
}

/// Adding an entry under a fresh path adds it to the map.
pub proof fn lemma_table_push(s: Seq<EntryView>, e: EntryView)
    requires
        distinct_paths(s),
        !has_path(s, e.path),
    ensures
        distinct_paths(s.push(e)),
        table_of(s.push(e)) == table_of(s).insert(e.path, e),
{
    let t = s.push(e);
    assert forall|i: int, j: int| 0 <= i < j < t.len() implies (#[trigger] t[i]).path != (
    #[trigger] t[j]).path by {
        if j == s.len() {
            assert(t[i] == s[i]);
        } else {
            assert(t[i] == s[i] && t[j] == s[j]);
        }
    }
    assert forall|p: Seq<Seq<u16>>| has_path(t, p) <==> (has_path(s, p) || p == e.path) by {
        if has_path(t, p) {
            let i = position(t, p);
            if i < s.len() {
                assert(s[i].path == p);
            }
        }
        if has_path(s, p) {
            let i = position(s, p);
            assert(t[i].path == p);
        }
        if p == e.path {
            assert(t[s.len() as int].path == p);
        }
    }
    assert forall|p: Seq<Seq<u16>>| has_path(t, p) implies #[trigger] table_of(t)[p] == table_of(
        s,
    ).insert(e.path, e)[p] by {
        let i = position(t, p);
        lemma_table_lookup(t, i);
        if i < s.len() {
            assert(t[i] == s[i]);
            lemma_table_lookup(s, i);
        }
    }
    assert(table_of(t) =~= table_of(s).insert(e.path, e));
}

/// Replacing an entry by one under the same path replaces it in the map.
pub proof fn lemma_table_update(s: Seq<EntryView>, i: int, e: EntryView)
    requires
        distinct_paths(s),
        0 <= i < s.len(),
        e.path == s[i].path,
    ensures
        distinct_paths(s.update(i, e)),
        table_of(s.update(i, e)) == table_of(s).insert(e.path, e),
{
    let t = s.update(i, e);
    assert forall|a: int, b: int| 0 <= a < b < t.len() implies (#[trigger] t[a]).path != (
    #[trigger] t[b]).path by {
        assert(t[a].path == s[a].path && t[b].path == s[b].path);
    }
    assert forall|p: Seq<Seq<u16>>| has_path(t, p) <==> has_path(s, p) by {
        if has_path(t, p) {
            let k = position(t, p);
            assert(s[k].path == p);
        }
        if has_path(s, p) {
            let k = position(s, p);
            assert(t[k].path == p);
        }
    }
    assert(has_path(s, e.path)) by {
        assert(s[i].path == e.path);
    }
    assert forall|p: Seq<Seq<u16>>| has_path(t, p) implies #[trigger] table_of(t)[p] == table_of(
        s,
    ).insert(e.path, e)[p] by {
        let k = position(t, p);
        lemma_table_lookup(t, k);
        lemma_table_lookup(s, k);
        if k != i {
            assert(t[k] == s[k]);
            if k < i {
                assert(s[k].path != s[i].path);
            } else {
                assert(s[i].path != s[k].path);
            }
        }
    }
    assert(table_of(t) =~= table_of(s).insert(e.path, e));
}

/// Taking an entry out of the sequence takes its path out of the map.
pub proof fn lemma_table_remove(s: Seq<EntryView>, i: int)
    requires
        distinct_paths(s),
        0 <= i < s.len(),
    ensures
        distinct_paths(s.remove(i)),
        table_of(s.remove(i)) == table_of(s).remove(s[i].path),
{
    let t = s.remove(i);
    assert forall|a: int, b: int| 0 <= a < b < t.len() implies (#[trigger] t[a]).path != (
    #[trigger] t[b]).path by {
        let a0 = if a < i {
            a
        } else {
            a + 1
        };
        let b0 = if b < i {
            b
        } else {
            b + 1
        };
        assert(t[a] == s[a0] && t[b] == s[b0]);
        assert(s[a0].path != s[b0].path);
    }
    assert forall|p: Seq<Seq<u16>>| has_path(t, p) <==> (has_path(s, p) && p != s[i].path) by {
        if has_path(t, p) {
            let k = position(t, p);
            let k0 = if k < i {
                k
            } else {
                k + 1
            };
            assert(t[k] == s[k0]);
            assert(s[k0].path == p);
            if k0 < i {
                assert(s[k0].path != s[i].path);
            } else {
                assert(s[i].path != s[k0].path);
            }
        }
        if has_path(s, p) && p != s[i].path {
            let k = position(s, p);
            let k1 = if k < i {
                k
            } else {
                k - 1
            };
            assert(t[k1] == s[k]);
            assert(t[k1].path == p);
        }
    }
    assert forall|p: Seq<Seq<u16>>| has_path(t, p) implies #[trigger] table_of(t)[p] == table_of(
        s,
    ).remove(s[i].path)[p] by {
        let k = position(t, p);
        let k0 = if k < i {
            k
        } else {
            k + 1
        };
        assert(t[k] == s[k0]);
        lemma_table_lookup(t, k);
        lemma_table_lookup(s, k0);
    }
    assert(table_of(t) =~= table_of(s).remove(s[i].path));
}

/// The map of a sequence with distinct paths has as many keys as the sequence
/// has entries.
pub proof fn lemma_table_size(s: Seq<EntryView>)
    requires
        distinct_paths(s),
    ensures
        table_of(s).dom().finite(),
        table_of(s).dom().len() == s.len(),
    decreases s.len(),
{
    if s.len() == 0 {
        assert(table_of(s).dom() =~= Set::<Seq<Seq<u16>>>::empty());
    } else {
        let r = s.drop_last();
        let e = s.last();
        assert(s =~= r.push(e));
        assert(distinct_paths(r)) by {
            assert forall|i: int, j: int| 0 <= i < j < r.len() implies (#[trigger] r[i]).path != (
            #[trigger] r[j]).path by {
                assert(r[i] == s[i] && r[j] == s[j]);
            }
        }
        assert(!has_path(r, e.path)) by {
            if has_path(r, e.path) {
                let i = position(r, e.path);
                assert(r[i] == s[i]);
                assert(s[i].path != s[s.len() - 1].path);
            }
        }
        lemma_table_size(r);
        lemma_table_push(r, e);
        assert(table_of(s).dom() =~= table_of(r).dom().insert(e.path));
        assert(!table_of(r).dom().contains(e.path));
    }
}

/// A removal is refused for the sake of the contents of the folder exactly
/// when some entry lies directly in it, whatever else holds of the store.
pub proof fn lemma_not_empty_iff_child(s: TableState, path: Seq<Seq<u16>>)
    ensures
        s.remove_error(path) == Some(FsError::NotEmpty) <==> s.has_child(path),
{
}

/// A rename moves a whole subtree and nothing else. Each entry at or below the
/// old path is gone from its path and found at the same place below the new
/// path, stored under that path; nothing else is found at or below the new
/// path; every other entry, but a file that was replaced, stays as it was.
pub proof fn lemma_rename_moves_subtree(
    s: TableState,
    old: Seq<Seq<u16>>,
    new: Seq<Seq<u16>>,
    replace_if_exists: bool,
)
    requires
        s.wf(),
        s.rename_error(old, new, replace_if_exists) is None,
        old != new,
    ensures
        forall|k: Seq<Seq<u16>>| #[trigger]
            s.contains(k) && is_under(k, old) ==> {
                let to = rebased(k, old.len() as int, new);
                &&& !s.renamed(old, new).contains(k)
                &&& s.renamed(old, new).contains(to)
                &&& s.renamed(old, new).entries[to] == s.entries[k].with_path(to)
            },
        forall|k: Seq<Seq<u16>>| #[trigger]
            s.renamed(old, new).contains(k) ==> s.renamed(old, new).entries[k].path == k,
        forall|k: Seq<Seq<u16>>| #[trigger]
            s.renamed(old, new).contains(k) && is_under(k, new) ==> s.contains(
                rebased(k, new.len() as int, old),
            ) && is_under(rebased(k, new.len() as int, old), old),
        forall|k: Seq<Seq<u16>>| #[trigger]
            s.renamed(old, new).contains(k) && !is_under(k, new) ==> s.contains(k) && s.renamed(
                old,
                new,
            ).entries[k] == s.entries[k],
        forall|k: Seq<Seq<u16>>| #[trigger]
            s.contains(k) && !is_under(k, old) && k != new ==> s.renamed(old, new).contains(k)
                && s.renamed(old, new).entries[k] == s.entries[k],
{
    let r = s.renamed(old, new);
    assert forall|k: Seq<Seq<u16>>| #[trigger] s.contains(k) && is_under(k, old) implies {
        let to = rebased(k, old.len() as int, new);
        &&& !r.contains(k)
        &&& r.contains(to)
        &&& r.entries[to] == s.entries[k].with_path(to)
    } by {
        lemma_rebased_back(k, old, new);
        if is_under(k, new) {
            // Two prefixes of one path: the shorter is a prefix of the longer.
            if old.len() <= new.len() {
                assert(new.subrange(0, old.len() as int) =~= k.subrange(0, old.len() as int));
            } else {
                assert(old.subrange(0, new.len() as int) =~= k.subrange(0, new.len() as int));
                if !s.contains(new) || s.entries[new].is_file() {
                    lemma_nothing_below(s.entries, new, old);
                }
            }
        }
    }
    assert forall|k: Seq<Seq<u16>>| #[trigger] r.contains(k) && is_under(k, new) implies s.contains(
        rebased(k, new.len() as int, old),
    ) && is_under(rebased(k, new.len() as int, old), old) by {
        lemma_rebased_back(k, new, old);
    }
    assert forall|k: Seq<Seq<u16>>| #[trigger]
        s.contains(k) && !is_under(k, old) && k != new implies r.contains(k) && r.entries[k]
        == s.entries[k] by {
        if is_under(k, new) {
            if !s.contains(new) || s.entries[new].is_file() {
                lemma_nothing_below(s.entries, new, k);
            }
        }
    }
}

} // verus!

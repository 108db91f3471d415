//! The store: every entry of the tree, found by its path.

use crate::entry::{EntryKind, EntryView, Obj};
use crate::error::FsError;
use crate::extent::{WriteMode, MAX_ALLOCATION};
use crate::flags::{CleanupFlags, FileAttributes, FILE_ATTRIBUTE_DIRECTORY};
use crate::info::FileInfo;
use crate::listing::{ascending, insert_ascending, listed, marker_view, DirEntry, ListedEntry};
use crate::names::{dot_dot_name, dot_name, name_less, name_lt, valid_name, DOT};
use crate::path::{is_child_of, is_under, rebased, Path};
use crate::security::SecurityDescriptor;
use crate::tree::{
    distinct_paths, has_path, lemma_moved_over, lemma_moved_tree, lemma_nothing_below,
    lemma_table_lookup, lemma_table_moved, lemma_table_push, lemma_table_remove, lemma_table_size,
    lemma_table_update, lemma_tree_without_file, lemma_with_entry_wf, moved_entries, moved_entry,
    moved_views, position, table_of, TableState, VolumeCounters,
};
use vstd::prelude::*;

verus! {

/// The views of stored entries.
pub open spec fn entry_views(s: Seq<Obj>) -> Seq<EntryView> {
    Seq::new(s.len(), |i: int| s[i]@)
}

/// The store. It owns all entries; the root folder is always among them.
#[derive(Debug)]
pub struct PathTable {
    entries: Vec<Obj>,
    counters: VolumeCounters,
    max_file_size: usize,
    read_only: bool,
}

impl View for PathTable {
    type V = TableState;

    closed spec fn view(&self) -> TableState {
        TableState {
            entries: table_of(entry_views(self.entries@)),
            counters: self.counters,
            max_file_size: self.max_file_size as nat,
            read_only: self.read_only,
        }
    }
}

impl PathTable {
    /// What holds of the representation: no path is stored twice.
    pub closed spec fn inv(&self) -> bool {
        &&& distinct_paths(entry_views(self.entries@))
        &&& self.counters.used_nodes == self.entries@.len()
    }

    /// The invariant of the store.
    pub open spec fn wf(&self) -> bool {
        self.inv() && self@.wf()
    }

    /// The entries of a well-formed store are those of its sequence.
    proof fn lemma_entries(&self)
        requires
            self.inv(),
        ensures
            self@.entries.dom().finite(),
            self@.entries.dom().len() == self.entries@.len(),
            forall|i: int|
                0 <= i < self.entries@.len() ==> self@.entries.contains_key(
                    (#[trigger] self.entries@[i])@.path,
                ) && self@.entries[self.entries@[i]@.path] == self.entries@[i]@,
            forall|p: Seq<Seq<u16>>|
                self@.entries.contains_key(p) ==> 0 <= position(entry_views(self.entries@), p)
                    < self.entries@.len() && #[trigger] self@.entries[p] == self.entries@[position(
                    entry_views(self.entries@),
                    p,
                )]@,
    {
        let s = entry_views(self.entries@);
        lemma_table_size(s);
        assert forall|i: int| 0 <= i < self.entries@.len() implies self@.entries.contains_key(
            (#[trigger] self.entries@[i])@.path,
        ) && self@.entries[self.entries@[i]@.path] == self.entries@[i]@ by {
            lemma_table_lookup(s, i);
        }
    }

    /// A store that holds the root folder and nothing else.
    pub fn new(
        root_security: SecurityDescriptor,
        node_capacity: u64,
        max_file_size: usize,
        read_only: bool,
        now: u64,
    ) -> (table: PathTable)
        requires
            node_capacity >= 1,
            max_file_size <= MAX_ALLOCATION,
            node_capacity * max_file_size <= u64::MAX,
        ensures
            table.wf(),
            table@.entries == Map::<Seq<Seq<u16>>, EntryView>::empty().insert(
                Seq::empty(),
                EntryView::new_folder(
                    Seq::empty(),
                    root_security@,
                    FileAttributes(FILE_ATTRIBUTE_DIRECTORY),
                    now,
                ),
            ),
            table@.counters == (VolumeCounters {
                total_capacity_bytes: (node_capacity * max_file_size) as u64,
                node_capacity,
                used_nodes: 1,
            }),
            table@.max_file_size == max_file_size,
            table@.read_only == read_only,
    {
        let attributes = FileAttributes::directory();
        assert(attributes.has(FileAttributes(FILE_ATTRIBUTE_DIRECTORY))) by {
            let a: u32 = attributes.0;
            assert(a & 0x10 == 0x10) by (bit_vector)
                requires
                    a == 0x10,
            ;
        }
        let root = Obj::new_folder(Path::root(), attributes, root_security, now);
        let mut entries: Vec<Obj> = Vec::new();
        let ghost none = entry_views(entries@);
        entries.push(root);
        assert(node_capacity * max_file_size == max_file_size * node_capacity) by (nonlinear_arith);
        let total: u64 = node_capacity * (max_file_size as u64);
        let table = PathTable {
            entries,
            counters: VolumeCounters {
                total_capacity_bytes: total,
                node_capacity,
                used_nodes: 1,
            },
            max_file_size,
            read_only,
        };
        proof {
            let e = table.entries@[0]@;
            assert(entry_views(table.entries@) =~= none.push(e));
            assert(table_of(none) =~= Map::<Seq<Seq<u16>>, EntryView>::empty());
            lemma_table_push(none, e);
            table.lemma_entries();
        }
        table
    }

    /// Whether the store rejects every change.
    pub fn is_read_only(&self) -> (r: bool)
        ensures
            r == self@.read_only,
    {
        self.read_only
    }

    /// Makes the store reject every change, or take changes again.
    pub fn set_read_only(&mut self, read_only: bool)
        ensures
            final(self)@ == (TableState { read_only, ..old(self)@ }),
            old(self).wf() ==> final(self).wf(),
    {
        self.read_only = read_only;
    }

    /// The counters of the volume.
    pub fn counters(&self) -> (c: VolumeCounters)
        ensures
            c == self@.counters,
    {
        self.counters
    }

    /// The greatest size a file may have.
    pub fn max_file_size(&self) -> (n: usize)
        ensures
            n == self@.max_file_size,
    {
        self.max_file_size
    }

    /// The position of the entry stored under `path`.
    fn find(&self, path: &Path) -> (r: Option<usize>)
        requires
            self.inv(),
        ensures
            r is Some <==> self@.contains(path@),
            r matches Some(i) ==> i < self.entries@.len() && self.entries@[i as int]@.path == path@
                && self@.entries[path@] == self.entries@[i as int]@,
    {
        let mut i: usize = 0;
        while i < self.entries.len()
            invariant
                self.inv(),
                i <= self.entries@.len(),
                forall|j: int| 0 <= j < i ==> self.entries@[j]@.path != path@,
            decreases self.entries@.len() - i,
        {
            if self.entries[i].path().equals(path) {
                proof {
                    self.lemma_entries();
                }
                return Some(i);
            }
            i += 1;
        }
        proof {
            let s = entry_views(self.entries@);
            if has_path(s, path@) {
                let j = position(s, path@);
                assert(self.entries@[j]@.path == path@);
            }
        }
        None
    }

    /// Whether some entry lies directly in `path`.
    fn has_children(&self, path: &Path) -> (r: bool)
        requires
            self.inv(),
        ensures
            r == self@.has_child(path@),
    {
        let mut i: usize = 0;
        while i < self.entries.len()
            invariant
                self.inv(),
                i <= self.entries@.len(),
                forall|j: int| 0 <= j < i ==> !is_child_of(self.entries@[j]@.path, path@),
            decreases self.entries@.len() - i,
        {
            if self.entries[i].path().is_child_of(path) {
                proof {
                    self.lemma_entries();
                    assert(self@.entries.contains_key(self.entries@[i as int]@.path));
                }
                return true;
            }
            i += 1;
        }
        proof {
            if self@.has_child(path@) {
                let k = choose|k: Seq<Seq<u16>>| #[trigger]
                    self@.entries.contains_key(k) && is_child_of(k, path@);
                let j = position(entry_views(self.entries@), k);
                assert(entry_views(self.entries@)[j].path == k);
                assert(self.entries@[j]@.path == k);
            }
        }
        false
    }

    /// The entry stored under `path`.
    pub fn open(&self, path: &Path) -> (r: Result<&Obj, FsError>)
        requires
            self.wf(),
        ensures
            self@.contains(path@) <==> r is Ok,
            r matches Ok(entry) ==> entry@ == self@.entries[path@],
            r matches Err(e) ==> e == FsError::NotFound,
    {
        match self.find(path) {
            Some(i) => Ok(&self.entries[i]),
            None => Err(FsError::NotFound),
        }
    }

    /// The metadata of the entry stored under `path`.
    pub fn get_file_info(&self, path: &Path) -> (r: Result<FileInfo, FsError>)
        requires
            self.wf(),
        ensures
            self@.contains(path@) <==> r is Ok,
            r matches Ok(info) ==> info == self@.entries[path@].info,
            r matches Err(e) ==> e == FsError::NotFound,
    {
        match self.find(path) {
            Some(i) => Ok(self.entries[i].info()),
            None => Err(FsError::NotFound),
        }
    }

    /// Creates a folder or an empty file at `path` and returns its metadata.
    ///
    /// The parent of `path` must be a folder of the store, `path` must be free,
    /// and the store must have room for one more entry and, for a file, allow
    /// the allocation asked for.
    pub fn create(
        &mut self,
        path: &Path,
        kind: EntryKind,
        security: SecurityDescriptor,
        attributes: FileAttributes,
        allocation_size: u64,
        now: u64,
    ) -> (r: Result<FileInfo, FsError>)
        requires
            old(self).wf(),
            kind == EntryKind::Folder <==> attributes.has(FileAttributes(FILE_ATTRIBUTE_DIRECTORY)),
        ensures
            final(self).wf(),
            match old(self)@.create_error(path@, kind, allocation_size as nat) {
                Some(e) => r == Err::<FileInfo, FsError>(e) && final(self)@ == old(self)@,
                None => {
                    let entry = EntryView::new_entry(
                        kind,
                        path@,
                        security@,
                        attributes,
                        allocation_size as nat,
                        now,
                    );
                    r == Ok::<FileInfo, FsError>(entry.info) && final(self)@ == old(self)@.created(
                        entry,
                    )
                },
            },
    {
        proof {
            use_type_invariant(path);
        }
        if self.read_only {
            return Err(FsError::ReadOnly);
        }
        if self.find(path).is_some() {
            return Err(FsError::AlreadyExists);
        }
        let parent = match path.parent() {
            Some(parent) => parent,
            None => {
                // The root always exists.
                assert(path@ =~= Seq::<Seq<u16>>::empty());
                return Err(FsError::AlreadyExists);
            },
        };
        match self.find(&parent) {
            None => {
                return Err(FsError::ParentNotFound);
            },
            Some(i) => {
                if !self.entries[i].is_folder() {
                    return Err(FsError::NotADirectory);
                }
            },
        }
        if self.counters.used_nodes >= self.counters.node_capacity {
            return Err(FsError::QuotaExceeded);
        }
        let obj = match kind {
            EntryKind::Folder => Obj::new_folder(path.clone(), attributes, security, now),
            EntryKind::File => {
                if allocation_size > self.max_file_size as u64 {
                    return Err(FsError::QuotaExceeded);
                }
                Obj::new_file(path.clone(), attributes, security, allocation_size, now)
            },
        };
        let info = obj.info();
        let ghost before = entry_views(self.entries@);
        let ghost entry = obj@;
        self.entries.push(obj);
        self.counters.used_nodes = self.counters.used_nodes + 1;
        proof {
            assert(entry_views(self.entries@) =~= before.push(entry));
            lemma_table_push(before, entry);
            self.lemma_entries();
            assert(self@ == old(self)@.created(entry));
            assert forall|k: Seq<Seq<u16>>| #[trigger]
                self@.entries.contains_key(k) && k.len() > 0 implies self@.is_folder_at(
                k.drop_last(),
            ) by {
                if k != entry.path {
                    assert(old(self)@.entries.contains_key(k));
                    assert(old(self)@.is_folder_at(k.drop_last()));
                }
            }
        }
        Ok(info)
    }

    /// Whether no entry lies directly in `path`, so that a removal of `path`
    /// would not be refused for the sake of its contents.
    pub fn can_delete(&self, path: &Path) -> (r: bool)
        requires
            self.wf(),
        ensures
            r == !self@.has_child(path@),
            r <==> self@.remove_error(path@) != Some(FsError::NotEmpty),
    {
        !self.has_children(path)
    }

    /// Removes the entry stored under `path`, which must have no entries in it
    /// and must not be the root.
    pub fn remove(&mut self, path: &Path) -> (r: Result<(), FsError>)
        requires
            old(self).wf(),
        ensures
            final(self).wf(),
            match old(self)@.remove_error(path@) {
                Some(e) => r == Err::<(), FsError>(e) && final(self)@ == old(self)@,
                None => r == Ok::<(), FsError>(()) && final(self)@ == old(self)@.removed(path@),
            },
    {
        if self.has_children(path) {
            return Err(FsError::NotEmpty);
        }
        if self.read_only {
            return Err(FsError::ReadOnly);
        }
        if path.is_root() {
            return Err(FsError::AccessDenied);
        }
        match self.find(path) {
            None => Err(FsError::NotFound),
            Some(i) => {
                let ghost before = entry_views(self.entries@);
                proof {
                    self.lemma_entries();
                }
                self.entries.remove(i);
                self.counters.used_nodes = self.counters.used_nodes - 1;
                proof {
                    assert(entry_views(self.entries@) =~= before.remove(i as int));
                    lemma_table_remove(before, i as int);
                    self.lemma_entries();
                    assert(self@ == old(self)@.removed(path@));
                    assert forall|k: Seq<Seq<u16>>| #[trigger]
                        self@.entries.contains_key(k) && k.len() > 0 implies self@.is_folder_at(
                        k.drop_last(),
                    ) by {
                        assert(old(self)@.entries.contains_key(k));
                        assert(old(self)@.is_folder_at(k.drop_last()));
                        if k.drop_last() == path@ {
                            assert(is_child_of(k, path@));
                        }
                    }
                }
                Ok(())
            },
        }
    }

    /// Records that the entry at position `i` was replaced by one of the same
    /// kind under the same path.
    proof fn lemma_replaced(&self, before: &PathTable, i: int)
        requires
            before.wf(),
            0 <= i < before.entries@.len(),
            self.entries@.len() == before.entries@.len(),
            forall|j: int|
                0 <= j < before.entries@.len() && j != i ==> self.entries@[j] == before.entries@[j],
            self.entries@[i]@.path == before.entries@[i]@.path,
            self.entries@[i]@.is_folder() == before.entries@[i]@.is_folder(),
            self.entries@[i]@.wf(),
            self.entries@[i]@.content matches Some(c) ==> c.file_size <= before.max_file_size,
            self.counters == before.counters,
            self.max_file_size == before.max_file_size,
            self.read_only == before.read_only,
        ensures
            self.wf(),
            self@ == before@.with_entry(self.entries@[i]@),
    {
        let old_views = entry_views(before.entries@);
        let e = self.entries@[i]@;
        assert(entry_views(self.entries@) =~= old_views.update(i, e));
        lemma_table_update(old_views, i, e);
        before.lemma_entries();
        lemma_with_entry_wf(before@, e);
    }

    /// The bytes of the file at `path` from `offset` on, at most `length` of them.
    pub fn read(&self, path: &Path, offset: u64, length: usize) -> (r: Result<&[u8], FsError>)
        requires
            self.wf(),
        ensures
            match self@.read_error(path@, offset as nat) {
                Some(e) => r == Err::<&[u8], FsError>(e),
                None => r matches Ok(bytes) && bytes@ == self@.entries[path@].content->0.read(
                    offset as nat,
                    length as nat,
                ),
            },
    {
        match self.find(path) {
            None => Err(FsError::NotFound),
            Some(i) => match &self.entries[i] {
                Obj::Folder(_) => Err(FsError::NotAFile),
                Obj::File(file) => {
                    if offset >= file.info.file_size {
                        Err(FsError::EndOfFile)
                    } else {
                        Ok(file.read(offset as usize, length))
                    }
                },
            },
        }
    }

    /// Writes `buffer` to the file at `path` as `mode` directs. Returns the
    /// number of bytes written and the metadata of the file after the write.
    pub fn write(&mut self, path: &Path, buffer: &[u8], mode: WriteMode) -> (r: Result<
        (usize, FileInfo),
        FsError,
    >)
        requires
            old(self).wf(),
        ensures
            final(self).wf(),
            match old(self)@.write_error(path@, buffer@.len(), mode) {
                Some(e) => r == Err::<(usize, FileInfo), FsError>(e) && final(self)@ == old(self)@,
                None => {
                    let file = old(self)@.entries[path@];
                    let content = file.content->0;
                    let after = file.with_content(content.written_in(buffer@, mode));
                    &&& r == Ok::<(usize, FileInfo), FsError>(
                        (content.transferred(buffer@.len(), mode) as usize, after.info),
                    )
                    &&& final(self)@ == old(self)@.with_entry(after)
                },
            },
    {
        if self.read_only {
            return Err(FsError::ReadOnly);
        }
        let i = match self.find(path) {
            None => {
                return Err(FsError::NotFound);
            },
            Some(i) => i,
        };
        let limit = self.max_file_size;
        if self.entries[i].is_folder() {
            return Err(FsError::NotAFile);
        }
        let size = self.entries[i].as_file().content.file_size();
        let fits = match mode {
            WriteMode::Normal { offset } => offset <= limit as u64 && buffer.len() <= limit
                - offset as usize,
            WriteMode::ConstrainedIO { .. } => true,
            WriteMode::WriteToEOF => size <= limit && buffer.len() <= limit - size,
        };
        if !fits {
            return Err(FsError::QuotaExceeded);
        }
        let ghost before = *self;
        let file = self.entries[i].as_file_mut();
        let written = file.write_in(buffer, mode);
        let info = file.info;
        proof {
            self.lemma_replaced(&before, i as int);
        }
        Ok((written, info))
    }

    /// Sets the size of the file at `path`, or else its allocation, to
    /// `new_size`, and returns the metadata of the file after the change.
    pub fn set_size(&mut self, path: &Path, new_size: u64, set_allocation_size: bool) -> (r: Result<
        FileInfo,
        FsError,
    >)
        requires
            old(self).wf(),
        ensures
            final(self).wf(),
            match old(self)@.resize_error(path@, new_size as nat) {
                Some(e) => r == Err::<FileInfo, FsError>(e) && final(self)@ == old(self)@,
                None => {
                    let after = old(self)@.entries[path@].resized(
                        new_size as nat,
                        set_allocation_size,
                    );
                    r == Ok::<FileInfo, FsError>(after.info) && final(self)@ == old(self)@.with_entry(
                        after,
                    )
                },
            },
    {
        if self.read_only {
            return Err(FsError::ReadOnly);
        }
        let i = match self.find(path) {
            None => {
                return Err(FsError::NotFound);
            },
            Some(i) => i,
        };
        proof {
            self.lemma_entries();
        }
        if self.entries[i].is_folder() {
            return Err(FsError::NotAFile);
        }
        if new_size > self.max_file_size as u64 {
            return Err(FsError::QuotaExceeded);
        }
        let ghost before = *self;
        let file = self.entries[i].as_file_mut();
        if set_allocation_size {
            file.set_allocation_size(new_size as usize);
        } else {
            file.set_file_size(new_size as usize);
        }
        let info = file.info;
        proof {
            self.lemma_replaced(&before, i as int);
        }
        Ok(info)
    }

    /// Overwrites the file at `path` at time `now` and returns its metadata
    /// after the change. The file bears the archive attribute and those given,
    /// beside or in place of those it had; its allocation is `allocation_size`;
    /// all its times are `now`.
    pub fn overwrite(
        &mut self,
        path: &Path,
        attributes: FileAttributes,
        replace_attributes: bool,
        allocation_size: u64,
        now: u64,
    ) -> (r: Result<FileInfo, FsError>)
        requires
            old(self).wf(),
        ensures
            final(self).wf(),
            match old(self)@.resize_error(path@, allocation_size as nat) {
                Some(e) => r == Err::<FileInfo, FsError>(e) && final(self)@ == old(self)@,
                None => {
                    let after = old(self)@.entries[path@].overwritten(
                        attributes,
                        replace_attributes,
                        allocation_size as nat,
                        now,
                    );
                    r == Ok::<FileInfo, FsError>(after.info) && final(self)@ == old(self)@.with_entry(
                        after,
                    )
                },
            },
    {
        if self.read_only {
            return Err(FsError::ReadOnly);
        }
        let i = match self.find(path) {
            None => {
                return Err(FsError::NotFound);
            },
            Some(i) => i,
        };
        proof {
            self.lemma_entries();
        }
        if self.entries[i].is_folder() {
            return Err(FsError::NotAFile);
        }
        if allocation_size > self.max_file_size as u64 {
            return Err(FsError::QuotaExceeded);
        }
        let ghost before = *self;
        let file = self.entries[i].as_file_mut();
        file.overwrite(attributes, replace_attributes, allocation_size as usize, now);
        let info = file.info;
        proof {
            self.lemma_replaced(&before, i as int);
        }
        Ok(info)
    }

    /// Does to the entry at `path` what `flags` ask for when its last handle is
    /// closed at time `now`. Each flag acts by itself; a folder stays as it is.
    pub fn cleanup(&mut self, path: &Path, flags: CleanupFlags, now: u64) -> (r: Result<
        (),
        FsError,
    >)
        requires
            old(self).wf(),
        ensures
            final(self).wf(),
            match old(self)@.change_error(path@) {
                Some(e) => r == Err::<(), FsError>(e) && final(self)@ == old(self)@,
                None => r == Ok::<(), FsError>(()) && final(self)@ == old(self)@.with_entry(
                    old(self)@.entries[path@].cleaned_up(flags, now),
                ),
            },
    {
        if self.read_only {
            return Err(FsError::ReadOnly);
        }
        let i = match self.find(path) {
            None => {
                return Err(FsError::NotFound);
            },
            Some(i) => i,
        };
        proof {
            self.lemma_entries();
        }
        if self.entries[i].is_folder() {
            assert(self@.entries =~= self@.with_entry(self@.entries[path@]).entries);
            return Ok(());
        }
        let ghost before = *self;
        let file = self.entries[i].as_file_mut();
        file.cleanup(flags, now);
        proof {
            self.lemma_replaced(&before, i as int);
        }
        Ok(())
    }

    /// Sets the attributes of the entry at `path`, unless they are the invalid
    /// value, and each of its four times, unless it is zero. Returns the
    /// metadata after the change.
    pub fn set_basic_info(
        &mut self,
        path: &Path,
        file_attributes: FileAttributes,
        creation_time: u64,
        last_access_time: u64,
        last_write_time: u64,
        change_time: u64,
    ) -> (r: Result<FileInfo, FsError>)
        requires
            old(self).wf(),
        ensures
            final(self).wf(),
            match old(self)@.change_error(path@) {
                Some(e) => r == Err::<FileInfo, FsError>(e) && final(self)@ == old(self)@,
                None => {
                    let entry = old(self)@.entries[path@];
                    let info = entry.info.with_basic_info(
                        file_attributes,
                        creation_time,
                        last_access_time,
                        last_write_time,
                        change_time,
                    );
                    r == Ok::<FileInfo, FsError>(info) && final(self)@ == old(self)@.with_entry(
                        entry.with_info(info),
                    )
                },
            },
    {
        if self.read_only {
            return Err(FsError::ReadOnly);
        }
        let i = match self.find(path) {
            None => {
                return Err(FsError::NotFound);
            },
            Some(i) => i,
        };
        proof {
            self.lemma_entries();
        }
        let mut info = self.entries[i].info();
        info.set_basic_info(
            file_attributes,
            creation_time,
            last_access_time,
            last_write_time,
            change_time,
        );
        let ghost before = *self;
        self.entries[i].set_info(info);
        proof {
            self.lemma_replaced(&before, i as int);
        }
        Ok(info)
    }

    /// A copy of the security descriptor of the entry at `path`.
    pub fn get_security(&self, path: &Path) -> (r: Result<SecurityDescriptor, FsError>)
        requires
            self.wf(),
        ensures
            self@.contains(path@) <==> r is Ok,
            r matches Ok(sd) ==> sd@ == self@.entries[path@].security,
            r matches Err(e) ==> e == FsError::NotFound,
    {
        match self.find(path) {
            Some(i) => Ok(self.entries[i].security_descriptor().clone()),
            None => Err(FsError::NotFound),
        }
    }

    /// Stores the outcome of a merge of security descriptors at `path`: the
    /// merged descriptor replaces the one of the entry, and a failed merge is
    /// reported with its status and changes nothing.
    pub fn apply_security(&mut self, path: &Path, merged: Result<SecurityDescriptor, i32>) -> (r:
        Result<(), FsError>)
        requires
            old(self).wf(),
        ensures
            final(self).wf(),
            match (old(self)@.change_error(path@), merged) {
                (Some(e), _) => r == Err::<(), FsError>(e) && final(self)@ == old(self)@,
                (None, Err(status)) => r == Err::<(), FsError>(
                    FsError::SecurityMergeFailed { status },
                ) && final(self)@ == old(self)@,
                (None, Ok(sd)) => r == Ok::<(), FsError>(()) && final(self)@ == old(
                    self,
                )@.with_entry(old(self)@.entries[path@].with_security(sd@)),
            },
    {
        if self.read_only {
            return Err(FsError::ReadOnly);
        }
        let i = match self.find(path) {
            None => {
                return Err(FsError::NotFound);
            },
            Some(i) => i,
        };
        proof {
            self.lemma_entries();
        }
        match merged {
            Err(status) => Err(FsError::SecurityMergeFailed { status }),
            Ok(sd) => {
                let ghost before = *self;
                self.entries[i].set_security_descriptor(sd);
                proof {
                    self.lemma_replaced(&before, i as int);
                }
                Ok(())
            },
        }
    }

    /// Changes the security descriptor of the entry at `path` to what `merge`
    /// makes of the current descriptor, the selection `security_information`
    /// and the descriptor `modification`. A failure of `merge` is reported with
    /// its status and changes nothing. On a store that takes no changes, and
    /// where `path` has no entry, `merge` is not called.
    pub fn set_security<F>(
        &mut self,
        path: &Path,
        security_information: u32,
        modification: &[u8],
        merge: F,
    ) -> (r: Result<(), FsError>) where
        F: Fn(&SecurityDescriptor, u32, &[u8]) -> Result<SecurityDescriptor, i32>,

        requires
            old(self).wf(),
            forall|current: &SecurityDescriptor|
                call_requires(merge, (current, security_information, modification)),
        ensures
            final(self).wf(),
            match old(self)@.change_error(path@) {
                Some(e) => r == Err::<(), FsError>(e) && final(self)@ == old(self)@,
                None => exists|current: &SecurityDescriptor, merged: Result<SecurityDescriptor, i32>|
                    {
                        &&& current@ == old(self)@.entries[path@].security
                        &&& call_ensures(
                            merge,
                            (current, security_information, modification),
                            merged,
                        )
                        &&& match merged {
                            Err(status) => r == Err::<(), FsError>(
                                FsError::SecurityMergeFailed { status },
                            ) && final(self)@ == old(self)@,
                            Ok(sd) => r == Ok::<(), FsError>(()) && final(self)@ == old(
                                self,
                            )@.with_entry(old(self)@.entries[path@].with_security(sd@)),
                        }
                    },
            },
    {
        if self.read_only {
            return Err(FsError::ReadOnly);
        }
        let i = match self.find(path) {
            None => {
                return Err(FsError::NotFound);
            },
            Some(i) => i,
        };
        let merged = merge(self.entries[i].security_descriptor(), security_information, modification);
        self.apply_security(path, merged)
    }

    /// Stores each entry at or below `from` at the same place below `to`.
    fn move_subtree(&mut self, from: &Path, to: &Path)
        ensures
            entry_views(final(self).entries@) == moved_views(
                entry_views(old(self).entries@),
                from@,
                to@,
            ),
            final(self).counters == old(self).counters,
            final(self).max_file_size == old(self).max_file_size,
            final(self).read_only == old(self).read_only,
    {
        let ghost before = entry_views(self.entries@);
        let mut i: usize = 0;
        while i < self.entries.len()
            invariant
                i <= self.entries@.len() == before.len(),
                forall|j: int| 0 <= j < i ==> self.entries@[j]@ == moved_entry(before[j], from@, to@),
                forall|j: int| i <= j < before.len() ==> self.entries@[j]@ == before[j],
                self.counters == old(self).counters,
                self.max_file_size == old(self).max_file_size,
                self.read_only == old(self).read_only,
            decreases before.len() - i,
        {
            if self.entries[i].path().starts_with(from) {
                let moved = self.entries[i].path().rebase(from, to);
                self.entries[i].set_path(moved);
            }
            i += 1;
        }
        assert(entry_views(self.entries@) =~= moved_views(before, from@, to@));
    }

    /// Renames the entry at `file_name` to `new_file_name`, and with it every
    /// entry below it.
    ///
    /// A folder at the new path is never replaced. A file there is replaced if
    /// `replace_if_exists` is set, and the rename is refused if it is not. The
    /// root cannot be renamed, no entry can be moved below itself, and the
    /// parent of the new path must be a folder of the store. A refused rename
    /// changes nothing.
    pub fn rename(&mut self, file_name: &Path, new_file_name: &Path, replace_if_exists: bool) -> (r:
        Result<(), FsError>)
        requires
            old(self).wf(),
        ensures
            final(self).wf(),
            match old(self)@.rename_error(file_name@, new_file_name@, replace_if_exists) {
                Some(e) => r == Err::<(), FsError>(e) && final(self)@ == old(self)@,
                None => r == Ok::<(), FsError>(()) && final(self)@ == old(self)@.renamed(
                    file_name@,
                    new_file_name@,
                ),
            },
    {
        proof {
            use_type_invariant(new_file_name);
        }
        if self.read_only {
            return Err(FsError::ReadOnly);
        }
        if self.find(file_name).is_none() {
            return Err(FsError::NotFound);
        }
        if file_name.is_root() {
            return Err(FsError::AccessDenied);
        }
        let target = self.find(new_file_name);
        match target {
            Some(j) => {
                if self.entries[j].is_folder() {
                    return Err(FsError::AccessDenied);
                }
                if !replace_if_exists {
                    return Err(FsError::AlreadyExists);
                }
                if file_name.equals(new_file_name) {
                    return Ok(());
                }
            },
            None => {},
        }
        if new_file_name.starts_with(file_name) {
            return Err(FsError::AccessDenied);
        }
        let parent = match new_file_name.parent() {
            Some(parent) => parent,
            None => {
                // The root is a folder.
                assert(new_file_name@ =~= Seq::<Seq<u16>>::empty());
                return Err(FsError::AccessDenied);
            },
        };
        match self.find(&parent) {
            None => {
                return Err(FsError::ParentNotFound);
            },
            Some(p) => {
                if !self.entries[p].is_folder() {
                    return Err(FsError::NotADirectory);
                }
            },
        }
        let ghost s0 = entry_views(self.entries@);
        let ghost m0 = self@.entries;
        proof {
            self.lemma_entries();
        }
        match target {
            Some(j) => {
                self.entries.remove(j);
                self.counters.used_nodes = self.counters.used_nodes - 1;
                proof {
                    assert(entry_views(self.entries@) =~= s0.remove(j as int));
                    lemma_table_remove(s0, j as int);
                    lemma_tree_without_file(m0, new_file_name@);
                }
            },
            None => {
                assert(m0.remove(new_file_name@) =~= m0);
            },
        }
        let ghost s1 = entry_views(self.entries@);
        let ghost m1 = m0.remove(new_file_name@);
        proof {
            assert(table_of(s1) == m1);
            assert forall|i: int| 0 <= i < s1.len() implies !is_under(
                (#[trigger] s1[i]).path,
                new_file_name@,
            ) by {
                lemma_table_lookup(s1, i);
                if is_under(s1[i].path, new_file_name@) {
                    lemma_nothing_below(m0, new_file_name@, s1[i].path);
                }
            }
            lemma_table_moved(s1, file_name@, new_file_name@);
            lemma_moved_over(m0, file_name@, new_file_name@);
            lemma_moved_tree(m1, file_name@, new_file_name@);
        }
        self.move_subtree(file_name, new_file_name);
        proof {
            self.lemma_entries();
            assert(self@.entries == moved_entries(m0, file_name@, new_file_name@));
            assert forall|k: Seq<Seq<u16>>| #[trigger]
                self@.entries.contains_key(k) && self@.entries[k].is_file() implies (
            self@.entries[k].content->0.file_size <= self.max_file_size) by {
                if is_under(k, new_file_name@) {
                    assert(m0.contains_key(rebased(k, new_file_name@.len() as int, file_name@)));
                } else {
                    assert(m0.contains_key(k));
                }
            }
            assert(self@ == old(self)@.renamed(file_name@, new_file_name@));
        }
        Ok(())
    }

    /// Lists the folder at `folder`: the lines for the entries in it, in
    /// ascending order of name.
    ///
    /// Without a marker the listing starts at the beginning and, except in the
    /// root, also holds a line `.` for the folder and a line `..` for its
    /// parent, each at its place in the order. With a marker it holds only the
    /// lines of entries whose names come after the marker.
    pub fn list(&self, folder: &Path, marker: Option<&[u16]>) -> (r: Result<Vec<DirEntry>, FsError>)
        requires
            self.wf(),
        ensures
            match self@.list_error(folder@) {
                Some(e) => r == Err::<Vec<DirEntry>, FsError>(e),
                None => r matches Ok(lines) && self@.is_listing(
                    folder@,
                    marker_view(marker),
                    listed(lines@),
                ),
            },
    {
        let i = match self.find(folder) {
            None => {
                return Err(FsError::NotFound);
            },
            Some(i) => i,
        };
        if !self.entries[i].is_folder() {
            return Err(FsError::NotADirectory);
        }
        proof {
            self.lemma_entries();
            lemma_dot_names();
        }
        let mut lines: Vec<DirEntry> = Vec::new();
        if marker.is_none() {
            if let Some(parent) = folder.parent() {
                if let Some(p) = self.find(&parent) {
                    let mut dot: Vec<u16> = Vec::new();
                    dot.push(DOT);
                    let mut dot_dot: Vec<u16> = Vec::new();
                    dot_dot.push(DOT);
                    dot_dot.push(DOT);
                    assert(dot@ =~= dot_name());
                    assert(dot_dot@ =~= dot_dot_name());
                    let ghost none = listed(lines@);
                    insert_ascending(&mut lines, DirEntry { name: dot, info: self.entries[i].info() });
                    assert forall|a: int| 0 <= a < lines@.len() implies lines@[a]@.name
                        != dot_dot@ by {
                        assert(listed(lines@).contains(listed(lines@)[a]));
                    }
                    insert_ascending(
                        &mut lines,
                        DirEntry { name: dot_dot, info: self.entries[p].info() },
                    );
                    assert(forall|x: ListedEntry| !none.contains(x));
                }
            }
        }
        let ghost state = self@;
        let ghost mark = marker_view(marker);
        assert forall|x: ListedEntry| #[trigger]
            listed(lines@).contains(x) <==> mark is None && state.shows_dot(folder@, x) by {}
        let mut j: usize = 0;
        while j < self.entries.len()
            invariant
                self.wf(),
                state == self@,
                mark == marker_view(marker),
                j <= self.entries@.len(),
                ascending(listed(lines@)),
                forall|x: ListedEntry| #[trigger]
                    listed(lines@).contains(x) <==> (mark is None && state.shows_dot(folder@, x))
                        || exists|k: int|
                        0 <= k < j && picks(#[trigger] self.entries@[k]@, folder@, mark) && x
                            == line_of(self.entries@[k]@),
            decreases self.entries@.len() - j,
        {
            let entry = &self.entries[j];
            if entry.path().is_child_of(folder) {
                if let Some(name) = entry.path().file_name() {
                    let passes = match marker {
                        None => true,
                        Some(m) => name_less(m, name),
                    };
                    if passes {
                        let ghost before = listed(lines@);
                        let line = DirEntry {
                            name: vstd::slice::slice_to_vec(name),
                            info: entry.info(),
                        };
                        proof {
                            self.lemma_entries();
                            let path = self.entries@[j as int]@.path;
                            assert(self@.entries.contains_key(path));
                            assert(valid_name(path[path.len() - 1]));
                            assert forall|a: int| 0 <= a < lines@.len() implies lines@[a]@.name
                                != line@.name by {
                                let x = before[a];
                                assert(before.contains(x));
                                if !(mark is None && state.shows_dot(folder@, x)) {
                                    let k = choose|k: int|
                                        0 <= k < j && picks(
                                            #[trigger] self.entries@[k]@,
                                            folder@,
                                            mark,
                                        ) && x == line_of(self.entries@[k]@);
                                    let other = self.entries@[k]@.path;
                                    if x.name == line@.name {
                                        assert(other =~= other.drop_last().push(other.last()));
                                        assert(path =~= path.drop_last().push(path.last()));
                                        assert(entry_views(self.entries@)[k].path != entry_views(
                                            self.entries@,
                                        )[j as int].path);
                                    }
                                }
                            }
                        }
                        insert_ascending(&mut lines, line);
                        proof {
                            assert(picks(self.entries@[j as int]@, folder@, mark));
                        }
                    }
                }
            }
            j += 1;
        }
        proof {
            self.lemma_entries();
            assert forall|x: ListedEntry| #[trigger]
                listed(lines@).contains(x) <==> state.lists(folder@, mark, x) by {
                let path = folder@.push(x.name);
                assert(path.drop_last() =~= folder@);
                if listed(lines@).contains(x) && !(mark is None && state.shows_dot(folder@, x)) {
                    let k = choose|k: int|
                        0 <= k < j && picks(#[trigger] self.entries@[k]@, folder@, mark) && x
                            == line_of(self.entries@[k]@);
                    let p = self.entries@[k]@.path;
                    assert(p =~= p.drop_last().push(p.last()));
                }
                if state.shows_child(folder@, x) && (mark matches Some(m) ==> name_lt(m, x.name)) {
                    let k = position(entry_views(self.entries@), path);
                    assert(self.entries@[k]@.path == path);
                    assert(picks(self.entries@[k]@, folder@, mark));
                    assert(x == line_of(self.entries@[k]@));
                }
            }
        }
        Ok(lines)
    }

    /// Lists the folder at `folder` as [`PathTable::list`] does, but leaves
    /// out the entries whose names `keep` does not accept. The two dot lines
    /// are not put before `keep`: where a listing shows them, they stay.
    pub fn list_where<F>(&self, folder: &Path, marker: Option<&[u16]>, keep: F) -> (r: Result<
        Vec<DirEntry>,
        FsError,
    >) where F: Fn(&[u16]) -> bool
        requires
            self.wf(),
            forall|name: &[u16]| call_requires(keep, (name,)),
        ensures
            match self@.list_error(folder@) {
                Some(e) => r == Err::<Vec<DirEntry>, FsError>(e),
                None => r matches Ok(lines) && {
                    &&& ascending(listed(lines@))
                    &&& forall|line: ListedEntry| #[trigger]
                        listed(lines@).contains(line) ==> self@.lists(
                            folder@,
                            marker_view(marker),
                            line,
                        ) && (is_dot_line(folder@, marker_view(marker), line) || accepts(
                            keep,
                            line.name,
                            true,
                        ))
                    &&& forall|line: ListedEntry| #[trigger]
                        self@.lists(folder@, marker_view(marker), line) && !listed(lines@).contains(
                            line,
                        ) ==> accepts(keep, line.name, false)
                },
            },
    {
        let all = match self.list(folder, marker) {
            Ok(all) => all,
            Err(e) => {
                return Err(e);
            },
        };
        let dots = marker.is_none() && !folder.is_root();
        let ghost state = self@;
        let ghost mark = marker_view(marker);
        proof {
            lemma_dot_names();
        }
        let mut lines: Vec<DirEntry> = Vec::new();
        let mut i: usize = 0;
        while i < all.len()
            invariant
                i <= all@.len(),
                state.is_listing(folder@, mark, listed(all@)),
                dots == (mark is None && folder@.len() > 0),
                forall|name: &[u16]| call_requires(keep, (name,)),
                ascending(listed(lines@)),
                forall|a: int, b: int|
                    0 <= a < lines@.len() && i <= b < all@.len() ==> name_lt(
                        (#[trigger] listed(lines@)[a]).name,
                        (#[trigger] listed(all@)[b]).name,
                    ),
                forall|line: ListedEntry| #[trigger]
                    listed(lines@).contains(line) ==> listed(all@).contains(line) && (is_dot_line(
                        folder@,
                        mark,
                        line,
                    ) || accepts(keep, line.name, true)),
                forall|b: int|
                    0 <= b < i && !listed(lines@).contains(#[trigger] listed(all@)[b]) ==> accepts(
                        keep,
                        listed(all@)[b].name,
                        false,
                    ),
            decreases all@.len() - i,
        {
            let name = all[i].name.as_slice();
            let ghost line = listed(all@)[i as int];
            let dot = dots && (name.len() == 1 && name[0] == DOT || name.len() == 2 && name[0] == DOT
                && name[1] == DOT);
            proof {
                assert(listed(all@).contains(line));
                if dot {
                    assert(name@ =~= dot_name() || name@ =~= dot_dot_name());
                }
            }
            let kept = dot || keep(name);
            if kept {
                let ghost before = listed(lines@);
                lines.push(DirEntry { name: vstd::slice::slice_to_vec(name), info: all[i].info });
                proof {
                    let after = listed(lines@);
                    assert(after =~= before.push(line));
                    assert forall|a: int, b: int| 0 <= a < b < after.len() implies name_lt(
                        (#[trigger] after[a]).name,
                        (#[trigger] after[b]).name,
                    ) by {
                        if b < before.len() {
                            assert(after[a] == before[a] && after[b] == before[b]);
                        } else {
                            assert(after[a] == before[a]);
                            assert(name_lt(before[a].name, listed(all@)[i as int].name));
                        }
                    }
                    assert forall|a: int, b: int|
                        0 <= a < after.len() && i + 1 <= b < all@.len() implies name_lt(
                        (#[trigger] after[a]).name,
                        (#[trigger] listed(all@)[b]).name,
                    ) by {
                        if a < before.len() {
                            assert(after[a] == before[a]);
                        } else {
                            assert(name_lt(listed(all@)[i as int].name, listed(all@)[b].name));
                        }
                    }
                    assert forall|x: ListedEntry| #[trigger] after.contains(x) implies listed(
                        all@,
                    ).contains(x) && (is_dot_line(folder@, mark, x) || accepts(keep, x.name, true)) by {
                        let k = choose|k: int| 0 <= k < after.len() && after[k] == x;
                        if k < before.len() {
                            assert(before[k] == x);
                            assert(before.contains(x));
                        } else {
                            assert(x == line);
                            if !dot {
                                assert(call_ensures(keep, (name,), true));
                            } else {
                                assert(state.lists(folder@, mark, line));
                            }
                        }
                    }
                    assert forall|b: int|
                        0 <= b < i + 1 && !after.contains(#[trigger] listed(all@)[b]) implies accepts(
                        keep,
                        listed(all@)[b].name,
                        false,
                    ) by {
                        if b < i {
                            if before.contains(listed(all@)[b]) {
                                let k = choose|k: int|
                                    0 <= k < before.len() && before[k] == listed(all@)[b];
                                assert(after[k] == listed(all@)[b]);
                            }
                        } else {
                            assert(after[before.len() as int] == line);
                        }
                    }
                }
            } else {
                proof {
                    assert(call_ensures(keep, (name,), false));
                }
            }
            i += 1;
        }
        proof {
            assert forall|line: ListedEntry| #[trigger]
                state.lists(folder@, mark, line) && !listed(lines@).contains(line) implies accepts(
                keep,
                line.name,
                false,
            ) by {
                assert(listed(all@).contains(line));
                let b = choose|b: int| 0 <= b < all@.len() && listed(all@)[b] == line;
                assert(!listed(lines@).contains(listed(all@)[b]));
            }
        }
        Ok(lines)
    }
}

/// Whether `keep` may give `answer` when asked about the name `name`.
pub open spec fn accepts<F: Fn(&[u16]) -> bool>(keep: F, name: Seq<u16>, answer: bool) -> bool {
    exists|n: &[u16]| n@ == name && call_ensures(keep, (n,), answer)
}

/// Whether `line` is one of the two dot lines of a listing of `folder` from
/// the start.
pub open spec fn is_dot_line(
    folder: Seq<Seq<u16>>,
    marker: Option<Seq<u16>>,
    line: ListedEntry,
) -> bool {
    marker is None && folder.len() > 0 && (line.name == dot_name() || line.name == dot_dot_name())
}

/// The line that a listing shows for the entry `e`.
pub open spec fn line_of(e: EntryView) -> ListedEntry {
    ListedEntry { name: e.path.last(), info: e.info }
}

/// Whether a listing of `folder` after `marker` shows the entry `e`.
pub open spec fn picks(e: EntryView, folder: Seq<Seq<u16>>, marker: Option<Seq<u16>>) -> bool {
    is_child_of(e.path, folder) && (marker matches Some(m) ==> name_lt(m, e.path.last()))
}

/// The two dot names differ, and neither is a valid name.
proof fn lemma_dot_names()
    ensures
        dot_name() != dot_dot_name(),
        name_lt(dot_name(), dot_dot_name()),
        !valid_name(dot_name()),
        !valid_name(dot_dot_name()),
{
    assert(dot_name().len() == 1 && dot_dot_name().len() == 2);
    reveal_with_fuel(name_lt, 3);
    assert(dot_name().drop_first() =~= Seq::<u16>::empty());
}

} // verus!

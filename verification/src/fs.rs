//! The file system as a host drives it: one store, one volume record, and the
//! operations of a file system interface, each addressed by path.

use crate::entry::{EntryKind, EntryView};
use crate::error::FsError;
use crate::extent::WriteMode;
use crate::flags::{
    CleanupFlags, CreateOptions, FileAttributes, CLEANUP_DELETE, FILE_ATTRIBUTE_DIRECTORY,
    FILE_DIRECTORY_FILE,
};
use crate::info::{
    CreateFileInfo, DirInfo, FileInfo, VolumeInfo, VolumeInfoView, VolumeLabelNameTooLong,
    VOLUME_LABEL_MAX_LEN,
};
use crate::listing::{listed, marker_view, ListedEntry};
use crate::names::valid_name;
use crate::path::Path;
use crate::security::SecurityDescriptor;
use crate::table::PathTable;
use crate::tree::{TableState, VolumeCounters};
use vstd::prelude::*;

verus! {

/// The number of entries a volume may hold, the root among them.
pub const MAX_FILE_NODES: u64 = 1024;

/// The greatest size of a file, in bytes.
pub const MAX_FILE_SIZE: u64 = 0x100_0000;

/// The number of entries a fresh volume holds: the root.
pub const FILE_NODES: u64 = 1;

/// The lines that host records stand for.
pub open spec fn dir_lines(v: Seq<DirInfo>) -> Seq<ListedEntry> {
    Seq::new(v.len(), |i: int| ListedEntry { name: v[i].file_name@, info: v[i].file_info })
}

/// The kind of entry that a create request asks for.
pub open spec fn requested_kind(options: CreateOptions) -> EntryKind {
    if options.has(CreateOptions(FILE_DIRECTORY_FILE)) {
        EntryKind::Folder
    } else {
        EntryKind::File
    }
}

impl TableState {
    /// This state after the last handle of the entry at `path` is closed at
    /// time `now` with `flags`. A store that takes no changes, and a path
    /// without an entry, leave the state as it is. Otherwise the entry is
    /// cleaned up as the flags ask, and then, if its removal is asked for and
    /// nothing lies in it and it is not the root, removed.
    pub open spec fn closed(self, path: Seq<Seq<u16>>, flags: CleanupFlags, now: u64) -> TableState {
        if self.change_error(path) is Some {
            self
        } else {
            let cleaned = self.with_entry(self.entries[path].cleaned_up(flags, now));
            if flags.has(CleanupFlags(CLEANUP_DELETE)) && cleaned.remove_error(path) is None {
                cleaned.removed(path)
            } else {
                cleaned
            }
        }
    }

    /// Why the entry at `path` cannot be marked for removal, if it cannot.
    pub open spec fn set_delete_error(self, path: Seq<Seq<u16>>) -> Option<FsError> {
        if self.has_child(path) {
            Some(FsError::NotEmpty)
        } else if self.read_only {
            Some(FsError::ReadOnly)
        } else {
            None
        }
    }
}

/// A file system in memory.
#[derive(Debug)]
pub struct MemFs {
    pub table: PathTable,
    pub volume_info: VolumeInfo,
}

impl MemFs {
    /// The invariant of the file system: that of its store and of its volume record.
    pub open spec fn wf(&self) -> bool {
        self.table.wf() && self.volume_info.wf()
    }

    /// A file system that holds the root folder and nothing else.
    pub fn new(
        volume_label: &[u16],
        read_only: bool,
        root_security: SecurityDescriptor,
        now: u64,
    ) -> (fs: MemFs)
        requires
            volume_label@.len() <= VOLUME_LABEL_MAX_LEN,
        ensures
            fs.wf(),
            fs.table@.entries == Map::<Seq<Seq<u16>>, EntryView>::empty().insert(
                Seq::empty(),
                EntryView::new_folder(
                    Seq::empty(),
                    root_security@,
                    FileAttributes(FILE_ATTRIBUTE_DIRECTORY),
                    now,
                ),
            ),
            fs.table@.counters == (VolumeCounters {
                total_capacity_bytes: (MAX_FILE_NODES * MAX_FILE_SIZE) as u64,
                node_capacity: MAX_FILE_NODES,
                used_nodes: FILE_NODES,
            }),
            fs.table@.max_file_size == MAX_FILE_SIZE,
            fs.table@.read_only == read_only,
            fs.volume_info@ == (VolumeInfoView {
                total_size: (MAX_FILE_NODES * MAX_FILE_SIZE) as u64,
                free_size: ((MAX_FILE_NODES - FILE_NODES) * MAX_FILE_SIZE) as u64,
                volume_label: volume_label@,
            }),
    {
        let table = PathTable::new(
            root_security,
            MAX_FILE_NODES,
            MAX_FILE_SIZE as usize,
            read_only,
            now,
        );
        let volume_info = match VolumeInfo::new(
            MAX_FILE_NODES * MAX_FILE_SIZE,
            (MAX_FILE_NODES - FILE_NODES) * MAX_FILE_SIZE,
            volume_label,
        ) {
            Ok(info) => info,
            Err(_) => vstd::pervasive::unreached(),
        };
        MemFs { table, volume_info }
    }

    /// A copy of the volume record.
    pub fn get_volume_info(&self) -> (info: VolumeInfo)
        ensures
            info@ == self.volume_info@,
    {
        self.volume_info.clone()
    }

    /// Sets the label of the volume, unless it has more than 32 code units, and
    /// returns a copy of the volume record.
    pub fn set_volume_label(&mut self, volume_label: &[u16]) -> (r: Result<
        VolumeInfo,
        VolumeLabelNameTooLong,
    >)
        requires
            old(self).wf(),
        ensures
            final(self).wf(),
            final(self).table == old(self).table,
            volume_label@.len() <= VOLUME_LABEL_MAX_LEN <==> r is Ok,
            r matches Ok(info) ==> info@ == final(self).volume_info@ && info@ == (VolumeInfoView {
                volume_label: volume_label@,
                ..old(self).volume_info@
            }),
            r is Err ==> final(self).volume_info@ == old(self).volume_info@,
    {
        match self.volume_info.set_volume_label(volume_label) {
            Ok(()) => Ok(self.volume_info.clone()),
            Err(e) => Err(e),
        }
    }

    /// The attributes and a copy of the security descriptor of the entry at
    /// `file_name`.
    pub fn get_security_by_name(&self, file_name: &Path) -> (r: Result<
        (FileAttributes, SecurityDescriptor),
        FsError,
    >)
        requires
            self.wf(),
        ensures
            self.table@.contains(file_name@) <==> r is Ok,
            r matches Ok((attributes, sd)) ==> attributes
                == self.table@.entries[file_name@].info.file_attributes && sd@
                == self.table@.entries[file_name@].security,
            r matches Err(e) ==> e == FsError::NotFound,
    {
        match self.table.open(file_name) {
            Ok(entry) => Ok((entry.info().file_attributes, entry.security_descriptor().clone())),
            Err(e) => Err(e),
        }
    }

    /// Creates the folder or file that `create_file_info` asks for at
    /// `file_name`, and returns its metadata.
    pub fn create_ex(
        &mut self,
        file_name: &Path,
        create_file_info: CreateFileInfo,
        security_descriptor: SecurityDescriptor,
        now: u64,
    ) -> (r: Result<FileInfo, FsError>)
        requires
            old(self).wf(),
            create_file_info.create_options.has(CreateOptions(FILE_DIRECTORY_FILE))
                <==> create_file_info.file_attributes.has(FileAttributes(FILE_ATTRIBUTE_DIRECTORY)),
        ensures
            final(self).wf(),
            final(self).volume_info == old(self).volume_info,
            match old(self).table@.create_error(
                file_name@,
                requested_kind(create_file_info.create_options),
                create_file_info.allocation_size as nat,
            ) {
                Some(e) => r == Err::<FileInfo, FsError>(e) && final(self).table@ == old(
                    self,
                ).table@,
                None => {
                    let entry = EntryView::new_entry(
                        requested_kind(create_file_info.create_options),
                        file_name@,
                        security_descriptor@,
                        create_file_info.file_attributes,
                        create_file_info.allocation_size as nat,
                        now,
                    );
                    r == Ok::<FileInfo, FsError>(entry.info) && final(self).table@ == old(
                        self,
                    ).table@.created(entry)
                },
            },
    {
        let kind = if create_file_info.create_options.is(CreateOptions::file_directory_file()) {
            EntryKind::Folder
        } else {
            EntryKind::File
        };
        self.table.create(
            file_name,
            kind,
            security_descriptor,
            create_file_info.file_attributes,
            create_file_info.allocation_size,
            now,
        )
    }

    /// The metadata of the entry at `file_name`.
    pub fn open(&self, file_name: &Path) -> (r: Result<FileInfo, FsError>)
        requires
            self.wf(),
        ensures
            self.table@.contains(file_name@) <==> r is Ok,
            r matches Ok(info) ==> info == self.table@.entries[file_name@].info,
            r matches Err(e) ==> e == FsError::NotFound,
    {
        self.table.get_file_info(file_name)
    }

    /// Overwrites the file at `file_name` at time `now` and returns its
    /// metadata after the change.
    pub fn overwrite_ex(
        &mut self,
        file_name: &Path,
        file_attributes: FileAttributes,
        replace_file_attributes: bool,
        allocation_size: u64,
        now: u64,
    ) -> (r: Result<FileInfo, FsError>)
        requires
            old(self).wf(),
        ensures
            final(self).wf(),
            final(self).volume_info == old(self).volume_info,
            match old(self).table@.resize_error(file_name@, allocation_size as nat) {
                Some(e) => r == Err::<FileInfo, FsError>(e) && final(self).table@ == old(
                    self,
                ).table@,
                None => {
                    let after = old(self).table@.entries[file_name@].overwritten(
                        file_attributes,
                        replace_file_attributes,
                        allocation_size as nat,
                        now,
                    );
                    r == Ok::<FileInfo, FsError>(after.info) && final(self).table@ == old(
                        self,
                    ).table@.with_entry(after)
                },
            },
    {
        self.table.overwrite(file_name, file_attributes, replace_file_attributes, allocation_size, now)
    }

    /// Closes the last handle of the entry at `file_name` at time `now`: does
    /// to the entry what `flags` ask for and then, if they ask for its removal,
    /// removes it unless something lies in it. Nothing is reported: what cannot
    /// be done is left undone.
    pub fn cleanup(&mut self, file_name: &Path, flags: CleanupFlags, now: u64)
        requires
            old(self).wf(),
        ensures
            final(self).wf(),
            final(self).volume_info == old(self).volume_info,
            final(self).table@ == old(self).table@.closed(file_name@, flags, now),
    {
        match self.table.cleanup(file_name, flags, now) {
            Ok(()) => {
                if flags.is(CleanupFlags::delete()) {
                    let _ = self.table.remove(file_name);
                }
            },
            Err(_) => {},
        }
    }

    /// The bytes of the file at `file_name` from `offset` on, at most `length`
    /// of them.
    pub fn read(&self, file_name: &Path, offset: u64, length: usize) -> (r: Result<&[u8], FsError>)
        requires
            self.wf(),
        ensures
            match self.table@.read_error(file_name@, offset as nat) {
                Some(e) => r == Err::<&[u8], FsError>(e),
                None => r matches Ok(bytes) && bytes@
                    == self.table@.entries[file_name@].content->0.read(
                    offset as nat,
                    length as nat,
                ),
            },
    {
        self.table.read(file_name, offset, length)
    }

    /// Writes `buffer` to the file at `file_name` as `mode` directs. Returns
    /// the number of bytes written and the metadata of the file after the write.
    pub fn write(&mut self, file_name: &Path, buffer: &[u8], mode: WriteMode) -> (r: Result<
        (usize, FileInfo),
        FsError,
    >)
        requires
            old(self).wf(),
        ensures
            final(self).wf(),
            final(self).volume_info == old(self).volume_info,
            match old(self).table@.write_error(file_name@, buffer@.len(), mode) {
                Some(e) => r == Err::<(usize, FileInfo), FsError>(e) && final(self).table@ == old(
                    self,
                ).table@,
                None => {
                    let file = old(self).table@.entries[file_name@];
                    let content = file.content->0;
                    let after = file.with_content(content.written_in(buffer@, mode));
                    &&& r == Ok::<(usize, FileInfo), FsError>(
                        (content.transferred(buffer@.len(), mode) as usize, after.info),
                    )
                    &&& final(self).table@ == old(self).table@.with_entry(after)
                },
            },
    {
        self.table.write(file_name, buffer, mode)
    }

    /// The metadata of the entry at `file_name`. Nothing needs to be written
    /// out: the store is the only place where the data lives.
    pub fn flush(&self, file_name: &Path) -> (r: Result<FileInfo, FsError>)
        requires
            self.wf(),
        ensures
            self.table@.contains(file_name@) <==> r is Ok,
            r matches Ok(info) ==> info == self.table@.entries[file_name@].info,
            r matches Err(e) ==> e == FsError::NotFound,
    {
        self.table.get_file_info(file_name)
    }

    /// The metadata of the entry at `file_name`.
    pub fn get_file_info(&self, file_name: &Path) -> (r: Result<FileInfo, FsError>)
        requires
            self.wf(),
        ensures
            self.table@.contains(file_name@) <==> r is Ok,
            r matches Ok(info) ==> info == self.table@.entries[file_name@].info,
            r matches Err(e) ==> e == FsError::NotFound,
    {
        self.table.get_file_info(file_name)
    }

    /// Sets the attributes of the entry at `file_name`, unless they are the
    /// invalid value, and each of its four times, unless it is zero.
    pub fn set_basic_info(
        &mut self,
        file_name: &Path,
        file_attributes: FileAttributes,
        creation_time: u64,
        last_access_time: u64,
        last_write_time: u64,
        change_time: u64,
    ) -> (r: Result<FileInfo, FsError>)
        requires
            old(self).wf(),
        ensures
            final(self).wf(),
            final(self).volume_info == old(self).volume_info,
            match old(self).table@.change_error(file_name@) {
                Some(e) => r == Err::<FileInfo, FsError>(e) && final(self).table@ == old(
                    self,
                ).table@,
                None => {
                    let entry = old(self).table@.entries[file_name@];
                    let info = entry.info.with_basic_info(
                        file_attributes,
                        creation_time,
                        last_access_time,
                        last_write_time,
                        change_time,
                    );
                    r == Ok::<FileInfo, FsError>(info) && final(self).table@ == old(
                        self,
                    ).table@.with_entry(entry.with_info(info))
                },
            },
    {
        self.table.set_basic_info(
            file_name,
            file_attributes,
            creation_time,
            last_access_time,
            last_write_time,
            change_time,
        )
    }

    /// Sets the size of the file at `file_name`, or else its allocation, to
    /// `new_size`.
    pub fn set_file_size(&mut self, file_name: &Path, new_size: u64, set_allocation_size: bool) -> (r:
        Result<FileInfo, FsError>)
        requires
            old(self).wf(),
        ensures
            final(self).wf(),
            final(self).volume_info == old(self).volume_info,
            match old(self).table@.resize_error(file_name@, new_size as nat) {
                Some(e) => r == Err::<FileInfo, FsError>(e) && final(self).table@ == old(
                    self,
                ).table@,
                None => {
                    let after = old(self).table@.entries[file_name@].resized(
                        new_size as nat,
                        set_allocation_size,
                    );
                    r == Ok::<FileInfo, FsError>(after.info) && final(self).table@ == old(
                        self,
                    ).table@.with_entry(after)
                },
            },
    {
        self.table.set_size(file_name, new_size, set_allocation_size)
    }

    /// Renames the entry at `file_name` to `new_file_name`, and with it every
    /// entry below it.
    pub fn rename(&mut self, file_name: &Path, new_file_name: &Path, replace_if_exists: bool) -> (r:
        Result<(), FsError>)
        requires
            old(self).wf(),
        ensures
            final(self).wf(),
            final(self).volume_info == old(self).volume_info,
            match old(self).table@.rename_error(file_name@, new_file_name@, replace_if_exists) {
                Some(e) => r == Err::<(), FsError>(e) && final(self).table@ == old(self).table@,
                None => r == Ok::<(), FsError>(()) && final(self).table@ == old(
                    self,
                ).table@.renamed(file_name@, new_file_name@),
            },
    {
        self.table.rename(file_name, new_file_name, replace_if_exists)
    }

    /// A copy of the security descriptor of the entry at `file_name`.
    pub fn get_security(&self, file_name: &Path) -> (r: Result<SecurityDescriptor, FsError>)
        requires
            self.wf(),
        ensures
            self.table@.contains(file_name@) <==> r is Ok,
            r matches Ok(sd) ==> sd@ == self.table@.entries[file_name@].security,
            r matches Err(e) ==> e == FsError::NotFound,
    {
        self.table.get_security(file_name)
    }

    /// Changes the security descriptor of the entry at `file_name` to what
    /// `merge` makes of the current descriptor, the selection
    /// `security_information` and the descriptor `modification`.
    pub fn set_security<F>(
        &mut self,
        file_name: &Path,
        security_information: u32,
        modification: &[u8],
        merge: F,
    ) -> (r: Result<(), FsError>) where
        F: Fn(&SecurityDescriptor, u32, &[u8]) -> Result<SecurityDescriptor, i32>,

        requires
            old(self).wf(),
            forall|current: &SecurityDescriptor|
                call_requires(merge, (current, security_information, modification)),
        ensures
            final(self).wf(),
            final(self).volume_info == old(self).volume_info,
            match old(self).table@.change_error(file_name@) {
                Some(e) => r == Err::<(), FsError>(e) && final(self).table@ == old(self).table@,
                None => exists|current: &SecurityDescriptor, merged: Result<SecurityDescriptor, i32>|
                    {
                        &&& current@ == old(self).table@.entries[file_name@].security
                        &&& call_ensures(
                            merge,
                            (current, security_information, modification),
                            merged,
                        )
                        &&& match merged {
                            Err(status) => r == Err::<(), FsError>(
                                FsError::SecurityMergeFailed { status },
                            ) && final(self).table@ == old(self).table@,
                            Ok(sd) => r == Ok::<(), FsError>(()) && final(self).table@ == old(
                                self,
                            ).table@.with_entry(
                                old(self).table@.entries[file_name@].with_security(sd@),
                            ),
                        }
                    },
            },
    {
        self.table.set_security(file_name, security_information, modification, merge)
    }

    /// Lists the folder at `file_name` from the start, or from after `marker`,
    /// as records for a host.
    pub fn read_directory(&self, file_name: &Path, marker: Option<&[u16]>) -> (r: Result<
        Vec<DirInfo>,
        FsError,
    >)
        requires
            self.wf(),
        ensures
            match self.table@.list_error(file_name@) {
                Some(e) => r == Err::<Vec<DirInfo>, FsError>(e),
                None => r matches Ok(records) && self.table@.is_listing(
                    file_name@,
                    marker_view(marker),
                    dir_lines(records@),
                ) && forall|i: int| 0 <= i < records@.len() ==> (#[trigger] records@[i]).wf(),
            },
    {
        let lines = match self.table.list(file_name, marker) {
            Ok(lines) => lines,
            Err(e) => {
                return Err(e);
            },
        };
        let mut records: Vec<DirInfo> = Vec::new();
        let mut i: usize = 0;
        while i < lines.len()
            invariant
                self.wf(),
                self.table@.is_listing(file_name@, marker_view(marker), listed(lines@)),
                i <= lines@.len(),
                records@.len() == i,
                forall|j: int| 0 <= j < i ==> (#[trigger] records@[j]).wf(),
                dir_lines(records@) == listed(lines@).subrange(0, i as int),
            decreases lines@.len() - i,
        {
            proof {
                let line = listed(lines@)[i as int];
                assert(listed(lines@).contains(line));
                assert(self.table@.lists(file_name@, marker_view(marker), line));
                if self.table@.shows_child(file_name@, line) {
                    let path = file_name@.push(line.name);
                    assert(self.table@.entries.contains_key(path));
                    assert(valid_name(path[path.len() - 1]));
                }
            }
            let ghost before = dir_lines(records@);
            records.push(DirInfo::new(lines[i].info, lines[i].name.as_slice()));
            i += 1;
            assert(dir_lines(records@) =~= before.push(listed(lines@)[i - 1]));
            assert(listed(lines@).subrange(0, i as int) =~= before.push(listed(lines@)[i - 1]));
        }
        assert(listed(lines@).subrange(0, i as int) =~= listed(lines@));
        Ok(records)
    }

    /// Whether the entry at `file_name` may be marked for removal, or the mark
    /// cleared: it may not while something lies in it, nor on a store that
    /// takes no changes. The answer does not depend on `delete_file`.
    pub fn set_delete(&self, file_name: &Path, delete_file: bool) -> (r: Result<(), FsError>)
        requires
            self.wf(),
        ensures
            match self.table@.set_delete_error(file_name@) {
                Some(e) => r == Err::<(), FsError>(e),
                None => r == Ok::<(), FsError>(()),
            },
            r == Err::<(), FsError>(FsError::NotEmpty) <==> self.table@.has_child(file_name@),
    {
        if !self.table.can_delete(file_name) {
            return Err(FsError::NotEmpty);
        }
        if self.table.is_read_only() {
            return Err(FsError::ReadOnly);
        }
        Ok(())
    }
}

} // verus!

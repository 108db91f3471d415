//! The nodes of the tree: folders and files.

use crate::extent::{zeros, ByteExtent, ExtentView, WriteMode, MAX_ALLOCATION};
use crate::flags::{
    CleanupFlags, FileAttributes, CLEANUP_SET_ALLOCATION_SIZE, CLEANUP_SET_ARCHIVE_BIT,
    CLEANUP_SET_CHANGE_TIME, CLEANUP_SET_LAST_ACCESS_TIME, CLEANUP_SET_LAST_WRITE_TIME,
    FILE_ATTRIBUTE_ARCHIVE, FILE_ATTRIBUTE_DIRECTORY,
};
use crate::info::FileInfo;
use crate::path::{valid_path, Path};
use crate::security::SecurityDescriptor;
use vstd::prelude::*;

verus! {

/// The two kinds of entry.
#[derive(Debug, Clone, Copy, PartialEq, Eq)]
pub enum EntryKind {
    Folder,
    File,
}

/// The mathematical content of an entry. A file has content, a folder has none.
pub ghost struct EntryView {
    pub path: Seq<Seq<u16>>,
    pub security: Seq<u8>,
    pub info: FileInfo,
    pub content: Option<ExtentView>,
}

impl EntryView {
    pub open spec fn is_folder(self) -> bool {
        self.content is None
    }

    pub open spec fn is_file(self) -> bool {
        self.content is Some
    }

    /// The path is valid and, for a file, the sizes in the metadata are those of
    /// the content, which is itself well formed.
    pub open spec fn wf(self) -> bool {
        &&& valid_path(self.path)
        &&& self.content matches Some(c) ==> {
            &&& c.wf()
            &&& self.info.file_size == c.file_size
            &&& self.info.allocation_size == c.bytes.len()
        }
    }

    /// This entry with `c` for content and the sizes of `c` in the metadata.
    pub open spec fn with_content(self, c: ExtentView) -> EntryView {
        EntryView {
            content: Some(c),
            info: FileInfo {
                file_size: c.file_size as u64,
                allocation_size: c.bytes.len() as u64,
                ..self.info
            },
            ..self
        }
    }

    /// This entry under another path.
    pub open spec fn with_path(self, path: Seq<Seq<u16>>) -> EntryView {
        EntryView { path, ..self }
    }

    /// This entry with other metadata.
    pub open spec fn with_info(self, info: FileInfo) -> EntryView {
        EntryView { info, ..self }
    }

    /// This entry with another security descriptor.
    pub open spec fn with_security(self, security: Seq<u8>) -> EntryView {
        EntryView { security, ..self }
    }

    /// This file after its size, or else its allocation, is set to `new_size`.
    pub open spec fn resized(self, new_size: nat, set_allocation_size: bool) -> EntryView {
        let c = self.content->0;
        self.with_content(
            if set_allocation_size {
                c.with_allocation(new_size)
            } else {
                c.with_file_size(new_size)
            },
        )
    }

    /// This file after it is overwritten at time `now`: it bears the archive
    /// attribute and those given, beside or in place of those it had; its
    /// allocation is `allocation_size`; all its times are `now`.
    pub open spec fn overwritten(
        self,
        attributes: FileAttributes,
        replace_attributes: bool,
        allocation_size: nat,
        now: u64,
    ) -> EntryView {
        let bits = if replace_attributes {
            attributes.0 | FILE_ATTRIBUTE_ARCHIVE
        } else {
            attributes.0 | FILE_ATTRIBUTE_ARCHIVE | self.info.file_attributes.0
        };
        self.with_info(
            FileInfo { file_attributes: FileAttributes(bits), ..self.info }.with_time(now),
        ).with_content(self.content->0.with_allocation(allocation_size))
    }

    /// This entry after the actions that `flags` ask for when its last handle is
    /// closed at time `now`. A folder stays as it is.
    pub open spec fn cleaned_up(self, flags: CleanupFlags, now: u64) -> EntryView {
        if self.content is None {
            self
        } else {
            let fitted = if flags.has(CleanupFlags(CLEANUP_SET_ALLOCATION_SIZE)) {
                self.with_content(self.content->0.adapted(self.content->0.file_size))
            } else {
                self
            };
            fitted.with_info(
                FileInfo {
                    file_attributes: if flags.has(CleanupFlags(CLEANUP_SET_ARCHIVE_BIT)) {
                        FileAttributes(fitted.info.file_attributes.0 | FILE_ATTRIBUTE_ARCHIVE)
                    } else {
                        fitted.info.file_attributes
                    },
                    last_access_time: if flags.has(CleanupFlags(CLEANUP_SET_LAST_ACCESS_TIME)) {
                        now
                    } else {
                        fitted.info.last_access_time
                    },
                    last_write_time: if flags.has(CleanupFlags(CLEANUP_SET_LAST_WRITE_TIME)) {
                        now
                    } else {
                        fitted.info.last_write_time
                    },
                    change_time: if flags.has(CleanupFlags(CLEANUP_SET_CHANGE_TIME)) {
                        now
                    } else {
                        fitted.info.change_time
                    },
                    ..fitted.info
                },
            )
        }
    }

    /// A folder made at time `now`.
    pub open spec fn new_folder(
        path: Seq<Seq<u16>>,
        security: Seq<u8>,
        attributes: FileAttributes,
        now: u64,
    ) -> EntryView {
        EntryView {
            path,
            security,
            info: FileInfo { file_attributes: attributes, ..FileInfo::zero() }.with_time(now),
            content: None,
        }
    }

    /// An empty file made at time `now` with `allocation_size` zero bytes
    /// allocated. It bears the archive attribute.
    pub open spec fn new_file(
        path: Seq<Seq<u16>>,
        security: Seq<u8>,
        attributes: FileAttributes,
        allocation_size: nat,
        now: u64,
    ) -> EntryView {
        EntryView {
            path,
            security,
            info: FileInfo {
                file_attributes: FileAttributes(attributes.0 | FILE_ATTRIBUTE_ARCHIVE),
                allocation_size: allocation_size as u64,
                ..FileInfo::zero()
            }.with_time(now),
            content: Some(ExtentView { bytes: zeros(allocation_size), file_size: 0 }),
        }
    }

    /// A new entry of the given kind.
    pub open spec fn new_entry(
        kind: EntryKind,
        path: Seq<Seq<u16>>,
        security: Seq<u8>,
        attributes: FileAttributes,
        allocation_size: nat,
        now: u64,
    ) -> EntryView {
        match kind {
            EntryKind::Folder => EntryView::new_folder(path, security, attributes, now),
            EntryKind::File => EntryView::new_file(
                path,
                security,
                attributes,
                allocation_size,
                now,
            ),
        }
    }
}

/// A folder.
#[derive(Debug)]
pub struct FolderObj {
    pub path: Path,
    pub security_descriptor: SecurityDescriptor,
    pub info: FileInfo,
}

/// A file.
#[derive(Debug)]
pub struct FileObj {
    pub path: Path,
    pub security_descriptor: SecurityDescriptor,
    pub info: FileInfo,
    pub content: ByteExtent,
}

/// An entry of the tree.
#[derive(Debug)]
pub enum Obj {
    Folder(FolderObj),
    File(FileObj),
}

impl View for FolderObj {
    type V = EntryView;

    open spec fn view(&self) -> EntryView {
        EntryView {
            path: self.path@,
            security: self.security_descriptor@,
            info: self.info,
            content: None,
        }
    }
}

impl View for FileObj {
    type V = EntryView;

    open spec fn view(&self) -> EntryView {
        EntryView {
            path: self.path@,
            security: self.security_descriptor@,
            info: self.info,
            content: Some(self.content@),
        }
    }
}

impl View for Obj {
    type V = EntryView;

    open spec fn view(&self) -> EntryView {
        match self {
            Obj::Folder(folder) => folder@,
            Obj::File(file) => file@,
        }
    }
}

impl FolderObj {
    /// A folder at `path`, made at time `now`.
    pub fn new(
        path: Path,
        attributes: FileAttributes,
        security_descriptor: SecurityDescriptor,
        now: u64,
    ) -> (folder: FolderObj)
        requires
            attributes.has(FileAttributes(FILE_ATTRIBUTE_DIRECTORY)),
        ensures
            folder@ == EntryView::new_folder(path@, security_descriptor@, attributes, now),
    {
        let info = FileInfo {
            file_attributes: attributes,
            reparse_tag: 0,
            allocation_size: 0,
            file_size: 0,
            creation_time: now,
            last_access_time: now,
            last_write_time: now,
            change_time: now,
            index_number: 0,
            hard_links: 0,
            ea_size: 0,
        };
        FolderObj { path, security_descriptor, info }
    }
}

impl FileObj {
    /// The invariant of a file, stated on its view.
    pub open spec fn wf(&self) -> bool {
        self@.wf()
    }

    /// An empty file at `path`, made at time `now`, with `allocation_size` zero
    /// bytes allocated.
    pub fn new(
        path: Path,
        attributes: FileAttributes,
        security_descriptor: SecurityDescriptor,
        allocation_size: u64,
        now: u64,
    ) -> (file: FileObj)
        requires
            !attributes.has(FileAttributes(FILE_ATTRIBUTE_DIRECTORY)),
            allocation_size <= MAX_ALLOCATION,
        ensures
            file@ == EntryView::new_file(
                path@,
                security_descriptor@,
                attributes,
                allocation_size as nat,
                now,
            ),
            path.wf() ==> file.wf(),
    {
        let info = FileInfo {
            file_attributes: FileAttributes(attributes.0 | FILE_ATTRIBUTE_ARCHIVE),
            reparse_tag: 0,
            allocation_size,
            file_size: 0,
            creation_time: now,
            last_access_time: now,
            last_write_time: now,
            change_time: now,
            index_number: 0,
            hard_links: 0,
            ea_size: 0,
        };
        let content = ByteExtent::new(allocation_size as usize);
        FileObj { path, security_descriptor, info, content }
    }

    /// Copies the sizes of the content into the metadata.
    fn record_sizes(&mut self)
        requires
            old(self).content.wf(),
        ensures
            *final(self) == (FileObj {
                info: FileInfo {
                    file_size: old(self).content@.file_size as u64,
                    allocation_size: old(self).content@.bytes.len() as u64,
                    ..old(self).info
                },
                ..*old(self)
            }),
            final(self)@ == old(self)@.with_content(old(self).content@),
    {
        self.info.file_size = self.content.file_size() as u64;
        self.info.allocation_size = self.content.allocation_size() as u64;
    }

    /// The number of bytes allocated.
    pub fn allocation_size(&self) -> (n: usize)
        requires
            self.wf(),
        ensures
            n == self.info.allocation_size,
    {
        self.content.allocation_size()
    }

    /// Sets the allocation to exactly `allocation_size` bytes.
    pub fn set_allocation_size(&mut self, allocation_size: usize)
        requires
            old(self).wf(),
            allocation_size <= MAX_ALLOCATION,
        ensures
            final(self).wf(),
            final(self)@ == old(self)@.with_content(
                old(self).content@.with_allocation(allocation_size as nat),
            ),
    {
        self.content.set_allocation_size(allocation_size);
        self.record_sizes();
    }

    /// Fits the allocation to a file of `file_size` bytes.
    pub fn adapt_allocation_size(&mut self, file_size: usize)
        requires
            old(self).wf(),
            file_size <= MAX_ALLOCATION,
        ensures
            final(self).wf(),
            final(self)@ == old(self)@.with_content(old(self).content@.adapted(file_size as nat)),
    {
        self.content.adapt_allocation_size(file_size);
        self.record_sizes();
    }

    /// Sets the logical size to `file_size`.
    pub fn set_file_size(&mut self, file_size: usize)
        requires
            old(self).wf(),
            file_size <= MAX_ALLOCATION,
        ensures
            final(self).wf(),
            final(self)@ == old(self)@.with_content(
                old(self).content@.with_file_size(file_size as nat),
            ),
    {
        self.content.set_file_size(file_size);
        self.record_sizes();
    }

    /// The bytes of the file from `offset` on, at most `length` of them.
    pub fn read(&self, offset: usize, length: usize) -> (out: &[u8])
        requires
            self.wf(),
        ensures
            out@ == self.content@.read(offset as nat, length as nat),
    {
        self.content.read(offset, length)
    }

    /// Writes all of `buffer` at `offset`, growing the file as needed.
    pub fn write(&mut self, buffer: &[u8], offset: usize) -> (written: usize)
        requires
            old(self).wf(),
            offset + buffer@.len() <= MAX_ALLOCATION,
        ensures
            final(self).wf(),
            final(self)@ == old(self)@.with_content(
                old(self).content@.written(buffer@, offset as nat),
            ),
            written == buffer@.len(),
    {
        let written = self.content.write(buffer, offset);
        self.record_sizes();
        written
    }

    /// Writes as much of `buffer` at `offset` as fits before the end of the file.
    pub fn constrained_write(&mut self, buffer: &[u8], offset: usize) -> (written: usize)
        requires
            old(self).wf(),
        ensures
            final(self).wf(),
            final(self)@ == old(self)@.with_content(
                old(self).content@.constrained_written(buffer@, offset as nat),
            ),
            final(self).info.file_size == old(self).info.file_size,
            final(self).info.allocation_size == old(self).info.allocation_size,
            written == old(self).content@.constrained_len(buffer@.len(), offset as nat),
    {
        let written = self.content.constrained_write(buffer, offset);
        self.record_sizes();
        written
    }

    /// Overwrites the file at time `now`: sets the archive attribute and those
    /// given, beside or in place of those it has, sets the allocation, and sets
    /// all times to `now`.
    pub fn overwrite(
        &mut self,
        attributes: FileAttributes,
        replace_attributes: bool,
        allocation_size: usize,
        now: u64,
    )
        requires
            old(self).wf(),
            allocation_size <= MAX_ALLOCATION,
        ensures
            final(self).wf(),
            final(self)@ == old(self)@.overwritten(
                attributes,
                replace_attributes,
                allocation_size as nat,
                now,
            ),
    {
        let bits = if replace_attributes {
            attributes.0 | FILE_ATTRIBUTE_ARCHIVE
        } else {
            attributes.0 | FILE_ATTRIBUTE_ARCHIVE | self.info.file_attributes.0
        };
        self.info.file_attributes = FileAttributes(bits);
        self.info.creation_time = now;
        self.info.last_access_time = now;
        self.info.last_write_time = now;
        self.info.change_time = now;
        self.set_allocation_size(allocation_size);
    }

    /// Does what `flags` ask for when the last handle of the file is closed at
    /// time `now`: fits the allocation to the size, sets the archive attribute,
    /// sets the times of last access, last write and last change.
    pub fn cleanup(&mut self, flags: CleanupFlags, now: u64)
        requires
            old(self).wf(),
        ensures
            final(self).wf(),
            final(self)@ == old(self)@.cleaned_up(flags, now),
    {
        if flags.is(CleanupFlags::set_allocation_size()) {
            let size = self.content.file_size();
            self.adapt_allocation_size(size);
        }
        if flags.is(CleanupFlags::set_archive_bit()) {
            self.info.file_attributes = FileAttributes(
                self.info.file_attributes.0 | FILE_ATTRIBUTE_ARCHIVE,
            );
        }
        if flags.is(CleanupFlags::set_last_access_time()) {
            self.info.last_access_time = now;
        }
        if flags.is(CleanupFlags::set_last_write_time()) {
            self.info.last_write_time = now;
        }
        if flags.is(CleanupFlags::set_change_time()) {
            self.info.change_time = now;
        }
    }

    /// Writes `buffer` as `mode` directs.
    pub fn write_in(&mut self, buffer: &[u8], mode: WriteMode) -> (written: usize)
        requires
            old(self).wf(),
            old(self).content@.write_end(buffer@.len(), mode) <= MAX_ALLOCATION,
        ensures
            final(self).wf(),
            final(self)@ == old(self)@.with_content(old(self).content@.written_in(buffer@, mode)),
            written == old(self).content@.transferred(buffer@.len(), mode),
    {
        let written = self.content.write_in(buffer, mode);
        self.record_sizes();
        written
    }
}

impl Obj {
    /// The invariant of an entry, stated on its view.
    pub open spec fn wf(&self) -> bool {
        self@.wf()
    }

    /// A new file.
    pub fn new_file(
        path: Path,
        attributes: FileAttributes,
        security_descriptor: SecurityDescriptor,
        allocation_size: u64,
        now: u64,
    ) -> (obj: Obj)
        requires
            !attributes.has(FileAttributes(FILE_ATTRIBUTE_DIRECTORY)),
            allocation_size <= MAX_ALLOCATION,
        ensures
            obj@ == EntryView::new_file(
                path@,
                security_descriptor@,
                attributes,
                allocation_size as nat,
                now,
            ),
            path.wf() ==> obj.wf(),
    {
        Obj::File(FileObj::new(path, attributes, security_descriptor, allocation_size, now))
    }

    /// A new folder.
    pub fn new_folder(
        path: Path,
        attributes: FileAttributes,
        security_descriptor: SecurityDescriptor,
        now: u64,
    ) -> (obj: Obj)
        requires
            attributes.has(FileAttributes(FILE_ATTRIBUTE_DIRECTORY)),
        ensures
            obj@ == EntryView::new_folder(path@, security_descriptor@, attributes, now),
            path.wf() ==> obj.wf(),
    {
        Obj::Folder(FolderObj::new(path, attributes, security_descriptor, now))
    }

    /// The path under which the entry is stored.
    pub fn path(&self) -> (path: &Path)
        ensures
            path@ == self@.path,
    {
        match self {
            Obj::Folder(folder) => &folder.path,
            Obj::File(file) => &file.path,
        }
    }

    /// Stores the entry under another path.
    pub fn set_path(&mut self, path: Path)
        ensures
            final(self)@ == old(self)@.with_path(path@),
    {
        match self {
            Obj::Folder(folder) => folder.path = path,
            Obj::File(file) => file.path = path,
        }
    }

    /// The metadata of the entry.
    pub fn info(&self) -> (info: FileInfo)
        ensures
            info == self@.info,
    {
        match self {
            Obj::Folder(folder) => folder.info,
            Obj::File(file) => file.info,
        }
    }

    /// Replaces the metadata of a folder, or of a file if the sizes stay.
    pub fn set_info(&mut self, info: FileInfo)
        requires
            old(self)@.is_file() ==> info.file_size == old(self)@.info.file_size
                && info.allocation_size == old(self)@.info.allocation_size,
        ensures
            final(self)@ == old(self)@.with_info(info),
            old(self).wf() ==> final(self).wf(),
    {
        match self {
            Obj::Folder(folder) => folder.info = info,
            Obj::File(file) => file.info = info,
        }
    }

    /// The security descriptor of the entry.
    pub fn security_descriptor(&self) -> (sd: &SecurityDescriptor)
        ensures
            sd@ == self@.security,
    {
        match self {
            Obj::Folder(folder) => &folder.security_descriptor,
            Obj::File(file) => &file.security_descriptor,
        }
    }

    /// Replaces the security descriptor of the entry.
    pub fn set_security_descriptor(&mut self, sd: SecurityDescriptor)
        ensures
            final(self)@ == old(self)@.with_security(sd@),
            old(self).wf() ==> final(self).wf(),
    {
        match self {
            Obj::Folder(folder) => folder.security_descriptor = sd,
            Obj::File(file) => file.security_descriptor = sd,
        }
    }

    /// The file that the entry is.
    pub fn as_file(&self) -> (file: &FileObj)
        requires
            self@.is_file(),
        ensures
            *self == Obj::File(*file),
    {
        match self {
            Obj::File(file) => file,
            Obj::Folder(_) => vstd::pervasive::unreached(),
        }
    }

    /// The file that the entry is, to be changed in place.
    pub fn as_file_mut(&mut self) -> (file: &mut FileObj)
        requires
            old(self)@.is_file(),
        ensures
            *old(self) == Obj::File(*file),
            *final(self) == Obj::File(*final(file)),
    {
        match self {
            Obj::File(file) => file,
            Obj::Folder(_) => vstd::pervasive::unreached(),
        }
    }

    /// Whether the entry is a folder.
    pub fn is_folder(&self) -> (r: bool)
        ensures
            r == self@.is_folder(),
    {
        match self {
            Obj::Folder(_) => true,
            Obj::File(_) => false,
        }
    }
}

} // verus!

//! Bit sets and choices that accompany file system requests.
//!
//! The numeric values are those of the Windows file system interface.

use vstd::prelude::*;

verus! {

/// The file may be read but not written or deleted.
pub const FILE_ATTRIBUTE_READONLY: u32 = 0x1;

/// The entry is left out of ordinary listings.
pub const FILE_ATTRIBUTE_HIDDEN: u32 = 0x2;

/// The entry belongs to the operating system.
pub const FILE_ATTRIBUTE_SYSTEM: u32 = 0x4;

/// The entry is a folder.
pub const FILE_ATTRIBUTE_DIRECTORY: u32 = 0x10;

/// The entry is marked for backup or removal.
pub const FILE_ATTRIBUTE_ARCHIVE: u32 = 0x20;

/// Reserved for system use.
pub const FILE_ATTRIBUTE_DEVICE: u32 = 0x40;

/// No other attribute is set; valid only alone.
pub const FILE_ATTRIBUTE_NORMAL: u32 = 0x80;

/// The file is used for temporary storage.
pub const FILE_ATTRIBUTE_TEMPORARY: u32 = 0x100;

/// The file is sparse.
pub const FILE_ATTRIBUTE_SPARSE_FILE: u32 = 0x200;

/// The entry has a reparse point or is a symbolic link.
pub const FILE_ATTRIBUTE_REPARSE_POINT: u32 = 0x400;

/// The entry is compressed.
pub const FILE_ATTRIBUTE_COMPRESSED: u32 = 0x800;

/// The data of the file is not available immediately.
pub const FILE_ATTRIBUTE_OFFLINE: u32 = 0x1000;

/// The entry is not to be indexed by the content indexing service.
pub const FILE_ATTRIBUTE_NOT_CONTENT_INDEXED: u32 = 0x2000;

/// The entry is encrypted.
pub const FILE_ATTRIBUTE_ENCRYPTED: u32 = 0x4000;

/// The entry is configured with integrity.
pub const FILE_ATTRIBUTE_INTEGRITY_STREAM: u32 = 0x8000;

/// Reserved for system use.
pub const FILE_ATTRIBUTE_VIRTUAL: u32 = 0x10000;

/// The data integrity scanner is to leave the entry alone.
pub const FILE_ATTRIBUTE_NO_SCRUB_DATA: u32 = 0x20000;

/// The entry has extended attributes.
pub const FILE_ATTRIBUTE_EA: u32 = 0x40000;

/// The entry is to be kept fully present locally.
pub const FILE_ATTRIBUTE_PINNED: u32 = 0x80000;

/// The entry is not to be kept fully present locally.
pub const FILE_ATTRIBUTE_UNPINNED: u32 = 0x100000;

/// The entry has no physical representation on the local system.
pub const FILE_ATTRIBUTE_RECALL_ON_OPEN: u32 = 0x40000;

/// The entry is not fully present locally.
pub const FILE_ATTRIBUTE_RECALL_ON_DATA_ACCESS: u32 = 0x400000;

/// The value that stands for no attributes at all.
pub const INVALID_FILE_ATTRIBUTES: u32 = 0xFFFFFFFF;

/// Attributes that a file or folder carries as metadata.
#[derive(Debug, Clone, Copy, PartialEq, Eq, Hash)]
pub struct FileAttributes(pub u32);

impl FileAttributes {
    /// The file may be read but not written or deleted.
    pub fn readonly() -> (r: FileAttributes)
        ensures
            r.0 == FILE_ATTRIBUTE_READONLY,
    {
        FileAttributes(FILE_ATTRIBUTE_READONLY)
    }

    /// The entry is left out of ordinary listings.
    pub fn hidden() -> (r: FileAttributes)
        ensures
            r.0 == FILE_ATTRIBUTE_HIDDEN,
    {
        FileAttributes(FILE_ATTRIBUTE_HIDDEN)
    }

    /// The entry belongs to the operating system.
    pub fn system() -> (r: FileAttributes)
        ensures
            r.0 == FILE_ATTRIBUTE_SYSTEM,
    {
        FileAttributes(FILE_ATTRIBUTE_SYSTEM)
    }

    /// The entry is a folder.
    pub fn directory() -> (r: FileAttributes)
        ensures
            r.0 == FILE_ATTRIBUTE_DIRECTORY,
    {
        FileAttributes(FILE_ATTRIBUTE_DIRECTORY)
    }

    /// The entry is marked for backup or removal.
    pub fn archive() -> (r: FileAttributes)
        ensures
            r.0 == FILE_ATTRIBUTE_ARCHIVE,
    {
        FileAttributes(FILE_ATTRIBUTE_ARCHIVE)
    }

    /// Reserved for system use.
    pub fn device() -> (r: FileAttributes)
        ensures
            r.0 == FILE_ATTRIBUTE_DEVICE,
    {
        FileAttributes(FILE_ATTRIBUTE_DEVICE)
    }

    /// No other attribute is set; valid only alone.
    pub fn normal() -> (r: FileAttributes)
        ensures
            r.0 == FILE_ATTRIBUTE_NORMAL,
    {
        FileAttributes(FILE_ATTRIBUTE_NORMAL)
    }

    /// The file is used for temporary storage.
    pub fn temporary() -> (r: FileAttributes)
        ensures
            r.0 == FILE_ATTRIBUTE_TEMPORARY,
    {
        FileAttributes(FILE_ATTRIBUTE_TEMPORARY)
    }

    /// The file is sparse.
    pub fn sparse_file() -> (r: FileAttributes)
        ensures
            r.0 == FILE_ATTRIBUTE_SPARSE_FILE,
    {
        FileAttributes(FILE_ATTRIBUTE_SPARSE_FILE)
    }

    /// The entry has a reparse point or is a symbolic link.
    pub fn reparse_point() -> (r: FileAttributes)
        ensures
            r.0 == FILE_ATTRIBUTE_REPARSE_POINT,
    {
        FileAttributes(FILE_ATTRIBUTE_REPARSE_POINT)
    }

    /// The entry is compressed.
    pub fn compressed() -> (r: FileAttributes)
        ensures
            r.0 == FILE_ATTRIBUTE_COMPRESSED,
    {
        FileAttributes(FILE_ATTRIBUTE_COMPRESSED)
    }

    /// The data of the file is not available immediately.
    pub fn offline() -> (r: FileAttributes)
        ensures
            r.0 == FILE_ATTRIBUTE_OFFLINE,
    {
        FileAttributes(FILE_ATTRIBUTE_OFFLINE)
    }

    /// The entry is not to be indexed by the content indexing service.
    pub fn not_content_indexed() -> (r: FileAttributes)
        ensures
            r.0 == FILE_ATTRIBUTE_NOT_CONTENT_INDEXED,
    {
        FileAttributes(FILE_ATTRIBUTE_NOT_CONTENT_INDEXED)
    }

    /// The entry is encrypted.
    pub fn encrypted() -> (r: FileAttributes)
        ensures
            r.0 == FILE_ATTRIBUTE_ENCRYPTED,
    {
        FileAttributes(FILE_ATTRIBUTE_ENCRYPTED)
    }

    /// The entry is configured with integrity.
    pub fn integrity_stream() -> (r: FileAttributes)
        ensures
            r.0 == FILE_ATTRIBUTE_INTEGRITY_STREAM,
    {
        FileAttributes(FILE_ATTRIBUTE_INTEGRITY_STREAM)
    }

    /// Reserved for system use.
    pub fn virtual_entry() -> (r: FileAttributes)
        ensures
            r.0 == FILE_ATTRIBUTE_VIRTUAL,
    {
        FileAttributes(FILE_ATTRIBUTE_VIRTUAL)
    }

    /// The data integrity scanner is to leave the entry alone.
    pub fn no_scrub_data() -> (r: FileAttributes)
        ensures
            r.0 == FILE_ATTRIBUTE_NO_SCRUB_DATA,
    {
        FileAttributes(FILE_ATTRIBUTE_NO_SCRUB_DATA)
    }

    /// The entry has extended attributes.
    pub fn ea() -> (r: FileAttributes)
        ensures
            r.0 == FILE_ATTRIBUTE_EA,
    {
        FileAttributes(FILE_ATTRIBUTE_EA)
    }

    /// The entry is to be kept fully present locally.
    pub fn pinned() -> (r: FileAttributes)
        ensures
            r.0 == FILE_ATTRIBUTE_PINNED,
    {
        FileAttributes(FILE_ATTRIBUTE_PINNED)
    }

    /// The entry is not to be kept fully present locally.
    pub fn unpinned() -> (r: FileAttributes)
        ensures
            r.0 == FILE_ATTRIBUTE_UNPINNED,
    {
        FileAttributes(FILE_ATTRIBUTE_UNPINNED)
    }

    /// The entry has no physical representation on the local system.
    pub fn recall_on_open() -> (r: FileAttributes)
        ensures
            r.0 == FILE_ATTRIBUTE_RECALL_ON_OPEN,
    {
        FileAttributes(FILE_ATTRIBUTE_RECALL_ON_OPEN)
    }

    /// The entry is not fully present locally.
    pub fn recall_on_data_access() -> (r: FileAttributes)
        ensures
            r.0 == FILE_ATTRIBUTE_RECALL_ON_DATA_ACCESS,
    {
        FileAttributes(FILE_ATTRIBUTE_RECALL_ON_DATA_ACCESS)
    }

    /// The value that stands for no attributes at all.
    pub fn invalid() -> (r: FileAttributes)
        ensures
            r.0 == INVALID_FILE_ATTRIBUTES,
    {
        FileAttributes(INVALID_FILE_ATTRIBUTES)
    }

    /// Whether every bit of `rhs` is set in `self`.
    pub open spec fn has(self, rhs: FileAttributes) -> bool {
        self.0 & rhs.0 == rhs.0
    }

    /// Whether every bit of `rhs` is set in `self`.
    pub fn is(self, rhs: FileAttributes) -> (r: bool)
        ensures
            r == self.has(rhs),
    {
        self.0 & rhs.0 == rhs.0
    }
}

impl core::ops::BitOr for FileAttributes {
    type Output = FileAttributes;

    fn bitor(self, rhs: FileAttributes) -> (r: FileAttributes) {
        FileAttributes(self.0 | rhs.0)
    }
}

impl vstd::std_specs::ops::BitOrSpecImpl for FileAttributes {
    open spec fn obeys_bitor_spec() -> bool {
        true
    }

    open spec fn bitor_req(self, rhs: FileAttributes) -> bool {
        true
    }

    open spec fn bitor_spec(self, rhs: FileAttributes) -> FileAttributes {
        FileAttributes(self.0 | rhs.0)
    }
}

impl core::ops::BitOrAssign for FileAttributes {
    fn bitor_assign(&mut self, rhs: FileAttributes)
        ensures
            final(self).0 == old(self).0 | rhs.0,
    {
        self.0 |= rhs.0
    }
}

/// The file being created or opened is a folder.
pub const FILE_DIRECTORY_FILE: u32 = 0x1;

/// The file being opened must not be a folder.
pub const FILE_NON_DIRECTORY_FILE: u32 = 0x40;

/// Writes must reach the file before they complete.
pub const FILE_WRITE_THROUGH: u32 = 0x2;

/// All accesses to the file are sequential.
pub const FILE_SEQUENTIAL_ONLY: u32 = 0x4;

/// Accesses to the file can be random.
pub const FILE_RANDOM_ACCESS: u32 = 0x800;

/// The file cannot be cached or buffered.
pub const FILE_NO_INTERMEDIATE_BUFFERING: u32 = 0x8;

/// Operations are synchronous; waits may end early on alerts.
pub const FILE_SYNCHRONOUS_IO_ALERT: u32 = 0x10;

/// Operations are synchronous; waits are not subject to alerts.
pub const FILE_SYNCHRONOUS_IO_NONALERT: u32 = 0x20;

/// A tree connection is created for the file.
pub const FILE_CREATE_TREE_CONNECTION: u32 = 0x80;

/// The caller does not understand extended attributes.
pub const FILE_NO_EA_KNOWLEDGE: u32 = 0x200;

/// A reparse point is opened as it is, without being followed.
pub const FILE_OPEN_REPARSE_POINT: u32 = 0x200000;

/// The file is deleted when its last handle is closed.
pub const FILE_DELETE_ON_CLOSE: u32 = 0x1000;

/// The name holds the reference number of the file.
pub const FILE_OPEN_BY_FILE_ID: u32 = 0x2000;

/// The file is opened for backup.
pub const FILE_OPEN_FOR_BACKUP_INTENT: u32 = 0x4000;

/// A filter opportunistic lock is requested.
pub const FILE_RESERVE_OPFILTER: u32 = 0x100000;

/// The file is opened and an opportunistic lock requested in one step.
pub const FILE_OPEN_REQUIRING_OPLOCK: u32 = 0x10000;

/// The operation completes at once if the file is locked opportunistically.
pub const FILE_COMPLETE_IF_OPLOCKED: u32 = 0x100;

/// Options given when a file is created or opened.
#[derive(Debug, Clone, Copy, PartialEq, Eq, Hash)]
pub struct CreateOptions(pub u32);

impl CreateOptions {
    /// The file being created or opened is a folder.
    pub fn file_directory_file() -> (r: CreateOptions)
        ensures
            r.0 == FILE_DIRECTORY_FILE,
    {
        CreateOptions(FILE_DIRECTORY_FILE)
    }

    /// The file being opened must not be a folder.
    pub fn file_non_directory_file() -> (r: CreateOptions)
        ensures
            r.0 == FILE_NON_DIRECTORY_FILE,
    {
        CreateOptions(FILE_NON_DIRECTORY_FILE)
    }

    /// Writes must reach the file before they complete.
    pub fn file_write_through() -> (r: CreateOptions)
        ensures
            r.0 == FILE_WRITE_THROUGH,
    {
        CreateOptions(FILE_WRITE_THROUGH)
    }

    /// All accesses to the file are sequential.
    pub fn file_sequential_only() -> (r: CreateOptions)
        ensures
            r.0 == FILE_SEQUENTIAL_ONLY,
    {
        CreateOptions(FILE_SEQUENTIAL_ONLY)
    }

    /// Accesses to the file can be random.
    pub fn file_random_access() -> (r: CreateOptions)
        ensures
            r.0 == FILE_RANDOM_ACCESS,
    {
        CreateOptions(FILE_RANDOM_ACCESS)
    }

    /// The file cannot be cached or buffered.
    pub fn file_no_intermediate_buffering() -> (r: CreateOptions)
        ensures
            r.0 == FILE_NO_INTERMEDIATE_BUFFERING,
    {
        CreateOptions(FILE_NO_INTERMEDIATE_BUFFERING)
    }

    /// Operations are synchronous; waits may end early on alerts.
    pub fn file_synchronous_io_alert() -> (r: CreateOptions)
        ensures
            r.0 == FILE_SYNCHRONOUS_IO_ALERT,
    {
        CreateOptions(FILE_SYNCHRONOUS_IO_ALERT)
    }

    /// Operations are synchronous; waits are not subject to alerts.
    pub fn file_synchronous_io_nonalert() -> (r: CreateOptions)
        ensures
            r.0 == FILE_SYNCHRONOUS_IO_NONALERT,
    {
        CreateOptions(FILE_SYNCHRONOUS_IO_NONALERT)
    }

    /// A tree connection is created for the file.
    pub fn file_create_tree_connection() -> (r: CreateOptions)
        ensures
            r.0 == FILE_CREATE_TREE_CONNECTION,
    {
        CreateOptions(FILE_CREATE_TREE_CONNECTION)
    }

    /// The caller does not understand extended attributes.
    pub fn file_no_ea_knowledge() -> (r: CreateOptions)
        ensures
            r.0 == FILE_NO_EA_KNOWLEDGE,
    {
        CreateOptions(FILE_NO_EA_KNOWLEDGE)
    }

    /// A reparse point is opened as it is, without being followed.
    pub fn file_open_reparse_point() -> (r: CreateOptions)
        ensures
            r.0 == FILE_OPEN_REPARSE_POINT,
    {
        CreateOptions(FILE_OPEN_REPARSE_POINT)
    }

    /// The file is deleted when its last handle is closed.
    pub fn file_delete_on_close() -> (r: CreateOptions)
        ensures
            r.0 == FILE_DELETE_ON_CLOSE,
    {
        CreateOptions(FILE_DELETE_ON_CLOSE)
    }

    /// The name holds the reference number of the file.
    pub fn file_open_by_file_id() -> (r: CreateOptions)
        ensures
            r.0 == FILE_OPEN_BY_FILE_ID,
    {
        CreateOptions(FILE_OPEN_BY_FILE_ID)
    }

    /// The file is opened for backup.
    pub fn file_open_for_backup_intent() -> (r: CreateOptions)
        ensures
            r.0 == FILE_OPEN_FOR_BACKUP_INTENT,
    {
        CreateOptions(FILE_OPEN_FOR_BACKUP_INTENT)
    }

    /// A filter opportunistic lock is requested.
    pub fn file_reserve_opfilter() -> (r: CreateOptions)
        ensures
            r.0 == FILE_RESERVE_OPFILTER,
    {
        CreateOptions(FILE_RESERVE_OPFILTER)
    }

    /// The file is opened and an opportunistic lock requested in one step.
    pub fn file_open_requiring_oplock() -> (r: CreateOptions)
        ensures
            r.0 == FILE_OPEN_REQUIRING_OPLOCK,
    {
        CreateOptions(FILE_OPEN_REQUIRING_OPLOCK)
    }

    /// The operation completes at once if the file is locked opportunistically.
    pub fn file_complete_if_oplocked() -> (r: CreateOptions)
        ensures
            r.0 == FILE_COMPLETE_IF_OPLOCKED,
    {
        CreateOptions(FILE_COMPLETE_IF_OPLOCKED)
    }

    /// Whether some bit of `rhs` is set in `self`.
    pub open spec fn has(self, rhs: CreateOptions) -> bool {
        self.0 & rhs.0 != 0
    }

    /// Whether some bit of `rhs` is set in `self`.
    pub fn is(self, rhs: CreateOptions) -> (r: bool)
        ensures
            r == self.has(rhs),
    {
        self.0 & rhs.0 != 0
    }
}

impl core::ops::BitOr for CreateOptions {
    type Output = CreateOptions;

    fn bitor(self, rhs: CreateOptions) -> (r: CreateOptions) {
        CreateOptions(self.0 | rhs.0)
    }
}

impl vstd::std_specs::ops::BitOrSpecImpl for CreateOptions {
    open spec fn obeys_bitor_spec() -> bool {
        true
    }

    open spec fn bitor_req(self, rhs: CreateOptions) -> bool {
        true
    }

    open spec fn bitor_spec(self, rhs: CreateOptions) -> CreateOptions {
        CreateOptions(self.0 | rhs.0)
    }
}

impl core::ops::BitOrAssign for CreateOptions {
    fn bitor_assign(&mut self, rhs: CreateOptions)
        ensures
            final(self).0 == old(self).0 | rhs.0,
    {
        self.0 |= rhs.0
    }
}

/// The right to read the data of a file.
pub const FILE_READ_DATA: u32 = 0x1;

/// The right to read extended attributes.
pub const FILE_READ_EA: u32 = 0x8;

/// The right to list the contents of a folder.
pub const FILE_LIST_DIRECTORY: u32 = 0x1;

/// The right to write data to a file.
pub const FILE_WRITE_DATA: u32 = 0x2;

/// The right to create a file in a folder.
pub const FILE_ADD_FILE: u32 = 0x2;

/// The right to append data to a file.
pub const FILE_APPEND_DATA: u32 = 0x4;

/// The right to create a folder in a folder.
pub const FILE_ADD_SUBDIRECTORY: u32 = 0x4;

/// The right to create a pipe.
pub const FILE_CREATE_PIPE_INSTANCE: u32 = 0x4;

/// The right to write extended attributes.
pub const FILE_WRITE_EA: u32 = 0x10;

/// The right to execute a file.
pub const FILE_EXECUTE: u32 = 0x20;

/// The right to traverse a folder.
pub const FILE_TRAVERSE: u32 = 0x20;

/// The right to delete a folder and all the files it holds.
pub const FILE_DELETE_CHILD: u32 = 0x40;

/// The right to read attributes.
pub const FILE_READ_ATTRIBUTES: u32 = 0x80;

/// The right to write attributes.
pub const FILE_WRITE_ATTRIBUTES: u32 = 0x100;

/// The right to delete the entry.
pub const ACCESS_DELETE: u32 = 0x10000;

/// The right to read the security descriptor.
pub const ACCESS_READ_CONTROL: u32 = 0x20000;

/// The right to change the access control list.
pub const ACCESS_WRITE_DAC: u32 = 0x40000;

/// The right to change the owner.
pub const ACCESS_WRITE_OWNER: u32 = 0x80000;

/// The right to wait on the handle.
pub const ACCESS_SYNCHRONIZE: u32 = 0x100000;

/// The standard rights every object requires.
pub const STANDARD_RIGHTS_REQUIRED: u32 = 0xF0000;

/// The standard rights for reading.
pub const STANDARD_RIGHTS_READ: u32 = 0x20000;

/// The standard rights for writing.
pub const STANDARD_RIGHTS_WRITE: u32 = 0x20000;

/// The standard rights for executing.
pub const STANDARD_RIGHTS_EXECUTE: u32 = 0x20000;

/// All standard rights.
pub const STANDARD_RIGHTS_ALL: u32 = 0x1F0000;

/// All rights specific to the kind of object.
pub const SPECIFIC_RIGHTS_ALL: u32 = 0xFFFF;

/// All rights a file can grant.
pub const FILE_ALL_ACCESS: u32 = 0x1F01FF;

/// The rights that reading a file takes.
pub const FILE_GENERIC_READ: u32 = 0x120089;

/// The rights that writing a file takes.
pub const FILE_GENERIC_WRITE: u32 = 0x120116;

/// The rights that executing a file takes.
pub const FILE_GENERIC_EXECUTE: u32 = 0x1200A0;

/// Rights of access to a file or folder.
#[derive(Debug, Clone, Copy, PartialEq, Eq, Hash)]
pub struct FileAccessRights(pub u32);

impl FileAccessRights {
    /// The right to read the data of a file.
    pub fn file_read_data() -> (r: FileAccessRights)
        ensures
            r.0 == FILE_READ_DATA,
    {
        FileAccessRights(FILE_READ_DATA)
    }

    /// The right to read extended attributes.
    pub fn file_read_ea() -> (r: FileAccessRights)
        ensures
            r.0 == FILE_READ_EA,
    {
        FileAccessRights(FILE_READ_EA)
    }

    /// The right to list the contents of a folder.
    pub fn file_list_directory() -> (r: FileAccessRights)
        ensures
            r.0 == FILE_LIST_DIRECTORY,
    {
        FileAccessRights(FILE_LIST_DIRECTORY)
    }

    /// The right to write data to a file.
    pub fn file_write_data() -> (r: FileAccessRights)
        ensures
            r.0 == FILE_WRITE_DATA,
    {
        FileAccessRights(FILE_WRITE_DATA)
    }

    /// The right to create a file in a folder.
    pub fn file_add_file() -> (r: FileAccessRights)
        ensures
            r.0 == FILE_ADD_FILE,
    {
        FileAccessRights(FILE_ADD_FILE)
    }

    /// The right to append data to a file.
    pub fn file_append_data() -> (r: FileAccessRights)
        ensures
            r.0 == FILE_APPEND_DATA,
    {
        FileAccessRights(FILE_APPEND_DATA)
    }

    /// The right to create a folder in a folder.
    pub fn file_add_subdirectory() -> (r: FileAccessRights)
        ensures
            r.0 == FILE_ADD_SUBDIRECTORY,
    {
        FileAccessRights(FILE_ADD_SUBDIRECTORY)
    }

    /// The right to create a pipe.
    pub fn file_create_pipe_instance() -> (r: FileAccessRights)
        ensures
            r.0 == FILE_CREATE_PIPE_INSTANCE,
    {
        FileAccessRights(FILE_CREATE_PIPE_INSTANCE)
    }

    /// The right to write extended attributes.
    pub fn file_write_ea() -> (r: FileAccessRights)
        ensures
            r.0 == FILE_WRITE_EA,
    {
        FileAccessRights(FILE_WRITE_EA)
    }

    /// The right to execute a file.
    pub fn file_execute() -> (r: FileAccessRights)
        ensures
            r.0 == FILE_EXECUTE,
    {
        FileAccessRights(FILE_EXECUTE)
    }

    /// The right to traverse a folder.
    pub fn file_traverse() -> (r: FileAccessRights)
        ensures
            r.0 == FILE_TRAVERSE,
    {
        FileAccessRights(FILE_TRAVERSE)
    }

    /// The right to delete a folder and all the files it holds.
    pub fn file_delete_child() -> (r: FileAccessRights)
        ensures
            r.0 == FILE_DELETE_CHILD,
    {
        FileAccessRights(FILE_DELETE_CHILD)
    }

    /// The right to read attributes.
    pub fn file_read_attributes() -> (r: FileAccessRights)
        ensures
            r.0 == FILE_READ_ATTRIBUTES,
    {
        FileAccessRights(FILE_READ_ATTRIBUTES)
    }

    /// The right to write attributes.
    pub fn file_write_attributes() -> (r: FileAccessRights)
        ensures
            r.0 == FILE_WRITE_ATTRIBUTES,
    {
        FileAccessRights(FILE_WRITE_ATTRIBUTES)
    }

    /// The right to delete the entry.
    pub fn delete() -> (r: FileAccessRights)
        ensures
            r.0 == ACCESS_DELETE,
    {
        FileAccessRights(ACCESS_DELETE)
    }

    /// The right to read the security descriptor.
    pub fn read_control() -> (r: FileAccessRights)
        ensures
            r.0 == ACCESS_READ_CONTROL,
    {
        FileAccessRights(ACCESS_READ_CONTROL)
    }

    /// The right to change the access control list.
    pub fn write_dac() -> (r: FileAccessRights)
        ensures
            r.0 == ACCESS_WRITE_DAC,
    {
        FileAccessRights(ACCESS_WRITE_DAC)
    }

    /// The right to change the owner.
    pub fn write_owner() -> (r: FileAccessRights)
        ensures
            r.0 == ACCESS_WRITE_OWNER,
    {
        FileAccessRights(ACCESS_WRITE_OWNER)
    }

    /// The right to wait on the handle.
    pub fn synchronize() -> (r: FileAccessRights)
        ensures
            r.0 == ACCESS_SYNCHRONIZE,
    {
        FileAccessRights(ACCESS_SYNCHRONIZE)
    }

    /// The standard rights every object requires.
    pub fn standard_rights_required() -> (r: FileAccessRights)
        ensures
            r.0 == STANDARD_RIGHTS_REQUIRED,
    {
        FileAccessRights(STANDARD_RIGHTS_REQUIRED)
    }

    /// The standard rights for reading.
    pub fn standard_rights_read() -> (r: FileAccessRights)
        ensures
            r.0 == STANDARD_RIGHTS_READ,
    {
        FileAccessRights(STANDARD_RIGHTS_READ)
    }

    /// The standard rights for writing.
    pub fn standard_rights_write() -> (r: FileAccessRights)
        ensures
            r.0 == STANDARD_RIGHTS_WRITE,
    {
        FileAccessRights(STANDARD_RIGHTS_WRITE)
    }

    /// The standard rights for executing.
    pub fn standard_rights_execute() -> (r: FileAccessRights)
        ensures
            r.0 == STANDARD_RIGHTS_EXECUTE,
    {
        FileAccessRights(STANDARD_RIGHTS_EXECUTE)
    }

    /// All standard rights.
    pub fn standard_rights_all() -> (r: FileAccessRights)
        ensures
            r.0 == STANDARD_RIGHTS_ALL,
    {
        FileAccessRights(STANDARD_RIGHTS_ALL)
    }

    /// All rights specific to the kind of object.
    pub fn specific_rights_all() -> (r: FileAccessRights)
        ensures
            r.0 == SPECIFIC_RIGHTS_ALL,
    {
        FileAccessRights(SPECIFIC_RIGHTS_ALL)
    }

    /// All rights a file can grant.
    pub fn file_all_access() -> (r: FileAccessRights)
        ensures
            r.0 == FILE_ALL_ACCESS,
    {
        FileAccessRights(FILE_ALL_ACCESS)
    }

    /// The rights that reading a file takes.
    pub fn file_generic_read() -> (r: FileAccessRights)
        ensures
            r.0 == FILE_GENERIC_READ,
    {
        FileAccessRights(FILE_GENERIC_READ)
    }

    /// The rights that writing a file takes.
    pub fn file_generic_write() -> (r: FileAccessRights)
        ensures
            r.0 == FILE_GENERIC_WRITE,
    {
        FileAccessRights(FILE_GENERIC_WRITE)
    }

    /// The rights that executing a file takes.
    pub fn file_generic_execute() -> (r: FileAccessRights)
        ensures
            r.0 == FILE_GENERIC_EXECUTE,
    {
        FileAccessRights(FILE_GENERIC_EXECUTE)
    }

    /// Whether every bit of `rhs` is set in `self`.
    pub open spec fn has(self, rhs: FileAccessRights) -> bool {
        self.0 & rhs.0 == rhs.0
    }

    /// Whether every bit of `rhs` is set in `self`.
    pub fn is(self, rhs: FileAccessRights) -> (r: bool)
        ensures
            r == self.has(rhs),
    {
        self.0 & rhs.0 == rhs.0
    }
}

impl core::ops::BitOr for FileAccessRights {
    type Output = FileAccessRights;

    fn bitor(self, rhs: FileAccessRights) -> (r: FileAccessRights) {
        FileAccessRights(self.0 | rhs.0)
    }
}

impl vstd::std_specs::ops::BitOrSpecImpl for FileAccessRights {
    open spec fn obeys_bitor_spec() -> bool {
        true
    }

    open spec fn bitor_req(self, rhs: FileAccessRights) -> bool {
        true
    }

    open spec fn bitor_spec(self, rhs: FileAccessRights) -> FileAccessRights {
        FileAccessRights(self.0 | rhs.0)
    }
}

impl core::ops::BitOrAssign for FileAccessRights {
    fn bitor_assign(&mut self, rhs: FileAccessRights)
        ensures
            final(self).0 == old(self).0 | rhs.0,
    {
        self.0 |= rhs.0
    }
}

/// The entry is to be removed.
pub const CLEANUP_DELETE: i32 = 0x1;

/// The allocation is to be fitted to the file size.
pub const CLEANUP_SET_ALLOCATION_SIZE: i32 = 0x2;

/// The archive attribute is to be set.
pub const CLEANUP_SET_ARCHIVE_BIT: i32 = 0x10;

/// The time of last access is to be set to now.
pub const CLEANUP_SET_LAST_ACCESS_TIME: i32 = 0x20;

/// The time of last write is to be set to now.
pub const CLEANUP_SET_LAST_WRITE_TIME: i32 = 0x40;

/// The time of last change is to be set to now.
pub const CLEANUP_SET_CHANGE_TIME: i32 = 0x80;

/// What is to be done to an entry when its last handle is closed.
#[derive(Debug, Clone, Copy, PartialEq, Eq, Hash)]
pub struct CleanupFlags(pub i32);

impl CleanupFlags {
    /// The entry is to be removed.
    pub fn delete() -> (r: CleanupFlags)
        ensures
            r.0 == CLEANUP_DELETE,
    {
        CleanupFlags(CLEANUP_DELETE)
    }

    /// The allocation is to be fitted to the file size.
    pub fn set_allocation_size() -> (r: CleanupFlags)
        ensures
            r.0 == CLEANUP_SET_ALLOCATION_SIZE,
    {
        CleanupFlags(CLEANUP_SET_ALLOCATION_SIZE)
    }

    /// The archive attribute is to be set.
    pub fn set_archive_bit() -> (r: CleanupFlags)
        ensures
            r.0 == CLEANUP_SET_ARCHIVE_BIT,
    {
        CleanupFlags(CLEANUP_SET_ARCHIVE_BIT)
    }

    /// The time of last access is to be set to now.
    pub fn set_last_access_time() -> (r: CleanupFlags)
        ensures
            r.0 == CLEANUP_SET_LAST_ACCESS_TIME,
    {
        CleanupFlags(CLEANUP_SET_LAST_ACCESS_TIME)
    }

    /// The time of last write is to be set to now.
    pub fn set_last_write_time() -> (r: CleanupFlags)
        ensures
            r.0 == CLEANUP_SET_LAST_WRITE_TIME,
    {
        CleanupFlags(CLEANUP_SET_LAST_WRITE_TIME)
    }

    /// The time of last change is to be set to now.
    pub fn set_change_time() -> (r: CleanupFlags)
        ensures
            r.0 == CLEANUP_SET_CHANGE_TIME,
    {
        CleanupFlags(CLEANUP_SET_CHANGE_TIME)
    }

    /// Whether some bit of `rhs` is set in `self`.
    pub open spec fn has(self, rhs: CleanupFlags) -> bool {
        self.0 & rhs.0 != 0
    }

    /// Whether some bit of `rhs` is set in `self`.
    pub fn is(self, rhs: CleanupFlags) -> (r: bool)
        ensures
            r == self.has(rhs),
    {
        self.0 & rhs.0 != 0
    }
}

impl core::ops::BitOr for CleanupFlags {
    type Output = CleanupFlags;

    fn bitor(self, rhs: CleanupFlags) -> (r: CleanupFlags) {
        CleanupFlags(self.0 | rhs.0)
    }
}

impl vstd::std_specs::ops::BitOrSpecImpl for CleanupFlags {
    open spec fn obeys_bitor_spec() -> bool {
        true
    }

    open spec fn bitor_req(self, rhs: CleanupFlags) -> bool {
        true
    }

    open spec fn bitor_spec(self, rhs: CleanupFlags) -> CleanupFlags {
        CleanupFlags(self.0 | rhs.0)
    }
}

impl core::ops::BitOrAssign for CleanupFlags {
    fn bitor_assign(&mut self, rhs: CleanupFlags)
        ensures
            final(self).0 == old(self).0 | rhs.0,
    {
        self.0 |= rhs.0
    }
}

/// No other open of the file is admitted.
pub const FILE_SHARE_NONE: u32 = 0x0;

/// Later opens may ask for delete access.
pub const FILE_SHARE_DELETE: u32 = 0x4;

/// Later opens may ask for read access.
pub const FILE_SHARE_READ: u32 = 0x1;

/// Later opens may ask for write access.
pub const FILE_SHARE_WRITE: u32 = 0x2;

/// Which kinds of access later opens of a file may ask for.
#[derive(Debug, Clone, Copy, PartialEq, Eq, Hash)]
pub struct FileShareMode(pub u32);

impl FileShareMode {
    /// No other open of the file is admitted.
    pub fn none() -> (r: FileShareMode)
        ensures
            r.0 == FILE_SHARE_NONE,
    {
        FileShareMode(FILE_SHARE_NONE)
    }

    /// Later opens may ask for delete access.
    pub fn delete() -> (r: FileShareMode)
        ensures
            r.0 == FILE_SHARE_DELETE,
    {
        FileShareMode(FILE_SHARE_DELETE)
    }

    /// Later opens may ask for read access.
    pub fn read() -> (r: FileShareMode)
        ensures
            r.0 == FILE_SHARE_READ,
    {
        FileShareMode(FILE_SHARE_READ)
    }

    /// Later opens may ask for write access.
    pub fn write() -> (r: FileShareMode)
        ensures
            r.0 == FILE_SHARE_WRITE,
    {
        FileShareMode(FILE_SHARE_WRITE)
    }

    /// Whether every bit of `rhs` is set in `self`.
    pub open spec fn has(self, rhs: FileShareMode) -> bool {
        self.0 & rhs.0 == rhs.0
    }

    /// Whether every bit of `rhs` is set in `self`.
    pub fn is(self, rhs: FileShareMode) -> (r: bool)
        ensures
            r == self.has(rhs),
    {
        self.0 & rhs.0 == rhs.0
    }
}

impl core::ops::BitOr for FileShareMode {
    type Output = FileShareMode;

    fn bitor(self, rhs: FileShareMode) -> (r: FileShareMode) {
        FileShareMode(self.0 | rhs.0)
    }
}

impl vstd::std_specs::ops::BitOrSpecImpl for FileShareMode {
    open spec fn obeys_bitor_spec() -> bool {
        true
    }

    open spec fn bitor_req(self, rhs: FileShareMode) -> bool {
        true
    }

    open spec fn bitor_spec(self, rhs: FileShareMode) -> FileShareMode {
        FileShareMode(self.0 | rhs.0)
    }
}

impl core::ops::BitOrAssign for FileShareMode {
    fn bitor_assign(&mut self, rhs: FileShareMode)
        ensures
            final(self).0 == old(self).0 | rhs.0,
    {
        self.0 |= rhs.0
    }
}

/// What to do on whether a file exists when it is opened.
#[derive(Debug, Clone, Copy, PartialEq, Eq, Hash)]
pub enum FileCreationDisposition {
    /// Create the file; fail if it exists.
    CreateNew,
    /// Create the file; overwrite it if it exists.
    CreateAlways,
    /// Open the file; fail if it does not exist.
    OpenExisting,
    /// Open the file; create it if it does not exist.
    OpenAlways,
    /// Open the file and cut it to no bytes; fail if it does not exist.
    TruncateExisting,
}

impl FileCreationDisposition {
    /// The number that stands for the choice.
    pub open spec fn spec_value(self) -> u32 {
        match self {
            FileCreationDisposition::CreateNew => 1,
            FileCreationDisposition::CreateAlways => 2,
            FileCreationDisposition::OpenExisting => 3,
            FileCreationDisposition::OpenAlways => 4,
            FileCreationDisposition::TruncateExisting => 5,
        }
    }

    /// The number that stands for the choice.
    pub fn value(self) -> (r: u32)
        ensures
            r == self.spec_value(),
    {
        match self {
            FileCreationDisposition::CreateNew => 1,
            FileCreationDisposition::CreateAlways => 2,
            FileCreationDisposition::OpenExisting => 3,
            FileCreationDisposition::OpenAlways => 4,
            FileCreationDisposition::TruncateExisting => 5,
        }
    }
}

} // verus!

//! The ways in which an operation on the store can fail.

use vstd::prelude::*;

verus! {

/// No entry bears the name.
pub const STATUS_OBJECT_NAME_NOT_FOUND: i32 = -0x3FFF_FFCC;

/// The name is taken.
pub const STATUS_OBJECT_NAME_COLLISION: i32 = -0x3FFF_FFCB;

/// A folder on the way to the name is missing.
pub const STATUS_OBJECT_PATH_NOT_FOUND: i32 = -0x3FFF_FFC6;

/// The folder is not empty.
pub const STATUS_DIRECTORY_NOT_EMPTY: i32 = -0x3FFF_FEFF;

/// The entry is a folder.
pub const STATUS_FILE_IS_A_DIRECTORY: i32 = -0x3FFF_FF46;

/// The entry is not a folder.
pub const STATUS_NOT_A_DIRECTORY: i32 = -0x3FFF_FEFD;

/// The medium is protected against writing.
pub const STATUS_MEDIA_WRITE_PROTECTED: i32 = -0x3FFF_FF5E;

/// The volume is full.
pub const STATUS_DISK_FULL: i32 = -0x3FFF_FF81;

/// The end of the file was reached.
pub const STATUS_END_OF_FILE: i32 = -0x3FFF_FFEF;

/// Access is denied.
pub const STATUS_ACCESS_DENIED: i32 = -0x3FFF_FFDE;

/// Why an operation was rejected. A rejected operation leaves the store as it was.
#[derive(Debug, Clone, Copy, PartialEq, Eq, Structural)]
pub enum FsError {
    /// The path has no entry.
    NotFound,
    /// The path is taken.
    AlreadyExists,
    /// The path of the parent has no entry.
    ParentNotFound,
    /// The folder has entries in it.
    NotEmpty,
    /// The entry is a folder where a file is needed.
    NotAFile,
    /// The entry is a file where a folder is needed.
    NotADirectory,
    /// The store does not take changes.
    ReadOnly,
    /// The store is full, or a file would outgrow the size allowed to it.
    QuotaExceeded,
    /// The offset of a read is at or past the end of the file.
    EndOfFile,
    /// The operation would replace or remove a folder that must stay.
    AccessDenied,
    /// The merge of security descriptors failed with the status given.
    SecurityMergeFailed { status: i32 },
}

impl FsError {
    /// The Windows status code that stands for the error.
    pub open spec fn spec_ntstatus(self) -> i32 {
        match self {
            FsError::NotFound => STATUS_OBJECT_NAME_NOT_FOUND,
            FsError::AlreadyExists => STATUS_OBJECT_NAME_COLLISION,
            FsError::ParentNotFound => STATUS_OBJECT_PATH_NOT_FOUND,
            FsError::NotEmpty => STATUS_DIRECTORY_NOT_EMPTY,
            FsError::NotAFile => STATUS_FILE_IS_A_DIRECTORY,
            FsError::NotADirectory => STATUS_NOT_A_DIRECTORY,
            FsError::ReadOnly => STATUS_MEDIA_WRITE_PROTECTED,
            FsError::QuotaExceeded => STATUS_DISK_FULL,
            FsError::EndOfFile => STATUS_END_OF_FILE,
            FsError::AccessDenied => STATUS_ACCESS_DENIED,
            FsError::SecurityMergeFailed { status } => status,
        }
    }

    /// The Windows status code that stands for the error.
    pub fn ntstatus(self) -> (status: i32)
        ensures
            status == self.spec_ntstatus(),
    {
        match self {
            FsError::NotFound => STATUS_OBJECT_NAME_NOT_FOUND,
            FsError::AlreadyExists => STATUS_OBJECT_NAME_COLLISION,
            FsError::ParentNotFound => STATUS_OBJECT_PATH_NOT_FOUND,
            FsError::NotEmpty => STATUS_DIRECTORY_NOT_EMPTY,
            FsError::NotAFile => STATUS_FILE_IS_A_DIRECTORY,
            FsError::NotADirectory => STATUS_NOT_A_DIRECTORY,
            FsError::ReadOnly => STATUS_MEDIA_WRITE_PROTECTED,
            FsError::QuotaExceeded => STATUS_DISK_FULL,
            FsError::EndOfFile => STATUS_END_OF_FILE,
            FsError::AccessDenied => STATUS_ACCESS_DENIED,
            FsError::SecurityMergeFailed { status } => status,
        }
    }
}

} // verus!

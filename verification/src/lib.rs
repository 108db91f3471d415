//! An in-memory hierarchical file store: a tree of folders and files addressed
//! by path, with allocation-unit-rounded file contents, cascading rename and
//! resumable directory listing.

pub mod entry;
pub mod error;
pub mod extent;
pub mod filetime;
pub mod flags;
pub mod fs;
pub mod info;
pub mod listing;
pub mod names;
pub mod path;
pub mod security;
pub mod table;
pub mod tree;
pub mod volume;

pub use crate::entry::{EntryKind, FileObj, FolderObj, Obj};
pub use crate::error::FsError;
pub use crate::extent::{ByteExtent, WriteMode, ALLOCATION_UNIT, MAX_ALLOCATION};
pub use crate::filetime::{filetime_from_utc, filetime_now, UtcTime};
pub use crate::flags::{
    CleanupFlags, CreateOptions, FileAccessRights, FileAttributes, FileCreationDisposition,
    FileShareMode,
};
pub use crate::fs::MemFs;
pub use crate::info::{CreateFileInfo, DirInfo, FileInfo, VolumeInfo, VolumeLabelNameTooLong};
pub use crate::listing::DirEntry;
pub use crate::path::Path;
pub use crate::security::SecurityDescriptor;
pub use crate::table::PathTable;
pub use crate::tree::VolumeCounters;
pub use crate::volume::{FileContextMode, OperationGuardStrategy, Params, VolumeParams};

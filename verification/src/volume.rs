//! The parameters with which a volume is mounted.

use vstd::prelude::*;

verus! {

/// The number of code units that the prefix of a volume holds.
pub const PREFIX_LEN: usize = 192;

/// The number of code units that the name of a file system holds.
pub const FILE_SYSTEM_NAME_LEN: usize = 16;

/// How a host guards the operations of a file system against each other.
#[derive(Debug, Clone, Copy, PartialEq, Eq)]
pub enum OperationGuardStrategy {
    /// Accesses to the namespace are guarded by a lock that is taken shared or
    /// exclusive; reads and writes of file content are not guarded.
    Fine,
    /// Every access is guarded by one exclusive lock.
    Coarse,
}

impl Default for OperationGuardStrategy {
    fn default() -> (r: OperationGuardStrategy)
        ensures
            r == OperationGuardStrategy::Fine,
    {
        OperationGuardStrategy::Fine
    }
}

/// What the context that a host keeps for an open file stands for.
#[derive(Debug, Clone, Copy, PartialEq, Eq)]
pub enum FileContextMode {
    /// The context stands for the file: neither context flag is set.
    Node,
    /// The context stands for one open of the file: the flag of the second
    /// user context is set.
    Descriptor,
    /// The context is the full context: the flag of the full context is set.
    Full,
}

impl Default for FileContextMode {
    fn default() -> (r: FileContextMode)
        ensures
            r == FileContextMode::Node,
    {
        FileContextMode::Node
    }
}

/// The kind of device under which a volume is mounted.
#[derive(Debug, Clone, Copy, PartialEq, Eq)]
pub enum DeviceKind {
    /// A disk: the volume has no prefix.
    Disk,
    /// A network share: the volume has a prefix.
    Net,
}

impl DeviceKind {
    /// The name of the device.
    pub fn name(self) -> (r: &'static str)
        ensures
            r@ == match self {
                DeviceKind::Disk => "WinFsp.Disk"@,
                DeviceKind::Net => "WinFsp.Net"@,
            },
    {
        match self {
            DeviceKind::Disk => "WinFsp.Disk",
            DeviceKind::Net => "WinFsp.Net",
        }
    }
}

/// A setting of a volume that is on or off.
#[derive(Debug, Clone, Copy, PartialEq, Eq)]
pub enum VolumeFlag {
    /// Names are compared with regard to case.
    CaseSensitiveSearch,
    /// Names keep the case they were given.
    CasePreservedNames,
    /// Names are stored as Unicode.
    UnicodeOnDisk,
    /// Access control lists are kept.
    PersistentAcls,
    /// A cleanup is posted only for a file that was changed.
    PostCleanupWhenModifiedOnly,
    /// The volume takes no changes.
    ReadOnlyVolume,
    /// Reparse points are supported.
    ReparsePoints,
    /// Access to reparse points is checked.
    ReparsePointsAccessCheck,
    /// Named streams are supported.
    NamedStreams,
    /// Hard links are supported.
    HardLinks,
    /// Extended attributes are supported.
    ExtendedAttributes,
    /// A file is flushed and purged on cleanup.
    FlushAndPurgeOnCleanup,
    /// The pattern of a directory query is passed on.
    PassQueryDirectoryPattern,
    /// The file name of a directory query is passed on.
    PassQueryDirectoryFileName,
    /// Reads and writes are always buffered twice.
    AlwaysUseDoubleBuffering,
    /// Device control requests are passed on.
    DeviceControl,
    /// Folders are not checked for reparse points.
    UmNoReparsePointsDirCheck,
    /// Files may be opened from kernel mode.
    AllowOpenInKernelMode,
    /// The names of extended attributes keep their case.
    CasePreservedExtendedAttributes,
    /// The features that the Linux subsystem needs are supported.
    WslFeatures,
    /// The marker of a listing is the next offset.
    DirectoryMarkerAsNextOffset,
    /// Unlink and rename in the manner of POSIX are supported.
    SupportsPosixUnlinkRename,
    /// A disposition is posted only when necessary.
    PostDispositionWhenNecessaryOnly,
    /// The context of an open file is the full context.
    UmFileContextIsFullContext,
    /// The context of an open file is the second user context.
    UmFileContextIsUserContext2,
}

impl VolumeFlag {
    /// The bit that stands for the setting in the flags of the parameters.
    pub open spec fn spec_mask(self) -> u32 {
        match self {
            VolumeFlag::CaseSensitiveSearch => 0x1,
            VolumeFlag::CasePreservedNames => 0x2,
            VolumeFlag::UnicodeOnDisk => 0x4,
            VolumeFlag::PersistentAcls => 0x8,
            VolumeFlag::PostCleanupWhenModifiedOnly => 0x10,
            VolumeFlag::ReadOnlyVolume => 0x20,
            VolumeFlag::ReparsePoints => 0x40,
            VolumeFlag::ReparsePointsAccessCheck => 0x80,
            VolumeFlag::NamedStreams => 0x100,
            VolumeFlag::HardLinks => 0x200,
            VolumeFlag::ExtendedAttributes => 0x400,
            VolumeFlag::FlushAndPurgeOnCleanup => 0x800,
            VolumeFlag::PassQueryDirectoryPattern => 0x1000,
            VolumeFlag::PassQueryDirectoryFileName => 0x2000,
            VolumeFlag::AlwaysUseDoubleBuffering => 0x4000,
            VolumeFlag::DeviceControl => 0x8000,
            VolumeFlag::UmNoReparsePointsDirCheck => 0x10000,
            VolumeFlag::AllowOpenInKernelMode => 0x20000,
            VolumeFlag::CasePreservedExtendedAttributes => 0x40000,
            VolumeFlag::WslFeatures => 0x80000,
            VolumeFlag::DirectoryMarkerAsNextOffset => 0x100000,
            VolumeFlag::SupportsPosixUnlinkRename => 0x200000,
            VolumeFlag::PostDispositionWhenNecessaryOnly => 0x400000,
            VolumeFlag::UmFileContextIsFullContext => 0x800000,
            VolumeFlag::UmFileContextIsUserContext2 => 0x1000000,
        }
    }

    /// The bit that stands for the setting in the flags of the parameters.
    pub fn mask(self) -> (r: u32)
        ensures
            r == self.spec_mask(),
    {
        match self {
            VolumeFlag::CaseSensitiveSearch => 0x1,
            VolumeFlag::CasePreservedNames => 0x2,
            VolumeFlag::UnicodeOnDisk => 0x4,
            VolumeFlag::PersistentAcls => 0x8,
            VolumeFlag::PostCleanupWhenModifiedOnly => 0x10,
            VolumeFlag::ReadOnlyVolume => 0x20,
            VolumeFlag::ReparsePoints => 0x40,
            VolumeFlag::ReparsePointsAccessCheck => 0x80,
            VolumeFlag::NamedStreams => 0x100,
            VolumeFlag::HardLinks => 0x200,
            VolumeFlag::ExtendedAttributes => 0x400,
            VolumeFlag::FlushAndPurgeOnCleanup => 0x800,
            VolumeFlag::PassQueryDirectoryPattern => 0x1000,
            VolumeFlag::PassQueryDirectoryFileName => 0x2000,
            VolumeFlag::AlwaysUseDoubleBuffering => 0x4000,
            VolumeFlag::DeviceControl => 0x8000,
            VolumeFlag::UmNoReparsePointsDirCheck => 0x10000,
            VolumeFlag::AllowOpenInKernelMode => 0x20000,
            VolumeFlag::CasePreservedExtendedAttributes => 0x40000,
            VolumeFlag::WslFeatures => 0x80000,
            VolumeFlag::DirectoryMarkerAsNextOffset => 0x100000,
            VolumeFlag::SupportsPosixUnlinkRename => 0x200000,
            VolumeFlag::PostDispositionWhenNecessaryOnly => 0x400000,
            VolumeFlag::UmFileContextIsFullContext => 0x800000,
            VolumeFlag::UmFileContextIsUserContext2 => 0x1000000,
        }
    }
}

/// `flags` with the bits of `mask` set, if `val`, or cleared.
pub open spec fn with_bits(flags: u32, mask: u32, val: bool) -> u32 {
    if val {
        flags | mask
    } else {
        flags & !mask
    }
}

/// `base` with `patch` laid over its front.
pub open spec fn overlay_units(base: Seq<u16>, patch: Seq<u16>) -> Seq<u16> {
    Seq::new(
        base.len(),
        |i: int|
            if i < patch.len() {
                patch[i]
            } else {
                base[i]
            },
    )
}

/// `val` cut to at most `len` code units.
pub open spec fn cut(val: Seq<u16>, len: int) -> Seq<u16> {
    if val.len() > len {
        val.subrange(0, len)
    } else {
        val
    }
}

/// The parameters of a volume.
#[derive(Debug, PartialEq, Eq)]
pub struct VolumeParams {
    /// The settings that are on, one bit for each.
    pub flags: u32,
    /// The version of the parameters.
    pub version: u16,
    /// The size of a sector in bytes.
    pub sector_size: u16,
    /// The greatest length of a name.
    pub max_component_length: u16,
    /// The sectors in one allocation unit.
    pub sectors_per_allocation_unit: u16,
    /// The time at which the volume was made.
    pub volume_creation_time: u64,
    /// The serial number of the volume.
    pub volume_serial_number: u32,
    /// The time allowed to a transaction, in milliseconds.
    pub transact_timeout: u32,
    /// The time allowed to a request, in milliseconds.
    pub irp_timeout: u32,
    /// The number of requests that may wait.
    pub irp_capacity: u32,
    /// The time for which metadata may be cached, in milliseconds.
    pub file_info_timeout: u32,
    /// The time for which the volume record may be cached.
    pub volume_info_timeout: u32,
    /// The time for which listings may be cached.
    pub dir_info_timeout: u32,
    /// The time for which security descriptors may be cached.
    pub security_timeout: u32,
    /// The time for which stream records may be cached.
    pub stream_info_timeout: u32,
    /// The time for which extended attributes may be cached.
    pub ea_timeout: u32,
    /// The control code of a file system extension.
    pub fsext_control_code: u32,
    /// The prefix: 192 code units, of which those before the first zero count.
    pub prefix: Vec<u16>,
    /// The name of the file system: 16 code units.
    pub file_system_name: Vec<u16>,
}

impl Default for VolumeParams {
    fn default() -> (r: VolumeParams)
        ensures
            r.wf(),
            r.flags == 0,
            r.version == 0,
            r.sector_size == 0,
            r.max_component_length == 0,
            r.sectors_per_allocation_unit == 0,
            r.volume_creation_time == 0,
            r.volume_serial_number == 0,
            r.transact_timeout == 0,
            r.irp_timeout == 0,
            r.irp_capacity == 0,
            r.file_info_timeout == 0,
            r.volume_info_timeout == 0,
            r.dir_info_timeout == 0,
            r.security_timeout == 0,
            r.stream_info_timeout == 0,
            r.ea_timeout == 0,
            r.fsext_control_code == 0,
            r.prefix@ == Seq::new(PREFIX_LEN as nat, |i: int| 0u16),
            r.file_system_name@ == Seq::new(FILE_SYSTEM_NAME_LEN as nat, |i: int| 0u16),
    {
        let mut prefix: Vec<u16> = Vec::new();
        prefix.resize(PREFIX_LEN, 0u16);
        let mut file_system_name: Vec<u16> = Vec::new();
        file_system_name.resize(FILE_SYSTEM_NAME_LEN, 0u16);
        assert(prefix@ =~= Seq::new(PREFIX_LEN as nat, |i: int| 0u16));
        assert(file_system_name@ =~= Seq::new(FILE_SYSTEM_NAME_LEN as nat, |i: int| 0u16));
        VolumeParams {
            flags: 0,
            version: 0,
            sector_size: 0,
            max_component_length: 0,
            sectors_per_allocation_unit: 0,
            volume_creation_time: 0,
            volume_serial_number: 0,
            transact_timeout: 0,
            irp_timeout: 0,
            irp_capacity: 0,
            file_info_timeout: 0,
            volume_info_timeout: 0,
            dir_info_timeout: 0,
            security_timeout: 0,
            stream_info_timeout: 0,
            ea_timeout: 0,
            fsext_control_code: 0,
            prefix,
            file_system_name,
        }
    }
}

/// Copies the first `count` code units of `val` to the front of `buffer`.
fn copy_units(buffer: &mut Vec<u16>, val: &[u16], count: usize)
    requires
        count <= val@.len(),
        count <= old(buffer)@.len(),
    ensures
        final(buffer)@ == overlay_units(old(buffer)@, val@.subrange(0, count as int)),
{
    let mut i: usize = 0;
    while i < count
        invariant
            i <= count <= val@.len(),
            count <= buffer@.len() == old(buffer)@.len(),
            forall|j: int|
                0 <= j < buffer@.len() ==> buffer@[j] == if j < i {
                    val@[j]
                } else {
                    old(buffer)@[j]
                },
        decreases count - i,
    {
        buffer[i] = val[i];
        i += 1;
    }
    assert(buffer@ =~= overlay_units(old(buffer)@, val@.subrange(0, count as int)));
}

impl VolumeParams {
    /// The two fixed buffers have their lengths.
    pub open spec fn wf(&self) -> bool {
        self.prefix@.len() == PREFIX_LEN && self.file_system_name@.len() == FILE_SYSTEM_NAME_LEN
    }

    /// Whether the setting `flag` is on.
    pub open spec fn has(&self, flag: VolumeFlag) -> bool {
        self.flags & flag.spec_mask() != 0
    }

    /// Whether the setting `flag` is on.
    pub fn is(&self, flag: VolumeFlag) -> (r: bool)
        ensures
            r == self.has(flag),
    {
        self.flags & flag.mask() != 0
    }

    /// Turns the setting `flag` on or off.
    pub fn set_flag(&mut self, flag: VolumeFlag, val: bool) -> (r: &mut Self)
        ensures
            *r == (VolumeParams {
                flags: with_bits(old(self).flags, flag.spec_mask(), val),
                ..*old(self)
            }),
            *final(self) == *final(r),
    {
        let mask = flag.mask();
        if val {
            self.flags = self.flags | mask;
        } else {
            self.flags = self.flags & !mask;
        }
        self
    }

    /// The kind of device under which the volume is mounted: a disk if the
    /// prefix is empty, a network share if it is not.
    pub fn device_path(&self) -> (r: DeviceKind)
        requires
            self.wf(),
        ensures
            r == if self.prefix@[0] == 0 {
                DeviceKind::Disk
            } else {
                DeviceKind::Net
            },
    {
        if self.prefix[0] == 0 {
            DeviceKind::Disk
        } else {
            DeviceKind::Net
        }
    }

    /// Sets the two context flags as `mode` asks.
    pub fn set_file_context_mode(&mut self, mode: FileContextMode) -> (r: &mut Self)
        ensures
            *r == (VolumeParams {
                flags: with_bits(
                    with_bits(
                        old(self).flags,
                        VolumeFlag::UmFileContextIsFullContext.spec_mask(),
                        mode == FileContextMode::Full,
                    ),
                    VolumeFlag::UmFileContextIsUserContext2.spec_mask(),
                    mode == FileContextMode::Descriptor,
                ),
                ..*old(self)
            }),
            *final(self) == *final(r),
    {
        match mode {
            FileContextMode::Node => {
                self.set_flag(VolumeFlag::UmFileContextIsFullContext, false).set_flag(
                    VolumeFlag::UmFileContextIsUserContext2,
                    false,
                );
            },
            FileContextMode::Descriptor => {
                self.set_flag(VolumeFlag::UmFileContextIsFullContext, false).set_flag(
                    VolumeFlag::UmFileContextIsUserContext2,
                    true,
                );
            },
            FileContextMode::Full => {
                self.set_flag(VolumeFlag::UmFileContextIsFullContext, true).set_flag(
                    VolumeFlag::UmFileContextIsUserContext2,
                    false,
                );
            },
        }
        self
    }

    pub fn set_case_sensitive_search(&mut self, val: bool) -> (r: &mut Self)
        ensures
            *r == (VolumeParams {
                flags: with_bits(
                    old(self).flags,
                    VolumeFlag::CaseSensitiveSearch.spec_mask(),
                    val,
                ),
                ..*old(self)
            }),
            *final(self) == *final(r),
    {
        self.set_flag(VolumeFlag::CaseSensitiveSearch, val)
    }

    pub fn set_case_preserved_names(&mut self, val: bool) -> (r: &mut Self)
        ensures
            *r == (VolumeParams {
                flags: with_bits(
                    old(self).flags,
                    VolumeFlag::CasePreservedNames.spec_mask(),
                    val,
                ),
                ..*old(self)
            }),
            *final(self) == *final(r),
    {
        self.set_flag(VolumeFlag::CasePreservedNames, val)
    }

    pub fn set_unicode_on_disk(&mut self, val: bool) -> (r: &mut Self)
        ensures
            *r == (VolumeParams {
                flags: with_bits(
                    old(self).flags,
                    VolumeFlag::UnicodeOnDisk.spec_mask(),
                    val,
                ),
                ..*old(self)
            }),
            *final(self) == *final(r),
    {
        self.set_flag(VolumeFlag::UnicodeOnDisk, val)
    }

    pub fn set_persistent_acls(&mut self, val: bool) -> (r: &mut Self)
        ensures
            *r == (VolumeParams {
                flags: with_bits(
                    old(self).flags,
                    VolumeFlag::PersistentAcls.spec_mask(),
                    val,
                ),
                ..*old(self)
            }),
            *final(self) == *final(r),
    {
        self.set_flag(VolumeFlag::PersistentAcls, val)
    }

    pub fn set_post_cleanup_when_modified_only(&mut self, val: bool) -> (r: &mut Self)
        ensures
            *r == (VolumeParams {
                flags: with_bits(
                    old(self).flags,
                    VolumeFlag::PostCleanupWhenModifiedOnly.spec_mask(),
                    val,
                ),
                ..*old(self)
            }),
            *final(self) == *final(r),
    {
        self.set_flag(VolumeFlag::PostCleanupWhenModifiedOnly, val)
    }

    pub fn set_read_only_volume(&mut self, val: bool) -> (r: &mut Self)
        ensures
            *r == (VolumeParams {
                flags: with_bits(
                    old(self).flags,
                    VolumeFlag::ReadOnlyVolume.spec_mask(),
                    val,
                ),
                ..*old(self)
            }),
            *final(self) == *final(r),
    {
        self.set_flag(VolumeFlag::ReadOnlyVolume, val)
    }

    pub fn set_reparse_point(&mut self, val: bool) -> (r: &mut Self)
        ensures
            *r == (VolumeParams {
                flags: with_bits(
                    old(self).flags,
                    VolumeFlag::ReparsePoints.spec_mask(),
                    val,
                ),
                ..*old(self)
            }),
            *final(self) == *final(r),
    {
        self.set_flag(VolumeFlag::ReparsePoints, val)
    }

    pub fn set_reparse_point_access_check(&mut self, val: bool) -> (r: &mut Self)
        ensures
            *r == (VolumeParams {
                flags: with_bits(
                    old(self).flags,
                    VolumeFlag::ReparsePointsAccessCheck.spec_mask(),
                    val,
                ),
                ..*old(self)
            }),
            *final(self) == *final(r),
    {
        self.set_flag(VolumeFlag::ReparsePointsAccessCheck, val)
    }

    pub fn set_named_streams(&mut self, val: bool) -> (r: &mut Self)
        ensures
            *r == (VolumeParams {
                flags: with_bits(
                    old(self).flags,
                    VolumeFlag::NamedStreams.spec_mask(),
                    val,
                ),
                ..*old(self)
            }),
            *final(self) == *final(r),
    {
        self.set_flag(VolumeFlag::NamedStreams, val)
    }

    pub fn set_hard_links(&mut self, val: bool) -> (r: &mut Self)
        ensures
            *r == (VolumeParams {
                flags: with_bits(
                    old(self).flags,
                    VolumeFlag::HardLinks.spec_mask(),
                    val,
                ),
                ..*old(self)
            }),
            *final(self) == *final(r),
    {
        self.set_flag(VolumeFlag::HardLinks, val)
    }

    pub fn set_extended_attributes(&mut self, val: bool) -> (r: &mut Self)
        ensures
            *r == (VolumeParams {
                flags: with_bits(
                    old(self).flags,
                    VolumeFlag::ExtendedAttributes.spec_mask(),
                    val,
                ),
                ..*old(self)
            }),
            *final(self) == *final(r),
    {
        self.set_flag(VolumeFlag::ExtendedAttributes, val)
    }

    pub fn set_flush_and_purge_on_cleanup(&mut self, val: bool) -> (r: &mut Self)
        ensures
            *r == (VolumeParams {
                flags: with_bits(
                    old(self).flags,
                    VolumeFlag::FlushAndPurgeOnCleanup.spec_mask(),
                    val,
                ),
                ..*old(self)
            }),
            *final(self) == *final(r),
    {
        self.set_flag(VolumeFlag::FlushAndPurgeOnCleanup, val)
    }

    pub fn set_pass_query_directory_pattern(&mut self, val: bool) -> (r: &mut Self)
        ensures
            *r == (VolumeParams {
                flags: with_bits(
                    old(self).flags,
                    VolumeFlag::PassQueryDirectoryPattern.spec_mask(),
                    val,
                ),
                ..*old(self)
            }),
            *final(self) == *final(r),
    {
        self.set_flag(VolumeFlag::PassQueryDirectoryPattern, val)
    }

    pub fn set_pass_query_directory_filename(&mut self, val: bool) -> (r: &mut Self)
        ensures
            *r == (VolumeParams {
                flags: with_bits(
                    old(self).flags,
                    VolumeFlag::PassQueryDirectoryFileName.spec_mask(),
                    val,
                ),
                ..*old(self)
            }),
            *final(self) == *final(r),
    {
        self.set_flag(VolumeFlag::PassQueryDirectoryFileName, val)
    }

    pub fn set_always_use_double_buffering(&mut self, val: bool) -> (r: &mut Self)
        ensures
            *r == (VolumeParams {
                flags: with_bits(
                    old(self).flags,
                    VolumeFlag::AlwaysUseDoubleBuffering.spec_mask(),
                    val,
                ),
                ..*old(self)
            }),
            *final(self) == *final(r),
    {
        self.set_flag(VolumeFlag::AlwaysUseDoubleBuffering, val)
    }

    pub fn set_device_control(&mut self, val: bool) -> (r: &mut Self)
        ensures
            *r == (VolumeParams {
                flags: with_bits(
                    old(self).flags,
                    VolumeFlag::DeviceControl.spec_mask(),
                    val,
                ),
                ..*old(self)
            }),
            *final(self) == *final(r),
    {
        self.set_flag(VolumeFlag::DeviceControl, val)
    }

    pub fn set_no_reparse_points_dir_check(&mut self, val: bool) -> (r: &mut Self)
        ensures
            *r == (VolumeParams {
                flags: with_bits(
                    old(self).flags,
                    VolumeFlag::UmNoReparsePointsDirCheck.spec_mask(),
                    val,
                ),
                ..*old(self)
            }),
            *final(self) == *final(r),
    {
        self.set_flag(VolumeFlag::UmNoReparsePointsDirCheck, val)
    }

    pub fn set_allow_open_in_kernel_mode(&mut self, val: bool) -> (r: &mut Self)
        ensures
            *r == (VolumeParams {
                flags: with_bits(
                    old(self).flags,
                    VolumeFlag::AllowOpenInKernelMode.spec_mask(),
                    val,
                ),
                ..*old(self)
            }),
            *final(self) == *final(r),
    {
        self.set_flag(VolumeFlag::AllowOpenInKernelMode, val)
    }

    pub fn set_case_preseve_extended_attributes(&mut self, val: bool) -> (r: &mut Self)
        ensures
            *r == (VolumeParams {
                flags: with_bits(
                    old(self).flags,
                    VolumeFlag::CasePreservedExtendedAttributes.spec_mask(),
                    val,
                ),
                ..*old(self)
            }),
            *final(self) == *final(r),
    {
        self.set_flag(VolumeFlag::CasePreservedExtendedAttributes, val)
    }

    pub fn set_wsl_features(&mut self, val: bool) -> (r: &mut Self)
        ensures
            *r == (VolumeParams {
                flags: with_bits(
                    old(self).flags,
                    VolumeFlag::WslFeatures.spec_mask(),
                    val,
                ),
                ..*old(self)
            }),
            *final(self) == *final(r),
    {
        self.set_flag(VolumeFlag::WslFeatures, val)
    }

    pub fn set_directory_marker_as_next_offset(&mut self, val: bool) -> (r: &mut Self)
        ensures
            *r == (VolumeParams {
                flags: with_bits(
                    old(self).flags,
                    VolumeFlag::DirectoryMarkerAsNextOffset.spec_mask(),
                    val,
                ),
                ..*old(self)
            }),
            *final(self) == *final(r),
    {
        self.set_flag(VolumeFlag::DirectoryMarkerAsNextOffset, val)
    }

    pub fn set_supports_posix_unlink_rename(&mut self, val: bool) -> (r: &mut Self)
        ensures
            *r == (VolumeParams {
                flags: with_bits(
                    old(self).flags,
                    VolumeFlag::SupportsPosixUnlinkRename.spec_mask(),
                    val,
                ),
                ..*old(self)
            }),
            *final(self) == *final(r),
    {
        self.set_flag(VolumeFlag::SupportsPosixUnlinkRename, val)
    }

    pub fn set_post_disposition_only_when_necessary(&mut self, val: bool) -> (r: &mut Self)
        ensures
            *r == (VolumeParams {
                flags: with_bits(
                    old(self).flags,
                    VolumeFlag::PostDispositionWhenNecessaryOnly.spec_mask(),
                    val,
                ),
                ..*old(self)
            }),
            *final(self) == *final(r),
    {
        self.set_flag(VolumeFlag::PostDispositionWhenNecessaryOnly, val)
    }

    pub fn set_version(&mut self, val: u16) -> (r: &mut Self)
        ensures
            *r == (VolumeParams { version: val, ..*old(self) }),
            *final(self) == *final(r),
    {
        self.version = val;
        self
    }

    pub fn set_sector_size(&mut self, val: u16) -> (r: &mut Self)
        ensures
            *r == (VolumeParams { sector_size: val, ..*old(self) }),
            *final(self) == *final(r),
    {
        self.sector_size = val;
        self
    }

    pub fn set_max_component_length(&mut self, val: u16) -> (r: &mut Self)
        ensures
            *r == (VolumeParams { max_component_length: val, ..*old(self) }),
            *final(self) == *final(r),
    {
        self.max_component_length = val;
        self
    }

    pub fn set_sectors_per_allocation_unit(&mut self, val: u16) -> (r: &mut Self)
        ensures
            *r == (VolumeParams { sectors_per_allocation_unit: val, ..*old(self) }),
            *final(self) == *final(r),
    {
        self.sectors_per_allocation_unit = val;
        self
    }

    pub fn set_volume_creation_time(&mut self, val: u64) -> (r: &mut Self)
        ensures
            *r == (VolumeParams { volume_creation_time: val, ..*old(self) }),
            *final(self) == *final(r),
    {
        self.volume_creation_time = val;
        self
    }

    pub fn set_volume_serial_number(&mut self, val: u32) -> (r: &mut Self)
        ensures
            *r == (VolumeParams { volume_serial_number: val, ..*old(self) }),
            *final(self) == *final(r),
    {
        self.volume_serial_number = val;
        self
    }

    pub fn set_transact_timeout(&mut self, val: u32) -> (r: &mut Self)
        ensures
            *r == (VolumeParams { transact_timeout: val, ..*old(self) }),
            *final(self) == *final(r),
    {
        self.transact_timeout = val;
        self
    }

    pub fn set_irp_timeout(&mut self, val: u32) -> (r: &mut Self)
        ensures
            *r == (VolumeParams { irp_timeout: val, ..*old(self) }),
            *final(self) == *final(r),
    {
        self.irp_timeout = val;
        self
    }

    pub fn set_irp_capacity(&mut self, val: u32) -> (r: &mut Self)
        ensures
            *r == (VolumeParams { irp_capacity: val, ..*old(self) }),
            *final(self) == *final(r),
    {
        self.irp_capacity = val;
        self
    }

    pub fn set_file_info_timeout(&mut self, val: u32) -> (r: &mut Self)
        ensures
            *r == (VolumeParams { file_info_timeout: val, ..*old(self) }),
            *final(self) == *final(r),
    {
        self.file_info_timeout = val;
        self
    }

    pub fn set_volume_info_timeout(&mut self, val: u32) -> (r: &mut Self)
        ensures
            *r == (VolumeParams { volume_info_timeout: val, ..*old(self) }),
            *final(self) == *final(r),
    {
        self.volume_info_timeout = val;
        self
    }

    pub fn set_dir_info_timeout(&mut self, val: u32) -> (r: &mut Self)
        ensures
            *r == (VolumeParams { dir_info_timeout: val, ..*old(self) }),
            *final(self) == *final(r),
    {
        self.dir_info_timeout = val;
        self
    }

    pub fn set_security_timeout(&mut self, val: u32) -> (r: &mut Self)
        ensures
            *r == (VolumeParams { security_timeout: val, ..*old(self) }),
            *final(self) == *final(r),
    {
        self.security_timeout = val;
        self
    }

    pub fn set_stream_info_timeout(&mut self, val: u32) -> (r: &mut Self)
        ensures
            *r == (VolumeParams { stream_info_timeout: val, ..*old(self) }),
            *final(self) == *final(r),
    {
        self.stream_info_timeout = val;
        self
    }

    pub fn set_ea_timeout(&mut self, val: u32) -> (r: &mut Self)
        ensures
            *r == (VolumeParams { ea_timeout: val, ..*old(self) }),
            *final(self) == *final(r),
    {
        self.ea_timeout = val;
        self
    }

    pub fn set_fsext_control_code(&mut self, val: u32) -> (r: &mut Self)
        ensures
            *r == (VolumeParams { fsext_control_code: val, ..*old(self) }),
            *final(self) == *final(r),
    {
        self.fsext_control_code = val;
        self
    }

    /// Writes `val` over the front of the prefix. A value that is too long is
    /// cut to the length of the buffer, and the answer is an error.
    pub fn set_prefix(&mut self, val: &[u16]) -> (r: Result<&mut Self, &mut Self>)
        requires
            old(self).wf(),
        ensures
            r is Ok <==> val@.len() <= PREFIX_LEN,
            ({
                let p = match r {
                    Ok(p) => p,
                    Err(p) => p,
                };
                &&& p.wf()
                &&& p.prefix@ == overlay_units(old(self).prefix@, cut(val@, PREFIX_LEN as int))
                &&& *p == (VolumeParams { prefix: p.prefix, ..*old(self) })
                &&& *final(self) == *final(p)
            }),
    {
        if val.len() > PREFIX_LEN {
            copy_units(&mut self.prefix, val, PREFIX_LEN);
            Err(self)
        } else {
            copy_units(&mut self.prefix, val, val.len());
            assert(val@.subrange(0, val@.len() as int) =~= val@);
            Ok(self)
        }
    }

    /// Writes `val` over the front of the name of the file system. A value
    /// that is too long is cut to the length of the buffer, and the answer is
    /// an error.
    pub fn set_file_system_name(&mut self, val: &[u16]) -> (r: Result<&mut Self, &mut Self>)
        requires
            old(self).wf(),
        ensures
            r is Ok <==> val@.len() <= FILE_SYSTEM_NAME_LEN,
            ({
                let p = match r {
                    Ok(p) => p,
                    Err(p) => p,
                };
                &&& p.wf()
                &&& p.file_system_name@ == overlay_units(
                    old(self).file_system_name@,
                    cut(val@, FILE_SYSTEM_NAME_LEN as int),
                )
                &&& *p == (VolumeParams { file_system_name: p.file_system_name, ..*old(self) })
                &&& *final(self) == *final(p)
            }),
    {
        if val.len() > FILE_SYSTEM_NAME_LEN {
            copy_units(&mut self.file_system_name, val, FILE_SYSTEM_NAME_LEN);
            Err(self)
        } else {
            copy_units(&mut self.file_system_name, val, val.len());
            assert(val@.subrange(0, val@.len() as int) =~= val@);
            Ok(self)
        }
    }
}

/// The parameters with which a file system is started.
#[derive(Debug, PartialEq, Eq)]
pub struct Params {
    pub volume_params: VolumeParams,
    pub guard_strategy: OperationGuardStrategy,
}

impl Default for Params {
    fn default() -> (r: Params)
        ensures
            r.volume_params.wf(),
            r.volume_params.flags == 0,
            r.guard_strategy == OperationGuardStrategy::Fine,
    {
        Params { volume_params: VolumeParams::default(), guard_strategy: OperationGuardStrategy::Fine }
    }
}

} // verus!

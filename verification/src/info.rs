//! Metadata records: of an entry, of the volume, of a create request and of a
//! line of a directory listing.

use crate::flags::{CreateOptions, FileAccessRights, FileAttributes, INVALID_FILE_ATTRIBUTES};
use crate::names::MAX_NAME_LENGTH;
use crate::path::{encode_utf16, utf16_units};
use vstd::prelude::*;

verus! {

/// The metadata of a file or folder. Times are counted in units of 100
/// nanoseconds since the first day of the year 1601.
#[derive(Debug, Clone, Copy, PartialEq, Eq)]
pub struct FileInfo {
    pub file_attributes: FileAttributes,
    pub reparse_tag: u32,
    pub allocation_size: u64,
    pub file_size: u64,
    pub creation_time: u64,
    pub last_access_time: u64,
    pub last_write_time: u64,
    pub change_time: u64,
    pub index_number: u64,
    pub hard_links: u32,
    pub ea_size: u32,
}

impl FileInfo {
    /// The record in which every number is zero.
    pub open spec fn zero() -> FileInfo {
        FileInfo {
            file_attributes: FileAttributes(0),
            reparse_tag: 0,
            allocation_size: 0,
            file_size: 0,
            creation_time: 0,
            last_access_time: 0,
            last_write_time: 0,
            change_time: 0,
            index_number: 0,
            hard_links: 0,
            ea_size: 0,
        }
    }

    /// This record with all four times set to `val`.
    pub open spec fn with_time(self, val: u64) -> FileInfo {
        FileInfo {
            creation_time: val,
            last_access_time: val,
            last_write_time: val,
            change_time: val,
            ..self
        }
    }

    /// This record after a request to set the attributes, unless they are the
    /// invalid value, and each of the four times, unless it is zero.
    pub open spec fn with_basic_info(
        self,
        file_attributes: FileAttributes,
        creation_time: u64,
        last_access_time: u64,
        last_write_time: u64,
        change_time: u64,
    ) -> FileInfo {
        FileInfo {
            file_attributes: if file_attributes.has(FileAttributes(INVALID_FILE_ATTRIBUTES)) {
                self.file_attributes
            } else {
                file_attributes
            },
            creation_time: if creation_time != 0 {
                creation_time
            } else {
                self.creation_time
            },
            last_access_time: if last_access_time != 0 {
                last_access_time
            } else {
                self.last_access_time
            },
            last_write_time: if last_write_time != 0 {
                last_write_time
            } else {
                self.last_write_time
            },
            change_time: if change_time != 0 {
                change_time
            } else {
                self.change_time
            },
            ..self
        }
    }

    /// Sets the attributes, unless they are the invalid value, and each of the
    /// four times, unless it is zero.
    pub fn set_basic_info(
        &mut self,
        file_attributes: FileAttributes,
        creation_time: u64,
        last_access_time: u64,
        last_write_time: u64,
        change_time: u64,
    )
        ensures
            *final(self) == old(self).with_basic_info(
                file_attributes,
                creation_time,
                last_access_time,
                last_write_time,
                change_time,
            ),
    {
        if !file_attributes.is(FileAttributes::invalid()) {
            self.file_attributes = file_attributes;
        }
        if creation_time != 0 {
            self.creation_time = creation_time;
        }
        if last_access_time != 0 {
            self.last_access_time = last_access_time;
        }
        if last_write_time != 0 {
            self.last_write_time = last_write_time;
        }
        if change_time != 0 {
            self.change_time = change_time;
        }
    }

    pub fn file_attributes(&self) -> (r: FileAttributes)
        ensures
            r == self.file_attributes,
    {
        self.file_attributes
    }

    pub fn reparse_tag(&self) -> (r: u32)
        ensures
            r == self.reparse_tag,
    {
        self.reparse_tag
    }

    pub fn allocation_size(&self) -> (r: u64)
        ensures
            r == self.allocation_size,
    {
        self.allocation_size
    }

    pub fn file_size(&self) -> (r: u64)
        ensures
            r == self.file_size,
    {
        self.file_size
    }

    pub fn creation_time(&self) -> (r: u64)
        ensures
            r == self.creation_time,
    {
        self.creation_time
    }

    pub fn last_access_time(&self) -> (r: u64)
        ensures
            r == self.last_access_time,
    {
        self.last_access_time
    }

    pub fn last_write_time(&self) -> (r: u64)
        ensures
            r == self.last_write_time,
    {
        self.last_write_time
    }

    pub fn change_time(&self) -> (r: u64)
        ensures
            r == self.change_time,
    {
        self.change_time
    }

    pub fn index_number(&self) -> (r: u64)
        ensures
            r == self.index_number,
    {
        self.index_number
    }

    pub fn hard_links(&self) -> (r: u32)
        ensures
            r == self.hard_links,
    {
        self.hard_links
    }

    pub fn ea_size(&self) -> (r: u32)
        ensures
            r == self.ea_size,
    {
        self.ea_size
    }

    pub fn set_file_attributes(&mut self, val: FileAttributes) -> (r: &mut Self)
        ensures
            *r == (FileInfo { file_attributes: val, ..*old(self) }),
            *final(self) == *final(r),
    {
        self.file_attributes = val;
        self
    }

    pub fn set_reparse_tag(&mut self, val: u32) -> (r: &mut Self)
        ensures
            *r == (FileInfo { reparse_tag: val, ..*old(self) }),
            *final(self) == *final(r),
    {
        self.reparse_tag = val;
        self
    }

    pub fn set_allocation_size(&mut self, val: u64) -> (r: &mut Self)
        ensures
            *r == (FileInfo { allocation_size: val, ..*old(self) }),
            *final(self) == *final(r),
    {
        self.allocation_size = val;
        self
    }

    pub fn set_file_size(&mut self, val: u64) -> (r: &mut Self)
        ensures
            *r == (FileInfo { file_size: val, ..*old(self) }),
            *final(self) == *final(r),
    {
        self.file_size = val;
        self
    }

    pub fn set_creation_time(&mut self, val: u64) -> (r: &mut Self)
        ensures
            *r == (FileInfo { creation_time: val, ..*old(self) }),
            *final(self) == *final(r),
    {
        self.creation_time = val;
        self
    }

    pub fn set_last_access_time(&mut self, val: u64) -> (r: &mut Self)
        ensures
            *r == (FileInfo { last_access_time: val, ..*old(self) }),
            *final(self) == *final(r),
    {
        self.last_access_time = val;
        self
    }

    pub fn set_last_write_time(&mut self, val: u64) -> (r: &mut Self)
        ensures
            *r == (FileInfo { last_write_time: val, ..*old(self) }),
            *final(self) == *final(r),
    {
        self.last_write_time = val;
        self
    }

    pub fn set_change_time(&mut self, val: u64) -> (r: &mut Self)
        ensures
            *r == (FileInfo { change_time: val, ..*old(self) }),
            *final(self) == *final(r),
    {
        self.change_time = val;
        self
    }

    pub fn set_index_number(&mut self, val: u64) -> (r: &mut Self)
        ensures
            *r == (FileInfo { index_number: val, ..*old(self) }),
            *final(self) == *final(r),
    {
        self.index_number = val;
        self
    }

    pub fn set_hard_links(&mut self, val: u32) -> (r: &mut Self)
        ensures
            *r == (FileInfo { hard_links: val, ..*old(self) }),
            *final(self) == *final(r),
    {
        self.hard_links = val;
        self
    }

    pub fn set_ea_size(&mut self, val: u32) -> (r: &mut Self)
        ensures
            *r == (FileInfo { ea_size: val, ..*old(self) }),
            *final(self) == *final(r),
    {
        self.ea_size = val;
        self
    }

    /// Sets all four times to `val`.
    pub fn set_time(&mut self, val: u64) -> (r: &mut Self)
        ensures
            *r == old(self).with_time(val),
            *final(self) == *final(r),
    {
        self.creation_time = val;
        self.last_access_time = val;
        self.last_write_time = val;
        self.change_time = val;
        self
    }
}

impl Default for FileInfo {
    fn default() -> (r: FileInfo)
        ensures
            r == FileInfo::zero(),
    {
        FileInfo {
            file_attributes: FileAttributes(0),
            reparse_tag: 0,
            allocation_size: 0,
            file_size: 0,
            creation_time: 0,
            last_access_time: 0,
            last_write_time: 0,
            change_time: 0,
            index_number: 0,
            hard_links: 0,
            ea_size: 0,
        }
    }
}

/// The greatest number of code units a volume label may have.
pub const VOLUME_LABEL_MAX_LEN: usize = 32;

/// The number of bytes that a line of a listing takes before its name.
pub const DIR_INFO_HEADER_SIZE: usize = 104;

/// The error of a volume label that is too long.
#[derive(Debug, Clone, Copy, PartialEq, Eq)]
pub struct VolumeLabelNameTooLong;

/// The sizes and the label of a volume.
#[derive(Debug, PartialEq, Eq)]
pub struct VolumeInfo {
    total_size: u64,
    free_size: u64,
    volume_label: Vec<u16>,
}

/// The sizes and the label of a volume, as a value.
pub ghost struct VolumeInfoView {
    pub total_size: u64,
    pub free_size: u64,
    pub volume_label: Seq<u16>,
}

impl View for VolumeInfo {
    type V = VolumeInfoView;

    closed spec fn view(&self) -> VolumeInfoView {
        VolumeInfoView {
            total_size: self.total_size,
            free_size: self.free_size,
            volume_label: self.volume_label@,
        }
    }
}

impl Clone for VolumeInfo {
    fn clone(&self) -> (r: Self)
        ensures
            r@ == self@,
    {
        VolumeInfo {
            total_size: self.total_size,
            free_size: self.free_size,
            volume_label: vstd::slice::slice_to_vec(self.volume_label.as_slice()),
        }
    }
}

impl VolumeInfo {
    /// The label is not too long.
    pub open spec fn wf(&self) -> bool {
        self@.volume_label.len() <= VOLUME_LABEL_MAX_LEN
    }

    /// The record of a volume with the given sizes and label, unless the label
    /// has more than 32 code units.
    pub fn new(total_size: u64, free_size: u64, volume_label: &[u16]) -> (r: Result<
        VolumeInfo,
        VolumeLabelNameTooLong,
    >)
        ensures
            volume_label@.len() <= VOLUME_LABEL_MAX_LEN <==> r is Ok,
            r matches Ok(v) ==> v.wf() && v@ == (VolumeInfoView {
                total_size,
                free_size,
                volume_label: volume_label@,
            }),
    {
        if volume_label.len() > VOLUME_LABEL_MAX_LEN {
            return Err(VolumeLabelNameTooLong);
        }
        Ok(
            VolumeInfo {
                total_size,
                free_size,
                volume_label: vstd::slice::slice_to_vec(volume_label),
            },
        )
    }

    pub fn total_size(&self) -> (r: u64)
        ensures
            r == self@.total_size,
    {
        self.total_size
    }

    pub fn set_total_size(&mut self, size: u64)
        ensures
            final(self)@ == (VolumeInfoView { total_size: size, ..old(self)@ }),
    {
        self.total_size = size;
    }

    pub fn free_size(&self) -> (r: u64)
        ensures
            r == self@.free_size,
    {
        self.free_size
    }

    pub fn set_free_size(&mut self, size: u64)
        ensures
            final(self)@ == (VolumeInfoView { free_size: size, ..old(self)@ }),
    {
        self.free_size = size;
    }

    /// The label of the volume.
    pub fn volume_label(&self) -> (label: &[u16])
        ensures
            label@ == self@.volume_label,
    {
        self.volume_label.as_slice()
    }

    /// The length of the label in bytes, two for each code unit.
    pub fn volume_label_length(&self) -> (n: u16)
        requires
            self.wf(),
        ensures
            n == 2 * self@.volume_label.len(),
    {
        (self.volume_label.len() * 2) as u16
    }

    /// Sets the label, unless it has more than 32 code units, in which case
    /// the record stays as it is.
    pub fn set_volume_label(&mut self, volume_label: &[u16]) -> (r: Result<
        (),
        VolumeLabelNameTooLong,
    >)
        ensures
            volume_label@.len() <= VOLUME_LABEL_MAX_LEN <==> r is Ok,
            r is Ok ==> final(self)@ == (VolumeInfoView {
                volume_label: volume_label@,
                ..old(self)@
            }),
            r is Err ==> final(self)@ == old(self)@,
            old(self).wf() ==> final(self).wf(),
    {
        if volume_label.len() > VOLUME_LABEL_MAX_LEN {
            return Err(VolumeLabelNameTooLong);
        }
        self.volume_label = vstd::slice::slice_to_vec(volume_label);
        Ok(())
    }
}

/// What a request to create a file or folder asks for.
#[derive(Debug, Clone, Copy, PartialEq, Eq, Hash)]
pub struct CreateFileInfo {
    pub create_options: CreateOptions,
    pub granted_access: FileAccessRights,
    pub file_attributes: FileAttributes,
    pub allocation_size: u64,
}

/// A line of a directory listing in the form a host takes it: the size of the
/// record in bytes, the metadata, and the name.
#[derive(Debug, PartialEq, Eq)]
pub struct DirInfo {
    pub size: u16,
    pub file_info: FileInfo,
    pub file_name: Vec<u16>,
}

impl DirInfo {
    /// The name is not too long, and the size is that of the header and the name.
    pub open spec fn wf(&self) -> bool {
        &&& self.file_name@.len() <= MAX_NAME_LENGTH
        &&& self.size == DIR_INFO_HEADER_SIZE + 2 * self.file_name@.len()
    }

    /// The line for an entry with the given metadata and name.
    pub fn new(file_info: FileInfo, file_name: &[u16]) -> (info: DirInfo)
        requires
            file_name@.len() <= MAX_NAME_LENGTH,
        ensures
            info.wf(),
            info.file_info == file_info,
            info.file_name@ == file_name@,
    {
        DirInfo {
            size: (DIR_INFO_HEADER_SIZE + file_name.len() * 2) as u16,
            file_info,
            file_name: vstd::slice::slice_to_vec(file_name),
        }
    }

    /// The line for an entry with the given metadata and name, unless the name
    /// has more than 255 code units.
    pub fn from_units(file_info: FileInfo, file_name: &[u16]) -> (info: Option<DirInfo>)
        ensures
            file_name@.len() <= MAX_NAME_LENGTH <==> info is Some,
            info matches Some(d) ==> d.wf() && d.file_info == file_info && d.file_name@
                == file_name@,
    {
        if file_name.len() > MAX_NAME_LENGTH {
            None
        } else {
            Some(DirInfo::new(file_info, file_name))
        }
    }

    /// The line for an entry with the given metadata and the name that the
    /// string spells in UTF-16, unless that name has more than 255 code units.
    pub fn from_str(file_info: FileInfo, file_name: &str) -> (info: Option<DirInfo>)
        ensures
            utf16_units(file_name@).len() <= MAX_NAME_LENGTH <==> info is Some,
            info matches Some(d) ==> d.wf() && d.file_info == file_info && d.file_name@
                == utf16_units(file_name@),
    {
        let units = encode_utf16(file_name);
        DirInfo::from_units(file_info, units.as_slice())
    }
}

} // verus!

//! Directory entries: 32-byte records of a FAT32 directory.

use vstd::prelude::*;
use crate::constants::{ENTRY_DELETED, ENTRY_EMPTY};
use crate::encoding::{
    copy_into,
    copy_range,
    le16,
    le32,
    read_u16_le,
    read_u32_le,
    write_u16_le,
    write_u32_le,
    zero_buffer,
};

verus! {

/// Attribute bit: the entry is read-only.
pub const ATTR_READ_ONLY: u8 = 0x01;

/// Attribute bit: the entry is hidden.
pub const ATTR_HIDDEN: u8 = 0x02;

/// Attribute bit: the entry belongs to the system.
pub const ATTR_SYSTEM: u8 = 0x04;

/// Attribute bit: the entry is the volume label.
pub const ATTR_VOLUME_ID: u8 = 0x08;

/// Attribute bit: the entry is a directory.
pub const ATTR_DIRECTORY: u8 = 0x10;

/// Attribute bit: the entry has been changed since the last archive.
pub const ATTR_ARCHIVE: u8 = 0x20;

/// Attribute value marking a long-name continuation entry.
pub const ATTR_LONG_NAME: u8 = 0x0F;

/// The canonical name bytes of the `.` entry.
pub open spec fn dot_name() -> Seq<u8> {
    Seq::new(11, |i: int| if i == 0 { 0x2Eu8 } else { 0x20u8 })
}

/// The canonical name bytes of the `..` entry.
pub open spec fn dotdot_name() -> Seq<u8> {
    Seq::new(11, |i: int| if i < 2 { 0x2Eu8 } else { 0x20u8 })
}

/// One directory entry: a file, a sub-directory, the volume label, or a
/// long-name continuation record.
#[derive(Debug, Clone)]
pub struct DirEntry {
    pub name: Vec<u8>,
    pub attributes: u8,
    pub nt_reserved: u8,
    pub creation_time_tenth: u8,
    pub creation_time: u16,
    pub creation_date: u16,
    pub last_access_date: u16,
    pub first_cluster_high: u16,
    pub last_write_time: u16,
    pub last_write_date: u16,
    pub first_cluster_low: u16,
    pub file_size: u32,
}

impl DirEntry {
    /// The name field carries its fixed on-disk width of 11 bytes.
    pub open spec fn wf(self) -> bool {
        self.name@.len() == 11
    }

    /// The cluster reference formed from the two 16-bit halves.
    pub open spec fn spec_first_cluster(self) -> u32 {
        ((self.first_cluster_high as u32) << 16) | (self.first_cluster_low as u32)
    }

    /// Decodes a 32-byte directory-entry record. Decoding is total.
    pub fn from_bytes(data: &Vec<u8>) -> (r: DirEntry)
        requires
            data@.len() == 32,
        ensures
            r.wf(),
            r.name@ == data@.subrange(0, 11),
            r.attributes == data@[11],
            r.nt_reserved == data@[12],
            r.creation_time_tenth == data@[13],
            r.creation_time == le16(data@, 14),
            r.creation_date == le16(data@, 16),
            r.last_access_date == le16(data@, 18),
            r.first_cluster_high == le16(data@, 20),
            r.last_write_time == le16(data@, 22),
            r.last_write_date == le16(data@, 24),
            r.first_cluster_low == le16(data@, 26),
            r.file_size == le32(data@, 28),
    {
        DirEntry {
            name: copy_range(data, 0, 11),
            attributes: data[11],
            nt_reserved: data[12],
            creation_time_tenth: data[13],
            creation_time: read_u16_le(data, 14),
            creation_date: read_u16_le(data, 16),
            last_access_date: read_u16_le(data, 18),
            first_cluster_high: read_u16_le(data, 20),
            last_write_time: read_u16_le(data, 22),
            last_write_date: read_u16_le(data, 24),
            first_cluster_low: read_u16_le(data, 26),
            file_size: read_u32_le(data, 28),
        }
    }

    /// Encodes the record back into its 32-byte on-disk form, the exact
    /// inverse of [`DirEntry::from_bytes`].
    pub fn to_bytes(&self) -> (r: Vec<u8>)
        requires
            self.wf(),
        ensures
            r@.len() == 32,
            r@.subrange(0, 11) == self.name@,
            r@[11] == self.attributes,
            r@[12] == self.nt_reserved,
            r@[13] == self.creation_time_tenth,
            le16(r@, 14) == self.creation_time,
            le16(r@, 16) == self.creation_date,
            le16(r@, 18) == self.last_access_date,
            le16(r@, 20) == self.first_cluster_high,
            le16(r@, 22) == self.last_write_time,
            le16(r@, 24) == self.last_write_date,
            le16(r@, 26) == self.first_cluster_low,
            le32(r@, 28) == self.file_size,
    {
        let mut out = zero_buffer(32);
        copy_into(&mut out, 0, &self.name);
        out.set(11, self.attributes);
        out.set(12, self.nt_reserved);
        out.set(13, self.creation_time_tenth);
        write_u16_le(&mut out, 14, self.creation_time);
        write_u16_le(&mut out, 16, self.creation_date);
        write_u16_le(&mut out, 18, self.last_access_date);
        write_u16_le(&mut out, 20, self.first_cluster_high);
        write_u16_le(&mut out, 22, self.last_write_time);
        write_u16_le(&mut out, 24, self.last_write_date);
        write_u16_le(&mut out, 26, self.first_cluster_low);
        write_u32_le(&mut out, 28, self.file_size);
        proof {
            assert(out@.subrange(0, 11) =~= self.name@);
        }
        out
    }

    /// The first cluster of the entry's data, joined from its two halves.
    pub fn first_cluster(&self) -> (r: u32)
        ensures
            r == self.spec_first_cluster(),
    {
        ((self.first_cluster_high as u32) << 16u32) | (self.first_cluster_low as u32)
    }

    /// Reports whether the directory attribute bit is set.
    pub fn is_directory(&self) -> (r: bool)
        ensures
            r == (self.attributes & ATTR_DIRECTORY != 0),
    {
        self.attributes & ATTR_DIRECTORY != 0
    }

    /// Reports whether the entry is a plain file: neither a directory nor the
    /// volume label.
    pub fn is_file(&self) -> (r: bool)
        ensures
            r == (self.attributes & ATTR_DIRECTORY == 0 && self.attributes & ATTR_VOLUME_ID == 0),
    {
        self.attributes & ATTR_DIRECTORY == 0 && self.attributes & ATTR_VOLUME_ID == 0
    }

    /// Reports whether the slot is unused or deleted, going by its first name
    /// byte.
    pub fn is_empty(&self) -> (r: bool)
        requires
            self.name@.len() >= 1,
        ensures
            r == (self.name@[0] == ENTRY_EMPTY || self.name@[0] == ENTRY_DELETED),
    {
        self.name[0] == ENTRY_EMPTY || self.name[0] == ENTRY_DELETED
    }

    /// A copy of the 8.3 name bytes.
    pub fn get_name(&self) -> (r: Vec<u8>)
        ensures
            r@ == self.name@,
    {
        let r = copy_range(&self.name, 0, self.name.len());
        proof {
            assert(r@ =~= self.name@);
        }
        r
    }

    /// Reports whether the read-only attribute bit is set.
    pub fn is_read_only(&self) -> (r: bool)
        ensures
            r == (self.attributes & ATTR_READ_ONLY != 0),
    {
        self.attributes & ATTR_READ_ONLY != 0
    }

    /// Reports whether the hidden attribute bit is set.
    pub fn is_hidden(&self) -> (r: bool)
        ensures
            r == (self.attributes & ATTR_HIDDEN != 0),
    {
        self.attributes & ATTR_HIDDEN != 0
    }

    /// Reports whether the system attribute bit is set.
    pub fn is_system(&self) -> (r: bool)
        ensures
            r == (self.attributes & ATTR_SYSTEM != 0),
    {
        self.attributes & ATTR_SYSTEM != 0
    }

    /// Reports whether the attribute byte marks a long-name continuation.
    pub fn is_long_name(&self) -> (r: bool)
        ensures
            r == (self.attributes == ATTR_LONG_NAME),
    {
        self.attributes == ATTR_LONG_NAME
    }

    /// Reports whether the entry is the `.` self-reference of a directory.
    pub fn is_dot(&self) -> (r: bool)
        ensures
            r == (self.name@ == dot_name()),
    {
        if self.name.len() != 11 {
            return false;
        }
        if self.name[0] != 0x2E {
            return false;
        }
        let mut i: usize = 1;
        while i < 11
            invariant
                1 <= i <= 11,
                self.name@.len() == 11,
                self.name@[0] == 0x2E,
                forall|j: int| 1 <= j < i ==> self.name@[j] == 0x20,
            decreases 11 - i,
        {
            if self.name[i] != 0x20 {
                return false;
            }
            i = i + 1;
        }
        proof {
            assert(self.name@ =~= dot_name());
        }
        true
    }

    /// Reports whether the entry is the `..` parent reference of a directory.
    pub fn is_dotdot(&self) -> (r: bool)
        ensures
            r == (self.name@ == dotdot_name()),
    {
        if self.name.len() != 11 {
            return false;
        }
        if self.name[0] != 0x2E || self.name[1] != 0x2E {
            return false;
        }
        let mut i: usize = 2;
        while i < 11
            invariant
                2 <= i <= 11,
                self.name@.len() == 11,
                self.name@[0] == 0x2E,
                self.name@[1] == 0x2E,
                forall|j: int| 2 <= j < i ==> self.name@[j] == 0x20,
            decreases 11 - i,
        {
            if self.name[i] != 0x20 {
                return false;
            }
            i = i + 1;
        }
        proof {
            assert(self.name@ =~= dotdot_name());
        }
        true
    }

    /// Marks the entry as deleted by overwriting its first name byte.
    pub fn mark_deleted(&mut self)
        requires
            old(self).name@.len() >= 1,
        ensures
            final(self).name@ == old(self).name@.update(0, ENTRY_DELETED),
            final(self).attributes == old(self).attributes,
            final(self).nt_reserved == old(self).nt_reserved,
            final(self).creation_time_tenth == old(self).creation_time_tenth,
            final(self).creation_time == old(self).creation_time,
            final(self).creation_date == old(self).creation_date,
            final(self).last_access_date == old(self).last_access_date,
            final(self).first_cluster_high == old(self).first_cluster_high,
            final(self).last_write_time == old(self).last_write_time,
            final(self).last_write_date == old(self).last_write_date,
            final(self).first_cluster_low == old(self).first_cluster_low,
            final(self).file_size == old(self).file_size,
    {
        self.name.set(0, ENTRY_DELETED);
    }
}

} // verus!

//! The boot sector: first sector of the volume, 512 bytes.
//!
//! Decoding and encoding work field by field at fixed byte offsets in
//! little-endian order, so the record layout never depends on the in-memory
//! representation of the struct.

use vstd::prelude::*;
use crate::constants::BOOT_SIGNATURE;
use crate::encoding::{
    copy_into,
    copy_range,
    le16,
    le32,
    read_u16_le,
    read_u32_le,
    write_u16_le,
    write_u32_le,
    zero_buffer,
};

verus! {

/// The decoded boot sector of a FAT32 volume.
#[derive(Debug, Clone)]
pub struct BootSector {
    pub jmp_boot: Vec<u8>,
    pub oem_name: Vec<u8>,
    pub bytes_per_sector: u16,
    pub sectors_per_cluster: u8,
    pub reserved_sector_count: u16,
    pub num_fats: u8,
    pub root_entry_count: u16,
    pub total_sectors_16: u16,
    pub media_type: u8,
    pub fat_size_16: u16,
    pub sectors_per_track: u16,
    pub num_heads: u16,
    pub hidden_sectors: u32,
    pub total_sectors_32: u32,
    pub fat_size_32: u32,
    pub ext_flags: u16,
    pub fs_version: u16,
    pub root_cluster: u32,
    pub fs_info_sector: u16,
    pub backup_boot_sector: u16,
    pub reserved: Vec<u8>,
    pub drive_number: u8,
    pub reserved1: u8,
    pub boot_signature: u8,
    pub volume_id: u32,
    pub volume_label: Vec<u8>,
    pub fs_type: Vec<u8>,
    pub boot_code: Vec<u8>,
    pub signature: u16,
}

impl BootSector {
    /// The byte-array fields carry their fixed on-disk widths.
    pub open spec fn wf(self) -> bool {
        &&& self.jmp_boot@.len() == 3
        &&& self.oem_name@.len() == 8
        &&& self.reserved@.len() == 12
        &&& self.volume_label@.len() == 11
        &&& self.fs_type@.len() == 8
        &&& self.boot_code@.len() == 420
    }

    /// Size of one cluster in bytes.
    pub open spec fn spec_cluster_size(self) -> int {
        self.bytes_per_sector * self.sectors_per_cluster
    }

    /// First sector of the first FAT copy.
    pub open spec fn spec_fat_start_sector(self) -> int {
        self.reserved_sector_count as int
    }

    /// First sector of the data region.
    pub open spec fn spec_data_start_sector(self) -> int {
        self.reserved_sector_count + self.num_fats * self.fat_size_32
    }

    /// First sector of data cluster `cluster`; meaningful for `cluster >= 2`.
    pub open spec fn spec_cluster_to_sector(self, cluster: u32) -> int {
        self.spec_data_start_sector() + (cluster - 2) * self.sectors_per_cluster
    }

    /// Effective total-sector count: the 32-bit field unless it is zero.
    pub open spec fn spec_total_sectors(self) -> u32 {
        if self.total_sectors_32 != 0 {
            self.total_sectors_32
        } else {
            self.total_sectors_16 as u32
        }
    }

    /// Effective FAT size in sectors: the 32-bit field unless it is zero.
    pub open spec fn spec_fat_size(self) -> u32 {
        if self.fat_size_32 != 0 {
            self.fat_size_32
        } else {
            self.fat_size_16 as u32
        }
    }

    /// Decodes a 512-byte boot-sector record.
    ///
    /// Decoding is total: every 512-byte buffer yields a record; semantic
    /// checks belong to [`crate::validator::validate_boot_sector`].
    pub fn from_bytes(data: &Vec<u8>) -> (r: BootSector)
        requires
            data@.len() == 512,
        ensures
            r.wf(),
            r.jmp_boot@ == data@.subrange(0, 3),
            r.oem_name@ == data@.subrange(3, 11),
            r.bytes_per_sector == le16(data@, 11),
            r.sectors_per_cluster == data@[13],
            r.reserved_sector_count == le16(data@, 14),
            r.num_fats == data@[16],
            r.root_entry_count == le16(data@, 17),
            r.total_sectors_16 == le16(data@, 19),
            r.media_type == data@[21],
            r.fat_size_16 == le16(data@, 22),
            r.sectors_per_track == le16(data@, 24),
            r.num_heads == le16(data@, 26),
            r.hidden_sectors == le32(data@, 28),
            r.total_sectors_32 == le32(data@, 32),
            r.fat_size_32 == le32(data@, 36),
            r.ext_flags == le16(data@, 40),
            r.fs_version == le16(data@, 42),
            r.root_cluster == le32(data@, 44),
            r.fs_info_sector == le16(data@, 48),
            r.backup_boot_sector == le16(data@, 50),
            r.reserved@ == data@.subrange(52, 64),
            r.drive_number == data@[64],
            r.reserved1 == data@[65],
            r.boot_signature == data@[66],
            r.volume_id == le32(data@, 67),
            r.volume_label@ == data@.subrange(71, 82),
            r.fs_type@ == data@.subrange(82, 90),
            r.boot_code@ == data@.subrange(90, 510),
            r.signature == le16(data@, 510),
    {
        BootSector {
            jmp_boot: copy_range(data, 0, 3),
            oem_name: copy_range(data, 3, 8),
            bytes_per_sector: read_u16_le(data, 11),
            sectors_per_cluster: data[13],
            reserved_sector_count: read_u16_le(data, 14),
            num_fats: data[16],
            root_entry_count: read_u16_le(data, 17),
            total_sectors_16: read_u16_le(data, 19),
            media_type: data[21],
            fat_size_16: read_u16_le(data, 22),
            sectors_per_track: read_u16_le(data, 24),
            num_heads: read_u16_le(data, 26),
            hidden_sectors: read_u32_le(data, 28),
            total_sectors_32: read_u32_le(data, 32),
            fat_size_32: read_u32_le(data, 36),
            ext_flags: read_u16_le(data, 40),
            fs_version: read_u16_le(data, 42),
            root_cluster: read_u32_le(data, 44),
            fs_info_sector: read_u16_le(data, 48),
            backup_boot_sector: read_u16_le(data, 50),
            reserved: copy_range(data, 52, 12),
            drive_number: data[64],
            reserved1: data[65],
            boot_signature: data[66],
            volume_id: read_u32_le(data, 67),
            volume_label: copy_range(data, 71, 11),
            fs_type: copy_range(data, 82, 8),
            boot_code: copy_range(data, 90, 420),
            signature: read_u16_le(data, 510),
        }
    }

    /// Encodes the record back into its 512-byte on-disk form, the exact
    /// inverse of [`BootSector::from_bytes`].
    pub fn to_bytes(&self) -> (r: Vec<u8>)
        requires
            self.wf(),
        ensures
            r@.len() == 512,
            r@.subrange(0, 3) == self.jmp_boot@,
            r@.subrange(3, 11) == self.oem_name@,
            le16(r@, 11) == self.bytes_per_sector,
            r@[13] == self.sectors_per_cluster,
            le16(r@, 14) == self.reserved_sector_count,
            r@[16] == self.num_fats,
            le16(r@, 17) == self.root_entry_count,
            le16(r@, 19) == self.total_sectors_16,
            r@[21] == self.media_type,
            le16(r@, 22) == self.fat_size_16,
            le16(r@, 24) == self.sectors_per_track,
            le16(r@, 26) == self.num_heads,
            le32(r@, 28) == self.hidden_sectors,
            le32(r@, 32) == self.total_sectors_32,
            le32(r@, 36) == self.fat_size_32,
            le16(r@, 40) == self.ext_flags,
            le16(r@, 42) == self.fs_version,
            le32(r@, 44) == self.root_cluster,
            le16(r@, 48) == self.fs_info_sector,
            le16(r@, 50) == self.backup_boot_sector,
            r@.subrange(52, 64) == self.reserved@,
            r@[64] == self.drive_number,
            r@[65] == self.reserved1,
            r@[66] == self.boot_signature,
            le32(r@, 67) == self.volume_id,
            r@.subrange(71, 82) == self.volume_label@,
            r@.subrange(82, 90) == self.fs_type@,
            r@.subrange(90, 510) == self.boot_code@,
            le16(r@, 510) == self.signature,
    {
        let mut out = zero_buffer(512);
        copy_into(&mut out, 0, &self.jmp_boot);
        copy_into(&mut out, 3, &self.oem_name);
        write_u16_le(&mut out, 11, self.bytes_per_sector);
        out.set(13, self.sectors_per_cluster);
        write_u16_le(&mut out, 14, self.reserved_sector_count);
        out.set(16, self.num_fats);
        write_u16_le(&mut out, 17, self.root_entry_count);
        write_u16_le(&mut out, 19, self.total_sectors_16);
        out.set(21, self.media_type);
        write_u16_le(&mut out, 22, self.fat_size_16);
        write_u16_le(&mut out, 24, self.sectors_per_track);
        write_u16_le(&mut out, 26, self.num_heads);
        write_u32_le(&mut out, 28, self.hidden_sectors);
        write_u32_le(&mut out, 32, self.total_sectors_32);
        write_u32_le(&mut out, 36, self.fat_size_32);
        write_u16_le(&mut out, 40, self.ext_flags);
        write_u16_le(&mut out, 42, self.fs_version);
        write_u32_le(&mut out, 44, self.root_cluster);
        write_u16_le(&mut out, 48, self.fs_info_sector);
        write_u16_le(&mut out, 50, self.backup_boot_sector);
        copy_into(&mut out, 52, &self.reserved);
        out.set(64, self.drive_number);
        out.set(65, self.reserved1);
        out.set(66, self.boot_signature);
        write_u32_le(&mut out, 67, self.volume_id);
        copy_into(&mut out, 71, &self.volume_label);
        copy_into(&mut out, 82, &self.fs_type);
        copy_into(&mut out, 90, &self.boot_code);
        write_u16_le(&mut out, 510, self.signature);
        proof {
            assert(out@.subrange(0, 3) =~= self.jmp_boot@);
            assert(out@.subrange(3, 11) =~= self.oem_name@);
            assert(out@.subrange(52, 64) =~= self.reserved@);
            assert(out@.subrange(71, 82) =~= self.volume_label@);
            assert(out@.subrange(82, 90) =~= self.fs_type@);
            assert(out@.subrange(90, 510) =~= self.boot_code@);
        }
        out
    }

    /// Reports whether the trailing two-byte signature is the boot magic.
    pub fn is_valid(&self) -> (r: bool)
        ensures
            r == (self.signature == BOOT_SIGNATURE),
    {
        self.signature == BOOT_SIGNATURE
    }

    /// Size of one cluster in bytes.
    pub fn cluster_size(&self) -> (r: u32)
        ensures
            r == self.spec_cluster_size(),
    {
        proof {
            assert(self.bytes_per_sector * self.sectors_per_cluster <= 65535 * 255)
                by (nonlinear_arith)
                requires
                    self.bytes_per_sector <= 65535,
                    self.sectors_per_cluster <= 255,
            ;
        }
        (self.bytes_per_sector as u32) * (self.sectors_per_cluster as u32)
    }

    /// First sector of the first FAT copy.
    pub fn fat_start_sector(&self) -> (r: u32)
        ensures
            r == self.spec_fat_start_sector(),
    {
        self.reserved_sector_count as u32
    }

    /// First sector of the data region.
    pub fn data_start_sector(&self) -> (r: u32)
        requires
            self.spec_data_start_sector() <= u32::MAX,
        ensures
            r == self.spec_data_start_sector(),
    {
        self.reserved_sector_count as u32 + (self.num_fats as u32) * self.fat_size_32
    }

    /// First sector of data cluster `cluster`.
    pub fn cluster_to_sector(&self, cluster: u32) -> (r: u32)
        requires
            cluster >= 2,
            self.spec_cluster_to_sector(cluster) <= u32::MAX,
        ensures
            r == self.spec_cluster_to_sector(cluster),
    {
        proof {
            assert((cluster - 2) * self.sectors_per_cluster >= 0) by (nonlinear_arith)
                requires
                    cluster >= 2,
                    self.sectors_per_cluster >= 0,
            ;
        }
        self.data_start_sector() + (cluster - 2) * (self.sectors_per_cluster as u32)
    }

    /// Effective total-sector count: the 32-bit field unless it is zero.
    pub fn total_sectors(&self) -> (r: u32)
        ensures
            r == self.spec_total_sectors(),
    {
        if self.total_sectors_32 != 0 {
            self.total_sectors_32
        } else {
            self.total_sectors_16 as u32
        }
    }

    /// Effective FAT size in sectors: the 32-bit field unless it is zero.
    pub fn fat_size(&self) -> (r: u32)
        ensures
            r == self.spec_fat_size(),
    {
        if self.fat_size_32 != 0 {
            self.fat_size_32
        } else {
            self.fat_size_16 as u32
        }
    }
}

} // verus!

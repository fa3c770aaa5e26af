//! On-disk constants of the FAT32 format.

use vstd::prelude::*;

verus! {

/// Size of one sector in bytes.
pub const SECTOR_SIZE: usize = 512;

/// Size of one directory entry record in bytes.
pub const DIR_ENTRY_SIZE: usize = 32;

/// Trailing two-byte signature of a boot sector.
pub const BOOT_SIGNATURE: u16 = 0xAA55;

/// Extended boot signature byte.
pub const EXTENDED_BOOT_SIGNATURE: u8 = 0x29;

/// Lead signature of an FSInfo sector.
pub const FSINFO_LEAD_SIG: u32 = 0x41615252;

/// Conventional struct signature of an FSInfo sector. The decoder's validity
/// check accepts a value that differs from this one in a single nibble; see
/// [`crate::fsinfo::FSInfo::is_valid`].
pub const FSINFO_STRUCT_SIG: u32 = 0x61417272;

/// Trailing signature of an FSInfo sector.
pub const FSINFO_TRAIL_SIG: u32 = 0xAA550000;

/// The lowest cluster number that addresses a data cluster.
pub const FIRST_VALID_CLUSTER: u32 = 2;

/// First name byte marking an unused directory entry that ends the block.
pub const ENTRY_EMPTY: u8 = 0x00;

/// First name byte marking a deleted directory entry.
pub const ENTRY_DELETED: u8 = 0xE5;

} // verus!

//! Structural sanity checks on a decoded boot sector.

use vstd::prelude::*;
use crate::boot_sector::BootSector;
use crate::constants::{BOOT_SIGNATURE, FIRST_VALID_CLUSTER};

verus! {

/// All the conditions a boot sector must meet before it is trusted:
/// the boot magic; 512 bytes per sector; a power-of-two cluster size; one or
/// two FATs; the FAT32-only zero fields; a nonzero 32-bit FAT size; and a
/// root cluster in the data region.
pub open spec fn spec_valid_boot_sector(bs: BootSector) -> bool {
    &&& bs.signature == BOOT_SIGNATURE
    &&& bs.bytes_per_sector == 512
    &&& bs.sectors_per_cluster > 0
    &&& bs.sectors_per_cluster & ((bs.sectors_per_cluster - 1) as u8) == 0
    &&& bs.num_fats == 1 || bs.num_fats == 2
    &&& bs.root_entry_count == 0
    &&& bs.total_sectors_16 == 0
    &&& bs.fat_size_16 == 0
    &&& bs.fat_size_32 != 0
    &&& bs.root_cluster >= FIRST_VALID_CLUSTER
}

/// Accepts a boot sector only if every condition of
/// [`spec_valid_boot_sector`] holds; the first violated condition rejects
/// the whole sector.
pub fn validate_boot_sector(bs: &BootSector) -> (r: bool)
    ensures
        r == spec_valid_boot_sector(*bs),
{
    if !bs.is_valid() {
        return false;
    }
    if bs.bytes_per_sector != 512 {
        return false;
    }
    let spc = bs.sectors_per_cluster;
    if spc == 0 || (spc & (spc - 1)) != 0 {
        return false;
    }
    if bs.num_fats == 0 || bs.num_fats > 2 {
        return false;
    }
    if bs.root_entry_count != 0 {
        return false;
    }
    if bs.total_sectors_16 != 0 {
        return false;
    }
    if bs.fat_size_16 != 0 {
        return false;
    }
    if bs.fat_size_32 == 0 {
        return false;
    }
    if bs.root_cluster < FIRST_VALID_CLUSTER {
        return false;
    }
    true
}

/// True of the cluster numbers that can address a data cluster: at least 2
/// and below the end-of-chain range.
pub open spec fn spec_valid_cluster(cluster: u32) -> bool {
    FIRST_VALID_CLUSTER <= cluster < crate::fat::FAT_EOC
}

/// Reports whether a cluster number can address a data cluster.
pub fn is_valid_cluster(cluster: u32) -> (r: bool)
    ensures
        r == spec_valid_cluster(cluster),
{
    cluster >= FIRST_VALID_CLUSTER && cluster < crate::fat::FAT_EOC
}

} // verus!

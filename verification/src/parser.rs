//! The volume session: owns a block device, holds the decoded boot sector
//! and the optional FSInfo, and exposes FAT access, cluster I/O and
//! root-directory enumeration on top of them.

use vstd::prelude::*;
use crate::block_device::BlockDevice;
use crate::boot_sector::BootSector;
use crate::dir_entry::DirEntry;
use crate::encoding::{copy_into, copy_range, read_u32_le, write_u32_le, zero_buffer};
use crate::error::Fat32Error;
use crate::fat::{FAT_ENTRY_MASK, FAT_EOC, is_eoc, is_free, mask_cluster};
use crate::fsinfo::FSInfo;
use crate::validator::{spec_valid_boot_sector, validate_boot_sector};

verus! {

/// The hard upper bound on the number of clusters one chain walk collects,
/// so that the walk ends even on a corrupted or cyclic FAT.
pub const MAX_CHAIN_LENGTH: usize = 128;

/// The number of 32-byte slots decoded from the first root-directory
/// cluster.
pub const ROOT_DIR_SLOTS: usize = 16;

/// The number of data clusters a boot sector addresses: the 32-bit
/// total-sector count divided by the cluster size in sectors.
pub open spec fn spec_total_clusters(bs: BootSector) -> int {
    if bs.sectors_per_cluster == 0 {
        0
    } else {
        bs.total_sectors_32 as int / bs.sectors_per_cluster as int
    }
}

/// A mounted FAT32 volume over a block device.
///
/// Construction decodes and checks the boot sector; every later operation
/// derives its addresses from that one decoded copy. FAT writes touch only
/// the first FAT copy: a second mirror is never kept in sync, a known
/// limitation of this accessor.
pub struct Fat32Parser<D: BlockDevice> {
    pub device: D,
    pub boot_sector: BootSector,
    pub fsinfo: Option<FSInfo>,
}

/// The FAT sector holding the entry of `cluster`, and the byte offset of the
/// entry inside that sector.
fn fat_entry_location(bs: &BootSector, cluster: u32) -> (r: (u32, usize))
    requires
        cluster >= 2,
    ensures
        r.0 == bs.spec_fat_start_sector() + (cluster as int * 4) / 512,
        r.1 == (cluster as int * 4) % 512,
        r.1 + 4 <= 512,
{
    let x: u64 = cluster as u64;
    proof {
        assert(x * 4 / 512 <= 0x2000000 && x * 4 % 512 <= 508 && x * 4 < 0x400000000) by (
        bit_vector)
            requires
                x <= 0xFFFFFFFFu64,
        ;
    }
    let off: u64 = x * 4;
    let sector: u64 = (bs.reserved_sector_count as u64) + off / 512;
    let entry_offset: u64 = off % 512;
    (sector as u32, entry_offset as usize)
}

impl<D: BlockDevice> Fat32Parser<D> {
    /// Opens a volume: reads sector 0, decodes it as a boot sector, and
    /// refuses the device unless the decoded record passes
    /// [`crate::validator::validate_boot_sector`]. No session object exists
    /// on failure.
    pub fn new(device: D) -> (r: Result<Fat32Parser<D>, Fat32Error>)
        ensures
            r is Ok ==> r->Ok_0.fsinfo is None,
            r is Ok ==> spec_valid_boot_sector(r->Ok_0.boot_sector),
            r is Ok ==> r->Ok_0.boot_sector.wf(),
            r is Err ==> (r->Err_0 == Fat32Error::InvalidSignature || r->Err_0
                == Fat32Error::InvalidSector || r->Err_0 == Fat32Error::ReadError),
    {
        let mut buffer = zero_buffer(512);
        match device.read_sector(0, &mut buffer) {
            Ok(()) => {},
            Err(e) => {
                return Err(e);
            },
        }
        let bs = BootSector::from_bytes(&buffer);
        if !validate_boot_sector(&bs) {
            return Err(Fat32Error::InvalidSignature);
        }
        Ok(Fat32Parser { device, boot_sector: bs, fsinfo: None })
    }

    /// The decoded boot sector of the mounted volume.
    pub fn boot_sector(&self) -> (r: &BootSector)
        ensures
            *r == self.boot_sector,
    {
        &self.boot_sector
    }

    /// Reads and checks the FSInfo sector named by the boot sector, and
    /// keeps it as the session's hint. May be attempted again; a failure
    /// leaves any earlier hint in place.
    pub fn load_fsinfo(&mut self) -> (r: Result<(), Fat32Error>)
        ensures
            final(self).boot_sector == old(self).boot_sector,
            final(self).device == old(self).device,
            r is Ok ==> final(self).fsinfo is Some && final(self).fsinfo->0.spec_is_valid()
                && final(self).fsinfo->0.wf(),
            r is Err ==> final(self).fsinfo == old(self).fsinfo,
            r is Err ==> (r->Err_0 == Fat32Error::InvalidSignature || r->Err_0
                == Fat32Error::InvalidSector || r->Err_0 == Fat32Error::ReadError),
    {
        let mut buffer = zero_buffer(512);
        let fsinfo_sector: u32 = self.boot_sector.fs_info_sector as u32;
        match self.device.read_sector(fsinfo_sector, &mut buffer) {
            Ok(()) => {},
            Err(e) => {
                return Err(e);
            },
        }
        let fsinfo = FSInfo::from_bytes(&buffer);
        if !fsinfo.is_valid() {
            return Err(Fat32Error::InvalidSignature);
        }
        self.fsinfo = Some(fsinfo);
        Ok(())
    }

    /// The FSInfo hint, if one has been loaded.
    pub fn fsinfo(&self) -> (r: Option<&FSInfo>)
        ensures
            r is Some <==> self.fsinfo is Some,
            r is Some ==> *r->0 == self.fsinfo->0,
    {
        match &self.fsinfo {
            Some(f) => Some(f),
            None => None,
        }
    }

    /// Reads the FAT entry of `cluster` from the first FAT copy: the 4-byte
    /// little-endian word at the entry's fixed offset, masked to its 28
    /// effective bits.
    pub fn read_fat_entry(&self, cluster: u32) -> (r: Result<u32, Fat32Error>)
        ensures
            cluster < 2 ==> r == Err::<u32, Fat32Error>(Fat32Error::InvalidCluster),
            r is Ok ==> cluster >= 2 && r->Ok_0 < 0x10000000,
            r is Err ==> (r->Err_0 == Fat32Error::InvalidCluster || r->Err_0
                == Fat32Error::InvalidSector || r->Err_0 == Fat32Error::ReadError),
            cluster >= 2 && r is Err ==> (r->Err_0 == Fat32Error::InvalidSector || r->Err_0
                == Fat32Error::ReadError),
    {
        if cluster < 2 {
            return Err(Fat32Error::InvalidCluster);
        }
        let (fat_sector, entry_offset) = fat_entry_location(&self.boot_sector, cluster);
        let mut buffer = zero_buffer(512);
        match self.device.read_sector(fat_sector, &mut buffer) {
            Ok(()) => {},
            Err(e) => {
                return Err(e);
            },
        }
        let raw = read_u32_le(&buffer, entry_offset);
        Ok(mask_cluster(raw))
    }

    /// Writes the FAT entry of `cluster` in the first FAT copy, masked to
    /// its 28 effective bits, by a read-modify-write of the containing
    /// sector. The second FAT copy, when present, is not kept in sync.
    pub fn write_fat_entry(&mut self, cluster: u32, value: u32) -> (r: Result<(), Fat32Error>)
        ensures
            final(self).boot_sector == old(self).boot_sector,
            final(self).fsinfo == old(self).fsinfo,
            cluster < 2 ==> r == Err::<(), Fat32Error>(Fat32Error::InvalidCluster) && *final(self)
                == *old(self),
            r is Err ==> (r->Err_0 == Fat32Error::InvalidCluster || r->Err_0
                == Fat32Error::InvalidSector || r->Err_0 == Fat32Error::ReadError || r->Err_0
                == Fat32Error::WriteError),
            cluster >= 2 && r is Err ==> (r->Err_0 == Fat32Error::InvalidSector || r->Err_0
                == Fat32Error::ReadError || r->Err_0 == Fat32Error::WriteError),
    {
        if cluster < 2 {
            return Err(Fat32Error::InvalidCluster);
        }
        let (fat_sector, entry_offset) = fat_entry_location(&self.boot_sector, cluster);
        let mut buffer = zero_buffer(512);
        match self.device.read_sector(fat_sector, &mut buffer) {
            Ok(()) => {},
            Err(e) => {
                return Err(e);
            },
        }
        write_u32_le(&mut buffer, entry_offset, value & FAT_ENTRY_MASK);
        match self.device.write_sector(fat_sector, &buffer) {
            Ok(()) => {},
            Err(e) => {
                return Err(e);
            },
        }
        Ok(())
    }

    /// Fills `buffer` with the whole of data cluster `cluster`, one sector
    /// at a time.
    pub fn read_cluster(&self, cluster: u32, buffer: &mut Vec<u8>) -> (r: Result<(), Fat32Error>)
        requires
            old(buffer)@.len() >= 512 * self.boot_sector.sectors_per_cluster,
        ensures
            final(buffer)@.len() == old(buffer)@.len(),
            cluster < 2 ==> r == Err::<(), Fat32Error>(Fat32Error::InvalidCluster),
            cluster >= 2 && r is Err ==> (r->Err_0 == Fat32Error::InvalidSector || r->Err_0
                == Fat32Error::ReadError),
            cluster >= 2 && self.boot_sector.sectors_per_cluster == 0 ==> r is Ok,
            r is Err ==> (r->Err_0 == Fat32Error::InvalidCluster || r->Err_0
                == Fat32Error::InvalidSector || r->Err_0 == Fat32Error::ReadError),
    {
        if cluster < 2 {
            return Err(Fat32Error::InvalidCluster);
        }
        let spc: u8 = self.boot_sector.sectors_per_cluster;
        if spc == 0 {
            return Ok(());
        }
        let first_sector: u64 = match self.first_sector_of(cluster) {
            Some(s) => s,
            None => {
                return Err(Fat32Error::InvalidSector);
            },
        };
        let mut i: u32 = 0;
        while i < spc as u32
            invariant
                cluster >= 2,
                spc == self.boot_sector.sectors_per_cluster,
                spc > 0,
                i <= spc as u32,
                first_sector + spc <= 0x100000000u64,
                buffer@.len() == old(buffer)@.len(),
                buffer@.len() >= 512 * spc,
            decreases spc as u32 - i,
        {
            let mut tmp = zero_buffer(512);
            match self.device.read_sector((first_sector + i as u64) as u32, &mut tmp) {
                Ok(()) => {},
                Err(e) => {
                    return Err(e);
                },
            }
            proof {
                assert((i as int + 1) * 512 <= spc as int * 512) by (nonlinear_arith)
                    requires
                        i as int + 1 <= spc as int,
                ;
                assert(i as int * 512 + 512 == (i as int + 1) * 512);
            }
            copy_into(buffer, (i as usize) * 512, &tmp);
            i = i + 1;
        }
        Ok(())
    }

    /// Writes `data` over data cluster `cluster`, one sector at a time.
    /// Trailing sectors that `data` does not cover are left as they are; a
    /// failure partway leaves the earlier sectors written.
    pub fn write_cluster(&mut self, cluster: u32, data: &Vec<u8>) -> (r: Result<(), Fat32Error>)
        ensures
            final(self).boot_sector == old(self).boot_sector,
            final(self).fsinfo == old(self).fsinfo,
            cluster < 2 ==> r == Err::<(), Fat32Error>(Fat32Error::InvalidCluster) && *final(self)
                == *old(self),
            cluster >= 2 && r is Err ==> (r->Err_0 == Fat32Error::InvalidSector || r->Err_0
                == Fat32Error::WriteError),
            cluster >= 2 && old(self).boot_sector.sectors_per_cluster == 0 ==> r is Ok,
            r is Err ==> (r->Err_0 == Fat32Error::InvalidCluster || r->Err_0
                == Fat32Error::InvalidSector || r->Err_0 == Fat32Error::WriteError),
    {
        if cluster < 2 {
            return Err(Fat32Error::InvalidCluster);
        }
        let spc: u8 = self.boot_sector.sectors_per_cluster;
        if spc == 0 {
            return Ok(());
        }
        let first_sector: u64 = match self.first_sector_of(cluster) {
            Some(s) => s,
            None => {
                return Err(Fat32Error::InvalidSector);
            },
        };
        let data_len: usize = data.len();
        let mut i: u32 = 0;
        while i < spc as u32
            invariant
                cluster >= 2,
                spc == old(self).boot_sector.sectors_per_cluster,
                spc > 0,
                i <= spc as u32,
                first_sector + spc <= 0x100000000u64,
                data_len == data@.len(),
                self.boot_sector == old(self).boot_sector,
                self.fsinfo == old(self).fsinfo,
            decreases spc as u32 - i,
        {
            proof {
                assert(i as int * 512 + 512 <= 255 * 512 + 512) by (nonlinear_arith)
                    requires
                        i as int <= 255,
                ;
            }
            let offset: usize = (i as usize) * 512;
            if offset + 512 <= data_len {
                let tmp = copy_range(data, offset, 512);
                match self.device.write_sector((first_sector + i as u64) as u32, &tmp) {
                    Ok(()) => {},
                    Err(e) => {
                        return Err(e);
                    },
                }
            }
            i = i + 1;
        }
        Ok(())
    }

    /// Decodes the first [`ROOT_DIR_SLOTS`] 32-byte slots of the root
    /// directory's first cluster. Later clusters of a longer root directory
    /// are not followed: only its first cluster is visible here.
    pub fn read_root_dir(&self) -> (r: Result<Vec<DirEntry>, Fat32Error>)
        ensures
            r is Ok ==> r->Ok_0@.len() == ROOT_DIR_SLOTS,
            r is Ok ==> forall|k: int| 0 <= k < r->Ok_0@.len() ==> r->Ok_0@[k].wf(),
            self.boot_sector.root_cluster < 2 ==> r == Err::<Vec<DirEntry>, Fat32Error>(
                Fat32Error::InvalidCluster,
            ),
            self.boot_sector.root_cluster >= 2 && r is Err ==> (r->Err_0
                == Fat32Error::InvalidSector || r->Err_0 == Fat32Error::ReadError),
            r is Err ==> (r->Err_0 == Fat32Error::InvalidCluster || r->Err_0
                == Fat32Error::InvalidSector || r->Err_0 == Fat32Error::ReadError),
    {
        let spc: u8 = self.boot_sector.sectors_per_cluster;
        let n: usize = 512 * (spc as usize);
        let buf_len: usize = if n < 512 {
            512
        } else {
            n
        };
        let mut buffer = zero_buffer(buf_len);
        match self.read_cluster(self.boot_sector.root_cluster, &mut buffer) {
            Ok(()) => {},
            Err(e) => {
                return Err(e);
            },
        }
        let mut entries: Vec<DirEntry> = Vec::new();
        let mut slot: usize = 0;
        while slot < ROOT_DIR_SLOTS
            invariant
                slot <= ROOT_DIR_SLOTS,
                entries@.len() == slot,
                buffer@.len() >= 512,
                forall|k: int| 0 <= k < entries@.len() ==> entries@[k].wf(),
            decreases ROOT_DIR_SLOTS - slot,
        {
            let rec = copy_range(&buffer, slot * 32, 32);
            entries.push(DirEntry::from_bytes(&rec));
            slot = slot + 1;
        }
        Ok(entries)
    }

    /// Follows the cluster chain that starts at `start_cluster`: collects
    /// each cluster and steps to its FAT entry until an end-of-chain value
    /// appears, or until [`MAX_CHAIN_LENGTH`] clusters have been collected.
    pub fn follow_cluster_chain(&self, start_cluster: u32) -> (r: Result<Vec<u32>, Fat32Error>)
        ensures
            r is Ok ==> r->Ok_0@.len() <= MAX_CHAIN_LENGTH,
            r is Ok ==> forall|k: int|
                0 <= k < r->Ok_0@.len() ==> 2 <= r->Ok_0@[k] && r->Ok_0@[k] < FAT_EOC,
            crate::fat::spec_is_eoc(start_cluster) ==> r is Ok && r->Ok_0@.len() == 0,
            r is Ok && !crate::fat::spec_is_eoc(start_cluster) ==> r->Ok_0@.len() >= 1
                && r->Ok_0@[0] == start_cluster,
            !crate::fat::spec_is_eoc(start_cluster) && start_cluster < 2 ==> r == Err::<
                Vec<u32>,
                Fat32Error,
            >(Fat32Error::InvalidCluster),
            r is Err ==> (r->Err_0 == Fat32Error::InvalidCluster || r->Err_0
                == Fat32Error::InvalidSector || r->Err_0 == Fat32Error::ReadError),
    {
        let mut chain: Vec<u32> = Vec::new();
        let mut current: u32 = start_cluster;
        while !is_eoc(current) && chain.len() < MAX_CHAIN_LENGTH
            invariant
                chain@.len() <= MAX_CHAIN_LENGTH,
                forall|k: int| 0 <= k < chain@.len() ==> 2 <= chain@[k] && chain@[k] < FAT_EOC,
                chain@.len() == 0 ==> current == start_cluster,
                chain@.len() > 0 ==> chain@[0] == start_cluster,
                !crate::fat::spec_is_eoc(start_cluster) && start_cluster < 2 ==> chain@.len() == 0,
            decreases MAX_CHAIN_LENGTH - chain@.len(),
        {
            chain.push(current);
            match self.read_fat_entry(current) {
                Ok(next) => {
                    current = next;
                },
                Err(e) => {
                    return Err(e);
                },
            }
        }
        Ok(chain)
    }

    /// Scans the FAT from cluster 2 upward and returns the first cluster
    /// whose entry is free; fails with `NotFound` when the scan ends empty.
    /// The FSInfo hints are not consulted.
    pub fn find_free_cluster(&self) -> (r: Result<u32, Fat32Error>)
        ensures
            r is Ok ==> 2 <= r->Ok_0 && r->Ok_0 < spec_total_clusters(self.boot_sector),
            self.boot_sector.sectors_per_cluster == 0 ==> r == Err::<u32, Fat32Error>(
                Fat32Error::NotFound,
            ),
            self.boot_sector.sectors_per_cluster > 0 && spec_total_clusters(self.boot_sector) <= 2
                ==> r == Err::<u32, Fat32Error>(Fat32Error::NotFound),
            r is Err ==> (r->Err_0 == Fat32Error::NotFound || r->Err_0 == Fat32Error::InvalidSector
                || r->Err_0 == Fat32Error::ReadError),
    {
        let spc: u8 = self.boot_sector.sectors_per_cluster;
        if spc == 0 {
            return Err(Fat32Error::NotFound);
        }
        let total_clusters: u32 = self.boot_sector.total_sectors_32 / (spc as u32);
        let mut cluster: u32 = 2;
        while cluster < total_clusters
            invariant
                2 <= cluster,
                total_clusters == spec_total_clusters(self.boot_sector),
            decreases total_clusters - cluster,
        {
            match self.read_fat_entry(cluster) {
                Ok(entry) => {
                    if is_free(entry) {
                        return Ok(cluster);
                    }
                },
                Err(e) => {
                    return Err(e);
                },
            }
            cluster = cluster + 1;
        }
        Err(Fat32Error::NotFound)
    }

    /// The first device sector of data cluster `cluster`, or `None` when it
    /// lies beyond the 32-bit sector range, leaving room for a whole
    /// cluster of sectors above it.
    fn first_sector_of(&self, cluster: u32) -> (r: Option<u64>)
        requires
            cluster >= 2,
        ensures
            r is Some ==> r->0 == self.boot_sector.spec_cluster_to_sector(cluster) && r->0
                + self.boot_sector.sectors_per_cluster <= 0x100000000u64,
    {
        let bs = &self.boot_sector;
        let spc: u64 = bs.sectors_per_cluster as u64;
        proof {
            assert((bs.num_fats as u64) * (bs.fat_size_32 as u64) <= 255 * 0xFFFFFFFFu64) by (
            nonlinear_arith)
                requires
                    bs.num_fats as u64 <= 255,
                    bs.fat_size_32 as u64 <= 0xFFFFFFFFu64,
            ;
            assert((cluster as u64 - 2) * spc <= 0xFFFFFFFFu64 * 255) by (nonlinear_arith)
                requires
                    2 <= cluster as u64 <= 0xFFFFFFFFu64,
                    spc <= 255,
            ;
        }
        let data_start: u64 = bs.reserved_sector_count as u64 + (bs.num_fats as u64) * (
        bs.fat_size_32 as u64);
        let first: u64 = data_start + (cluster as u64 - 2) * spc;
        if first > 0xFFFFFFFFu64 || 0x100000000u64 - first < spc {
            return None;
        }
        Some(first)
    }
}

} // verus!

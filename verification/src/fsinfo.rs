//! The FSInfo sector: cached free-cluster bookkeeping hints, 512 bytes.
//!
//! The hints are never authoritative over the FAT itself; both counters use
//! the sentinel `0xFFFFFFFF` to mean "unknown".

use vstd::prelude::*;
use crate::encoding::{copy_range, le32, read_u32_le};

verus! {

/// The sentinel meaning "this counter is unknown".
pub const FSINFO_UNKNOWN: u32 = 0xFFFFFFFF;

/// The struct-signature value the validity check accepts. It differs in one
/// nibble from the conventional [`crate::constants::FSINFO_STRUCT_SIG`];
/// for this decoder, this value is the authoritative one.
pub const FSINFO_STRUCT_SIG_ACCEPTED: u32 = 0x61417772;

/// The decoded FSInfo sector of a FAT32 volume.
#[derive(Debug, Clone)]
pub struct FSInfo {
    pub lead_signature: u32,
    pub reserved1: Vec<u8>,
    pub struct_signature: u32,
    pub free_count: u32,
    pub next_free: u32,
    pub reserved2: Vec<u8>,
    pub trail_signature: u32,
}

impl FSInfo {
    /// The byte-array fields carry their fixed on-disk widths.
    pub open spec fn wf(self) -> bool {
        &&& self.reserved1@.len() == 480
        &&& self.reserved2@.len() == 12
    }

    /// The three signature fields carry the values the decoder trusts.
    pub open spec fn spec_is_valid(self) -> bool {
        &&& self.lead_signature == crate::constants::FSINFO_LEAD_SIG
        &&& self.struct_signature == FSINFO_STRUCT_SIG_ACCEPTED
        &&& self.trail_signature == crate::constants::FSINFO_TRAIL_SIG
    }

    /// Decodes a 512-byte FSInfo record. Decoding is total; signature
    /// checking is left to [`FSInfo::is_valid`].
    pub fn from_bytes(data: &Vec<u8>) -> (r: FSInfo)
        requires
            data@.len() == 512,
        ensures
            r.wf(),
            r.lead_signature == le32(data@, 0),
            r.reserved1@ == data@.subrange(4, 484),
            r.struct_signature == le32(data@, 484),
            r.free_count == le32(data@, 488),
            r.next_free == le32(data@, 492),
            r.reserved2@ == data@.subrange(496, 508),
            r.trail_signature == le32(data@, 508),
    {
        FSInfo {
            lead_signature: read_u32_le(data, 0),
            reserved1: copy_range(data, 4, 480),
            struct_signature: read_u32_le(data, 484),
            free_count: read_u32_le(data, 488),
            next_free: read_u32_le(data, 492),
            reserved2: copy_range(data, 496, 12),
            trail_signature: read_u32_le(data, 508),
        }
    }

    /// Reports whether all three signatures carry the values the decoder
    /// trusts. Note that the accepted struct signature is
    /// [`FSINFO_STRUCT_SIG_ACCEPTED`], not the conventional constant.
    pub fn is_valid(&self) -> (r: bool)
        ensures
            r == self.spec_is_valid(),
    {
        self.lead_signature == crate::constants::FSINFO_LEAD_SIG && self.struct_signature
            == FSINFO_STRUCT_SIG_ACCEPTED && self.trail_signature
            == crate::constants::FSINFO_TRAIL_SIG
    }

    /// The cached number of free clusters, unless unknown.
    pub fn free_clusters(&self) -> (r: Option<u32>)
        ensures
            self.free_count == FSINFO_UNKNOWN ==> r is None,
            self.free_count != FSINFO_UNKNOWN ==> r == Some(self.free_count),
    {
        if self.free_count == FSINFO_UNKNOWN {
            None
        } else {
            Some(self.free_count)
        }
    }

    /// The cached hint for the next free cluster, unless unknown.
    pub fn next_free_cluster(&self) -> (r: Option<u32>)
        ensures
            self.next_free == FSINFO_UNKNOWN ==> r is None,
            self.next_free != FSINFO_UNKNOWN ==> r == Some(self.next_free),
    {
        if self.next_free == FSINFO_UNKNOWN {
            None
        } else {
            Some(self.next_free)
        }
    }
}

} // verus!

//! Classification of File Allocation Table entries.
//!
//! A FAT entry is stored as a 4-byte little-endian word whose low 28 bits are
//! effective. The value 0 marks a free cluster, `0x0FFFFFF7` a bad cluster,
//! and any value at or above `0x0FFFFFF8` ends a cluster chain.

use vstd::prelude::*;

verus! {

/// FAT entry value of a free cluster.
pub const FAT_FREE: u32 = 0x00000000;

/// FAT entry value of a bad cluster.
pub const FAT_BAD: u32 = 0x0FFFFFF7;

/// The lowest FAT entry value that ends a cluster chain.
pub const FAT_EOC: u32 = 0x0FFFFFF8;

/// Mask selecting the 28 effective bits of a FAT entry.
pub const FAT_ENTRY_MASK: u32 = 0x0FFFFFFF;

/// True of the FAT entry values that end a cluster chain.
pub open spec fn spec_is_eoc(entry: u32) -> bool {
    entry >= FAT_EOC
}

/// True of the FAT entry value that marks a free cluster.
pub open spec fn spec_is_free(entry: u32) -> bool {
    entry == FAT_FREE
}

/// True of the FAT entry value that marks a bad cluster.
pub open spec fn spec_is_bad(entry: u32) -> bool {
    entry == FAT_BAD
}

/// Reports whether a FAT entry ends a cluster chain.
pub fn is_eoc(entry: u32) -> (r: bool)
    ensures
        r == spec_is_eoc(entry),
{
    entry >= FAT_EOC
}

/// Reports whether a FAT entry marks a free cluster.
pub fn is_free(entry: u32) -> (r: bool)
    ensures
        r == spec_is_free(entry),
{
    entry == FAT_FREE
}

/// Reports whether a FAT entry marks a bad cluster.
pub fn is_bad(entry: u32) -> (r: bool)
    ensures
        r == spec_is_bad(entry),
{
    entry == FAT_BAD
}

/// Keeps the 28 effective bits of a raw FAT word.
pub fn mask_cluster(entry: u32) -> (r: u32)
    ensures
        r == entry & FAT_ENTRY_MASK,
        r < 0x10000000,
{
    proof {
        assert(entry & 0x0FFFFFFFu32 < 0x10000000u32) by (bit_vector);
    }
    entry & FAT_ENTRY_MASK
}

/// Free, bad and end-of-chain are pairwise exclusive classifications: no FAT
/// entry value falls under two of them.
pub proof fn lemma_fat_classes_exclusive(entry: u32)
    ensures
        !(spec_is_free(entry) && spec_is_bad(entry)),
        !(spec_is_free(entry) && spec_is_eoc(entry)),
        !(spec_is_bad(entry) && spec_is_eoc(entry)),
{
}

} // verus!

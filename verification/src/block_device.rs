//! The storage seam: a synchronous, sector-addressed block device.
//!
//! Any concrete medium (a file-backed image, an in-memory buffer, a physical
//! disk) implements this trait; it is the only way the crate reaches the
//! outside world. What a read returns depends on the medium, so the
//! contracts state only what holds of every outcome: a read keeps the
//! buffer's length, and each operation fails only with its own error kinds.

use vstd::prelude::*;
use crate::error::Fat32Error;

verus! {

/// A device of consecutive fixed-size sectors, numbered from zero.
pub trait BlockDevice {
    /// Fills `buffer` with the contents of sector `sector`.
    fn read_sector(&self, sector: u32, buffer: &mut Vec<u8>) -> (r: Result<(), Fat32Error>)
        requires
            old(buffer)@.len() == 512,
        ensures
            final(buffer)@.len() == old(buffer)@.len(),
            r is Err ==> (r->Err_0 == Fat32Error::InvalidSector || r->Err_0
                == Fat32Error::ReadError),
    ;

    /// Writes `buffer` as the new contents of sector `sector`.
    fn write_sector(&mut self, sector: u32, buffer: &Vec<u8>) -> (r: Result<(), Fat32Error>)
        requires
            buffer@.len() == 512,
        ensures
            r is Err ==> (r->Err_0 == Fat32Error::InvalidSector || r->Err_0
                == Fat32Error::WriteError),
    ;

    /// The size of one sector in bytes.
    fn sector_size(&self) -> u32 {
        512
    }
}

} // verus!

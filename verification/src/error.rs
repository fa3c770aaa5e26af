//! Error kinds shared by every operation of the crate.

use vstd::prelude::*;

verus! {

/// The ways a FAT32 operation can fail.
#[derive(Debug, Clone, Copy, PartialEq, Eq, Structural)]
pub enum Fat32Error {
    /// The boot sector or FSInfo sector carries a wrong magic value.
    InvalidSignature,
    /// A sector index lies outside the device.
    InvalidSector,
    /// A cluster number below 2 or otherwise out of range.
    InvalidCluster,
    /// The device failed to read a sector.
    ReadError,
    /// The device failed to write a sector.
    WriteError,
    /// Nothing matched the request; in particular, no free cluster exists.
    NotFound,
    /// No space is left on the volume.
    DiskFull,
    /// The entry to create already exists.
    AlreadyExists,
}

} // verus!

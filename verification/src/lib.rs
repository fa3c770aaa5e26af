//! A FAT32 access layer over an abstract sector-addressed block device.
//!
//! The crate decodes and encodes the three FAT32 control structures (boot
//! sector, FSInfo, directory entry) field by field in little-endian order,
//! derives the volume geometry from a boot sector, validates boot sectors,
//! reads and writes individual FAT entries, follows cluster chains, scans for
//! free clusters, and enumerates the first cluster of the root directory.
//! Storage is reached only through the `block_device::BlockDevice` trait.

pub mod block_device;
pub mod boot_sector;
pub mod constants;
pub mod dir_entry;
pub mod encoding;
pub mod error;
pub mod fat;
pub mod file_info;
pub mod file_ops;
pub mod fsinfo;
pub mod helpers;
pub mod parser;
pub mod validator;

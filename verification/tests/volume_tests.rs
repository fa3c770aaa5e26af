use fat32_parser::block_device::BlockDevice;
use fat32_parser::boot_sector::BootSector;
use fat32_parser::dir_entry::{ATTR_ARCHIVE, ATTR_DIRECTORY, DirEntry};
use fat32_parser::error::Fat32Error;
use fat32_parser::fsinfo::FSInfo;
use fat32_parser::helpers::short_name_to_string;
use fat32_parser::parser::Fat32Parser;

pub struct MockDevice {
    data: Vec<u8>,
}

impl MockDevice {
    pub fn new() -> Self {
        Self { data: vec![0; 512 * 10000] }
    }
}

impl BlockDevice for MockDevice {
    fn read_sector(&self, sector: u32, buffer: &mut Vec<u8>) -> Result<(), Fat32Error> {
        let offset = (sector as usize) * 512;
        if offset + 512 > self.data.len() {
            return Err(Fat32Error::InvalidSector);
        }
        buffer.clear();
        buffer.extend_from_slice(&self.data[offset..offset + 512]);
        Ok(())
    }

    fn write_sector(&mut self, sector: u32, buffer: &Vec<u8>) -> Result<(), Fat32Error> {
        let offset = (sector as usize) * 512;
        if offset + 512 > self.data.len() {
            return Err(Fat32Error::InvalidSector);
        }
        self.data[offset..offset + 512].copy_from_slice(buffer);
        Ok(())
    }
}

/// A device whose every operation fails at the media level.
struct BrokenDevice;

impl BlockDevice for BrokenDevice {
    fn read_sector(&self, _sector: u32, _buffer: &mut Vec<u8>) -> Result<(), Fat32Error> {
        Err(Fat32Error::ReadError)
    }

    fn write_sector(&mut self, _sector: u32, _buffer: &Vec<u8>) -> Result<(), Fat32Error> {
        Err(Fat32Error::WriteError)
    }
}

fn test_geometry_boot_sector() -> BootSector {
    BootSector {
        jmp_boot: vec![0xEB, 0x58, 0x90],
        oem_name: b"MSWIN4.1".to_vec(),
        bytes_per_sector: 512,
        sectors_per_cluster: 8,
        reserved_sector_count: 32,
        num_fats: 2,
        root_entry_count: 0,
        total_sectors_16: 0,
        media_type: 0xF8,
        fat_size_16: 0,
        sectors_per_track: 63,
        num_heads: 255,
        hidden_sectors: 0,
        total_sectors_32: 1024000,
        fat_size_32: 1000,
        ext_flags: 0,
        fs_version: 0,
        root_cluster: 2,
        fs_info_sector: 1,
        backup_boot_sector: 6,
        reserved: vec![0; 12],
        drive_number: 0x80,
        reserved1: 0,
        boot_signature: 0x29,
        volume_id: 0x12345678,
        volume_label: b"TEST VOL   ".to_vec(),
        fs_type: b"FAT32   ".to_vec(),
        boot_code: vec![0; 420],
        signature: 0xAA55,
    }
}

fn write_fat_entries(device: &mut MockDevice, fat_sector: u32, entries: &[(u32, u32)]) {
    let mut sector = vec![0u8; 512];
    for &(cluster, value) in entries {
        let off = (cluster as usize) * 4;
        sector[off..off + 4].copy_from_slice(&value.to_le_bytes());
    }
    device.write_sector(fat_sector, &sector).unwrap();
}

fn device_with_boot_sector() -> MockDevice {
    let mut device = MockDevice::new();
    let bs = test_geometry_boot_sector();
    device.write_sector(0, &bs.to_bytes()).unwrap();
    device
}

#[test]
fn test_mock_device() {
    let mut device = MockDevice::new();
    let mut buffer = vec![0u8; 512];
    buffer[0] = 0xAA;
    buffer[511] = 0x55;

    device.write_sector(0, &buffer).unwrap();

    let mut read_buffer = vec![0u8; 512];
    device.read_sector(0, &mut read_buffer).unwrap();

    assert_eq!(read_buffer[0], 0xAA);
    assert_eq!(read_buffer[511], 0x55);
}

#[test]
fn test_parser_open_and_boot_sector() {
    let device = device_with_boot_sector();
    let parser = Fat32Parser::new(device).unwrap();
    let bs = parser.boot_sector();
    assert_eq!(bs.bytes_per_sector, 512);
    assert_eq!(bs.sectors_per_cluster, 8);
    assert_eq!(bs.root_cluster, 2);
}

#[test]
fn test_parser_rejects_bad_signature() {
    let mut device = MockDevice::new();
    let mut bs = test_geometry_boot_sector();
    bs.signature = 0x1234;
    device.write_sector(0, &bs.to_bytes()).unwrap();
    match Fat32Parser::new(device) {
        Err(Fat32Error::InvalidSignature) => {}
        other => panic!("expected InvalidSignature, got {:?}", other.map(|_| ())),
    }
}

#[test]
fn test_parser_rejects_invalid_geometry() {
    // A good trailing signature alone does not mount: the whole boot sector
    // must pass validation.
    let mut device = MockDevice::new();
    let mut bs = test_geometry_boot_sector();
    bs.sectors_per_cluster = 3;
    device.write_sector(0, &bs.to_bytes()).unwrap();
    match Fat32Parser::new(device) {
        Err(Fat32Error::InvalidSignature) => {}
        other => panic!("expected InvalidSignature, got {:?}", other.map(|_| ())),
    }
}

#[test]
fn test_parser_read_error() {
    match Fat32Parser::new(BrokenDevice) {
        Err(Fat32Error::ReadError) => {}
        other => panic!("expected ReadError, got {:?}", other.map(|_| ())),
    }
}

#[test]
fn test_read_fat_entry_masks_high_nibble() {
    let mut device = device_with_boot_sector();
    write_fat_entries(&mut device, 32, &[(2, 0xF0000003)]);
    let parser = Fat32Parser::new(device).unwrap();
    assert_eq!(parser.read_fat_entry(2).unwrap(), 3);
}

#[test]
fn test_read_fat_entry_rejects_reserved_clusters() {
    let device = device_with_boot_sector();
    let parser = Fat32Parser::new(device).unwrap();
    assert_eq!(parser.read_fat_entry(0), Err(Fat32Error::InvalidCluster));
    assert_eq!(parser.read_fat_entry(1), Err(Fat32Error::InvalidCluster));
}

#[test]
fn test_write_fat_entry_round_trip() {
    let device = device_with_boot_sector();
    let mut parser = Fat32Parser::new(device).unwrap();
    parser.write_fat_entry(5, 0xF0000042).unwrap();
    assert_eq!(parser.read_fat_entry(5).unwrap(), 0x42);
    assert_eq!(parser.write_fat_entry(1, 7), Err(Fat32Error::InvalidCluster));
}

#[test]
fn test_find_free_cluster() {
    let mut device = device_with_boot_sector();
    write_fat_entries(
        &mut device,
        32,
        &[(2, 3), (3, 4), (4, 5), (5, 0x0FFFFFF8), (6, 0)],
    );
    let parser = Fat32Parser::new(device).unwrap();
    assert_eq!(parser.find_free_cluster().unwrap(), 6);
}

#[test]
fn test_find_free_cluster_none_left() {
    let mut device = MockDevice::new();
    let mut bs = test_geometry_boot_sector();
    // A volume of 8 clusters in all, every data cluster in use.
    bs.total_sectors_32 = 64;
    device.write_sector(0, &bs.to_bytes()).unwrap();
    write_fat_entries(
        &mut device,
        32,
        &[
            (2, 0x0FFFFFF8),
            (3, 0x0FFFFFF8),
            (4, 0x0FFFFFF8),
            (5, 0x0FFFFFF8),
            (6, 0x0FFFFFF8),
            (7, 0x0FFFFFF8),
        ],
    );
    let parser = Fat32Parser::new(device).unwrap();
    assert_eq!(parser.find_free_cluster(), Err(Fat32Error::NotFound));
}

#[test]
fn test_follow_cluster_chain() {
    let mut device = device_with_boot_sector();
    write_fat_entries(&mut device, 32, &[(2, 3), (3, 0x0FFFFFF8), (4, 5)]);
    let parser = Fat32Parser::new(device).unwrap();
    let chain = parser.follow_cluster_chain(2).unwrap();
    assert_eq!(chain, vec![2, 3]);
}

#[test]
fn test_follow_cluster_chain_from_terminator() {
    let device = device_with_boot_sector();
    let parser = Fat32Parser::new(device).unwrap();
    let chain = parser.follow_cluster_chain(0x0FFFFFF8).unwrap();
    assert!(chain.is_empty());
}

#[test]
fn test_follow_cluster_chain_bounded_on_cycle() {
    let mut device = device_with_boot_sector();
    write_fat_entries(&mut device, 32, &[(2, 3), (3, 2)]);
    let parser = Fat32Parser::new(device).unwrap();
    let chain = parser.follow_cluster_chain(2).unwrap();
    assert_eq!(chain.len(), 128);
}

#[test]
fn test_load_fsinfo_and_hints() {
    let mut device = device_with_boot_sector();
    let mut fsinfo = vec![0u8; 512];
    fsinfo[0..4].copy_from_slice(&0x41615252u32.to_le_bytes());
    fsinfo[484..488].copy_from_slice(&0x61417772u32.to_le_bytes());
    fsinfo[488..492].copy_from_slice(&1234u32.to_le_bytes());
    fsinfo[492..496].copy_from_slice(&0xFFFFFFFFu32.to_le_bytes());
    fsinfo[508..512].copy_from_slice(&0xAA550000u32.to_le_bytes());
    device.write_sector(1, &fsinfo).unwrap();
    let mut parser = Fat32Parser::new(device).unwrap();
    assert!(parser.fsinfo().is_none());
    parser.load_fsinfo().unwrap();
    let hint = parser.fsinfo().unwrap();
    assert_eq!(hint.free_clusters(), Some(1234));
    assert_eq!(hint.next_free_cluster(), None);
}

#[test]
fn test_load_fsinfo_rejects_conventional_struct_signature() {
    // The decoder accepts only 0x61417772 as the struct signature; the
    // conventional constant 0x61417272 is rejected.
    let mut device = device_with_boot_sector();
    let mut fsinfo = vec![0u8; 512];
    fsinfo[0..4].copy_from_slice(&0x41615252u32.to_le_bytes());
    fsinfo[484..488].copy_from_slice(&0x61417272u32.to_le_bytes());
    fsinfo[508..512].copy_from_slice(&0xAA550000u32.to_le_bytes());
    device.write_sector(1, &fsinfo).unwrap();
    let mut parser = Fat32Parser::new(device).unwrap();
    assert_eq!(parser.load_fsinfo(), Err(Fat32Error::InvalidSignature));
    assert!(parser.fsinfo().is_none());
}

#[test]
fn test_read_write_cluster_round_trip() {
    let device = device_with_boot_sector();
    let mut parser = Fat32Parser::new(device).unwrap();
    let mut data = vec![0u8; 4096];
    for (i, b) in data.iter_mut().enumerate() {
        *b = (i % 251) as u8;
    }
    parser.write_cluster(3, &data).unwrap();
    let mut back = vec![0u8; 4096];
    parser.read_cluster(3, &mut back).unwrap();
    assert_eq!(back, data);
    assert_eq!(
        parser.read_cluster(1, &mut back),
        Err(Fat32Error::InvalidCluster)
    );
    assert_eq!(
        parser.write_cluster(0, &data),
        Err(Fat32Error::InvalidCluster)
    );
}

#[test]
fn test_read_fat_entry_beyond_device() {
    let device = device_with_boot_sector();
    let parser = Fat32Parser::new(device).unwrap();
    // Cluster 0x0FFFFFF0 maps its FAT entry far past the mock device's end.
    assert_eq!(
        parser.read_fat_entry(0x0FFFFFF0),
        Err(Fat32Error::InvalidSector)
    );
}

#[test]
fn test_write_fat_entry_write_error() {
    let mut parser = Fat32Parser {
        device: HalfBrokenDevice { inner: device_with_boot_sector() },
        boot_sector: test_geometry_boot_sector(),
        fsinfo: None,
    };
    assert_eq!(parser.write_fat_entry(2, 7), Err(Fat32Error::WriteError));
}

/// A device that reads normally but refuses every write.
struct HalfBrokenDevice {
    inner: MockDevice,
}

impl BlockDevice for HalfBrokenDevice {
    fn read_sector(&self, sector: u32, buffer: &mut Vec<u8>) -> Result<(), Fat32Error> {
        self.inner.read_sector(sector, buffer)
    }

    fn write_sector(&mut self, _sector: u32, _buffer: &Vec<u8>) -> Result<(), Fat32Error> {
        Err(Fat32Error::WriteError)
    }
}

#[test]
fn test_end_to_end_root_directory() {
    let mut device = device_with_boot_sector();
    write_fat_entries(
        &mut device,
        32,
        &[
            (2, 0x0FFFFFF8),
            (3, 0x0FFFFFF8),
            (4, 0x0FFFFFF8),
            (5, 0x0FFFFFF8),
        ],
    );

    let file1 = DirEntry {
        name: b"README  TXT".to_vec(),
        attributes: ATTR_ARCHIVE,
        nt_reserved: 0,
        creation_time_tenth: 0,
        creation_time: 0,
        creation_date: 0,
        last_access_date: 0,
        first_cluster_high: 0,
        last_write_time: 0,
        last_write_date: 0,
        first_cluster_low: 3,
        file_size: 1024,
    };
    let file2 = DirEntry {
        name: b"DATA    BIN".to_vec(),
        attributes: ATTR_ARCHIVE,
        first_cluster_low: 4,
        file_size: 2048,
        ..blank_entry()
    };
    let dir1 = DirEntry {
        name: b"DOCS       ".to_vec(),
        attributes: ATTR_DIRECTORY,
        first_cluster_low: 5,
        file_size: 0,
        ..blank_entry()
    };

    // Root cluster 2 starts at sector 2032; lay the three entries into its
    // first sector.
    let mut sector = vec![0u8; 512];
    sector[0..32].copy_from_slice(&file1.to_bytes());
    sector[32..64].copy_from_slice(&file2.to_bytes());
    sector[64..96].copy_from_slice(&dir1.to_bytes());
    device.write_sector(2032, &sector).unwrap();

    let parser = Fat32Parser::new(device).unwrap();
    let entries = parser.read_root_dir().unwrap();
    assert_eq!(entries.len(), 16);

    let used: Vec<&DirEntry> = entries
        .iter()
        .filter(|e| !e.is_empty() && !e.is_long_name())
        .collect();
    assert_eq!(used.len(), 3);

    let name0 = short_name_to_string(&used[0].get_name());
    assert_eq!(&name0[0..10], b"README.TXT");
    assert_eq!(used[0].file_size, 1024);
    assert_eq!(used[0].first_cluster(), 3);
    assert!(used[0].is_file());

    let name1 = short_name_to_string(&used[1].get_name());
    assert_eq!(&name1[0..8], b"DATA.BIN");
    assert_eq!(used[1].file_size, 2048);
    assert_eq!(used[1].first_cluster(), 4);
    assert!(used[1].is_file());

    let name2 = short_name_to_string(&used[2].get_name());
    assert_eq!(&name2[0..4], b"DOCS");
    assert_eq!(used[2].first_cluster(), 5);
    assert!(used[2].is_directory());
}

fn blank_entry() -> DirEntry {
    DirEntry {
        name: vec![0; 11],
        attributes: 0,
        nt_reserved: 0,
        creation_time_tenth: 0,
        creation_time: 0,
        creation_date: 0,
        last_access_date: 0,
        first_cluster_high: 0,
        last_write_time: 0,
        last_write_date: 0,
        first_cluster_low: 0,
        file_size: 0,
    }
}

#[test]
fn test_fsinfo_decode_fields() {
    let mut raw = vec![0u8; 512];
    raw[0..4].copy_from_slice(&0x41615252u32.to_le_bytes());
    raw[484..488].copy_from_slice(&0x61417772u32.to_le_bytes());
    raw[488..492].copy_from_slice(&77u32.to_le_bytes());
    raw[492..496].copy_from_slice(&9u32.to_le_bytes());
    raw[508..512].copy_from_slice(&0xAA550000u32.to_le_bytes());
    let fsinfo = FSInfo::from_bytes(&raw);
    assert!(fsinfo.is_valid());
    assert_eq!(fsinfo.free_clusters(), Some(77));
    assert_eq!(fsinfo.next_free_cluster(), Some(9));
}

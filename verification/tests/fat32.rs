use visor::fat32::mbr::Error;
use visor::fat32::mbr::MasterBootRecord;
use visor::fat32::vfat::cluster::Cluster;
use visor::fat32::vfat::ebpb::BiosParameterBlock;
use visor::fat32::vfat::fat::FatEntry;
use visor::fat32::vfat::fat::Status;
use visor::fat32::vfat::metadata::Attributes;
use visor::fat32::vfat::metadata::Date;
use visor::fat32::vfat::metadata::Metadata;
use visor::fat32::vfat::metadata::Time;
use visor::fat32::vfat::metadata::Timestamp;

fn signed_sector() -> Vec<u8> {
    let mut sector = vec![0u8; 512];
    sector[0x1FE] = 0x55;
    sector[0x1FF] = 0xAA;
    sector
}

#[test]
fn test_mbr_bad_signature() {
    let sector = vec![0u8; 512];
    assert_eq!(MasterBootRecord::from(&sector), Err(Error::BadSignature));
}

#[test]
fn test_mbr_bad_boot_indicator() {
    let mut sector = signed_sector();
    sector[0x1BE + 16] = 0x7F; // slot 1
    assert_eq!(MasterBootRecord::from(&sector), Err(Error::UnknownBootIndicator(1)));
}

#[test]
fn test_mbr_decodes_partition() {
    let mut sector = signed_sector();
    let off = 0x1BE;
    sector[off] = 0x80; // bootable
    sector[off + 4] = 0x0C; // FAT32 with LBA
    sector[off + 8] = 0x00; // offset = 0x800
    sector[off + 9] = 0x08;
    sector[off + 12] = 0x00; // num_sectors = 0x40000
    sector[off + 14] = 0x04;
    let mbr = MasterBootRecord::from(&sector).expect("a valid record");
    assert_eq!(mbr.magic, 0xAA55);
    let p = &mbr.partition_table[0];
    assert!(p.bootable());
    assert_eq!(p.part_type, 0x0C);
    assert_eq!(p.offset, 0x800);
    assert_eq!(p.num_sectors, 0x40000);
    assert!(!mbr.partition_table[1].bootable());
}

#[test]
fn test_chs_fields() {
    let mut sector = signed_sector();
    let off = 0x1BE;
    sector[off + 1] = 3; // head
    sector[off + 2] = 0b1010_0101; // sec_cyl low byte
    sector[off + 3] = 0b0000_0110; // sec_cyl high byte
    let mbr = MasterBootRecord::from(&sector).expect("a valid record");
    let chs = mbr.partition_table[0].start;
    assert_eq!(chs.head(), 3);
    let sec_cyl: u16 = 0b0000_0110_1010_0101;
    assert_eq!(chs.sector(), sec_cyl & 0x3F);
    assert_eq!(chs.cylinder(), (sec_cyl >> 6) & 0x3FF);
}

#[test]
fn test_ebpb_fields() {
    let mut sector = signed_sector();
    sector[0x0B] = 0x00; // 512 bytes per sector
    sector[0x0C] = 0x02;
    sector[0x0D] = 8; // sectors per cluster
    sector[0x0E] = 0x20; // reserved sectors
    sector[0x10] = 2; // FATs
    sector[0x24] = 0x40; // sectors per FAT
    sector[0x2C] = 2; // root cluster
    sector[0x42] = 0x29; // signature
    let b = BiosParameterBlock::from(&sector).expect("a valid block");
    assert_eq!(b.bytes_per_sector, 512);
    assert_eq!(b.sectors_per_cluster, 8);
    assert_eq!(b.reserved_sectors, 0x20);
    assert_eq!(b.num_fats, 2);
    assert_eq!(b.sectors_per_fat_32, 0x40);
    assert_eq!(b.root_cluster, 2);
    assert_eq!(b.signature, 0x29);
    assert_eq!(b.magic, 0xAA55);

    let bad = vec![0u8; 512];
    assert!(BiosParameterBlock::from(&bad).is_err());
}

#[test]
fn test_fat_entry_bands() {
    assert_eq!(FatEntry(0).status(), Status::Free);
    assert_eq!(FatEntry(1).status(), Status::Reserved);
    assert_eq!(FatEntry(0xFFFFFF0).status(), Status::Reserved);
    assert_eq!(FatEntry(0xFFFFFF6).status(), Status::Reserved);
    assert_eq!(FatEntry(0xFFFFFF7).status(), Status::Bad);
    assert_eq!(FatEntry(0xFFFFFF8).status(), Status::Eoc(0xFFFFFF8));
    assert_eq!(FatEntry(0xFFFFFFF).status(), Status::Eoc(0xFFFFFFF));
    // The reserved top nibble is ignored.
    assert_eq!(FatEntry(0xF0000005).status(), Status::Data(Cluster::from(5)));
}

#[test]
fn test_cluster_values() {
    let c = Cluster::from(0xF0000007);
    assert_eq!(c.raw_value(), 7);
    assert_eq!(c.logical_value(), 5);
}

#[test]
fn test_timestamp_fields() {
    // 2024-06-15, 13:45:31, with 1.10 s of extra tenths.
    let date = Date(((2024 - 1980) << 9) | (6 << 5) | 15);
    let time = Time((13 << 11) | (45 << 5) | 15);
    let ts = Timestamp { date, time, time_10ms: 110 };
    assert_eq!(ts.year(), 2024);
    assert_eq!(ts.month(), 6);
    assert_eq!(ts.day(), 15);
    assert_eq!(ts.hour(), 13);
    assert_eq!(ts.minute(), 45);
    assert_eq!(ts.second(), 31);
}

#[test]
fn test_attribute_bits() {
    let a = Attributes(0x34);
    assert!(a.system());
    assert!(!a.volume_id());
    assert!(a.directory());
    assert!(a.archive());
    assert!(!a.lfn());
    assert!(Attributes(0x0F).lfn());

    let m = Metadata { attributes: Attributes(0x03), ..Default::default() };
    assert!(m.read_only());
    assert!(m.hidden());
    assert_eq!(m.accessed().time, Time(0));
}

#[test]
fn test_attribute_summary_letters() {
    let m = Metadata { attributes: Attributes(0x27), ..Default::default() };
    assert_eq!(m.attribute_summary(), "RASH");
    let lfn = Metadata { attributes: Attributes(0x0F), ..Default::default() };
    assert_eq!(lfn.attribute_summary(), "LFN");
    let plain = Metadata::default();
    assert_eq!(plain.attribute_summary(), "");
}

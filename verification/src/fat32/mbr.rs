//! The master boot record: the first sector of the card, with its four
//! partition entries and its magic signature. Decoding works on the
//! sector's 512 bytes; reading them off the device is the shell's job.
use vstd::prelude::*;

verus! {

use crate::traps::mmio::spec_word_at;

/// A legacy cylinder-head-sector position, packed in three bytes.
#[derive(Copy, Clone, Debug, PartialEq, Eq, Structural)]
pub struct CHS {
    pub head: u8,
    pub sec_cyl: u16,
}

impl CHS {
    /// Packs the stored head byte and sector/cylinder word.
    pub fn new(head: u8, sec_cyl: u16) -> (r: CHS)
        ensures
            r.head == head,
            r.sec_cyl == sec_cyl,
    {
        CHS { head, sec_cyl }
    }

    /// The head number.
    pub fn head(&self) -> (r: u8)
        ensures
            r == self.head,
    {
        self.head
    }

    /// The cylinder number, from the word's top ten bits.
    pub fn cylinder(&self) -> (r: u16)
        ensures
            r == (self.sec_cyl >> 6) & 0x3FF,
    {
        (self.sec_cyl >> 6u16) & 0x3FF
    }

    /// The sector number, from the word's low six bits.
    pub fn sector(&self) -> (r: u16)
        ensures
            r == self.sec_cyl & 0x3F,
    {
        self.sec_cyl & 0x3F
    }
}

/// One of the four partition-table slots.
#[derive(Copy, Clone, Debug, PartialEq, Eq, Structural)]
pub struct PartitionEntry {
    pub boot_indicator: u8,
    pub start: CHS,
    pub part_type: u8,
    pub end: CHS,
    pub offset: u32,
    pub num_sectors: u32,
}

impl PartitionEntry {
    /// Whether the slot is marked bootable.
    pub fn bootable(&self) -> (r: bool)
        ensures
            r == (self.boot_indicator == 0x80),
    {
        self.boot_indicator == 0x80
    }
}

/// The decoded master boot record.
#[derive(Debug, Clone, PartialEq, Eq)]
pub struct MasterBootRecord {
    pub bootstrap: Vec<u8>,
    pub disk_id: Vec<u8>,
    pub partition_table: Vec<PartitionEntry>,
    pub magic: u16,
}

/// Why a sector failed to decode as a master boot record.
#[derive(Debug, PartialEq, Eq, Copy, Clone, Structural)]
pub enum Error {
    /// Partition slot `.0` (0-indexed) holds an invalid boot
    /// indicator.
    UnknownBootIndicator(u8),
    /// The magic signature is wrong.
    BadSignature,
}

/// The sector carries the boot signature 0x55, 0xAA at its end.
pub open spec fn spec_signature_ok(sector: Seq<u8>) -> bool {
    sector[0x1FE] == 0x55 && sector[0x1FF] == 0xAA
}

/// Partition slot `n`'s boot indicator byte.
pub open spec fn spec_boot_indicator(sector: Seq<u8>, n: int) -> u8 {
    sector[0x1BE + 16 * n]
}

/// Slot `n` holds a legal boot indicator: inactive or bootable.
pub open spec fn spec_boot_indicator_ok(sector: Seq<u8>, n: int) -> bool {
    spec_boot_indicator(sector, n) == 0x00 || spec_boot_indicator(sector, n) == 0x80
}

/// The partition entry encoded in slot `n` of the sector.
pub open spec fn spec_partition_at(sector: Seq<u8>, n: int) -> PartitionEntry {
    let off = 0x1BE + 16 * n;
    PartitionEntry {
        boot_indicator: sector[off],
        start: CHS {
            head: sector[off + 1],
            sec_cyl: spec_word_at(sector, off + 2, 2) as u16,
        },
        part_type: sector[off + 4],
        end: CHS { head: sector[off + 5], sec_cyl: spec_word_at(sector, off + 6, 2) as u16 },
        offset: spec_word_at(sector, off + 8, 4) as u32,
        num_sectors: spec_word_at(sector, off + 12, 4) as u32,
    }
}

/// Reads a little-endian 16-bit word of the sector.
fn read_u16(sector: &Vec<u8>, off: usize) -> (r: u16)
    requires
        off + 2 <= sector@.len(),
        sector@.len() == 512,
    ensures
        r == spec_word_at(sector@, off as int, 2),
{
    proof {
        reveal_with_fuel(spec_word_at, 3);
    }
    (sector[off] as u16) + 256 * (sector[off + 1] as u16)
}

/// Reads a little-endian 32-bit word of the sector.
fn read_u32(sector: &Vec<u8>, off: usize) -> (r: u32)
    requires
        off + 4 <= sector@.len(),
        sector@.len() == 512,
    ensures
        r == spec_word_at(sector@, off as int, 4),
{
    proof {
        reveal_with_fuel(spec_word_at, 5);
    }
    (sector[off] as u32) + 256 * (sector[off + 1] as u32) + 65536 * (sector[off + 2] as u32)
        + 16777216 * (sector[off + 3] as u32)
}

impl MasterBootRecord {
    /// Decodes the master boot record from its 512-byte sector.
    ///
    /// Fails with `BadSignature` when the magic signature is wrong,
    /// and with `UnknownBootIndicator(n)` when slot `n` is the first
    /// with an illegal boot indicator; otherwise every field of the
    /// result decodes the corresponding bytes.
    pub fn from(sector: &Vec<u8>) -> (r: Result<MasterBootRecord, Error>)
        requires
            sector@.len() == 512,
        ensures
            !spec_signature_ok(sector@) <==> r == Err::<MasterBootRecord, Error>(
                Error::BadSignature,
            ),
            (match r {
                Err(Error::UnknownBootIndicator(n)) => spec_signature_ok(sector@) && n < 4
                    && !spec_boot_indicator_ok(sector@, n as int) && (forall|m: int|
                    0 <= m < n ==> spec_boot_indicator_ok(sector@, m)),
                _ => true,
            }),
            (match r {
                Ok(mbr) => {
                    &&& spec_signature_ok(sector@)
                    &&& forall|m: int| 0 <= m < 4 ==> spec_boot_indicator_ok(sector@, m)
                    &&& mbr.bootstrap@ == sector@.take(436)
                    &&& mbr.disk_id@ == sector@.subrange(436, 446)
                    &&& mbr.partition_table@.len() == 4
                    &&& forall|m: int|
                        0 <= m < 4 ==> mbr.partition_table@[m] == spec_partition_at(sector@, m)
                    &&& mbr.magic == spec_word_at(sector@, 0x1FE, 2)
                },
                Err(_) => true,
            }),
    {
        if !(sector[0x1FE] == 0x55 && sector[0x1FF] == 0xAA) {
            return Err(Error::BadSignature);
        }
        let mut partition_table: Vec<PartitionEntry> = Vec::new();
        let mut n: usize = 0;
        while n < 4
            invariant
                sector@.len() == 512,
                spec_signature_ok(sector@),
                n <= 4,
                partition_table@.len() == n,
                forall|m: int| 0 <= m < n ==> spec_boot_indicator_ok(sector@, m),
                forall|m: int|
                    0 <= m < n ==> partition_table@[m] == spec_partition_at(sector@, m),
            decreases 4 - n,
        {
            let off = 0x1BE + 16 * n;
            let boot_indicator = sector[off];
            if !(boot_indicator == 0x00 || boot_indicator == 0x80) {
                return Err(Error::UnknownBootIndicator(n as u8));
            }
            let entry = PartitionEntry {
                boot_indicator,
                start: CHS::new(sector[off + 1], read_u16(sector, off + 2)),
                part_type: sector[off + 4],
                end: CHS::new(sector[off + 5], read_u16(sector, off + 6)),
                offset: read_u32(sector, off + 8),
                num_sectors: read_u32(sector, off + 12),
            };
            partition_table.push(entry);
            n = n + 1;
        }
        let mut bootstrap: Vec<u8> = Vec::new();
        let mut i: usize = 0;
        while i < 436
            invariant
                sector@.len() == 512,
                i <= 436,
                bootstrap@ == sector@.take(i as int),
            decreases 436 - i,
        {
            bootstrap.push(sector[i]);
            proof {
                assert(bootstrap@ =~= sector@.take(i + 1));
            }
            i = i + 1;
        }
        let mut disk_id: Vec<u8> = Vec::new();
        let mut i: usize = 436;
        while i < 446
            invariant
                sector@.len() == 512,
                436 <= i <= 446,
                disk_id@ == sector@.subrange(436, i as int),
            decreases 446 - i,
        {
            disk_id.push(sector[i]);
            proof {
                assert(disk_id@ =~= sector@.subrange(436, i + 1));
            }
            i = i + 1;
        }
        let magic = read_u16(sector, 0x1FE);
        Ok(MasterBootRecord { bootstrap, disk_id, partition_table, magic })
    }
}

} // verus!

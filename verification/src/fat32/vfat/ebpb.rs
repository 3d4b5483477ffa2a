//! The FAT32 extended BIOS parameter block: the first sector of the
//! partition, decoded field by field from its 512 bytes.
use vstd::prelude::*;

verus! {

use crate::traps::mmio::spec_word_at;

/// Why a sector failed to decode as a parameter block.
#[derive(Debug, PartialEq, Eq, Copy, Clone, Structural)]
pub enum Error {
    /// The magic signature is wrong.
    BadSignature,
}

/// The decoded FAT32 extended BIOS parameter block. Reserved and
/// free-form byte runs stay as raw bytes.
#[derive(Debug, Clone, PartialEq, Eq)]
pub struct BiosParameterBlock {
    pub jmp_short: Vec<u8>,
    pub oem_ident: Vec<u8>,
    pub bytes_per_sector: u16,
    pub sectors_per_cluster: u8,
    pub reserved_sectors: u16,
    pub num_fats: u8,
    pub max_dir_entries: u16,
    pub total_sectors_16: u16,
    pub fat_id: u8,
    pub sectors_per_fat_16: u16,
    pub sectors_per_track: u16,
    pub num_heads: u16,
    pub hidden_sectors: u32,
    pub total_sectors_32: u32,
    pub sectors_per_fat_32: u32,
    pub flags: u16,
    pub version: u16,
    pub root_cluster: u32,
    pub fsinfo_sector: u16,
    pub backup_boot_sector: u16,
    pub drive_number: u8,
    pub nt_flags: u8,
    pub signature: u8,
    pub volume_id: u32,
    pub volume_label: Vec<u8>,
    pub system_identifier: Vec<u8>,
    pub magic: u16,
}

/// The sector carries the boot signature 0x55, 0xAA at its end.
pub open spec fn spec_ebpb_signature_ok(sector: Seq<u8>) -> bool {
    sector[0x1FE] == 0x55 && sector[0x1FF] == 0xAA
}

/// Reads a little-endian 16-bit word of the sector.
fn read_u16(sector: &Vec<u8>, off: usize) -> (r: u16)
    requires
        off + 2 <= sector@.len(),
        sector@.len() == 512,
    ensures
        r == spec_word_at(sector@, off as int, 2),
{
    proof {
        reveal_with_fuel(spec_word_at, 3);
    }
    (sector[off] as u16) + 256 * (sector[off + 1] as u16)
}

/// Reads a little-endian 32-bit word of the sector.
fn read_u32(sector: &Vec<u8>, off: usize) -> (r: u32)
    requires
        off + 4 <= sector@.len(),
        sector@.len() == 512,
    ensures
        r == spec_word_at(sector@, off as int, 4),
{
    proof {
        reveal_with_fuel(spec_word_at, 5);
    }
    (sector[off] as u32) + 256 * (sector[off + 1] as u32) + 65536 * (sector[off + 2] as u32)
        + 16777216 * (sector[off + 3] as u32)
}

/// Copies `sector[from..to)`.
fn read_bytes(sector: &Vec<u8>, from: usize, to: usize) -> (r: Vec<u8>)
    requires
        from <= to <= sector@.len(),
        sector@.len() == 512,
    ensures
        r@ == sector@.subrange(from as int, to as int),
{
    let mut out: Vec<u8> = Vec::new();
    let mut i = from;
    while i < to
        invariant
            from <= i <= to <= sector@.len(),
            sector@.len() == 512,
            out@ == sector@.subrange(from as int, i as int),
        decreases to - i,
    {
        out.push(sector[i]);
        proof {
            assert(out@ =~= sector@.subrange(from as int, i + 1));
        }
        i = i + 1;
    }
    out
}

impl BiosParameterBlock {
    /// Decodes the parameter block from its 512-byte sector. Fails
    /// exactly when the magic signature is wrong; otherwise every
    /// field decodes the corresponding bytes.
    pub fn from(sector: &Vec<u8>) -> (r: Result<BiosParameterBlock, Error>)
        requires
            sector@.len() == 512,
        ensures
            r is Err <==> !spec_ebpb_signature_ok(sector@),
            (match r {
                Ok(b) => {
                    &&& b.jmp_short@ == sector@.subrange(0, 3)
                    &&& b.oem_ident@ == sector@.subrange(3, 11)
                    &&& b.bytes_per_sector == spec_word_at(sector@, 0x0B, 2)
                    &&& b.sectors_per_cluster == sector@[0x0D]
                    &&& b.reserved_sectors == spec_word_at(sector@, 0x0E, 2)
                    &&& b.num_fats == sector@[0x10]
                    &&& b.max_dir_entries == spec_word_at(sector@, 0x11, 2)
                    &&& b.total_sectors_16 == spec_word_at(sector@, 0x13, 2)
                    &&& b.fat_id == sector@[0x15]
                    &&& b.sectors_per_fat_16 == spec_word_at(sector@, 0x16, 2)
                    &&& b.sectors_per_track == spec_word_at(sector@, 0x18, 2)
                    &&& b.num_heads == spec_word_at(sector@, 0x1A, 2)
                    &&& b.hidden_sectors == spec_word_at(sector@, 0x1C, 4)
                    &&& b.total_sectors_32 == spec_word_at(sector@, 0x20, 4)
                    &&& b.sectors_per_fat_32 == spec_word_at(sector@, 0x24, 4)
                    &&& b.flags == spec_word_at(sector@, 0x28, 2)
                    &&& b.version == spec_word_at(sector@, 0x2A, 2)
                    &&& b.root_cluster == spec_word_at(sector@, 0x2C, 4)
                    &&& b.fsinfo_sector == spec_word_at(sector@, 0x30, 2)
                    &&& b.backup_boot_sector == spec_word_at(sector@, 0x32, 2)
                    &&& b.drive_number == sector@[0x40]
                    &&& b.nt_flags == sector@[0x41]
                    &&& b.signature == sector@[0x42]
                    &&& b.volume_id == spec_word_at(sector@, 0x43, 4)
                    &&& b.volume_label@ == sector@.subrange(0x47, 0x52)
                    &&& b.system_identifier@ == sector@.subrange(0x52, 0x5A)
                    &&& b.magic == spec_word_at(sector@, 0x1FE, 2)
                },
                Err(_) => true,
            }),
    {
        if !(sector[0x1FE] == 0x55 && sector[0x1FF] == 0xAA) {
            return Err(Error::BadSignature);
        }
        Ok(
            BiosParameterBlock {
                jmp_short: read_bytes(sector, 0, 3),
                oem_ident: read_bytes(sector, 3, 11),
                bytes_per_sector: read_u16(sector, 0x0B),
                sectors_per_cluster: sector[0x0D],
                reserved_sectors: read_u16(sector, 0x0E),
                num_fats: sector[0x10],
                max_dir_entries: read_u16(sector, 0x11),
                total_sectors_16: read_u16(sector, 0x13),
                fat_id: sector[0x15],
                sectors_per_fat_16: read_u16(sector, 0x16),
                sectors_per_track: read_u16(sector, 0x18),
                num_heads: read_u16(sector, 0x1A),
                hidden_sectors: read_u32(sector, 0x1C),
                total_sectors_32: read_u32(sector, 0x20),
                sectors_per_fat_32: read_u32(sector, 0x24),
                flags: read_u16(sector, 0x28),
                version: read_u16(sector, 0x2A),
                root_cluster: read_u32(sector, 0x2C),
                fsinfo_sector: read_u16(sector, 0x30),
                backup_boot_sector: read_u16(sector, 0x32),
                drive_number: sector[0x40],
                nt_flags: sector[0x41],
                signature: sector[0x42],
                volume_id: read_u32(sector, 0x43),
                volume_label: read_bytes(sector, 0x47, 0x52),
                system_identifier: read_bytes(sector, 0x52, 0x5A),
                magic: read_u16(sector, 0x1FE),
            },
        )
    }
}

} // verus!

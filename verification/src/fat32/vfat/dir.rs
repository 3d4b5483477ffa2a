//! Directory entries as FAT32 lays them out on disk: the regular
//! 8.3-name form, the long-file-name form whose name is split over
//! three runs, and the undecoded form used to sniff which of the two a
//! 32-byte slot holds.
use vstd::prelude::*;

verus! {

use crate::fat32::vfat::metadata::Attributes;
use crate::fat32::vfat::metadata::Date;
use crate::fat32::vfat::metadata::Time;

/// A regular directory entry: 8.3 name, attributes, timestamps, the
/// first cluster split in two halves, and the file size.
#[derive(Copy, Clone, Debug, PartialEq, Eq)]
pub struct VFatRegularDirEntry {
    pub file_name: [u8; 8],
    pub file_extension: [u8; 3],
    pub attributes: Attributes,
    pub reserved_nt: u8,
    pub creation_time_tenths: u8,
    pub creation_time: Time,
    pub creation_date: Date,
    pub access_date: Date,
    pub cluster_hi: u16,
    pub modified_time: Time,
    pub modified_date: Date,
    pub cluster_lo: u16,
    pub filesize: u32,
}

/// A long-file-name entry: a sequence number and thirteen UTF-16 code
/// units split over three byte runs.
#[derive(Copy, Clone, Debug, PartialEq, Eq)]
pub struct VFatLfnDirEntry {
    pub sequence_number: u8,
    pub name_1: [u8; 10],
    pub attributes: Attributes,
    pub lfn_type: u8,
    pub checksum_dos: u8,
    pub name_2: [u8; 12],
    pub reserved: u16,
    pub name_3: [u8; 4],
}

impl VFatLfnDirEntry {
    /// The entry's slice of the long name: the three byte runs, in
    /// order.
    pub fn full_name(&self) -> (r: Vec<u8>)
        ensures
            r@ == self.name_1@ + self.name_2@ + self.name_3@,
    {
        let mut out: Vec<u8> = Vec::new();
        let mut i: usize = 0;
        while i < 10
            invariant
                i <= 10,
                out@ == self.name_1@.take(i as int),
            decreases 10 - i,
        {
            out.push(self.name_1[i]);
            proof {
                assert(out@ =~= self.name_1@.take(i + 1));
            }
            i = i + 1;
        }
        let mut i: usize = 0;
        while i < 12
            invariant
                i <= 12,
                out@ == self.name_1@ + self.name_2@.take(i as int),
            decreases 12 - i,
        {
            out.push(self.name_2[i]);
            proof {
                assert(out@ =~= self.name_1@ + self.name_2@.take(i + 1));
            }
            i = i + 1;
        }
        let mut i: usize = 0;
        while i < 4
            invariant
                i <= 4,
                out@ == self.name_1@ + self.name_2@ + self.name_3@.take(i as int),
            decreases 4 - i,
        {
            out.push(self.name_3[i]);
            proof {
                assert(out@ =~= self.name_1@ + self.name_2@ + self.name_3@.take(i + 1));
            }
            i = i + 1;
        }
        proof {
            assert(out@ =~= self.name_1@ + self.name_2@ + self.name_3@);
        }
        out
    }

    /// Where this slice sits in the long name, counted from zero: the
    /// stored sequence field's low five bits, one-based on disk.
    ///
    /// Callers pass a real long-file-name entry, whose stored
    /// sequence number starts at one.
    pub fn sequence_number(&self) -> (r: u8)
        requires
            self.sequence_number & 0x1F >= 1,
        ensures
            r == (self.sequence_number & 0x1F) - 1,
    {
        (self.sequence_number & 0x1F) - 1
    }
}

/// A directory slot before deciding its form: only the leading id byte
/// and the attribute byte mean anything yet.
#[derive(Copy, Clone, Debug, PartialEq, Eq, Structural)]
pub struct VFatUnknownDirEntry {
    pub id: u8,
    pub attributes: Attributes,
}

} // verus!

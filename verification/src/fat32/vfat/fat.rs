//! File-allocation-table entries: each data cluster's 32-bit entry says
//! whether the cluster is free, reserved, bad, chained to a next
//! cluster, or the end of its chain.
use vstd::prelude::*;

verus! {

use crate::fat32::vfat::cluster::Cluster;

/// What a FAT entry says about its cluster.
#[derive(Debug, PartialEq, Eq, Copy, Clone, Structural)]
pub enum Status {
    /// The entry corresponds to an unused (free) cluster.
    Free,
    /// The entry or its cluster is reserved.
    Reserved,
    /// A valid data cluster; the next cluster in the chain follows.
    Data(Cluster),
    /// A bad (disk failed) cluster.
    Bad,
    /// A valid data cluster, the last in its chain.
    Eoc(u32),
}

/// A raw 32-bit FAT entry.
#[derive(Copy, Clone, Debug, PartialEq, Eq, Structural)]
pub struct FatEntry(pub u32);

/// The status denoted by a raw FAT entry: its low 28 bits place it in
/// the free, reserved, bad, end-of-chain or data band.
pub open spec fn spec_status_of(v: u32) -> Status {
    let b = v & 0x0FFFFFFF;
    if b == 0 {
        Status::Free
    } else if b == 1 || (0xFFFFFF0 <= b && b <= 0xFFFFFF6) {
        Status::Reserved
    } else if b == 0xFFFFFF7 {
        Status::Bad
    } else if 0xFFFFFF8 <= b && b <= 0xFFFFFFF {
        Status::Eoc(b)
    } else {
        Status::Data(Cluster(b))
    }
}

impl FatEntry {
    /// Returns the `Status` of the FAT entry.
    pub fn status(&self) -> (r: Status)
        ensures
            r == spec_status_of(self.0),
    {
        proof {
            let v = self.0;
            assert(v & !0xF0000000u32 == v & 0x0FFFFFFF && (v & 0x0FFFFFFF) & 0x0FFFFFFF == v
                & 0x0FFFFFFF) by (bit_vector);
        }
        let b = self.0 & !0xF0000000u32;
        if b == 0 {
            Status::Free
        } else if b == 1 || (0xFFFFFF0 <= b && b <= 0xFFFFFF6) {
            Status::Reserved
        } else if b == 0xFFFFFF7 {
            Status::Bad
        } else if 0xFFFFFF8 <= b && b <= 0xFFFFFFF {
            Status::Eoc(b)
        } else {
            Status::Data(Cluster::from(b))
        }
    }
}

} // verus!

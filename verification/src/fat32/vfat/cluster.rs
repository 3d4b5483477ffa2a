//! Cluster numbers. On disk the top four bits of a FAT32 cluster field
//! are reserved; a `Cluster` carries only the 28 meaningful bits.
use vstd::prelude::*;

verus! {

/// A FAT32 cluster number, reserved bits stripped.
#[derive(PartialEq, Eq, Copy, Clone, Debug, Hash, Structural)]
pub struct Cluster(pub u32);

impl Cluster {
    /// Wraps a raw on-disk cluster field, stripping the reserved top
    /// four bits.
    pub fn from(raw_num: u32) -> (r: Cluster)
        ensures
            r == Cluster(raw_num & 0x0FFFFFFF),
    {
        proof {
            assert(raw_num & !(0xFu32 << 28) == raw_num & 0x0FFFFFFF) by (bit_vector);
        }
        Cluster(raw_num & !(0xFu32 << 28u32))
    }

    /// The cluster number as stored.
    pub fn raw_value(&self) -> (r: u32)
        ensures
            r == self.0,
    {
        self.0
    }

    /// The cluster's index among data clusters: clusters 0 and 1 are
    /// reserved, so data starts at 2.
    ///
    /// Reserved clusters have no such index; callers pass a data
    /// cluster.
    pub fn logical_value(&self) -> (r: u32)
        requires
            self.0 >= 2,
        ensures
            r == self.0 - 2,
    {
        self.0 - 2
    }
}

} // verus!

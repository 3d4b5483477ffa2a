//! FAT32 on-disk records: the BIOS parameter block, cluster numbers,
//! file-allocation-table entries, directory entries and their
//! metadata.
use vstd::prelude::*;

pub mod cluster;
pub mod dir;
pub mod ebpb;
pub mod fat;
pub mod metadata;

verus! {

} // verus!

//! The on-disk structures the boot path reads: the master boot record
//! and the FAT32 structures of the partition holding the guest image.
//! Reading sectors off the card is the shell's job; decoding them
//! happens here.
use vstd::prelude::*;

pub mod mbr;
pub mod vfat;

verus! {

} // verus!

//! A minimal ARMv8-A hypervisor core, verified: a size-classed bin
//! allocator, 64 KiB-granule stage-1 and stage-2 page tables, exception
//! syndrome decoding, trap-and-emulate MMIO, a trap frame with world-switch
//! save/restore, and a round-robin scheduler, together with the small
//! on-disk structures (master boot record, FAT32 metadata, ATAGs) that the
//! boot path reads and writes.
//!
//! Hardware access itself (device registers, system registers, real
//! physical memory) is out of reach of verification; every algorithm here
//! works on plain values, and the thin unverified shell around the crate
//! performs the actual loads and stores.
use vstd::prelude::*;

pub mod allocator;
pub mod atags;
pub mod fat32;
pub mod mutex;
pub mod param;
pub mod process;
pub mod stack_vec;
pub mod traps;
pub mod util;
pub mod vm;

verus! {

} // verus!

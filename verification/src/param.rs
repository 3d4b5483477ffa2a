//! System-wide constants: page geometry, the guest's address-space
//! bounds, and the peripheral window of the target board.
use vstd::prelude::*;

verus! {

/// Bit position of a page-table entry's ADDR field: pages are 64 KiB.
pub const PAGE_ALIGN: u64 = 16;

/// Size of one page: 64 KiB.
pub const PAGE_SIZE: u64 = 65536;

/// Input-address bits translated by the guest's stage-2 map (1 GiB).
pub const GUEST_MASK_BITS: u64 = 34;

/// Input-address bits translated by the hypervisor's stage-1 map (4 GiB).
pub const VISOR_MASK_BITS: u64 = 32;

/// Where the guest kernel image begins in guest physical memory.
pub const KERN_START_ADDR: u64 = 0x80000;

/// Size of the guest's physical memory (256 MiB).
pub const GUEST_MAX_VM_SIZE: u64 = 0x10000000;

/// Base of the hypervisor's stack.
pub const KERN_STACK_BASE: u64 = 0x80000;

/// Start of the memory-mapped peripheral window.
pub const IO_BASE: u64 = 0x3F000000;

/// End of the memory-mapped peripheral window.
pub const IO_BASE_END: u64 = 0x40000000;

/// Offset of the ATAG list inside the guest's first page.
pub const ATAG_BASE: u64 = 0x100;

/// Preemption-timer period in milliseconds.
pub const TICK_MS: u64 = 1000;

} // verus!

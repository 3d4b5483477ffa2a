//! Virtual memory: page tables for both translation stages, and the
//! manager that owns the hypervisor's stage-1 map behind its lock.
//! Installing the map into the translation registers is the shell's
//! job; deciding what the map says happens here.
use vstd::prelude::*;

pub mod pagetable;

verus! {

use crate::mutex::Mutex;
use crate::param::GUEST_MASK_BITS;
use crate::param::PAGE_SIZE;
use crate::param::VISOR_MASK_BITS;
use crate::vm::pagetable::VisorPageTable;
use crate::vm::pagetable::va_in_range;
use crate::vm::pagetable::spec_attr;

/// The hypervisor's stage-1 map behind its lock, present once
/// `initialize` has run.
pub struct VMManager {
    inner: Mutex<Option<VisorPageTable>>,
}

impl VMManager {
    /// The lock can be taken.
    pub closed spec fn wf(&self) -> bool {
        self.inner.wf() && !self.inner.is_locked()
    }

    /// Whether the stage-1 map has been built.
    pub closed spec fn is_initialized(&self) -> bool {
        self.inner.spec_data() is Some
    }

    /// The installed stage-1 map.
    pub closed spec fn spec_table(&self) -> VisorPageTable {
        self.inner.spec_data()->Some_0
    }

    /// An empty manager; every accessor demands `initialize` first.
    pub fn uninitialized() -> (r: VMManager)
        ensures
            r.wf(),
            !r.is_initialized(),
    {
        VMManager { inner: Mutex::new(None) }
    }

    /// Builds the identity map over RAM and the peripheral window and
    /// installs it here. Loading it into the translation registers,
    /// with its barriers and TLB maintenance, is the shell's step.
    pub fn initialize(&mut self, ram_end: u64, base: u64)
        requires
            old(self).wf(),
            ram_end % PAGE_SIZE == 0,
            ram_end <= crate::param::IO_BASE,
            base % PAGE_SIZE == 0,
            base + 3 * PAGE_SIZE <= u64::MAX,
        ensures
            final(self).wf(),
            final(self).is_initialized(),
            final(self).spec_table().pt.wf(),
            final(self).spec_table().pt.l2.base == base,
            forall|va: u64|
                va_in_range(va) && va < ram_end ==> crate::vm::pagetable::maps_identity(
                    final(self).spec_table().pt,
                    va,
                    false,
                ),
            forall|va: u64|
                va_in_range(va) && crate::param::IO_BASE <= va < crate::param::IO_BASE_END
                    ==> crate::vm::pagetable::maps_identity(final(self).spec_table().pt, va, true),
    {
        let table = VisorPageTable::new(ram_end, base);
        self.inner.lock();
        self.inner.replace(Some(table));
        self.inner.unlock();
    }

    /// The physical base address of the stage-1 map, for the shell to
    /// install.
    pub fn get_baddr(&mut self) -> (r: u64)
        requires
            old(self).wf(),
            old(self).is_initialized(),
        ensures
            final(self).wf(),
            final(self).is_initialized(),
            final(self).spec_table() == old(self).spec_table(),
            r == old(self).spec_table().pt.l2.base,
    {
        self.inner.lock();
        let slot = self.inner.data();
        let r = match slot {
            Some(table) => table.get_baddr(),
            None => 0,
        };
        self.inner.unlock();
        r
    }

    /// Remaps every page of `[start, start + size)` as non-cacheable
    /// in the hypervisor's own map, so that entries the CPU writes
    /// into page tables kept there are immediately visible to the
    /// table walker.
    pub fn mark_noncacheable(&mut self, start: u64, size: u64)
        requires
            old(self).wf(),
            old(self).is_initialized(),
            old(self).spec_table().pt.wf(),
            start % PAGE_SIZE == 0,
            size % PAGE_SIZE == 0,
            start + size <= 0x40000000,
        ensures
            final(self).wf(),
            final(self).is_initialized(),
            final(self).spec_table().pt.wf(),
            forall|va: u64|
                va_in_range(va) && start <= va < start + size ==> spec_attr(
                    #[trigger] final(self).spec_table().pt.spec_entry_at(va).entry.bits,
                ) == 2,
            forall|va: u64|
                va_in_range(va) && !(start <= va < start + size)
                    ==> final(self).spec_table().pt.spec_entry_at(va) == old(
                    self,
                ).spec_table().pt.spec_entry_at(va),
    {
        self.inner.lock();
        let slot = self.inner.replace(None);
        match slot {
            Some(mut table) => {
                let ghost t0 = table.pt;
                let end = start + size;
                let mut va = start;
                while va < end
                    invariant
                        table.pt.wf(),
                        start % PAGE_SIZE == 0,
                        end % PAGE_SIZE == 0,
                        va % PAGE_SIZE == 0,
                        start <= va <= end <= 0x40000000,
                        forall|v: u64|
                            va_in_range(v) && start <= v < va ==> spec_attr(
                                #[trigger] table.pt.spec_entry_at(v).entry.bits,
                            ) == 2,
                        forall|v: u64|
                            va_in_range(v) && !(start <= v < va) ==> table.pt.spec_entry_at(v)
                                == t0.spec_entry_at(v),
                    decreases end - va,
                {
                    table.mark_noncacheable(va);
                    proof {
                        vstd::arithmetic::div_mod::lemma_add_mod_noop(
                            va as int,
                            PAGE_SIZE as int,
                            PAGE_SIZE as int,
                        );
                    }
                    va = va + PAGE_SIZE;
                }
                self.inner.replace(Some(table));
            },
            None => {},
        }
        self.inner.unlock();
    }
}


/// Stage-2 enable bit of `HCR_EL2`.
pub const HCR_VM: u64 = 0x1;

/// `HCR_EL2` bit 1, reserved-one on this core.
pub const HCR_SWIO: u64 = 0x2;

/// Route guest IRQs to the hypervisor's exception level.
pub const HCR_IMO: u64 = 0x10;

/// The memory-attribute indirection value the hypervisor installs:
/// slot 0 normal write-back, slot 1 device, slot 2 non-cacheable.
pub const MAIR_VALUE: u64 = 0x4404FF;

/// Whether this machine supports the 64 KiB translation granule, read
/// from the memory-model feature register's granule field. Boot stops
/// when it does not.
pub fn tgran64_supported(mmfr0: u64) -> (r: bool)
    ensures
        r == ((mmfr0 >> 24) & 0xF == 0),
{
    (mmfr0 >> 24u64) & 0xF == 0
}

/// The physical-address-range field of the memory-model feature
/// register, which sizes the intermediate physical address space.
pub fn parange_of(mmfr0: u64) -> (r: u64)
    ensures
        r == mmfr0 & 0xF,
        r <= 0xF,
{
    proof {
        let m = mmfr0;
        assert(m & 0xF <= 0xF) by (bit_vector);
    }
    mmfr0 & 0xF
}

/// The values the shell loads into the translation-control registers:
/// the attribute indirection word; the hypervisor's stage-1 control
/// (64 KiB granule, inner-shareable, write-back walks, a 4 GiB input
/// space, the machine's physical range); the guest's stage-2 control
/// (the same caching, a 1 GiB input space, walks starting at the
/// middle level); and the hypervisor configuration enabling stage-2
/// translation and routing guest IRQs here.
pub fn setup_register_values(ips: u64) -> (r: (u64, u64, u64, u64))
    requires
        ips <= 0xF,
    ensures
        r.0 == MAIR_VALUE,
        r.1 == 0x80800000 | (ips << 16) | 0x7520,
        r.2 == 0x80000000 | (ips << 16) | 0x7562,
        r.3 == HCR_VM | HCR_SWIO | HCR_IMO,
{
    let mair = (0xFFu64) | (0x04u64 << 8u64) | (0x44u64 << 16u64);
    let tcr = (1u64 << 31u64) | (1u64 << 23u64) | (ips << 16u64) | (0b01u64 << 14u64) | (0b11u64
        << 12u64) | (0b01u64 << 10u64) | (0b01u64 << 8u64) | VISOR_MASK_BITS;
    let vtcr = (1u64 << 31u64) | (ips << 16u64) | (0b01u64 << 14u64) | (0b11u64 << 12u64) | (0b01u64
        << 10u64) | (0b01u64 << 8u64) | (0b01u64 << 6u64) | GUEST_MASK_BITS;
    let hcr = HCR_VM | HCR_SWIO | HCR_IMO;
    proof {
        assert((0xFFu64) | (0x04u64 << 8) | (0x44u64 << 16) == 0x4404FFu64) by (bit_vector);
        assert(ips <= 0xF ==> (1u64 << 31) | (1u64 << 23) | (ips << 16) | (0b01u64 << 14) | (
        0b11u64 << 12) | (0b01u64 << 10) | (0b01u64 << 8) | 32u64 == 0x80800000 | (ips << 16)
            | 0x7520) by (bit_vector);
        assert(ips <= 0xF ==> (1u64 << 31) | (ips << 16) | (0b01u64 << 14) | (0b11u64 << 12) | (
        0b01u64 << 10) | (0b01u64 << 8) | (0b01u64 << 6) | 34u64 == 0x80000000 | (ips << 16)
            | 0x7562) by (bit_vector);
    }
    (mair, tcr, vtcr, hcr)
}

} // verus!
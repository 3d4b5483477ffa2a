//! Exception classification: where an exception came from and what kind
//! it is, as the vector table hands them to the demultiplexer.
use vstd::prelude::*;

pub mod frame;
pub mod irq;
pub mod mmio;
pub mod syndrome;

verus! {

/// The kind of exception taken.
#[derive(Debug, PartialEq, Eq, Copy, Clone, Structural)]
pub enum Kind {
    Synchronous,
    Irq,
    Fiq,
    SError,
}

/// The exception level and stack the exception came from.
#[derive(Debug, PartialEq, Eq, Copy, Clone, Structural)]
pub enum Source {
    CurrentSpEl0,
    CurrentSpElx,
    LowerAArch64,
    LowerAArch32,
}

/// Source and kind together, as pushed by the vector stub.
#[derive(Debug, PartialEq, Eq, Copy, Clone, Structural)]
pub struct Info {
    pub source: Source,
    pub kind: Kind,
}

use crate::allocator::Allocator;
use crate::allocator::spec_alloc;
use crate::allocator::wf as alloc_wf;
use crate::param::GUEST_MAX_VM_SIZE;
use crate::param::IO_BASE;
use crate::param::IO_BASE_END;
use crate::param::PAGE_SIZE;
use crate::process::process::Process;
use crate::traps::frame::TrapFrame;
use crate::traps::mmio::MmioSpace;
use crate::traps::mmio::handle_mmio;
use crate::traps::mmio::spec_access_width;
use crate::traps::mmio::spec_mmio_effect;
use crate::traps::syndrome::Fault;
use crate::traps::syndrome::Syndrome;
use crate::traps::syndrome::spec_cm;
use crate::traps::syndrome::spec_fnv;
use crate::traps::syndrome::spec_isv;
use crate::traps::syndrome::spec_sas;
use crate::traps::syndrome::spec_syndrome_of;
use crate::vm::VMManager;
use crate::vm::pagetable::PagePerm;
use crate::vm::pagetable::spec_attr;
use crate::vm::pagetable::S2_PERM_READWRITE;
use crate::vm::pagetable::spec_valid;
use crate::vm::pagetable::stage2_entry;
use crate::vm::pagetable::va_in_range;
use crate::mutex::ReentrantLock;

/// How the exception path left a trap: resolved and ready to resume
/// the guest, in need of the interrupt controller (which only the
/// shell can read), or fatal for want of a better answer.
#[derive(Debug, PartialEq, Eq, Copy, Clone, Structural)]
pub enum ExceptionOutcome {
    /// Resolved; resume the guest.
    Handled,
    /// An IRQ: the shell reads the controller's pending set and runs
    /// the dispatch table's action for each pending interrupt.
    PollIrqs,
    /// Not resolvable: dump state and stop the guest.
    Fatal,
}

/// The guest physical address a stage-2 fault names, recovered from
/// `HPFAR_EL2`.
pub open spec fn spec_fault_ipa(hpfar: u64) -> u64 {
    (hpfar >> 4) << 12
}

/// That address's page.
pub open spec fn spec_fault_page(hpfar: u64) -> u64 {
    spec_fault_ipa(hpfar) & !0xFFFFu64
}

/// Whether the syndrome and fault address describe a lazy-allocation
/// fault: a translation or access-flag abort on a page inside the
/// guest's physical memory that has no mapping yet.
pub open spec fn spec_is_lazy_fault(syndrome: Syndrome, hpfar: u64, p: Process) -> bool {
    &&& match syndrome {
        Syndrome::InstructionAbort { kind, level } => kind == Fault::AccessFlag || kind
            == Fault::Translation,
        Syndrome::DataAbort { kind, level, iss } => kind == Fault::AccessFlag || kind
            == Fault::Translation,
        _ => false,
    }
    &&& spec_fault_ipa(hpfar) < GUEST_MAX_VM_SIZE
    &&& spec_valid(p.vmap.pt.spec_entry_at(spec_fault_page(hpfar)).entry.bits) != 1
}

/// Whether the syndrome and addresses describe an emulatable MMIO
/// abort: a translation data abort with a valid syndrome, not from
/// cache maintenance, whose access fits inside the peripheral window.
pub open spec fn spec_is_mmio_fault(syndrome: Syndrome, far: u64, hpfar: u64) -> bool {
    match syndrome {
        Syndrome::DataAbort { kind, level, iss } => {
            let fault_addr = if spec_fnv(iss.bits) != 0 {
                spec_fault_ipa(hpfar)
            } else {
                far
            };
            &&& kind == Fault::Translation
            &&& spec_isv(iss.bits) == 1
            &&& spec_cm(iss.bits) == 0
            &&& IO_BASE <= fault_addr
            &&& fault_addr + spec_access_width(spec_sas(iss.bits)) <= IO_BASE_END
        },
        _ => false,
    }
}

/// The address an emulatable MMIO abort faulted on: from `FAR_EL2`, or
/// recovered from `HPFAR_EL2` when FAR is flagged invalid.
pub open spec fn spec_mmio_fault_addr(syndrome: Syndrome, far: u64, hpfar: u64) -> u64 {
    match syndrome {
        Syndrome::DataAbort { kind, level, iss } => if spec_fnv(iss.bits) != 0 {
            spec_fault_ipa(hpfar)
        } else {
            far
        },
        _ => 0,
    }
}

/// What one routed synchronous trap does, relating the states before
/// and after: a lazy fault maps exactly one fresh page (marked
/// non-cacheable in the hypervisor's map) and touches nothing else; an
/// emulatable MMIO abort performs exactly the emulated access; all
/// else changes nothing and is fatal.
pub open spec fn spec_sync_effect(
    syndrome: Syndrome,
    far: u64,
    hpfar: u64,
    r: ExceptionOutcome,
    tf0: TrapFrame,
    tf1: TrapFrame,
    p0: Process,
    p1: Process,
    a0: crate::allocator::AllocState,
    a1: crate::allocator::AllocState,
    d0: MmioSpace,
    d1: MmioSpace,
    vmm0: VMManager,
    vmm1: VMManager,
) -> bool {
    if spec_is_lazy_fault(syndrome, hpfar, p0) {
        let page = spec_alloc(a0, PAGE_SIZE, PAGE_SIZE).1;
        &&& r == ExceptionOutcome::Handled
        &&& tf1 == tf0
        &&& d1.bytes@ == d0.bytes@
        &&& a1 == spec_alloc(a0, PAGE_SIZE, PAGE_SIZE).0
        &&& spec_valid(p1.vmap.pt.spec_entry_at(spec_fault_page(hpfar)).entry.bits) == 1
        &&& stage2_entry(
            page,
            S2_PERM_READWRITE,
            3,
            3,
            p1.vmap.pt.spec_entry_at(spec_fault_page(hpfar)).entry.bits,
        )
        &&& forall|other: u64|
            va_in_range(other) && other != spec_fault_page(hpfar) ==> p1.vmap.pt.spec_entry_at(
                other,
            ) == p0.vmap.pt.spec_entry_at(other)
        &&& spec_attr(vmm1.spec_table().pt.spec_entry_at(page).entry.bits) == 2
        &&& forall|v: u64|
            va_in_range(v) && v != page ==> vmm1.spec_table().pt.spec_entry_at(v)
                == vmm0.spec_table().pt.spec_entry_at(v)
    } else if spec_is_mmio_fault(syndrome, far, hpfar) {
        &&& r == ExceptionOutcome::Handled
        &&& p1.vmap == p0.vmap
        &&& a1 == a0
        &&& vmm1.spec_table() == vmm0.spec_table()
        &&& (match syndrome {
            Syndrome::DataAbort { kind, level, iss } => spec_mmio_effect(
                spec_mmio_fault_addr(syndrome, far, hpfar),
                iss,
                tf0,
                tf1,
                d0,
                d1,
            ),
            _ => false,
        })
    } else {
        &&& r == ExceptionOutcome::Fatal
        &&& tf1 == tf0
        &&& p1.vmap == p0.vmap
        &&& a1 == a0
        &&& d1.bytes@ == d0.bytes@
        &&& vmm1.spec_table() == vmm0.spec_table()
    }
}

/// Routes one synchronous trap from the guest. A translation or
/// access-flag fault on unmapped guest memory gets a fresh page — the
/// guest instruction will simply run again. A valid, non-cache
/// data abort on the peripheral window is emulated. Anything else is
/// fatal and left to the shell to report.
pub fn handle_lower_el_synchronous(
    info: Info,
    syndrome: Syndrome,
    far: u64,
    hpfar: u64,
    tf: &mut TrapFrame,
    process: &mut Process,
    allocator: &mut Allocator,
    dev: &mut MmioSpace,
    vmm: &mut VMManager,
) -> (r: ExceptionOutcome)
    requires
        old(process).vmap.pt.wf(),
        alloc_wf(old(allocator)@),
        old(allocator)@.top_end <= 0x40000000,
        spec_is_lazy_fault(syndrome, hpfar, *old(process)) ==> spec_alloc(
            old(allocator)@,
            PAGE_SIZE,
            PAGE_SIZE,
        ).1 != 0,
        old(dev).base == IO_BASE,
        old(dev).bytes@.len() == IO_BASE_END - IO_BASE,
        old(tf).ELR + 4 <= u64::MAX,
        old(vmm).wf(),
        old(vmm).is_initialized(),
        old(vmm).spec_table().pt.wf(),
    ensures
        final(process).vmap.pt.wf(),
        alloc_wf(final(allocator)@),
        final(vmm).wf(),
        final(vmm).is_initialized(),
        final(vmm).spec_table().pt.wf(),
        spec_sync_effect(
            syndrome,
            far,
            hpfar,
            r,
            *old(tf),
            *final(tf),
            *old(process),
            *final(process),
            old(allocator)@,
            final(allocator)@,
            *old(dev),
            *final(dev),
            *old(vmm),
            *final(vmm),
        ),
{
    let abort = syndrome.get_abort_info();
    match abort {
        Some((kind, level)) => {
            let is_lazy_kind = match kind {
                Fault::AccessFlag => true,
                Fault::Translation => true,
                _ => false,
            };
            if is_lazy_kind {
                let translation_fault_addr = (hpfar >> 4u64) << 12u64;
                let fault_page = translation_fault_addr & !0xFFFFu64;
                if translation_fault_addr < GUEST_MAX_VM_SIZE {
                    proof {
                        let t = (hpfar >> 4) << 12;
                        assert(t < 0x10000000 ==> {
                            let p = t & !0xFFFFu64;
                            p % 0x10000 == 0 && p < 0x40000000
                        }) by (bit_vector);
                    }
                    if process.vmap.pt.is_invalid(fault_page) {
                        process.vmap.allocate(allocator, vmm, fault_page, PagePerm::RWX);
                        return ExceptionOutcome::Handled;
                    }
                }
            }
        },
        None => {},
    }
    match syndrome {
        Syndrome::DataAbort { kind, level, iss } => {
            let is_translation = match kind {
                Fault::Translation => true,
                _ => false,
            };
            if is_translation && iss.isv() == 1 && iss.cm() == 0 {
                let fault_addr = if iss.fnv() != 0 {
                    (hpfar >> 4u64) << 12u64
                } else {
                    far
                };
                let sas = iss.sas();
                let width: u64 = if sas == 0 {
                    1
                } else if sas == 1 {
                    2
                } else if sas == 2 {
                    4
                } else {
                    8
                };
                if IO_BASE <= fault_addr && fault_addr <= IO_BASE_END - width {
                    handle_mmio(fault_addr, iss, tf, dev);
                    return ExceptionOutcome::Handled;
                }
            }
        },
        _ => {},
    }
    ExceptionOutcome::Fatal
}

/// Classifies one exception and routes it: a synchronous trap from the
/// guest goes to the stage-2 and MMIO handlers; a guest IRQ is left to
/// the shell, which alone can read the interrupt controller; anything
/// else is fatal. The reentrancy counter catches a fault taken while
/// this path was already running.
pub fn handle_exception(
    info: Info,
    esr: u32,
    far: u64,
    hpfar: u64,
    tf: &mut TrapFrame,
    process: &mut Process,
    allocator: &mut Allocator,
    dev: &mut MmioSpace,
    vmm: &mut VMManager,
    fault_lock: &mut ReentrantLock,
) -> (r: ExceptionOutcome)
    requires
        old(fault_lock).spec_count() == 0,
        old(process).vmap.pt.wf(),
        alloc_wf(old(allocator)@),
        old(allocator)@.top_end <= 0x40000000,
        (info.source == Source::LowerAArch64 && info.kind == Kind::Synchronous
            && spec_is_lazy_fault(spec_syndrome_of(esr), hpfar, *old(process))) ==> spec_alloc(
            old(allocator)@,
            PAGE_SIZE,
            PAGE_SIZE,
        ).1 != 0,
        old(dev).base == IO_BASE,
        old(dev).bytes@.len() == IO_BASE_END - IO_BASE,
        old(tf).ELR + 4 <= u64::MAX,
        old(vmm).wf(),
        old(vmm).is_initialized(),
        old(vmm).spec_table().pt.wf(),
    ensures
        final(fault_lock).spec_count() == 0,
        final(process).vmap.pt.wf(),
        alloc_wf(final(allocator)@),
        final(vmm).wf(),
        final(vmm).is_initialized(),
        final(vmm).spec_table().pt.wf(),
        if info.source == Source::LowerAArch64 && info.kind == Kind::Synchronous {
            spec_sync_effect(
                spec_syndrome_of(esr),
                far,
                hpfar,
                r,
                *old(tf),
                *final(tf),
                *old(process),
                *final(process),
                old(allocator)@,
                final(allocator)@,
                *old(dev),
                *final(dev),
                *old(vmm),
                *final(vmm),
            )
        } else {
            &&& (if info.source == Source::LowerAArch64 && info.kind == Kind::Irq {
                r == ExceptionOutcome::PollIrqs
            } else {
                r == ExceptionOutcome::Fatal
            })
            &&& *final(tf) == *old(tf)
            &&& final(process).vmap == old(process).vmap
            &&& final(allocator)@ == old(allocator)@
            &&& final(dev).bytes@ == old(dev).bytes@
            &&& final(vmm).spec_table() == old(vmm).spec_table()
        },
{
    let guard = fault_lock.enter();
    let r = if info.source == Source::LowerAArch64 {
        if info.kind == Kind::Synchronous {
            let syndrome = Syndrome::from(esr);
            handle_lower_el_synchronous(
                info,
                syndrome,
                far,
                hpfar,
                tf,
                process,
                allocator,
                dev,
                vmm,
            )
        } else if info.kind == Kind::Irq {
            ExceptionOutcome::PollIrqs
        } else {
            ExceptionOutcome::Fatal
        }
    } else {
        ExceptionOutcome::Fatal
    };
    fault_lock.leave(guard);
    r
}

} // verus!

//! One guest: its trap frame, its stage-2 map, and its scheduling
//! state. The VMID lives in bits [55:48] of the saved `VTTBR`.
use vstd::prelude::*;

verus! {

use crate::param::GUEST_MAX_VM_SIZE;
use crate::param::KERN_START_ADDR;
use crate::param::PAGE_SIZE;
use crate::process::Id;
use crate::process::State;
use crate::traps::frame::TrapFrame;
use crate::vm::VMManager;
use crate::vm::pagetable::GuestPageTable;
use crate::vm::pagetable::fresh_table;
use crate::vm::pagetable::spec_attr;
use crate::vm::pagetable::va_in_range;

/// The reserved-one bits of `SCTLR_EL1`, the state a guest starts with
/// before it configures its own stage 1.
pub const SCTLR_EL1_RES1: u64 = 0x30D00800;

/// An address the guest will fault on before its own vector table is
/// up, so early guest crashes stay visible.
pub const EARLY_VBAR: u64 = 0x1DEAD0000;

/// The `SPSR_EL1` mask bits a freshly loaded guest runs with: debug,
/// aborts, interrupts and fast interrupts all masked.
pub const SPSR_MASKED: u64 = 0x3C0;

/// The VMID stored in bits [55:48] of a `VTTBR` value.
pub open spec fn spec_vmid_of(vttbr: u64) -> u64 {
    (vttbr >> 48) & 0xFF
}

/// The frame after tagging its `VTTBR` with `vmid`: the stage-2 base
/// bits stay, the tag replaces bits [63:48], every other register
/// keeps its value.
pub open spec fn spec_with_vmid(tf: TrapFrame, vmid: u64) -> TrapFrame {
    TrapFrame { VTTBR: ((tf.VTTBR & 0x0000FFFFFFFFFFFF) | (vmid << 48)) as u64, ..tf }
}

/// A guest: trap frame, stage-2 map, scheduling state.
#[verifier::ext_equal]
pub struct Process {
    /// The saved trap frame of the process.
    pub context: TrapFrame,
    /// The page table describing the guest's physical memory.
    pub vmap: GuestPageTable,
    /// The scheduling state of the process.
    pub state: State,
}

impl Process {
    /// A new guest with a zeroed frame except for the stage-2 base in
    /// `VTTBR`, an early-crash vector base, and the architectural
    /// reset value of `SCTLR_EL1`; ready to be scheduled, with an
    /// empty stage-2 map placed at `vmap_base`, whose three table
    /// pages are marked non-cacheable in the hypervisor's own map so
    /// the table walker always sees current entries.
    ///
    /// The table placement comes from the caller, which owns the
    /// memory the tables live in.
    pub fn new(vmap_base: u64, vmm: &mut VMManager) -> (r: Process)
        requires
            vmap_base % PAGE_SIZE == 0,
            vmap_base + 3 * PAGE_SIZE <= 0x40000000,
            spec_vmid_of(vmap_base) == 0,
            old(vmm).wf(),
            old(vmm).is_initialized(),
            old(vmm).spec_table().pt.wf(),
        ensures
            fresh_table(r.vmap.pt, vmap_base),
            r.context.VTTBR == vmap_base,
            r.context.VBAR_EL1 == EARLY_VBAR,
            r.context.SCTLR_EL1 == SCTLR_EL1_RES1,
            r.context.ELR == 0,
            r.context.SPSR_EL1 == 0,
            forall|i: int| 0 <= i < 32 ==> r.context.xn@[i] == 0,
            r.state == State::Ready,
            r.get_vmid_spec() == 0,
            final(vmm).wf(),
            final(vmm).is_initialized(),
            final(vmm).spec_table().pt.wf(),
            forall|v: u64|
                va_in_range(v) && vmap_base <= v < vmap_base + 3 * PAGE_SIZE ==> spec_attr(
                    #[trigger] final(vmm).spec_table().pt.spec_entry_at(v).entry.bits,
                ) == 2,
            forall|v: u64|
                va_in_range(v) && !(vmap_base <= v < vmap_base + 3 * PAGE_SIZE)
                    ==> final(vmm).spec_table().pt.spec_entry_at(v) == old(
                    vmm,
                ).spec_table().pt.spec_entry_at(v),
    {
        let vmap = GuestPageTable::new(vmap_base);
        vmm.mark_noncacheable(vmap_base, 3 * PAGE_SIZE);
        let mut tf = TrapFrame::default();
        tf.VTTBR = vmap.pt.get_baddr();
        tf.VBAR_EL1 = EARLY_VBAR;
        tf.SCTLR_EL1 = SCTLR_EL1_RES1;
        Process { context: tf, vmap, state: State::Ready }
    }

    /// The VMID this process's `VTTBR` carries.
    pub open spec fn get_vmid_spec(&self) -> u64 {
        spec_vmid_of(self.context.VTTBR)
    }

    /// Tags the saved `VTTBR` with `vmid`: the stage-2 base bits stay,
    /// bits [63:56] are cleared, and nothing else of the process
    /// changes.
    pub fn set_vmid(&mut self, vmid: Id)
        ensures
            final(self).context == spec_with_vmid(old(self).context, vmid as u64),
            final(self).get_vmid_spec() == vmid,
            final(self).vmap == old(self).vmap,
            final(self).state == old(self).state,
    {
        let old_vttbr = self.context.VTTBR;
        let new_vttbr = (old_vttbr & 0x0000FFFFFFFFFFFF) | ((vmid as u64) << 48u64);
        proof {
            let v = vmid as u64;
            assert(v <= 0xFF ==> {
                let n = (old_vttbr & 0x0000FFFFFFFFFFFF) | (v << 48);
                (n >> 48) & 0xFF == v && n & 0x0000FFFFFFFFFFFF == old_vttbr & 0x0000FFFFFFFFFFFF
            }) by (bit_vector);
        }
        self.context.VTTBR = new_vttbr;
    }

    /// Reads the VMID back out of the saved `VTTBR`.
    pub fn get_vmid(&self) -> (r: Id)
        ensures
            r == self.get_vmid_spec(),
    {
        let v = self.context.VTTBR;
        proof {
            assert((v >> 48) & 0xFF <= 0xFF) by (bit_vector);
        }
        ((v >> 48u64) & 0xFF) as Id
    }

    /// Sets the registers a freshly loaded guest starts from: the
    /// program counter at the image base, and every interrupt masked.
    /// The image itself reaches guest memory through the loader shell.
    pub fn finish_load(&mut self)
        ensures
            final(self).context.ELR == KERN_START_ADDR,
            final(self).context.SPSR_EL1 == SPSR_MASKED,
            final(self).context.VTTBR == old(self).context.VTTBR,
            final(self).context.xn == old(self).context.xn,
            final(self).vmap == old(self).vmap,
            final(self).state == old(self).state,
    {
        self.context.ELR = KERN_START_ADDR;
        self.context.SPSR_EL1 = SPSR_MASKED;
    }

    /// The highest guest physical address this system gives a guest.
    pub fn get_ipa_max() -> (r: u64)
        ensures
            r == GUEST_MAX_VM_SIZE,
    {
        GUEST_MAX_VM_SIZE
    }

    /// Where a guest kernel image begins in guest physical memory.
    pub fn get_image_base() -> (r: u64)
        ensures
            r == KERN_START_ADDR,
    {
        KERN_START_ADDR
    }

    /// Whether this process can run now. A ready process can; a
    /// waiting one can once its event has arrived — `event_arrived`
    /// reports the shell's poll of that event — and it then becomes
    /// ready; a running or dead one cannot.
    pub fn is_ready(&mut self, event_arrived: bool) -> (r: bool)
        ensures
            r == (old(self).state == State::Ready || (old(self).state == State::Waiting
                && event_arrived)),
            final(self).state == (if old(self).state == State::Waiting && event_arrived {
                State::Ready
            } else {
                old(self).state
            }),
            final(self).context == old(self).context,
            final(self).vmap == old(self).vmap,
    {
        match self.state {
            State::Ready => true,
            State::Waiting => {
                if event_arrived {
                    self.state = State::Ready;
                    true
                } else {
                    false
                }
            },
            _ => false,
        }
    }
}

} // verus!

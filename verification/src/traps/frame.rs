//! The trap frame: every piece of guest state that the world switch
//! saves on entry and restores before returning to the guest, laid out
//! as the context-switch stubs expect it.
use vstd::prelude::*;

verus! {

/// Saved guest state: the stage-2 base with its VMID tag, the saved
/// program counter, the banked EL1 system registers, the SIMD registers
/// and the general registers (`xn[31]` stands for `xzr`).
#[derive(Debug, PartialEq, Eq, Copy, Clone)]
#[allow(non_snake_case)]
pub struct TrapFrame {
    pub VTTBR: u64,
    pub ELR: u64,
    pub TTBR0_EL1: u64,
    pub TTBR1_EL1: u64,
    pub SP_EL0: u64,
    pub SP_EL1: u64,
    pub SCTLR_EL1: u64,
    pub VBAR_EL1: u64,
    pub TPIDR_EL0: u64,
    pub TPIDR_EL1: u64,
    pub SPSR_EL1: u64,
    pub qn: [u128; 32],
    pub xn: [u64; 32],
}

/// Every saved register of the frame is zero.
pub open spec fn frame_zeroed(tf: TrapFrame) -> bool {
    &&& tf.VTTBR == 0
    &&& tf.ELR == 0
    &&& tf.TTBR0_EL1 == 0
    &&& tf.TTBR1_EL1 == 0
    &&& tf.SP_EL0 == 0
    &&& tf.SP_EL1 == 0
    &&& tf.SCTLR_EL1 == 0
    &&& tf.VBAR_EL1 == 0
    &&& tf.TPIDR_EL0 == 0
    &&& tf.TPIDR_EL1 == 0
    &&& tf.SPSR_EL1 == 0
    &&& forall|i: int| 0 <= i < 32 ==> tf.qn@[i] == 0
    &&& forall|i: int| 0 <= i < 32 ==> tf.xn@[i] == 0
}

impl Default for TrapFrame {
    /// An all-zero frame.
    fn default() -> (r: TrapFrame)
        ensures
            frame_zeroed(r),
    {
        TrapFrame {
            VTTBR: 0,
            ELR: 0,
            TTBR0_EL1: 0,
            TTBR1_EL1: 0,
            SP_EL0: 0,
            SP_EL1: 0,
            SCTLR_EL1: 0,
            VBAR_EL1: 0,
            TPIDR_EL0: 0,
            TPIDR_EL1: 0,
            SPSR_EL1: 0,
            qn: [0u128; 32],
            xn: [0u64; 32],
        }
    }
}

} // verus!

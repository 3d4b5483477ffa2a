//! A guest as the hypervisor sees it: its saved trap frame, its stage-2
//! address map, and its scheduling state. One process is one guest
//! kernel owning, from its own point of view, the whole machine.
use vstd::prelude::*;

pub mod process;
pub mod scheduler;

verus! {

/// A process identifier: the VMID tagging the guest's TLB entries.
pub type Id = u8;

/// The scheduling state of a process. A waiting process becomes ready
/// when the event it waits for arrives; the shell polls for the event
/// and reports its arrival.
#[derive(Debug, PartialEq, Eq, Copy, Clone, Structural)]
pub enum State {
    /// Can be scheduled.
    Ready,
    /// Currently on the CPU.
    Running,
    /// Parked until an awaited event arrives.
    Waiting,
    /// Killed; waiting to be reaped.
    Dead,
}

} // verus!

//! Round-robin scheduling over a single queue of processes. Adding a
//! process mints the next VMID; a context switch saves the outgoing
//! trap frame at the queue's head, rotates it to the back, and
//! restores the first ready process's frame.
use vstd::prelude::*;

verus! {

use crate::process::Id;
use crate::process::State;
use crate::process::process::Process;
use crate::process::process::spec_with_vmid;
use crate::traps::frame::TrapFrame;

/// The index of the first ready process, scanning from the front.
pub open spec fn spec_first_ready(q: Seq<Process>) -> Option<int>
    decreases q.len(),
{
    if q.len() == 0 {
        None
    } else if q[0].state == State::Ready {
        Some(0int)
    } else {
        match spec_first_ready(q.skip(1)) {
            None => None,
            Some(i) => Some(i + 1),
        }
    }
}

/// `spec_first_ready` finds the least ready index.
pub proof fn lemma_first_ready_at(q: Seq<Process>, j: int)
    requires
        0 <= j < q.len(),
        q[j].state == State::Ready,
        forall|i: int| 0 <= i < j ==> (#[trigger] q[i]).state != State::Ready,
    ensures
        spec_first_ready(q) == Some(j),
    decreases j,
{
    if j > 0 {
        assert(forall|i: int| 0 <= i < q.len() - 1 ==> q.skip(1)[i] == q[i + 1]);
        lemma_first_ready_at(q.skip(1), j - 1);
    }
}

/// With nobody ready, the scan comes up empty.
pub proof fn lemma_first_ready_none(q: Seq<Process>)
    requires
        forall|i: int| 0 <= i < q.len() ==> (#[trigger] q[i]).state != State::Ready,
    ensures
        spec_first_ready(q) is None,
    decreases q.len(),
{
    if q.len() > 0 {
        assert(forall|i: int| 0 <= i < q.len() - 1 ==> q.skip(1)[i] == q[i + 1]);
        lemma_first_ready_none(q.skip(1));
    }
}

/// The queue of guests plus the counter that mints VMIDs.
pub struct Scheduler {
    pub processes: Vec<Process>,
    pub last_id: Id,
}

impl Scheduler {
    /// An empty queue; the first process added gets VMID 0.
    pub fn new() -> (r: Scheduler)
        ensures
            r.processes@.len() == 0,
            r.last_id == 0,
    {
        Scheduler { processes: Vec::new(), last_id: 0 }
    }

    /// Appends `process` to the queue under the next fresh VMID and
    /// returns that VMID.
    ///
    /// VMIDs are eight bits and never reused; callers stop adding
    /// before they run out.
    pub fn add(&mut self, process: Process) -> (r: Id)
        requires
            old(self).last_id < 255,
        ensures
            r == old(self).last_id,
            final(self).last_id == old(self).last_id + 1,
            final(self).processes@.len() == old(self).processes@.len() + 1,
            forall|i: int|
                0 <= i < old(self).processes@.len() ==> final(self).processes@[i] == old(
                    self,
                ).processes@[i],
            ({
                let added = final(self).processes@[old(self).processes@.len() as int];
                &&& added.get_vmid_spec() == old(self).last_id
                &&& added.state == process.state
                &&& added.vmap == process.vmap
                &&& added.context == spec_with_vmid(process.context, old(self).last_id as u64)
            }),
    {
        let vmid = self.last_id;
        let mut process = process;
        process.set_vmid(vmid);
        self.processes.push(process);
        self.last_id = self.last_id + 1;
        vmid
    }

    /// Saves `tf` into the process at the queue's head — the one
    /// currently on the CPU — gives it `new_state`, and rotates it to
    /// the back. With an empty queue or no running head there is no
    /// current process and nothing changes.
    pub fn schedule_out(&mut self, new_state: State, tf: &TrapFrame) -> (r: bool)
        ensures
            r == (old(self).processes@.len() > 0 && old(self).processes@[0].state
                == State::Running),
            final(self).last_id == old(self).last_id,
            r ==> {
                let n = old(self).processes@.len() as int;
                let moved = final(self).processes@[n - 1];
                &&& final(self).processes@.len() == n
                &&& final(self).processes@.take(n - 1) == old(self).processes@.skip(1)
                &&& moved.context == *tf
                &&& moved.state == new_state
                &&& moved.vmap == old(self).processes@[0].vmap
            },
            !r ==> final(self).processes@ == old(self).processes@,
    {
        if self.processes.len() == 0 {
            return false;
        }
        let is_running = match self.processes[0].state {
            State::Running => true,
            _ => false,
        };
        if !is_running {
            return false;
        }
        let mut current = self.processes.remove(0);
        current.context = *tf;
        current.state = new_state;
        self.processes.push(current);
        proof {
            assert(self.processes@.take(self.processes@.len() - 1) =~= old(
                self,
            ).processes@.skip(1));
        }
        true
    }

    /// Brings the first ready process to the front, marks it running,
    /// and restores its saved frame into `tf`, returning its VMID;
    /// `None` when nobody is ready.
    pub fn switch_to(&mut self, tf: &mut TrapFrame) -> (r: Option<Id>)
        ensures
            final(self).last_id == old(self).last_id,
            match spec_first_ready(old(self).processes@) {
                Some(i) => {
                    let chosen = old(self).processes@[i];
                    &&& r == Some(chosen.get_vmid_spec() as Id)
                    &&& *final(tf) == chosen.context
                    &&& final(self).processes@.len() == old(self).processes@.len()
                    &&& final(self).processes@[0].context == chosen.context
                    &&& final(self).processes@[0].state == State::Running
                    &&& final(self).processes@[0].vmap == chosen.vmap
                    &&& final(self).processes@.skip(1) == old(self).processes@.remove(i)
                },
                None => {
                    &&& r is None
                    &&& *final(tf) == *old(tf)
                    &&& final(self).processes@ == old(self).processes@
                },
            },
    {
        let n = self.processes.len();
        let mut j: usize = 0;
        while j < n
            invariant
                n == self.processes@.len(),
                self.processes@ == old(self).processes@,
                self.last_id == old(self).last_id,
                *tf == *old(tf),
                j <= n,
                forall|i: int| 0 <= i < j ==> (#[trigger] self.processes@[i]).state != State::Ready,
            decreases n - j,
        {
            let is_ready = match self.processes[j].state {
                State::Ready => true,
                _ => false,
            };
            if is_ready {
                proof {
                    lemma_first_ready_at(self.processes@, j as int);
                }
                let mut chosen = self.processes.remove(j);
                *tf = chosen.context;
                let vmid = chosen.get_vmid();
                chosen.state = State::Running;
                self.processes.insert(0, chosen);
                proof {
                    assert(self.processes@.skip(1) =~= old(self).processes@.remove(j as int));
                }
                return Some(vmid);
            }
            j = j + 1;
        }
        proof {
            lemma_first_ready_none(self.processes@);
        }
        None
    }

    /// Kills the process at the queue's head — the one currently on
    /// the CPU — removing it from the queue and returning its VMID;
    /// `None` with an empty queue or no running head. The shell
    /// returns the dead guest's pages to the allocator before letting
    /// the process go.
    pub fn kill(&mut self, tf: &mut TrapFrame) -> (r: Option<Id>)
        ensures
            final(self).last_id == old(self).last_id,
            *final(tf) == *old(tf),
            if old(self).processes@.len() > 0 && old(self).processes@[0].state == State::Running {
                &&& r == Some(old(self).processes@[0].get_vmid_spec() as Id)
                &&& final(self).processes@ == old(self).processes@.skip(1)
            } else {
                &&& r is None
                &&& final(self).processes@ == old(self).processes@
            },
    {
        if self.processes.len() == 0 {
            return None;
        }
        let is_running = match self.processes[0].state {
            State::Running => true,
            _ => false,
        };
        if !is_running {
            return None;
        }
        let dead = self.processes.remove(0);
        proof {
            assert(self.processes@ =~= old(self).processes@.skip(1));
        }
        Some(dead.get_vmid())
    }

    /// The queue position of the process whose VMID is `vmid`, if any
    /// carries it.
    pub fn get_by_vmid(&self, vmid: Id) -> (r: Option<usize>)
        ensures
            match r {
                Some(i) => i < self.processes@.len() && self.processes@[i as int].get_vmid_spec()
                    == vmid,
                None => forall|i: int|
                    0 <= i < self.processes@.len() ==> (
                    #[trigger] self.processes@[i]).get_vmid_spec() != vmid,
            },
    {
        let n = self.processes.len();
        let mut j: usize = 0;
        while j < n
            invariant
                n == self.processes@.len(),
                j <= n,
                forall|i: int|
                    0 <= i < j ==> (#[trigger] self.processes@[i]).get_vmid_spec() != vmid,
            decreases n - j,
        {
            let v = self.processes[j].get_vmid();
            if v == vmid {
                return Some(j);
            }
            j = j + 1;
        }
        None
    }
}

/// With every process ready, the head of the queue is scheduled next:
/// one switch visits the front and rotates it back, so repeated
/// switches visit the queue in insertion order.
pub proof fn lemma_round_robin_picks_front(q: Seq<Process>)
    requires
        q.len() > 0,
        forall|i: int| 0 <= i < q.len() ==> (#[trigger] q[i]).state == State::Ready,
    ensures
        spec_first_ready(q) == Some(0int),
{
}

/// One full context switch visits the next guest in line: with the
/// head on the CPU and everyone else ready, parking the head as ready
/// rotates it back, and the first ready process of the rotated queue
/// is exactly the old second guest. Repeated switches therefore visit
/// the queue in insertion order, round robin.
pub proof fn lemma_switch_visits_next(q: Seq<Process>, saved: Process)
    requires
        q.len() >= 2,
        forall|i: int| 1 <= i < q.len() ==> (#[trigger] q[i]).state == State::Ready,
        saved.state == State::Ready,
    ensures
        ({
            let rotated = q.skip(1).push(saved);
            &&& spec_first_ready(rotated) == Some(0int)
            &&& rotated[0] == q[1]
        }),
{
    let rotated = q.skip(1).push(saved);
    assert(forall|i: int| 0 <= i < rotated.len() ==> (#[trigger] rotated[i]).state
        == State::Ready);
    lemma_round_robin_picks_front(rotated);
}

/// The scheduler for the whole machine: the queue behind its lock,
/// present once `initialize` has run.
pub struct GlobalScheduler {
    inner: crate::mutex::Mutex<Option<Scheduler>>,
}

impl GlobalScheduler {
    /// The lock can be taken.
    pub closed spec fn wf(&self) -> bool {
        self.inner.wf() && !self.inner.is_locked()
    }

    /// Whether a scheduler has been installed.
    pub closed spec fn is_initialized(&self) -> bool {
        self.inner.spec_data() is Some
    }

    /// The installed scheduler.
    pub closed spec fn spec_sched(&self) -> Scheduler {
        self.inner.spec_data()->Some_0
    }

    /// An empty wrapper; every accessor demands `initialize` first.
    pub fn uninitialized() -> (r: GlobalScheduler)
        ensures
            r.wf(),
            !r.is_initialized(),
    {
        GlobalScheduler { inner: crate::mutex::Mutex::new(None) }
    }

    /// Installs an empty scheduler holding `first` — this very
    /// process, retagged with VMID 0 — at the head of the queue.
    pub fn initialize(&mut self, first: Process)
        requires
            old(self).wf(),
        ensures
            final(self).wf(),
            final(self).is_initialized(),
            final(self).spec_sched().processes@.len() == 1,
            final(self).spec_sched().last_id == 1,
            ({
                let head = final(self).spec_sched().processes@[0];
                &&& head.get_vmid_spec() == 0
                &&& head.context == spec_with_vmid(first.context, 0)
                &&& head.vmap == first.vmap
                &&& head.state == first.state
            }),
    {
        let mut scheduler = Scheduler::new();
        scheduler.add(first);
        self.inner.lock();
        self.inner.replace(Some(scheduler));
        self.inner.unlock();
    }

    /// Adds a process to the queue under the next VMID and returns
    /// that VMID.
    pub fn add(&mut self, process: Process) -> (r: Id)
        requires
            old(self).wf(),
            old(self).is_initialized(),
            old(self).spec_sched().last_id < 255,
        ensures
            final(self).wf(),
            final(self).is_initialized(),
            r == old(self).spec_sched().last_id,
            final(self).spec_sched().last_id == old(self).spec_sched().last_id + 1,
            final(self).spec_sched().processes@.len() == old(self).spec_sched().processes@.len()
                + 1,
            forall|i: int|
                0 <= i < old(self).spec_sched().processes@.len()
                    ==> final(self).spec_sched().processes@[i] == old(
                    self,
                ).spec_sched().processes@[i],
            ({
                let n0 = old(self).spec_sched().processes@.len() as int;
                let added = final(self).spec_sched().processes@[n0];
                &&& added.get_vmid_spec() == r
                &&& added.state == process.state
                &&& added.vmap == process.vmap
                &&& added.context == spec_with_vmid(process.context, r as u64)
            }),
    {
        self.inner.lock();
        let slot = self.inner.data_mut();
        let r = match slot {
            Some(scheduler) => scheduler.add(process),
            None => 0,
        };
        self.inner.unlock();
        r
    }

    /// One scheduling pass: saves `tf` into the running head under
    /// `new_state`, rotates it back, and restores the first ready
    /// process, returning its VMID; `None` when nobody is ready. The
    /// shell parks the CPU and retries when `None` comes back.
    pub fn switch(&mut self, new_state: State, tf: &mut TrapFrame) -> (r: Option<Id>)
        requires
            old(self).wf(),
            old(self).is_initialized(),
        ensures
            final(self).wf(),
            final(self).is_initialized(),
            ({
                let q0 = old(self).spec_sched().processes@;
                let rotated = if q0.len() > 0 && q0[0].state == State::Running {
                    q0.skip(1).push(
                        Process { context: *old(tf), state: new_state, vmap: q0[0].vmap },
                    )
                } else {
                    q0
                };
                &&& final(self).spec_sched().last_id == old(self).spec_sched().last_id
                &&& match spec_first_ready(rotated) {
                    Some(i) => {
                        let chosen = rotated[i];
                        &&& r == Some(chosen.get_vmid_spec() as Id)
                        &&& *final(tf) == chosen.context
                        &&& final(self).spec_sched().processes@.len() == rotated.len()
                        &&& final(self).spec_sched().processes@[0].context == chosen.context
                        &&& final(self).spec_sched().processes@[0].state == State::Running
                        &&& final(self).spec_sched().processes@[0].vmap == chosen.vmap
                        &&& final(self).spec_sched().processes@.skip(1) == rotated.remove(i)
                    },
                    None => {
                        &&& r is None
                        &&& final(self).spec_sched().processes@ == rotated
                    },
                }
            }),
    {
        self.inner.lock();
        let slot = self.inner.data_mut();
        let r = match slot {
            Some(scheduler) => {
                let ghost q0 = scheduler.processes@;
                let rotated_out = scheduler.schedule_out(new_state, tf);
                proof {
                    if rotated_out {
                        let lit = Process {
                            context: *old(tf),
                            state: new_state,
                            vmap: q0[0].vmap,
                        };
                        assert(scheduler.processes@[q0.len() - 1] =~= lit);
                        assert(scheduler.processes@ =~= q0.skip(1).push(lit));
                    }
                }
                scheduler.switch_to(tf)
            },
            None => None,
        };
        self.inner.unlock();
        r
    }

    /// Restores the first ready process into `tf` and returns its
    /// VMID; `None` when nobody is ready.
    pub fn switch_to(&mut self, tf: &mut TrapFrame) -> (r: Option<Id>)
        requires
            old(self).wf(),
            old(self).is_initialized(),
        ensures
            final(self).wf(),
            final(self).is_initialized(),
            final(self).spec_sched().last_id == old(self).spec_sched().last_id,
            match spec_first_ready(old(self).spec_sched().processes@) {
                Some(i) => {
                    let chosen = old(self).spec_sched().processes@[i];
                    &&& r == Some(chosen.get_vmid_spec() as Id)
                    &&& *final(tf) == chosen.context
                    &&& final(self).spec_sched().processes@.len() == old(
                        self,
                    ).spec_sched().processes@.len()
                    &&& final(self).spec_sched().processes@[0].context == chosen.context
                    &&& final(self).spec_sched().processes@[0].state == State::Running
                    &&& final(self).spec_sched().processes@[0].vmap == chosen.vmap
                    &&& final(self).spec_sched().processes@.skip(1) == old(
                        self,
                    ).spec_sched().processes@.remove(i)
                },
                None => {
                    &&& r is None
                    &&& *final(tf) == *old(tf)
                    &&& final(self).spec_sched().processes@ == old(self).spec_sched().processes@
                },
            },
    {
        self.inner.lock();
        let slot = self.inner.data_mut();
        let r = match slot {
            Some(scheduler) => scheduler.switch_to(tf),
            None => None,
        };
        self.inner.unlock();
        r
    }

    /// Kills the running head, returning its VMID; `None` without one.
    pub fn kill(&mut self, tf: &mut TrapFrame) -> (r: Option<Id>)
        requires
            old(self).wf(),
            old(self).is_initialized(),
        ensures
            final(self).wf(),
            final(self).is_initialized(),
            *final(tf) == *old(tf),
            final(self).spec_sched().last_id == old(self).spec_sched().last_id,
            ({
                let q = old(self).spec_sched().processes@;
                if q.len() > 0 && q[0].state == State::Running {
                    &&& r == Some(q[0].get_vmid_spec() as Id)
                    &&& final(self).spec_sched().processes@ == q.skip(1)
                } else {
                    &&& r is None
                    &&& final(self).spec_sched().processes@ == q
                }
            }),
    {
        self.inner.lock();
        let slot = self.inner.data_mut();
        let r = match slot {
            Some(scheduler) => scheduler.kill(tf),
            None => None,
        };
        self.inner.unlock();
        r
    }

    /// The queue position of the process whose VMID is `vmid`.
    pub fn get_by_vmid(&mut self, vmid: Id) -> (r: Option<usize>)
        requires
            old(self).wf(),
            old(self).is_initialized(),
        ensures
            final(self).wf(),
            final(self).is_initialized(),
            final(self).spec_sched() == old(self).spec_sched(),
            match r {
                Some(i) => i < old(self).spec_sched().processes@.len() && old(
                    self,
                ).spec_sched().processes@[i as int].get_vmid_spec() == vmid,
                None => forall|i: int|
                    0 <= i < old(self).spec_sched().processes@.len() ==> (#[trigger] old(
                        self,
                    ).spec_sched().processes@[i]).get_vmid_spec() != vmid,
            },
    {
        self.inner.lock();
        let slot = self.inner.data();
        let r = match slot {
            Some(scheduler) => scheduler.get_by_vmid(vmid),
            None => None,
        };
        self.inner.unlock();
        r
    }
}

} // verus!

//! Locks for the hypervisor's singletons. On this single-core machine
//! the only competitor for a lock is the code itself, so the spinlock's
//! owner check makes every acquisition by the one CPU succeed; what the
//! lock state buys is the discipline, which the contracts here spell
//! out. A separate reentrancy counter catches a fault taken while a
//! fault is already being handled.
use vstd::prelude::*;

verus! {

/// The one CPU's identifier: core 0.
pub const THIS_CPU: usize = 0;

/// A test-and-set lock with owner tracking.
pub struct RawMutex {
    locked: bool,
    owner: usize,
}

impl RawMutex {
    /// Held, and if so by core 0 (the only core that ever takes it).
    pub closed spec fn is_locked(&self) -> bool {
        self.locked
    }

    /// A lock is only ever held by core 0.
    pub closed spec fn wf(&self) -> bool {
        self.locked ==> self.owner == THIS_CPU
    }

    /// A fresh, unheld lock.
    pub fn new() -> (r: RawMutex)
        ensures
            r.wf(),
            !r.is_locked(),
    {
        RawMutex { locked: false, owner: usize::MAX }
    }

    /// Takes the lock if it is free or already held by this core; on
    /// this machine that is always.
    pub fn try_lock(&mut self) -> (r: bool)
        requires
            old(self).wf(),
        ensures
            final(self).wf(),
            r,
            final(self).is_locked(),
    {
        let this = THIS_CPU;
        if !self.locked || self.owner == this {
            self.locked = true;
            self.owner = this;
            true
        } else {
            false
        }
    }

    /// Releases the lock.
    pub fn unlock(&mut self)
        requires
            old(self).wf(),
        ensures
            final(self).wf(),
            !final(self).is_locked(),
    {
        self.locked = false;
    }
}

/// A value guarded by a `RawMutex`. Access goes through `lock`, the
/// borrow methods, and `unlock`; the borrows demand the lock held.
pub struct Mutex<T> {
    raw: RawMutex,
    data: T,
}

impl<T> Mutex<T> {
    /// Held by core 0.
    pub closed spec fn is_locked(&self) -> bool {
        self.raw.is_locked()
    }

    /// The lock is in a state core 0 can always take.
    pub closed spec fn wf(&self) -> bool {
        self.raw.wf()
    }

    /// The guarded value.
    pub closed spec fn spec_data(&self) -> T {
        self.data
    }

    /// Wraps `val` behind a fresh, unheld lock.
    pub fn new(val: T) -> (r: Mutex<T>)
        ensures
            r.wf(),
            !r.is_locked(),
            r.spec_data() == val,
    {
        Mutex { raw: RawMutex::new(), data: val }
    }

    /// Takes the lock if free or already this core's; always succeeds
    /// here.
    pub fn try_lock(&mut self) -> (r: bool)
        requires
            old(self).wf(),
        ensures
            final(self).wf(),
            r,
            final(self).is_locked(),
            final(self).spec_data() == old(self).spec_data(),
    {
        self.raw.try_lock()
    }

    /// Spins until the lock is taken; on this machine the first try
    /// succeeds.
    pub fn lock(&mut self)
        requires
            old(self).wf(),
        ensures
            final(self).wf(),
            final(self).is_locked(),
            final(self).spec_data() == old(self).spec_data(),
    {
        let mut done = self.try_lock();
        while !done
            invariant
                self.wf(),
                done ==> self.is_locked(),
                self.spec_data() == old(self).spec_data(),
            decreases (if done {
                0int
            } else {
                1int
            }),
        {
            done = self.try_lock();
        }
    }

    /// Releases the lock.
    pub fn unlock(&mut self)
        requires
            old(self).wf(),
    ensures
            final(self).wf(),
            !final(self).is_locked(),
            final(self).spec_data() == old(self).spec_data(),
    {
        self.raw.unlock();
    }

    /// Reads the guarded value; the lock must be held.
    pub fn data(&self) -> (r: &T)
        requires
            self.is_locked(),
        ensures
            r == self.spec_data(),
    {
        &self.data
    }

    /// Borrows the guarded value for writing; the lock must be held.
    pub fn data_mut(&mut self) -> (r: &mut T)
        requires
            old(self).is_locked(),
            old(self).wf(),
        ensures
            *r == old(self).spec_data(),
            final(self).spec_data() == *final(r),
            final(self).is_locked(),
            final(self).wf(),
    {
        &mut self.data
    }

    /// Takes the guarded value out, replacing it; the lock must be
    /// held.
    pub fn replace(&mut self, val: T) -> (r: T)
        requires
            old(self).is_locked(),
            old(self).wf(),
        ensures
            r == old(self).spec_data(),
            final(self).spec_data() == val,
            final(self).is_locked(),
            final(self).wf(),
    {
        let mut v = val;
        core::mem::swap(&mut self.data, &mut v);
        v
    }
}

/// Counts nested entries into the exception path; more than one live
/// entry means a fault struck while a fault was being handled, which
/// is fatal.
pub struct ReentrantLock {
    count: usize,
}

/// Witness that the reentrancy counter was raised and must be lowered
/// on the way out.
pub struct ReentrancyGuard {}

impl ReentrantLock {
    /// How many entries are live.
    pub closed spec fn spec_count(&self) -> nat {
        self.count as nat
    }

    /// A counter with no live entry.
    pub fn new() -> (r: ReentrantLock)
        ensures
            r.spec_count() == 0,
    {
        ReentrantLock { count: 0 }
    }

    /// Notes one entry into the guarded path.
    ///
    /// A second live entry is the double-fault the counter exists to
    /// catch; callers enter only from outside the exception path.
    pub fn enter(&mut self) -> (r: ReentrancyGuard)
        requires
            old(self).spec_count() == 0,
        ensures
            final(self).spec_count() == 1,
    {
        self.count = self.count + 1;
        ReentrancyGuard {  }
    }

    /// Notes the matching exit, consuming the witness.
    pub fn leave(&mut self, guard: ReentrancyGuard)
        requires
            old(self).spec_count() == 1,
        ensures
            final(self).spec_count() == 0,
    {
        self.count = self.count - 1;
    }
}

} // verus!

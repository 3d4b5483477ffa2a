//! The IRQ dispatch table: a fixed slot per peripheral interrupt. What
//! runs on an interrupt is a handler action from a fixed set; the
//! unverified shell performs the chosen action, since the actions
//! themselves (re-arming the timer, switching worlds) touch hardware.
use vstd::prelude::*;

verus! {

/// A peripheral interrupt of the board's legacy interrupt controller.
#[derive(Debug, PartialEq, Eq, Copy, Clone, Structural)]
pub enum Interrupt {
    Timer1,
    Timer3,
    Usb,
    Gpio0,
    Gpio1,
    Gpio2,
    Gpio3,
    Uart,
}

/// Number of dispatch slots.
pub const MAX_INTERRUPTS: usize = 8;

/// The table index of an interrupt.
pub open spec fn spec_irq_index(i: Interrupt) -> int {
    match i {
        Interrupt::Timer1 => 0,
        Interrupt::Timer3 => 1,
        Interrupt::Usb => 2,
        Interrupt::Gpio0 => 3,
        Interrupt::Gpio1 => 4,
        Interrupt::Gpio2 => 5,
        Interrupt::Gpio3 => 6,
        Interrupt::Uart => 7,
    }
}

/// The interrupt number of an interrupt, as the controller counts them.
pub open spec fn spec_irq_number(i: Interrupt) -> int {
    match i {
        Interrupt::Timer1 => 1,
        Interrupt::Timer3 => 3,
        Interrupt::Usb => 9,
        Interrupt::Gpio0 => 49,
        Interrupt::Gpio1 => 50,
        Interrupt::Gpio2 => 51,
        Interrupt::Gpio3 => 52,
        Interrupt::Uart => 57,
    }
}

impl Interrupt {
    /// All interrupts, in table order.
    pub fn iter() -> (r: Vec<Interrupt>)
        ensures
            r@.len() == MAX_INTERRUPTS,
            forall|i: Interrupt| #![auto] 0 <= spec_irq_index(i) < 8 && r@[spec_irq_index(i)] == i,
    {
        let mut v: Vec<Interrupt> = Vec::new();
        v.push(Interrupt::Timer1);
        v.push(Interrupt::Timer3);
        v.push(Interrupt::Usb);
        v.push(Interrupt::Gpio0);
        v.push(Interrupt::Gpio1);
        v.push(Interrupt::Gpio2);
        v.push(Interrupt::Gpio3);
        v.push(Interrupt::Uart);
        v
    }

    /// The dispatch-table index of `i`.
    pub fn to_index(i: Interrupt) -> (r: usize)
        ensures
            r == spec_irq_index(i),
            r < MAX_INTERRUPTS,
    {
        match i {
            Interrupt::Timer1 => 0,
            Interrupt::Timer3 => 1,
            Interrupt::Usb => 2,
            Interrupt::Gpio0 => 3,
            Interrupt::Gpio1 => 4,
            Interrupt::Gpio2 => 5,
            Interrupt::Gpio3 => 6,
            Interrupt::Uart => 7,
        }
    }

    /// The interrupt at dispatch-table index `i`.
    ///
    /// An index outside the table names no interrupt; callers stay
    /// inside it.
    pub fn from_index(i: usize) -> (r: Interrupt)
        requires
            i < MAX_INTERRUPTS,
        ensures
            spec_irq_index(r) == i,
    {
        match i {
            0 => Interrupt::Timer1,
            1 => Interrupt::Timer3,
            2 => Interrupt::Usb,
            3 => Interrupt::Gpio0,
            4 => Interrupt::Gpio1,
            5 => Interrupt::Gpio2,
            6 => Interrupt::Gpio3,
            _ => Interrupt::Uart,
        }
    }
}

/// What an installed handler does when its interrupt fires. The only
/// handler the hypervisor installs re-arms the preemption timer and
/// rotates the scheduler; both touch hardware, so the shell runs them.
#[derive(Debug, PartialEq, Eq, Copy, Clone, Structural)]
pub enum IrqHandler {
    /// Schedule the next preemption tick, then switch to the next guest.
    PreemptionTick,
}

/// The IRQ dispatch table: one optional handler per interrupt. Empty
/// until `initialize` runs.
pub struct Irq {
    handlers: Vec<Option<IrqHandler>>,
}

impl Irq {
    /// Whether `initialize` has been called.
    pub closed spec fn is_initialized(&self) -> bool {
        self.handlers@.len() == MAX_INTERRUPTS
    }

    /// The handler installed for table slot `i`.
    pub closed spec fn spec_handler(&self, i: int) -> Option<IrqHandler> {
        self.handlers@[i]
    }

    /// An empty, not yet usable table.
    pub fn uninitialized() -> (r: Irq)
        ensures
            !r.is_initialized(),
    {
        Irq { handlers: Vec::new() }
    }

    /// Fills the table with empty slots, making it usable.
    pub fn initialize(&mut self)
        ensures
            final(self).is_initialized(),
            forall|i: int| 0 <= i < MAX_INTERRUPTS ==> final(self).spec_handler(i) is None,
    {
        let mut v: Vec<Option<IrqHandler>> = Vec::new();
        let mut i: usize = 0;
        while i < MAX_INTERRUPTS
            invariant
                v@.len() == i,
                i <= MAX_INTERRUPTS,
                forall|k: int| 0 <= k < i ==> v@[k] is None,
            decreases MAX_INTERRUPTS - i,
        {
            v.push(None);
            i = i + 1;
        }
        self.handlers = v;
    }

    /// Installs `handler` for the given interrupt.
    ///
    /// The caller makes sure `initialize` ran first; an empty table
    /// has no slot to write.
    pub fn register(&mut self, interrupt: Interrupt, handler: IrqHandler)
        requires
            old(self).is_initialized(),
        ensures
            final(self).is_initialized(),
            final(self).spec_handler(spec_irq_index(interrupt)) == Some(handler),
            forall|i: int|
                0 <= i < MAX_INTERRUPTS && i != spec_irq_index(interrupt) ==> final(self).spec_handler(i)
                    == old(self).spec_handler(i),
    {
        let idx = Interrupt::to_index(interrupt);
        self.handlers[idx] = Some(handler);
    }

    /// The action to run for the given interrupt, if one is installed.
    pub fn invoke(&self, interrupt: Interrupt) -> (r: Option<IrqHandler>)
        requires
            self.is_initialized(),
        ensures
            r == self.spec_handler(spec_irq_index(interrupt)),
    {
        let idx = Interrupt::to_index(interrupt);
        self.handlers[idx]
    }
}

} // verus!

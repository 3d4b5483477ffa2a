use visor::allocator::Allocator;
use visor::mutex::Mutex;
use visor::mutex::RawMutex;
use visor::mutex::ReentrantLock;
use visor::param::IO_BASE;
use visor::param::IO_BASE_END;
use visor::param::PAGE_SIZE;
use visor::process::process::Process;
use visor::traps::ExceptionOutcome;
use visor::traps::Info;
use visor::traps::Kind;
use visor::traps::Source;
use visor::traps::handle_exception;
use visor::traps::irq::Interrupt;
use visor::traps::irq::Irq;
use visor::traps::irq::IrqHandler;
use visor::traps::mmio::MmioSpace;
use visor::util::align_down;
use visor::util::align_up;
use visor::util::is_aligned;
use visor::vm::VMManager;
use visor::vm::parange_of;
use visor::vm::setup_register_values;
use visor::vm::tgran64_supported;

fn window() -> MmioSpace {
    MmioSpace { base: IO_BASE, bytes: vec![0u8; (IO_BASE_END - IO_BASE) as usize] }
}

fn fixture() -> (Process, Allocator, MmioSpace, ReentrantLock, VMManager) {
    let mut vmm = VMManager::uninitialized();
    vmm.initialize(0x40000, 0x800000);
    let process = Process::new(0x1000000, &mut vmm);
    (
        process,
        Allocator::new(0x2000000, 0x3000000),
        window(),
        ReentrantLock::new(),
        vmm,
    )
}

#[test]
fn test_lazy_fault_allocates_once() {
    let (mut process, mut allocator, mut dev, mut lock, mut vmm) = fixture();
    let mut tf = process.context;
    // A stage-2 translation data abort on an unmapped guest page.
    let esr = (0b100100u32 << 26) | (0b0001 << 2);
    let ipa: u64 = 0x80000;
    let hpfar = (ipa >> 12) << 4;
    assert!(!process.vmap.pt.is_valid(ipa));
    let r = handle_exception(
        Info { source: Source::LowerAArch64, kind: Kind::Synchronous },
        esr,
        ipa,
        hpfar,
        &mut tf,
        &mut process,
        &mut allocator,
        &mut dev,
        &mut vmm,
        &mut lock,
    );
    assert_eq!(r, ExceptionOutcome::Handled);
    assert!(process.vmap.pt.is_valid(ipa));
    // The same fault again would not be a lazy fault; the page is
    // mapped now, and with a non-emulatable address it is fatal.
    let r2 = handle_exception(
        Info { source: Source::LowerAArch64, kind: Kind::Synchronous },
        esr,
        ipa,
        hpfar,
        &mut tf,
        &mut process,
        &mut allocator,
        &mut dev,
        &mut vmm,
        &mut lock,
    );
    assert_eq!(r2, ExceptionOutcome::Fatal);
}

#[test]
fn test_mmio_fault_is_emulated() {
    let (mut process, mut allocator, mut dev, mut lock, mut vmm) = fixture();
    let mut tf = process.context;
    tf.ELR = 0x80000;
    tf.xn[5] = 0xDEADBEEF;
    // ISV=1, SAS=2 (word), SRT=5, WnR=1: a 32-bit store to the timer.
    let iss: u32 = (1 << 24) | (2 << 22) | (5 << 16) | (1 << 6);
    let esr = (0b100100u32 << 26) | (0b0001 << 2) | iss;
    let far = IO_BASE + 0x3000;
    let hpfar = (far >> 12) << 4;
    let r = handle_exception(
        Info { source: Source::LowerAArch64, kind: Kind::Synchronous },
        esr,
        far,
        hpfar,
        &mut tf,
        &mut process,
        &mut allocator,
        &mut dev,
        &mut vmm,
        &mut lock,
    );
    assert_eq!(r, ExceptionOutcome::Handled);
    assert_eq!(tf.ELR, 0x80004);
    assert_eq!(dev.bytes[0x3000], 0xEF);
    assert_eq!(dev.bytes[0x3003], 0xDE);
}

#[test]
fn test_irq_and_fatal_routing() {
    let (mut process, mut allocator, mut dev, mut lock, mut vmm) = fixture();
    let mut tf = process.context;
    let irq = handle_exception(
        Info { source: Source::LowerAArch64, kind: Kind::Irq },
        0,
        0,
        0,
        &mut tf,
        &mut process,
        &mut allocator,
        &mut dev,
        &mut vmm,
        &mut lock,
    );
    assert_eq!(irq, ExceptionOutcome::PollIrqs);
    let fatal = handle_exception(
        Info { source: Source::CurrentSpElx, kind: Kind::Synchronous },
        0,
        0,
        0,
        &mut tf,
        &mut process,
        &mut allocator,
        &mut dev,
        &mut vmm,
        &mut lock,
    );
    assert_eq!(fatal, ExceptionOutcome::Fatal);
}

#[test]
fn test_irq_table_dispatch() {
    let mut irq = Irq::uninitialized();
    irq.initialize();
    assert_eq!(irq.invoke(Interrupt::Timer1), None);
    irq.register(Interrupt::Timer1, IrqHandler::PreemptionTick);
    assert_eq!(irq.invoke(Interrupt::Timer1), Some(IrqHandler::PreemptionTick));
    assert_eq!(irq.invoke(Interrupt::Uart), None);
    for i in 0..8 {
        let interrupt = Interrupt::from_index(i);
        assert_eq!(Interrupt::to_index(interrupt), i);
    }
    assert_eq!(Interrupt::iter().len(), 8);
}

#[test]
fn test_locks() {
    let mut raw = RawMutex::new();
    assert!(raw.try_lock());
    assert!(raw.try_lock()); // re-entry by the same core succeeds
    raw.unlock();

    let mut m = Mutex::new(41u64);
    m.lock();
    *m.data_mut() += 1;
    assert_eq!(*m.data(), 42);
    m.unlock();

    let mut gate = ReentrantLock::new();
    let guard = gate.enter();
    gate.leave(guard);
    let guard = gate.enter();
    gate.leave(guard);
}

#[test]
fn test_alignment_helpers() {
    assert_eq!(align_down(0x12345, 0x1000), 0x12000);
    assert_eq!(align_up(0x12345, 0x1000), 0x13000);
    assert_eq!(align_up(0x12000, 0x1000), 0x12000);
    assert!(is_aligned(0x40000, 0x10000));
    assert!(!is_aligned(0x40008, 0x10000));
    assert_eq!(align_down(7, 1), 7);
}

#[test]
fn test_register_values() {
    // The memory-model feature word of this board: 64 KiB granule
    // supported, a 4 GiB physical range.
    let mmfr0: u64 = 0;
    assert!(tgran64_supported(mmfr0));
    assert!(!tgran64_supported(0x0F00_0000));
    let ips = parange_of(mmfr0);
    let (mair, tcr, vtcr, hcr) = setup_register_values(ips);
    assert_eq!(mair, 0x4404FF);
    assert_eq!(tcr, 0x8080_7520);
    assert_eq!(vtcr, 0x8000_7562);
    assert_eq!(hcr, 0x13);
}

#[test]
fn test_process_accessors() {
    let mut vmm = VMManager::uninitialized();
    vmm.initialize(0x40000, 0x800000);
    let mut p = Process::new(0x1000000, &mut vmm);
    assert_eq!(p.get_vmid(), 0);
    p.set_vmid(7);
    assert_eq!(p.get_vmid(), 7);
    assert_eq!(p.context.VTTBR & 0x0000FFFFFFFFFFFF, 0x1000000);
    p.finish_load();
    assert_eq!(p.context.ELR, 0x80000);
    assert_eq!(p.context.SPSR_EL1, 0x3C0);
    assert_eq!(Process::get_image_base(), 0x80000);
    assert_eq!(Process::get_ipa_max(), 0x10000000);
    assert_eq!(PAGE_SIZE, 65536);
}

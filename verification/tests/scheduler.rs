use visor::process::State;
use visor::process::process::Process;
use visor::process::scheduler::GlobalScheduler;
use visor::process::scheduler::Scheduler;
use visor::traps::frame::TrapFrame;
use visor::vm::VMManager;

fn fresh_process(n: u64, vmm: &mut VMManager) -> Process {
    Process::new(0x1000000 + n * 0x30000, vmm)
}

fn test_vmm() -> VMManager {
    let mut vmm = VMManager::uninitialized();
    vmm.initialize(0x40000, 0x1000000);
    vmm
}

#[test]
fn test_vmids_are_minted_in_order() {
    let mut vmm = test_vmm();
    let mut s = Scheduler::new();
    for n in 0..3 {
        let vmid = s.add(fresh_process(n, &mut vmm));
        assert_eq!(vmid, n as u8);
    }
    assert_eq!(s.last_id, 3);
    for n in 0..3usize {
        assert_eq!(s.processes[n].get_vmid(), n as u8);
    }
}

#[test]
fn test_round_robin_visits_in_insertion_order() {
    let mut vmm = test_vmm();
    let mut s = Scheduler::new();
    for n in 0..3 {
        s.add(fresh_process(n, &mut vmm));
    }
    let mut tf = TrapFrame::default();
    // First switch starts guest 0; each later switch parks the current
    // guest and picks the next, visiting 0, 1, 2, 0, 1, ...
    let mut visited = Vec::new();
    for _ in 0..6 {
        s.schedule_out(State::Ready, &tf);
        let vmid = s.switch_to(&mut tf).expect("a ready process");
        visited.push(vmid);
    }
    assert_eq!(visited, vec![0, 1, 2, 0, 1, 2]);
}

#[test]
fn test_kill_keeps_relative_order() {
    let mut vmm = test_vmm();
    let mut s = Scheduler::new();
    for n in 0..3 {
        s.add(fresh_process(n, &mut vmm));
    }
    let mut tf = TrapFrame::default();
    // Run guest 1, then kill it.
    s.switch_to(&mut tf);
    s.schedule_out(State::Ready, &tf);
    s.switch_to(&mut tf);
    assert_eq!(s.processes[0].get_vmid(), 1);
    let killed = s.kill(&mut tf);
    assert_eq!(killed, Some(1));
    // The survivors keep their original relative order.
    let mut visited = Vec::new();
    for _ in 0..4 {
        s.schedule_out(State::Ready, &tf);
        let vmid = s.switch_to(&mut tf).expect("a ready process");
        visited.push(vmid);
    }
    assert_eq!(visited, vec![2, 0, 2, 0]);
}

#[test]
fn test_waiting_process_is_skipped_until_event() {
    let mut vmm = test_vmm();
    let mut s = Scheduler::new();
    s.add(fresh_process(0, &mut vmm));
    s.add(fresh_process(1, &mut vmm));
    let mut tf = TrapFrame::default();
    s.switch_to(&mut tf);
    s.schedule_out(State::Waiting, &tf);
    // Guest 0 waits; only guest 1 runs.
    let vmid = s.switch_to(&mut tf).expect("a ready process");
    assert_eq!(vmid, 1);
    // The event arrives; guest 0 becomes ready again.
    let idx = s.get_by_vmid(0).expect("guest 0 in the queue");
    assert!(s.processes[idx].is_ready(true));
    s.schedule_out(State::Ready, &mut tf);
    let vmid = s.switch_to(&mut tf).expect("a ready process");
    assert_eq!(vmid, 0);
}

#[test]
fn test_world_switch_round_trip() {
    let mut vmm = test_vmm();
    let mut s = Scheduler::new();
    s.add(fresh_process(0, &mut vmm));
    let mut tf = TrapFrame::default();
    s.switch_to(&mut tf);

    // Scribble a pattern over the whole frame, as a running guest
    // would.
    tf.ELR = 0x80000;
    tf.SPSR_EL1 = 0x3C5;
    tf.TTBR0_EL1 = 0x1111;
    tf.TTBR1_EL1 = 0x2222;
    tf.SP_EL0 = 0x3333;
    tf.SP_EL1 = 0x4444;
    tf.SCTLR_EL1 = 0x5555;
    tf.VBAR_EL1 = 0x6666;
    tf.TPIDR_EL0 = 0x7777;
    tf.TPIDR_EL1 = 0x8888;
    for i in 0..32 {
        tf.xn[i] = 0x1000 + i as u64;
        tf.qn[i] = 0x2000 + i as u128;
    }
    let saved = tf;

    // Save into the process, then restore; the frames agree bit for
    // bit.
    s.schedule_out(State::Ready, &tf);
    let mut restored = TrapFrame::default();
    s.switch_to(&mut restored);
    assert_eq!(restored, saved);

    // And a second save keeps them equal.
    s.schedule_out(State::Ready, &restored);
    assert_eq!(s.processes[0].context, saved);
}

#[test]
fn test_global_scheduler_wrapper() {
    let mut vmm = test_vmm();
    let mut gs = GlobalScheduler::uninitialized();
    gs.initialize(fresh_process(0, &mut vmm));
    let vmid = gs.add(fresh_process(1, &mut vmm));
    assert_eq!(vmid, 1);
    let mut tf = TrapFrame::default();
    let first = gs.switch_to(&mut tf);
    assert_eq!(first, Some(0));
    let second = gs.switch(State::Ready, &mut tf);
    assert_eq!(second, Some(1));
    assert_eq!(gs.get_by_vmid(1), Some(0));
    let killed = gs.kill(&mut tf);
    assert_eq!(killed, Some(1));
}

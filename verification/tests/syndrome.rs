use visor::traps::syndrome::Fault;
use visor::traps::syndrome::Syndrome;

#[test]
fn test_syndrome_classes() {
    assert_eq!(Syndrome::from(0x00000000), Syndrome::Unknown(0));
    assert_eq!(Syndrome::from(0b000001 << 26), Syndrome::WfiWfe);
    assert_eq!(Syndrome::from(0b000111 << 26), Syndrome::SimdFp);
    assert_eq!(Syndrome::from(0b001110 << 26), Syndrome::IllegalExecutionState);
    assert_eq!(Syndrome::from((0b010001 << 26) | 7), Syndrome::Svc(7));
    assert_eq!(Syndrome::from((0b010101 << 26) | 9), Syndrome::Svc(9));
    assert_eq!(Syndrome::from((0b010010 << 26) | 3), Syndrome::Hvc(3));
    assert_eq!(Syndrome::from((0b010011 << 26) | 4), Syndrome::Smc(4));
    assert_eq!(Syndrome::from(0b011000 << 26), Syndrome::MsrMrsSystem);
    assert_eq!(Syndrome::from(0b100010 << 26), Syndrome::PCAlignmentFault);
    assert_eq!(Syndrome::from(0b100110 << 26), Syndrome::SpAlignmentFault);
    assert_eq!(Syndrome::from(0b101100 << 26), Syndrome::TrappedFpu);
    assert_eq!(Syndrome::from(0b101111 << 26), Syndrome::SError);
    assert_eq!(Syndrome::from(0b110000 << 26), Syndrome::Breakpoint);
    assert_eq!(Syndrome::from(0b110010 << 26), Syndrome::Step);
    assert_eq!(Syndrome::from(0b110100 << 26), Syndrome::Watchpoint);
    assert_eq!(Syndrome::from((0b111100 << 26) | 11), Syndrome::Brk(11));
    assert_eq!(Syndrome::from(0b111111 << 26), Syndrome::Other(0b111111 << 26));
}

#[test]
fn test_fault_kinds() {
    assert_eq!(Fault::from(0b0000 << 2), Fault::AddressSize);
    assert_eq!(Fault::from(0b0001 << 2), Fault::Translation);
    assert_eq!(Fault::from(0b0010 << 2), Fault::AccessFlag);
    assert_eq!(Fault::from(0b0011 << 2), Fault::Permission);
    assert_eq!(Fault::from(0b0100 << 2), Fault::Alignment);
    assert_eq!(Fault::from(0b1000 << 2), Fault::Alignment);
    assert_eq!(Fault::from(0b1100 << 2), Fault::TlbConflict);
    assert_eq!(Fault::from(0b1010 << 2), Fault::Other(0b1010));
}

#[test]
fn test_instruction_abort_decoding() {
    let esr = (0b100000u32 << 26) | (0b0001 << 2) | 0b10;
    match Syndrome::from(esr) {
        Syndrome::InstructionAbort { kind, level } => {
            assert_eq!(kind, Fault::Translation);
            assert_eq!(level, 2);
        }
        other => panic!("wrong class: {:?}", other),
    }
}

#[test]
fn test_data_abort_iss_fields() {
    // ISV=1, SAS=2, SSE=0, SRT=5, SF=0, WnR=1, DFSC=0b000100.
    let iss_bits: u32 = (1 << 24) | (2 << 22) | (5 << 16) | (1 << 6) | 0b000100;
    let esr = (0b100100u32 << 26) | iss_bits;
    match Syndrome::from(esr) {
        Syndrome::DataAbort { kind, level, iss } => {
            assert_eq!(kind, Fault::Translation);
            assert_eq!(level, 0);
            assert_eq!(iss.isv(), 1);
            assert_eq!(iss.sas(), 2);
            assert_eq!(iss.sse(), 0);
            assert_eq!(iss.srt(), 5);
            assert_eq!(iss.sf(), 0);
            assert_eq!(iss.fnv(), 0);
            assert_eq!(iss.cm(), 0);
            assert_eq!(iss.wnr(), 1);
            assert_eq!(iss.dfsc(), 0b000100);
        }
        other => panic!("wrong class: {:?}", other),
    }
}

#[test]
fn test_get_abort_info() {
    let data_abort = Syndrome::from((0b100100u32 << 26) | (0b0010 << 2) | 0b11);
    assert_eq!(data_abort.get_abort_info(), Some((Fault::AccessFlag, 3)));
    let insn_abort = Syndrome::from((0b100001u32 << 26) | (0b0001 << 2) | 0b01);
    assert_eq!(insn_abort.get_abort_info(), Some((Fault::Translation, 1)));
    assert_eq!(Syndrome::from(0b000001 << 26).get_abort_info(), None);
}

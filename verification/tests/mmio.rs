use visor::param::IO_BASE;
use visor::traps::frame::TrapFrame;
use visor::traps::mmio::MmioSpace;
use visor::traps::mmio::handle_mmio;
use visor::traps::syndrome::DataAbortSyndrome;

fn device() -> MmioSpace {
    MmioSpace { base: IO_BASE, bytes: vec![0u8; 0x4000] }
}

fn iss(isv: u64, sas: u64, sse: u64, srt: u64, sf: u64, wnr: u64) -> DataAbortSyndrome {
    DataAbortSyndrome::new((isv << 24) | (sas << 22) | (sse << 21) | (srt << 16) | (sf << 15) | (wnr << 6))
}

#[test]
fn test_word_store_to_timer() {
    // A 32-bit store of 0xDEADBEEF from x5 to the timer block.
    let mut dev = device();
    let mut tf = TrapFrame::default();
    tf.ELR = 0x80004;
    tf.xn[5] = 0xDEADBEEF;
    let syndrome = iss(1, 2, 0, 5, 0, 1);
    handle_mmio(IO_BASE + 0x3000, syndrome, &mut tf, &mut dev);
    let at = |i: usize| dev.bytes[0x3000 + i] as u32;
    let stored = at(0) | (at(1) << 8) | (at(2) << 16) | (at(3) << 24);
    assert_eq!(stored, 0xDEADBEEF);
    assert_eq!(tf.ELR, 0x80008);
    assert_eq!(tf.xn[5], 0xDEADBEEF);
}

#[test]
fn test_sign_extended_byte_load() {
    // A byte load with sign extension into the 64-bit form of x3.
    let mut dev = device();
    dev.bytes[0x3004] = 0xFF;
    let mut tf = TrapFrame::default();
    tf.ELR = 0x80000;
    let syndrome = iss(1, 0, 1, 3, 1, 0);
    handle_mmio(IO_BASE + 0x3004, syndrome, &mut tf, &mut dev);
    assert_eq!(tf.xn[3], 0xFFFFFFFFFFFFFFFF);
    assert_eq!(tf.ELR, 0x80004);
}

#[test]
fn test_word_load_merges_low_half() {
    // A 32-bit load without sign extension into w7 keeps x7's top half.
    let mut dev = device();
    dev.bytes[0x3008] = 0x01;
    dev.bytes[0x3009] = 0x00;
    dev.bytes[0x300A] = 0x00;
    dev.bytes[0x300B] = 0x80;
    let mut tf = TrapFrame::default();
    tf.ELR = 0x80000;
    tf.xn[7] = 0xAAAAAAAA_CCCCCCCC;
    let syndrome = iss(1, 2, 0, 7, 0, 0);
    handle_mmio(IO_BASE + 0x3008, syndrome, &mut tf, &mut dev);
    assert_eq!(tf.xn[7], 0xAAAAAAAA_80000001);
    assert_eq!(tf.ELR, 0x80004);
}

#[test]
fn test_doubleword_store_and_load_round_trip() {
    let mut dev = device();
    let mut tf = TrapFrame::default();
    tf.ELR = 0x1000;
    tf.xn[9] = 0x0123456789ABCDEF;
    handle_mmio(IO_BASE + 0x10, iss(1, 3, 0, 9, 1, 1), &mut tf, &mut dev);
    handle_mmio(IO_BASE + 0x10, iss(1, 3, 0, 10, 1, 0), &mut tf, &mut dev);
    assert_eq!(tf.xn[10], 0x0123456789ABCDEF);
    assert_eq!(tf.ELR, 0x1008);
}

#[test]
fn test_halfword_store_masks_register() {
    // A 16-bit store takes only the register's low 16 bits.
    let mut dev = device();
    let mut tf = TrapFrame::default();
    tf.ELR = 0;
    tf.xn[1] = 0x12345678;
    handle_mmio(IO_BASE + 0x20, iss(1, 1, 0, 1, 0, 1), &mut tf, &mut dev);
    assert_eq!(dev.bytes[0x20], 0x78);
    assert_eq!(dev.bytes[0x21], 0x56);
    assert_eq!(dev.bytes[0x22], 0x00);
}

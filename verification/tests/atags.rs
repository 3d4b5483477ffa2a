use visor::atags::Atag;
use visor::atags::atag_base;
use visor::atags::read_atag;
use visor::atags::write_atags;
use visor::param::GUEST_MAX_VM_SIZE;

#[test]
fn test_written_atags_read_back() {
    let mut page = vec![0u8; 0x10000];
    let base = atag_base();
    write_atags(&mut page, base);

    let (first, next) = read_atag(&page, base).expect("a first record");
    match first {
        Atag::Core(core) => {
            assert_eq!(core.flags, 1);
            assert_eq!(core.page_size, 4096);
            assert_eq!(core.root_dev, 0);
        }
        other => panic!("expected a CORE record, got {:?}", other),
    }

    let (second, next) = read_atag(&page, next).expect("a second record");
    match second {
        Atag::Mem(mem) => {
            assert_eq!(mem.size as u64, GUEST_MAX_VM_SIZE);
            assert_eq!(mem.start, 0);
        }
        other => panic!("expected a MEM record, got {:?}", other),
    }

    let (last, _) = read_atag(&page, next).expect("a final record");
    assert_eq!(last, Atag::Terminator);
}

#[test]
fn test_atag_bytes_are_exact() {
    let mut page = vec![0u8; 0x1000];
    write_atags(&mut page, 0);
    let word = |i: usize| {
        (page[4 * i] as u32)
            | ((page[4 * i + 1] as u32) << 8)
            | ((page[4 * i + 2] as u32) << 16)
            | ((page[4 * i + 3] as u32) << 24)
    };
    assert_eq!(word(0), 5);
    assert_eq!(word(1), 0x54410001);
    assert_eq!(word(2), 1);
    assert_eq!(word(3), 4096);
    assert_eq!(word(4), 0);
    assert_eq!(word(5), 4);
    assert_eq!(word(6), 0x54410002);
    assert_eq!(word(7), 0x10000000);
    assert_eq!(word(8), 0);
    assert_eq!(word(9), 0);
    assert_eq!(word(10), 0);
}

#[test]
fn test_accessors_pick_their_variant() {
    let core = Atag::Core(visor::atags::Core { flags: 1, page_size: 4096, root_dev: 0 });
    assert!(core.clone().core_record().is_some());
    assert!(core.mem_record().is_none());
    let mem = Atag::Mem(visor::atags::Mem { size: 7, start: 0 });
    assert!(mem.clone().mem_record().is_some());
    assert!(mem.cmd().is_none());
}

#[test]
fn test_unknown_and_short_records() {
    let mut page = vec![0u8; 64];
    // dwords = 3, an unrecognized tag.
    page[0] = 3;
    page[4] = 0x77;
    let (tag, next) = read_atag(&page, 0).expect("a record");
    assert_eq!(tag, Atag::Unknown(0x77));
    assert_eq!(next, 12);
    // A record that cannot fit is refused.
    assert!(read_atag(&page, 60).is_none());
}

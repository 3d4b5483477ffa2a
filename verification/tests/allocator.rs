use visor::allocator::Allocator;
use visor::allocator::bin_to_size;
use visor::allocator::size_to_bin;

#[test]
fn test_size_to_bin() {
    for i in 1..=8 {
        assert_eq!(size_to_bin(i), 0);
    }
    assert_eq!(size_to_bin(9), 1);
    assert_eq!(size_to_bin(16), 1);
    assert_eq!(size_to_bin(17), 2);
    assert_eq!(size_to_bin(32), 2);
    assert_eq!(size_to_bin(1234), 8);

    assert_eq!(bin_to_size(0), 8);
    assert_eq!(bin_to_size(1), 16);
    assert_eq!(bin_to_size(2), 32);
    assert_eq!(bin_to_size(3), 64);

    assert_eq!(bin_to_size(size_to_bin(5)), 8);
    assert_eq!(bin_to_size(size_to_bin(15)), 16);
    assert_eq!(bin_to_size(size_to_bin(25)), 32);
}

#[test]
fn test_bin_to_size_covers_request() {
    for n in 1u64..=4096 {
        assert!(bin_to_size(size_to_bin(n)) >= n);
    }
    for k in 3..=12u32 {
        let n = 1u64 << k;
        assert_eq!(bin_to_size(size_to_bin(n)), n);
    }
}

#[test]
fn test_alloc_respects_alignment() {
    let mut a = Allocator::new(0x100008, 0x200000);
    let p = a.allocate(100, 64);
    assert!(p != 0);
    assert_eq!(p % 64, 0);
    let q = a.allocate(8, 8);
    assert!(q != 0);
    assert_eq!(q % 8, 0);
    assert!(p != q);
}

#[test]
fn test_alloc_zero_size_is_null() {
    let mut a = Allocator::new(0x100000, 0x200000);
    assert_eq!(a.allocate(0, 8), 0);
}

#[test]
fn test_alloc_out_of_memory_is_null() {
    let mut a = Allocator::new(0x100000, 0x100040);
    let p = a.allocate(64, 8);
    assert_eq!(p, 0x100000);
    let q = a.allocate(8, 8);
    assert_eq!(q, 0);
}

#[test]
fn test_free_then_alloc_returns_same_address() {
    let mut a = Allocator::new(0x100000, 0x200000);
    let p = a.allocate(48, 8);
    assert!(p != 0);
    a.dealloc(p, 48);
    let q = a.allocate(48, 8);
    assert_eq!(q, p);
}

#[test]
fn test_coalesce_free_in_order() {
    let mut a = Allocator::new(0x100000, 0x200000);
    let s = 48u64;
    let p1 = a.allocate(s, 8);
    let p2 = a.allocate(s, 8);
    assert!(p1 != 0 && p2 != 0);
    assert_eq!(p2, p1 + bin_to_size(size_to_bin(s)));
    a.dealloc(p1, s);
    a.dealloc(p2, s);
    let big = a.allocate(2 * s, 8);
    assert!(big != 0);
}

#[test]
fn test_coalesce_free_reversed() {
    let mut a = Allocator::new(0x100000, 0x200000);
    let s = 64u64;
    let p1 = a.allocate(s, 8);
    let p2 = a.allocate(s, 8);
    assert!(p1 != 0 && p2 != 0);
    a.dealloc(p2, s);
    a.dealloc(p1, s);
    let big = a.allocate(2 * s, 8);
    assert_eq!(big, p1);
}

#[test]
fn test_binned_chunk_is_reused() {
    let mut a = Allocator::new(0x100000, 0x200000);
    let p1 = a.allocate(32, 8);
    let _p2 = a.allocate(32, 8);
    a.dealloc(p1, 32);
    let p3 = a.allocate(32, 8);
    assert_eq!(p3, p1);
}

#[test]
fn test_blocks_do_not_overlap() {
    let mut a = Allocator::new(0x100000, 0x200000);
    let p1 = a.allocate(100, 8);
    let p2 = a.allocate(100, 64);
    let p3 = a.allocate(8, 8);
    let c = bin_to_size(size_to_bin(100));
    assert!(p1 + c <= p2 || p2 + c <= p1);
    assert!(p2 + c <= p3 || p3 + 8 <= p2);
    assert!(p1 + c <= p3 || p3 + 8 <= p1);
}

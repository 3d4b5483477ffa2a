//! Address-alignment arithmetic shared by the allocator and the page
//! tables. An alignment is always a power of two; aligning down masks the
//! low bits away, aligning up moves to the next boundary.
use vstd::prelude::*;

verus! {

use vstd::arithmetic::power2::pow2;
use vstd::bits::lemma_usize_low_bits_mask_is_mod;
use vstd::bits::low_bits_mask;
use vstd::bits::lemma_usize_pow2_no_overflow;
use vstd::arithmetic::power2::lemma_pow2_pos;
use vstd::arithmetic::div_mod::lemma_fundamental_div_mod;
use vstd::arithmetic::div_mod::lemma_mod_multiples_basic;

/// A power of two that fits the machine word.
pub open spec fn is_pow2(a: usize) -> bool {
    exists|n: nat| n < usize::BITS && a == pow2(n)
}

/// A power of two is at least one.
proof fn lemma_pow2_at_least_one(align: usize)
    requires
        is_pow2(align),
    ensures
        align >= 1,
{
    let n = choose|n: nat| n < usize::BITS && align == pow2(n);
    lemma_pow2_pos(n);
}

/// With `align == pow2(n)`, masking with `align - 1` is reduction mod
/// `align`. Everything the alignment helpers promise follows from this.
proof fn lemma_mask_is_mod(addr: usize, align: usize)
    requires
        is_pow2(align),
    ensures
        align >= 1,
        addr & ((align - 1) as usize) == addr % align,
{
    let n = choose|n: nat| n < usize::BITS && align == pow2(n);
    lemma_pow2_pos(n);
    lemma_usize_pow2_no_overflow(n);
    lemma_usize_low_bits_mask_is_mod(addr, n);
    assert(low_bits_mask(n) as usize == (align - 1) as usize);
}

/// Align `addr` downwards to the nearest multiple of `align`.
///
/// Only power-of-two alignments make sense here, and callers pass
/// one.
pub fn align_down(addr: usize, align: usize) -> (r: usize)
    requires
        is_pow2(align),
    ensures
        r % align == 0,
        r <= addr && addr < r + align,
        addr - r == addr % align,
{
    proof {
        lemma_pow2_at_least_one(align);
    }
    let mask: usize = align - 1;
    proof {
        lemma_mask_is_mod(addr, align);
        assert((addr & !mask) + (addr & mask) == addr) by (bit_vector);
        lemma_fundamental_div_mod(addr as int, align as int);
        lemma_mod_multiples_basic(addr as int / align as int, align as int);
    }
    addr & !mask
}

/// Align `addr` upwards to the nearest multiple of `align`; callers
/// leave room at the top of the address space, where rounding up would
/// overflow.
pub fn align_up(addr: usize, align: usize) -> (r: usize)
    requires
        is_pow2(align),
        addr + align - 1 <= usize::MAX,
    ensures
        r % align == 0,
        addr <= r && r < addr + align,
{
    proof {
        lemma_pow2_at_least_one(align);
    }
    align_down(addr + (align - 1), align)
}

/// Whether `addr` is a multiple of `align` (a power of two).
pub fn is_aligned(addr: usize, align: usize) -> (r: bool)
    requires
        is_pow2(align),
    ensures
        r == (addr % align == 0),
{
    proof {
        lemma_mask_is_mod(addr, align);
    }
    let mask: usize = align - 1;
    addr & mask == 0
}

} // verus!

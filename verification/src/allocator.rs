//! A size-classed segregated free-list allocator. Thirty bins; bin `k`
//! holds free chunks of exactly `8 * 2^k` bytes (8 B up to 4 GiB). A "top
//! chunk" `[top_start, top_end)` records the still-unused tail of the
//! backing region. Freed chunks coalesce with a buddy from their bin or
//! with the top chunk.
//!
//! The allocator hands out addresses; it never touches the memory behind
//! them. Every state change is pinned down by a specification-level
//! transition function, so laws about sequences of calls (free then
//! reallocate, coalescing) are proved about those transitions.
use vstd::prelude::*;

verus! {

use vstd::arithmetic::power2::pow2;
use vstd::arithmetic::power2::lemma_pow2_adds;
use vstd::arithmetic::power2::lemma_pow2_pos;
use vstd::arithmetic::power2::lemma_pow2_strictly_increases;
use vstd::bits::lemma_u64_shl_is_mul;
use vstd::arithmetic::div_mod::lemma_fundamental_div_mod;
use vstd::arithmetic::div_mod::lemma_mod_multiples_basic;

/// Number of size classes: bin 29 holds 4 GiB chunks.
pub const BIN_COUNT: usize = 30;

/// The largest bin index.
pub const MAX_BIN: usize = 29;

/// Upper bound on the backing region's end address (2^48, the physical
/// address space of the target board class). Keeps all chunk arithmetic
/// far from the word's edge.
pub const REGION_LIMIT: u64 = 0x1000000000000;

/// The allocator's abstract state: one sequence of free-chunk addresses
/// per bin (front of the sequence is the head of the free list), and the
/// top chunk's bounds.
#[verifier::ext_equal]
pub ghost struct AllocState {
    pub bins: Seq<Seq<u64>>,
    pub top_start: u64,
    pub top_end: u64,
}

/// The chunk size of bin `k`: `8 * 2^k` bytes.
pub open spec fn bin_size(k: nat) -> nat {
    8 * pow2(k)
}

/// The bin whose chunk size first reaches `size`: 0 for 1..=8, 1 for
/// 9..=16, and so on.
pub open spec fn spec_size_to_bin(size: int) -> nat
    decreases size,
{
    if size <= 8 {
        0
    } else {
        (1 + spec_size_to_bin((size + 1) / 2)) as nat
    }
}

/// A power of two no larger than the word.
pub open spec fn is_pow2_64(a: u64) -> bool {
    exists|n: nat| n < u64::BITS && a == pow2(n)
}

/// Every bin size is a multiple of 8.
pub proof fn lemma_bin_size_mod8(k: nat)
    ensures
        bin_size(k) % 8 == 0,
{
    lemma_mod_multiples_basic(pow2(k) as int, 8);
}

/// A smaller power of two divides a larger one.
pub proof fn lemma_pow2_divides(small: u64, big: u64)
    requires
        is_pow2_64(small),
        is_pow2_64(big),
        small <= big,
    ensures
        big % small == 0,
{
    let ns = choose|n: nat| n < u64::BITS && small == pow2(n);
    let nb = choose|n: nat| n < u64::BITS && big == pow2(n);
    if nb < ns {
        lemma_pow2_strictly_increases(nb, ns);
    }
    lemma_pow2_pos(ns);
    lemma_pow2_adds(ns, (nb - ns) as nat);
    lemma_mod_multiples_basic(pow2((nb - ns) as nat) as int, small as int);
    assert(pow2(ns) * pow2((nb - ns) as nat) == pow2((nb - ns) as nat) * pow2(ns))
        by (nonlinear_arith);
}

/// Divisibility chains: a multiple of `big` is a multiple of any divisor
/// of `big`.
pub proof fn lemma_mod_div_chain(x: int, big: int, small: int)
    requires
        big > 0,
        small > 0,
        x >= 0,
        x % big == 0,
        big % small == 0,
    ensures
        x % small == 0,
{
    lemma_fundamental_div_mod(x, big);
    lemma_fundamental_div_mod(big, small);
    assert(x == small * ((big / small) * (x / big))) by (nonlinear_arith)
        requires
            x == big * (x / big),
            big == small * (big / small),
    ;
    lemma_mod_multiples_basic((big / small) * (x / big), small);
}

/// `bin_size` grows strictly with the bin index.
pub proof fn lemma_bin_size_increases(j: nat, k: nat)
    requires
        j < k,
    ensures
        bin_size(j) < bin_size(k),
{
    lemma_pow2_strictly_increases(j, k);
}

/// `spec_size_to_bin` is exactly characterized by its two bounds: the bin
/// holds the size, and the bin below (if any) does not.
pub proof fn lemma_size_to_bin_char(size: int, k: nat)
    requires
        1 <= size,
        size <= bin_size(k),
        k == 0 || bin_size((k - 1) as nat) < size,
    ensures
        spec_size_to_bin(size) == k,
    decreases k,
{
    if k == 0 {
        assert(pow2(0) == 1) by {
            vstd::arithmetic::power2::lemma2_to64();
        }
    } else {
        assert(size > 8) by {
            lemma_pow2_pos((k - 1) as nat);
        }
        let size2 = (size + 1) / 2;
        assert(bin_size((k - 1) as nat) * 2 == bin_size(k)) by {
            lemma_pow2_adds((k - 1) as nat, 1);
            vstd::arithmetic::power2::lemma2_to64();
        }
        if k >= 2 {
            assert(bin_size((k - 2) as nat) * 2 == bin_size((k - 1) as nat)) by {
                lemma_pow2_adds((k - 2) as nat, 1);
                vstd::arithmetic::power2::lemma2_to64();
            }
        }
        lemma_size_to_bin_char(size2, (k - 1) as nat);
    }
}

/// The result of `spec_size_to_bin` bounds its argument from above.
pub proof fn lemma_size_to_bin_holds(size: int)
    requires
        1 <= size,
    ensures
        size <= bin_size(spec_size_to_bin(size)),
        spec_size_to_bin(size) == 0 || bin_size((spec_size_to_bin(size) - 1) as nat) < size,
    decreases size,
{
    if size <= 8 {
        assert(pow2(0) == 1) by {
            vstd::arithmetic::power2::lemma2_to64();
        }
    } else {
        let k = spec_size_to_bin(size);
        let size2 = (size + 1) / 2;
        lemma_size_to_bin_holds(size2);
        let k2 = spec_size_to_bin(size2);
        assert(k == k2 + 1);
        assert(bin_size(k2) * 2 == bin_size(k)) by {
            lemma_pow2_adds(k2, 1);
            vstd::arithmetic::power2::lemma2_to64();
        }
        if k2 == 0 {
            assert(bin_size(0) == 8) by {
                vstd::arithmetic::power2::lemma2_to64();
            }
        } else {
            assert(bin_size((k2 - 1) as nat) * 2 == bin_size(k2)) by {
                lemma_pow2_adds((k2 - 1) as nat, 1);
                vstd::arithmetic::power2::lemma2_to64();
            }
            if size == bin_size(k2) {
                assert(size2 == bin_size((k2 - 1) as nat));
                assert(false);
            }
        }
    }
}

/// Returns the chunk size of a bin.
///
/// Above the last bin no size class exists; callers stay in range.
pub fn bin_to_size(bin: usize) -> (r: u64)
    requires
        bin <= MAX_BIN,
    ensures
        r == bin_size(bin as nat),
        r >= 8,
{
    proof {
        lemma_pow2_adds(3, bin as nat);
        vstd::arithmetic::power2::lemma2_to64();
        if bin < MAX_BIN {
            lemma_pow2_strictly_increases((bin + 3) as nat, 32);
        }
        lemma_u64_shl_is_mul(1u64, ((bin + 3) as u64));
        lemma_pow2_pos(bin as nat);
    }
    1u64 << ((bin as u64) + 3)
}

/// The per-bin free lists of `bins`, each as a sequence of addresses.
pub open spec fn deep_view(bins: Seq<Vec<u64>>) -> Seq<Seq<u64>> {
    bins.map(|i: int, b: Vec<u64>| b@)
}

/// Chunk `c` of bin `k` stays inside the region and on the 8-byte grid.
pub open spec fn chunk_ok(c: u64, k: nat, top_end: u64) -> bool {
    c % 8 == 0 && c + bin_size(k) <= top_end
}

/// Well-formed allocator state: thirty bins, an ordered top chunk below
/// the region limit, and every free chunk aligned and inside the region.
pub open spec fn wf(s: AllocState) -> bool {
    &&& s.bins.len() == BIN_COUNT
    &&& s.top_start <= s.top_end
    &&& s.top_end <= REGION_LIMIT
    &&& s.top_start % 8 == 0
    &&& forall|k: int, i: int|
        0 <= k < BIN_COUNT && 0 <= i < s.bins[k].len() ==> chunk_ok(
            #[trigger] s.bins[k][i],
            k as nat,
            s.top_end,
        )
}

/// No free chunk anywhere: the state right after construction.
pub open spec fn bins_empty(s: AllocState) -> bool {
    forall|k: int| 0 <= k < BIN_COUNT ==> (#[trigger] s.bins[k]).len() == 0
}

/// Whether the free chunk `c` (of `size` bytes) touches the chunk at
/// `ptr` of the same size from either side.
pub open spec fn adjacent(c: u64, ptr: u64, size: nat) -> bool {
    ptr + size == c || c + size == ptr
}

/// Index of the first chunk in `list` adjacent to `ptr`, front first,
/// mirroring the free-list scan.
pub open spec fn spec_find_adjacent(list: Seq<u64>, ptr: u64, size: nat) -> Option<int>
    decreases list.len(),
{
    if list.len() == 0 {
        None
    } else if adjacent(list[0], ptr, size) {
        Some(0int)
    } else {
        match spec_find_adjacent(list.skip(1), ptr, size) {
            None => None,
            Some(i) => Some(i + 1),
        }
    }
}

/// `spec_find_adjacent` returns the least adjacent index.
pub proof fn lemma_find_adjacent_first(list: Seq<u64>, ptr: u64, size: nat, j: int)
    requires
        0 <= j < list.len(),
        adjacent(list[j], ptr, size),
        forall|i: int| 0 <= i < j ==> !adjacent(#[trigger] list[i], ptr, size),
    ensures
        spec_find_adjacent(list, ptr, size) == Some(j),
    decreases j,
{
    if j > 0 {
        assert(forall|i: int|
            0 <= i < j - 1 ==> !adjacent(#[trigger] list.skip(1)[i], ptr, size)) by {
            assert(forall|i: int| 0 <= i < list.len() - 1 ==> list.skip(1)[i] == list[i + 1]);
        }
        lemma_find_adjacent_first(list.skip(1), ptr, size, j - 1);
    }
}

/// With no adjacent chunk at all, the scan comes up empty.
pub proof fn lemma_find_adjacent_none(list: Seq<u64>, ptr: u64, size: nat)
    requires
        forall|i: int| 0 <= i < list.len() ==> !adjacent(#[trigger] list[i], ptr, size),
    ensures
        spec_find_adjacent(list, ptr, size) is None,
    decreases list.len(),
{
    if list.len() > 0 {
        assert(forall|i: int|
            0 <= i < list.len() - 1 ==> !adjacent(#[trigger] list.skip(1)[i], ptr, size)) by {
            assert(forall|i: int| 0 <= i < list.len() - 1 ==> list.skip(1)[i] == list[i + 1]);
        }
        lemma_find_adjacent_none(list.skip(1), ptr, size);
    }
}

/// One step of coalesce-on-free. The freed chunk is absorbed into the
/// top chunk when it ends there; merged with an adjacent buddy from its
/// own bin and moved one bin up; or pushed onto the front of its bin.
pub open spec fn spec_insert_chunk(s: AllocState, ptr: u64, bin: nat) -> AllocState
    decreases MAX_BIN - bin,
{
    let size = bin_size(bin);
    if ptr + size == s.top_start {
        AllocState { bins: s.bins, top_start: ptr, top_end: s.top_end }
    } else if bin < MAX_BIN {
        match spec_find_adjacent(s.bins[bin as int], ptr, size) {
            Some(i) => {
                let other = s.bins[bin as int][i];
                let s2 = AllocState {
                    bins: s.bins.update(bin as int, s.bins[bin as int].remove(i)),
                    top_start: s.top_start,
                    top_end: s.top_end,
                };
                if ptr + size == other {
                    spec_insert_chunk(s2, ptr, bin + 1)
                } else {
                    spec_insert_chunk(s2, other, bin + 1)
                }
            },
            None => AllocState {
                bins: s.bins.update(bin as int, s.bins[bin as int].insert(0, ptr)),
                top_start: s.top_start,
                top_end: s.top_end,
            },
        }
    } else {
        AllocState {
            bins: s.bins.update(bin as int, s.bins[bin as int].insert(0, ptr)),
            top_start: s.top_start,
            top_end: s.top_end,
        }
    }
}

/// Splitting a region into power-of-two chunks, one per set bit of
/// `bits` (the region's size in 8-byte units), scanned from the lowest
/// bit; `i` is the bin fed by the lowest remaining bit.
pub open spec fn spec_rebin_go(s: AllocState, ptr: u64, bits: u64, i: nat) -> AllocState
    decreases bits,
{
    if bits == 0 {
        s
    } else if bits % 2 == 1 {
        let s2 = spec_insert_chunk(s, ptr, i);
        spec_rebin_go(s2, (ptr + bin_size(i)) as u64, (bits / 2) as u64, i + 1)
    } else {
        spec_rebin_go(s, ptr, (bits / 2) as u64, i + 1)
    }
}

/// Splitting the `size`-byte region at `ptr` into binned chunks.
pub open spec fn spec_rebin(s: AllocState, ptr: u64, size: u64) -> AllocState {
    if size == 0 {
        s
    } else {
        spec_rebin_go(s, ptr, (size / 8) as u64, 0)
    }
}

/// Returns the bin whose chunk size first reaches `size`.
///
/// A zero size has no bin and nothing above the largest bin fits one;
/// callers pass a size in range.
pub fn size_to_bin(size: u64) -> (r: usize)
    requires
        1 <= size,
        size <= bin_size(MAX_BIN as nat),
    ensures
        r == spec_size_to_bin(size as int),
        r <= MAX_BIN,
{
    let mut k: usize = 0;
    proof {
        vstd::arithmetic::power2::lemma2_to64();
    }
    loop
        invariant
            k <= MAX_BIN,
            1 <= size <= bin_size(MAX_BIN as nat),
            k == 0 || bin_size((k - 1) as nat) < size,
        decreases MAX_BIN - k,
    {
        let bsize = bin_to_size(k);
        if size <= bsize {
            proof {
                lemma_size_to_bin_char(size as int, k as nat);
            }
            return k;
        }
        proof {
            if k == MAX_BIN {
                assert(false);
            }
        }
        k = k + 1;
    }
}

/// Index of the first chunk in `list` whose address meets `align`,
/// front first, mirroring the free-list scan.
pub open spec fn spec_find_aligned(list: Seq<u64>, align: u64) -> Option<int>
    decreases list.len(),
{
    if list.len() == 0 {
        None
    } else if list[0] % align == 0 {
        Some(0int)
    } else {
        match spec_find_aligned(list.skip(1), align) {
            None => None,
            Some(i) => Some(i + 1),
        }
    }
}

/// The first bin at or above `k` holding a chunk that meets `align`,
/// together with that chunk's index.
pub open spec fn spec_find_bins(bins: Seq<Seq<u64>>, k: nat, align: u64) -> Option<(nat, int)>
    decreases BIN_COUNT - k,
{
    if k >= BIN_COUNT {
        None
    } else {
        match spec_find_aligned(bins[k as int], align) {
            Some(j) => Some((k, j)),
            None => spec_find_bins(bins, k + 1, align),
        }
    }
}

/// `spec_find_aligned` returns the least aligned index.
pub proof fn lemma_find_aligned_first(list: Seq<u64>, align: u64, j: int)
    requires
        0 <= j < list.len(),
        list[j] % align == 0,
        forall|i: int| 0 <= i < j ==> #[trigger] list[i] % align != 0,
    ensures
        spec_find_aligned(list, align) == Some(j),
    decreases j,
{
    if j > 0 {
        assert(forall|i: int| 0 <= i < list.len() - 1 ==> list.skip(1)[i] == list[i + 1]);
        lemma_find_aligned_first(list.skip(1), align, j - 1);
    }
}

/// With no aligned chunk at all, the scan comes up empty.
pub proof fn lemma_find_aligned_none(list: Seq<u64>, align: u64)
    requires
        forall|i: int| 0 <= i < list.len() ==> #[trigger] list[i] % align != 0,
    ensures
        spec_find_aligned(list, align) is None,
    decreases list.len(),
{
    if list.len() > 0 {
        assert(forall|i: int| 0 <= i < list.len() - 1 ==> list.skip(1)[i] == list[i + 1]);
        lemma_find_aligned_none(list.skip(1), align);
    }
}

/// The bin scan lands on the first bin with an aligned chunk.
pub proof fn lemma_find_bins_at(bins: Seq<Seq<u64>>, k: nat, i: nat, align: u64)
    requires
        k <= i < BIN_COUNT,
        forall|m: int| k <= m < i ==> spec_find_aligned(#[trigger] bins[m], align) is None,
        spec_find_aligned(bins[i as int], align) is Some,
    ensures
        spec_find_bins(bins, k, align) == Some(
            (i, spec_find_aligned(bins[i as int], align)->Some_0),
        ),
    decreases i - k,
{
    if k < i {
        lemma_find_bins_at(bins, k + 1, i, align);
    }
}

/// With no aligned chunk in any bin at or above `k`, the scan fails.
pub proof fn lemma_find_bins_none(bins: Seq<Seq<u64>>, k: nat, align: u64)
    requires
        forall|m: int| k <= m < BIN_COUNT ==> spec_find_aligned(#[trigger] bins[m], align) is None,
    ensures
        spec_find_bins(bins, k, align) is None,
    decreases BIN_COUNT - k,
{
    if k < BIN_COUNT {
        lemma_find_bins_none(bins, k + 1, align);
    }
}

/// The next multiple of `a` at or above `x`.
pub open spec fn spec_align_up(x: int, a: int) -> int {
    if x % a == 0 {
        x
    } else {
        x + a - x % a
    }
}

/// What `alloc` does: take the first aligned chunk from the first bin
/// that fits and split off the tail, or carve from the top chunk after
/// binning the alignment gap. Returns the new state and the address, 0
/// when the region is exhausted.
pub open spec fn spec_alloc(s: AllocState, size: u64, align: u64) -> (AllocState, u64) {
    if size == 0 || align > bin_size(MAX_BIN as nat) {
        (s, 0u64)
    } else {
        let k = spec_size_to_bin(size as int);
        let csize = bin_size(k);
        match spec_find_bins(s.bins, k, align) {
            Some(p) => {
                let i = p.0;
                let j = p.1;
                let c = s.bins[i as int][j];
                let s1 = AllocState {
                    bins: s.bins.update(i as int, s.bins[i as int].remove(j)),
                    top_start: s.top_start,
                    top_end: s.top_end,
                };
                let s2 = spec_rebin(s1, (c + csize) as u64, (bin_size(i) - csize) as u64);
                (s2, c)
            },
            None => {
                let a = if align < 8 {
                    8u64
                } else {
                    align
                };
                let cs = spec_align_up(s.top_start as int, a as int);
                if cs + csize > s.top_end {
                    (s, 0u64)
                } else {
                    let s1 = spec_rebin(s, s.top_start, (cs - s.top_start) as u64);
                    (
                        AllocState {
                            bins: s1.bins,
                            top_start: (cs + csize) as u64,
                            top_end: s1.top_end,
                        },
                        cs as u64,
                    )
                }
            },
        }
    }
}

/// What `dealloc` does: nothing for a null address or empty size, else
/// the freed chunk re-enters its bin, coalescing on the way.
pub open spec fn spec_dealloc(s: AllocState, ptr: u64, size: u64) -> AllocState {
    if ptr == 0 || size == 0 {
        s
    } else {
        spec_rebin(s, ptr, bin_size(spec_size_to_bin(size as int)) as u64)
    }
}

/// The bin allocator over `[top_start, top_end)`, with one free list per
/// size class. It deals in addresses only; the thin shell that owns the
/// actual memory region applies its decisions.
pub struct Allocator {
    bins: Vec<Vec<u64>>,
    top_start: u64,
    top_end: u64,
}

impl View for Allocator {
    type V = AllocState;

    closed spec fn view(&self) -> AllocState {
        AllocState { bins: deep_view(self.bins@), top_start: self.top_start, top_end: self.top_end }
    }
}

/// Reads entry `j` of bin `k`.
fn bin_get(bins: &Vec<Vec<u64>>, k: usize, j: usize) -> (r: u64)
    requires
        k < bins@.len(),
        j < deep_view(bins@)[k as int].len(),
    ensures
        r == deep_view(bins@)[k as int][j as int],
{
    bins[k][j]
}

/// The length of bin `k`.
fn bin_len(bins: &Vec<Vec<u64>>, k: usize) -> (r: usize)
    requires
        k < bins@.len(),
    ensures
        r == deep_view(bins@)[k as int].len(),
{
    bins[k].len()
}

/// Removes and returns entry `j` of bin `k`.
fn bin_remove(bins: &mut Vec<Vec<u64>>, k: usize, j: usize) -> (r: u64)
    requires
        k < old(bins)@.len(),
        j < deep_view(old(bins)@)[k as int].len(),
    ensures
        r == deep_view(old(bins)@)[k as int][j as int],
        deep_view(final(bins)@) == deep_view(old(bins)@).update(
            k as int,
            deep_view(old(bins)@)[k as int].remove(j as int),
        ),
        final(bins)@.len() == old(bins)@.len(),
{
    let b = &mut bins[k];
    let r = b.remove(j);
    proof {
        assert(deep_view(bins@) =~~= deep_view(old(bins)@).update(
            k as int,
            deep_view(old(bins)@)[k as int].remove(j as int),
        ));
    }
    r
}

/// Pushes `ptr` onto the front of bin `k`.
fn bin_push_front(bins: &mut Vec<Vec<u64>>, k: usize, ptr: u64)
    requires
        k < old(bins)@.len(),
    ensures
        deep_view(final(bins)@) == deep_view(old(bins)@).update(
            k as int,
            deep_view(old(bins)@)[k as int].insert(0, ptr),
        ),
        final(bins)@.len() == old(bins)@.len(),
{
    let b = &mut bins[k];
    b.insert(0, ptr);
    proof {
        assert(deep_view(bins@) =~~= deep_view(old(bins)@).update(
            k as int,
            deep_view(old(bins)@)[k as int].insert(0, ptr),
        ));
    }
}

impl Allocator {
    /// Creates a new bin allocator over the region from `start` to `end`,
    /// with all bins empty and everything in the top chunk.
    pub fn new(start: usize, end: usize) -> (r: Allocator)
        requires
            start % 8 == 0,
            start <= end,
            end <= REGION_LIMIT,
        ensures
            wf(r@),
            bins_empty(r@),
            r@.top_start == start,
            r@.top_end == end,
    {
        let mut bins: Vec<Vec<u64>> = Vec::new();
        let mut i: usize = 0;
        while i < BIN_COUNT
            invariant
                i <= BIN_COUNT,
                bins@.len() == i,
                forall|k: int| 0 <= k < i ==> (#[trigger] bins@[k])@.len() == 0,
            decreases BIN_COUNT - i,
        {
            bins.push(Vec::new());
            i = i + 1;
        }
        Allocator { bins, top_start: start as u64, top_end: end as u64 }
    }

    /// Frees one chunk of exactly bin `bin`'s size at `ptr`, coalescing
    /// with the top chunk or a buddy from the same bin where one is
    /// adjacent.
    fn insert_chunk(&mut self, ptr: u64, bin: usize)
        requires
            wf(old(self)@),
            bin <= MAX_BIN,
            ptr % 8 == 0,
            ptr + bin_size(bin as nat) <= old(self)@.top_end,
        ensures
            final(self)@ == spec_insert_chunk(old(self)@, ptr, bin as nat),
            wf(final(self)@),
            final(self)@.top_end == old(self)@.top_end,
        decreases MAX_BIN - bin,
    {
        let size = bin_to_size(bin);
        if ptr + size == self.top_start {
            self.top_start = ptr;
            return ;
        }
        if bin < MAX_BIN {
            let n = bin_len(&self.bins, bin);
            let mut j: usize = 0;
            while j < n
                invariant
                    wf(self@),
                    self@ == old(self)@,
                    bin < MAX_BIN,
                    ptr % 8 == 0,
                    ptr + bin_size(bin as nat) <= self@.top_end,
                    ptr + size != self@.top_start,
                    size == bin_size(bin as nat),
                    n == self@.bins[bin as int].len(),
                    j <= n,
                    forall|i: int|
                        0 <= i < j ==> !adjacent(
                            #[trigger] self@.bins[bin as int][i],
                            ptr,
                            bin_size(bin as nat),
                        ),
                decreases n - j,
            {
                let other = bin_get(&self.bins, bin, j);
                if ptr + size == other {
                    proof {
                        lemma_find_adjacent_first(
                            self@.bins[bin as int],
                            ptr,
                            bin_size(bin as nat),
                            j as int,
                        );
                        lemma_pow2_adds(bin as nat, 1);
                        vstd::arithmetic::power2::lemma2_to64();
                    }
                    bin_remove(&mut self.bins, bin, j);
                    self.insert_chunk(ptr, bin + 1);
                    return ;
                }
                if other + size == ptr {
                    proof {
                        lemma_find_adjacent_first(
                            self@.bins[bin as int],
                            ptr,
                            bin_size(bin as nat),
                            j as int,
                        );
                        lemma_pow2_adds(bin as nat, 1);
                        vstd::arithmetic::power2::lemma2_to64();
                    }
                    bin_remove(&mut self.bins, bin, j);
                    self.insert_chunk(other, bin + 1);
                    return ;
                }
                j = j + 1;
            }
            proof {
                lemma_find_adjacent_none(self@.bins[bin as int], ptr, bin_size(bin as nat));
            }
        }
        bin_push_front(&mut self.bins, bin, ptr);
    }

    /// Splits the `size`-byte region at `ptr` into free chunks, one per
    /// set bit of `size / 8`, feeding each into its bin.
    ///
    /// A misaligned or undersized region cannot be cut into chunks;
    /// callers pass a multiple of 8 inside the region.
    fn rebin(&mut self, ptr: u64, size: u64)
        requires
            wf(old(self)@),
            ptr % 8 == 0,
            size % 8 == 0,
            ptr + size <= old(self)@.top_end,
            size <= bin_size(MAX_BIN as nat),
        ensures
            final(self)@ == spec_rebin(old(self)@, ptr, size),
            wf(final(self)@),
            final(self)@.top_end == old(self)@.top_end,
    {
        if size == 0 {
            return ;
        }
        let ghost s0 = self@;
        let mut bits = size >> 3u64;
        let mut p = ptr;
        let mut i: usize = 0;
        proof {
            assert(size >> 3u64 == size / 8) by (bit_vector);
            vstd::arithmetic::power2::lemma2_to64();
            assert(bin_size(0) == 8);
            assert((size / 8) * bin_size(0) == size);
            assert(bin_size(MAX_BIN as nat) == 0x1_0000_0000);
        }
        while bits != 0
            invariant
                wf(self@),
                self@.top_end == s0.top_end,
                p % 8 == 0,
                i <= MAX_BIN + 1,
                p + bits * bin_size(i as nat) <= s0.top_end,
                bits * bin_size(i as nat) <= bin_size(MAX_BIN as nat),
                spec_rebin_go(self@, p, bits, i as nat) == spec_rebin_go(s0, ptr, (size / 8) as u64, 0),
            decreases bits,
        {
            proof {
                assert(bits >= 1);
                assert(bin_size(i as nat) <= bits * bin_size(i as nat)) by (nonlinear_arith)
                    requires
                        bits >= 1,
                        bin_size(i as nat) >= 0,
                ;
                if i as nat > MAX_BIN as nat {
                    lemma_bin_size_increases(MAX_BIN as nat, i as nat);
                    assert(false);
                }
                assert(bits & 1 == bits % 2) by (bit_vector);
                assert(bits >> 1u64 == bits / 2) by (bit_vector);
                lemma_pow2_adds(i as nat, 1);
                vstd::arithmetic::power2::lemma2_to64();
                assert(bin_size((i + 1) as nat) == 2 * bin_size(i as nat));
                assert((bits / 2) * (2 * bin_size(i as nat)) <= bits * bin_size(i as nat))
                    by (nonlinear_arith)
                    requires
                        bits >= 0,
                        bin_size(i as nat) >= 0,
                ;
            }
            if bits & 1 != 0 {
                proof {
                    assert((bits - 1) * bin_size(i as nat) + bin_size(i as nat) == bits * bin_size(
                        i as nat,
                    )) by (nonlinear_arith);
                    assert(((bits - 1) / 2) * (2 * bin_size(i as nat)) == (bits - 1) * bin_size(
                        i as nat,
                    )) by (nonlinear_arith)
                        requires
                            bits % 2 == 1,
                    ;
                }
                let csize = bin_to_size(i);
                self.insert_chunk(p, i);
                p = p + csize;
            }
            bits = bits >> 1u64;
            i = i + 1;
        }
    }

    /// Allocates `size` bytes at alignment `align`. Returns the chunk's
    /// address, or 0 when the size is 0 or the region is exhausted; on
    /// failure the allocator is unchanged.
    ///
    /// The first aligned chunk of the first large-enough bin wins and
    /// its tail is re-binned; with no such chunk the block is carved
    /// from the top chunk, whose alignment gap is re-binned.
    pub fn allocate(&mut self, size: u64, align: u64) -> (r: u64)
        requires
            wf(old(self)@),
            is_pow2_64(align),
            size <= bin_size(MAX_BIN as nat),
        ensures
            (final(self)@, r) == spec_alloc(old(self)@, size, align),
            wf(final(self)@),
            final(self)@.top_end == old(self)@.top_end,
            r != 0 ==> r % align == 0 && r % 8 == 0,
            r != 0 ==> r + bin_size(spec_size_to_bin(size as int)) <= old(self)@.top_end,
    {
        proof {
            let n = choose|n: nat| n < u64::BITS && align == pow2(n);
            lemma_pow2_pos(n);
            assert(bin_size(MAX_BIN as nat) == 0x1_0000_0000) by {
                vstd::arithmetic::power2::lemma2_to64();
            }
        }
        let max_align = bin_to_size(MAX_BIN);
        if size == 0 || align > max_align {
            return 0;
        }
        proof {
            lemma_size_to_bin_holds(size as int);
        }
        let k = size_to_bin(size);
        let csize = bin_to_size(k);
        proof {
            lemma_bin_size_mod8(k as nat);
        }
        let mut i: usize = k;
        while i < BIN_COUNT
            invariant
                wf(self@),
                self@ == old(self)@,
                k <= i <= BIN_COUNT,
                k <= MAX_BIN,
                size != 0,
                size <= bin_size(MAX_BIN as nat),
                k as nat == spec_size_to_bin(size as int),
                csize == bin_size(k as nat),
                csize % 8 == 0,
                is_pow2_64(align),
                align >= 1,
                align <= bin_size(MAX_BIN as nat),
                forall|m: int|
                    k <= m < i ==> spec_find_aligned(#[trigger] self@.bins[m], align) is None,
            decreases BIN_COUNT - i,
        {
            let n = bin_len(&self.bins, i);
            let mut j: usize = 0;
            while j < n
                invariant
                    wf(self@),
                    self@ == old(self)@,
                    k <= i < BIN_COUNT,
                    k <= MAX_BIN,
                    size != 0,
                    size <= bin_size(MAX_BIN as nat),
                    k as nat == spec_size_to_bin(size as int),
                    csize == bin_size(k as nat),
                    csize % 8 == 0,
                    is_pow2_64(align),
                    align >= 1,
                    align <= bin_size(MAX_BIN as nat),
                    n == self@.bins[i as int].len(),
                    j <= n,
                    forall|m: int|
                        k <= m < i ==> spec_find_aligned(#[trigger] self@.bins[m], align) is None,
                    forall|m: int| 0 <= m < j ==> #[trigger] self@.bins[i as int][m] % align != 0,
                decreases n - j,
            {
                let c = bin_get(&self.bins, i, j);
                if c % align == 0 {
                    proof {
                        lemma_find_aligned_first(self@.bins[i as int], align, j as int);
                        lemma_find_bins_at(self@.bins, k as nat, i as nat, align);
                        if (k as nat) < (i as nat) {
                            lemma_bin_size_increases(k as nat, i as nat);
                        }
                        lemma_bin_size_mod8(i as nat);
                    }
                    proof {
                        if (i as nat) < (MAX_BIN as nat) {
                            lemma_bin_size_increases(i as nat, MAX_BIN as nat);
                        }
                        assert(chunk_ok(self@.bins[i as int][j as int], i as nat, self@.top_end));
                        assert(c + bin_size(i as nat) <= self@.top_end);
                        vstd::arithmetic::div_mod::lemma_add_mod_noop(c as int, csize as int, 8);
                        vstd::arithmetic::div_mod::lemma_sub_mod_noop(
                            bin_size(i as nat) as int,
                            csize as int,
                            8,
                        );
                    }
                    let _removed = bin_remove(&mut self.bins, i, j);
                    let isize = bin_to_size(i);
                    self.rebin(c + csize, isize - csize);
                    return c;
                }
                j = j + 1;
            }
            proof {
                lemma_find_aligned_none(self@.bins[i as int], align);
            }
            i = i + 1;
        }
        proof {
            lemma_find_bins_none(self@.bins, k as nat, align);
        }
        let a = if align < 8 {
            8u64
        } else {
            align
        };
        let top = self.top_start;
        proof {
            assert(bin_size(MAX_BIN as nat) == 0x1_0000_0000) by {
                vstd::arithmetic::power2::lemma2_to64();
            }
            vstd::arithmetic::div_mod::lemma_mod_decreases(top as nat, a as nat);
        }
        let cs = if top % a == 0 {
            top
        } else {
            top - top % a + a
        };
        proof {
            assert(8u64 == pow2(3)) by {
                vstd::arithmetic::power2::lemma2_to64();
            }
            assert(is_pow2_64(8u64));
            assert(cs % a == 0) by {
                if top % a != 0 {
                    lemma_fundamental_div_mod(top as int, a as int);
                    assert(cs as int == a as int * (top as int / a as int) + a as int);
                    assert(a as int * (top as int / a as int) + a as int == (top as int / a as int
                        + 1) * a as int) by (nonlinear_arith);
                    lemma_mod_multiples_basic(top as int / a as int + 1, a as int);
                }
            }
            assert(is_pow2_64(a));
            lemma_pow2_divides(8, a);
            lemma_mod_div_chain(cs as int, a as int, 8);
            if align < 8 {
                lemma_pow2_divides(align, 8);
                lemma_mod_div_chain(cs as int, 8, align as int);
            } else {
                lemma_mod_div_chain(cs as int, a as int, align as int);
            }
        }
        if cs > self.top_end || self.top_end - cs < csize {
            return 0;
        }
        let gap = cs - top;
        proof {
            assert(gap % 8 == 0) by {
                vstd::arithmetic::div_mod::lemma_sub_mod_noop(cs as int, top as int, 8);
            }
            assert(gap < a) by {
                lemma_fundamental_div_mod(top as int, a as int);
                vstd::arithmetic::div_mod::lemma_mod_bound(top as int, a as int);
            }
            assert(bin_size(MAX_BIN as nat) == 0x1_0000_0000) by {
                vstd::arithmetic::power2::lemma2_to64();
            }
            assert((cs + csize) % 8 == 0) by {
                vstd::arithmetic::div_mod::lemma_add_mod_noop(cs as int, csize as int, 8);
            }
        }
        self.rebin(top, gap);
        self.top_start = cs + csize;
        cs
    }

    /// Returns the chunk at `ptr` (of request size `size`) to the free
    /// lists. Freeing a null address or zero bytes is a no-op.
    ///
    /// Callers pass an address the allocator handed out, which sits
    /// on the 8-byte grid inside the region; anything else would
    /// corrupt the free lists.
    pub fn dealloc(&mut self, ptr: u64, size: u64)
        requires
            wf(old(self)@),
            ptr % 8 == 0,
            size <= bin_size(MAX_BIN as nat),
            ptr != 0 && size != 0 ==> ptr + bin_size(spec_size_to_bin(size as int)) <= old(
                self,
            )@.top_end,
        ensures
            final(self)@ == spec_dealloc(old(self)@, ptr, size),
            wf(final(self)@),
            final(self)@.top_end == old(self)@.top_end,
    {
        if size == 0 || ptr == 0 {
            return ;
        }
        let k = size_to_bin(size);
        let csize = bin_to_size(k);
        proof {
            lemma_bin_size_mod8(k as nat);
            if (k as nat) < (MAX_BIN as nat) {
                lemma_bin_size_increases(k as nat, MAX_BIN as nat);
            }
        }
        self.rebin(ptr, csize);
    }
}


/// Re-binning a single chunk of exactly bin `k`'s size is one
/// `spec_insert_chunk` step: the size has one set bit, so the split
/// emits one piece.
pub proof fn lemma_rebin_go_pow2(s: AllocState, ptr: u64, j: nat, i: nat)
    requires
        i + j <= MAX_BIN,
    ensures
        spec_rebin_go(s, ptr, pow2(j) as u64, i) == spec_insert_chunk(s, ptr, (i + j) as nat),
    decreases j,
{
    vstd::bits::lemma_u64_pow2_no_overflow(j);
    if j == 0 {
        assert(pow2(0) == 1) by {
            vstd::arithmetic::power2::lemma2_to64();
        }
        let s2 = spec_insert_chunk(s, ptr, i);
        assert(spec_rebin_go(s2, (ptr + bin_size(i)) as u64, 0u64, (i + 1) as nat) == s2);
    } else {
        vstd::arithmetic::power2::lemma_pow2_unfold(j);
        vstd::bits::lemma_u64_pow2_no_overflow((j - 1) as nat);
        lemma_pow2_pos(j);
        lemma_pow2_pos((j - 1) as nat);
        assert(pow2(j) as u64 % 2 == 0) by {
            lemma_mod_multiples_basic(pow2((j - 1) as nat) as int, 2);
            assert(2 * pow2((j - 1) as nat) == pow2((j - 1) as nat) * 2) by (nonlinear_arith);
        }
        assert(pow2(j) as u64 / 2 == pow2((j - 1) as nat) as u64);
        assert(spec_rebin_go(s, ptr, pow2(j) as u64, i) == spec_rebin_go(
            s,
            ptr,
            pow2((j - 1) as nat) as u64,
            i + 1,
        ));
        lemma_rebin_go_pow2(s, ptr, (j - 1) as nat, i + 1);
    }
}

/// Freeing one whole bin-sized chunk through `spec_rebin` is exactly one
/// coalescing insertion.
pub proof fn lemma_rebin_single(s: AllocState, ptr: u64, k: nat)
    requires
        k <= MAX_BIN,
    ensures
        spec_rebin(s, ptr, bin_size(k) as u64) == spec_insert_chunk(s, ptr, k),
{
    lemma_pow2_pos(k);
    vstd::bits::lemma_u64_pow2_no_overflow(k);
    vstd::bits::lemma_u64_pow2_no_overflow((k + 3) as nat);
    assert(pow2(3) == 8) by {
        vstd::arithmetic::power2::lemma2_to64();
    }
    lemma_pow2_adds(3, k);
    assert(bin_size(k) == pow2((k + 3) as nat));
    assert(bin_size(k) as u64 != 0);
    assert((8 * pow2(k)) / 8 == pow2(k)) by (nonlinear_arith);
    assert((bin_size(k) as u64 / 8) as u64 == pow2(k) as u64);
    lemma_rebin_go_pow2(s, ptr, k, 0);
}

/// Doubling a request of at least 8 bytes moves it up exactly one bin.
pub proof fn lemma_size_to_bin_double(size: int)
    requires
        8 <= size,
    ensures
        spec_size_to_bin(2 * size) == spec_size_to_bin(size) + 1,
{
    let k = spec_size_to_bin(size);
    lemma_size_to_bin_holds(size);
    assert(bin_size(k + 1) == 2 * bin_size(k)) by {
        lemma_pow2_adds(k, 1);
        vstd::arithmetic::power2::lemma2_to64();
    }
    if k == 0 {
        assert(bin_size(0) == 8) by {
            vstd::arithmetic::power2::lemma2_to64();
        }
    } else {
        assert(bin_size((k - 1) as nat) * 2 == bin_size(k)) by {
            lemma_pow2_adds((k - 1) as nat, 1);
            vstd::arithmetic::power2::lemma2_to64();
        }
    }
    lemma_size_to_bin_char(2 * size, k + 1);
}

/// With every bin empty, the bin scan finds nothing at any start index.
pub proof fn lemma_find_bins_empty(bins: Seq<Seq<u64>>, k: nat, align: u64)
    requires
        bins.len() == BIN_COUNT,
        forall|m: int| 0 <= m < BIN_COUNT ==> (#[trigger] bins[m]).len() == 0,
    ensures
        spec_find_bins(bins, k, align) is None,
{
    assert(forall|m: int|
        k <= m < BIN_COUNT ==> spec_find_aligned(#[trigger] bins[m], align) is None);
    lemma_find_bins_none(bins, k, align);
}

/// Freeing what was just carved from the top chunk and asking again
/// returns the same address: with no usable binned chunk and an already
/// aligned top, the block comes from the top, the free is absorbed back
/// into the top, and the next request carves the identical block.
pub proof fn lemma_alloc_free_alloc_same(s: AllocState, size: u64, align: u64)
    requires
        wf(s),
        1 <= size <= bin_size(MAX_BIN as nat),
        is_pow2_64(align),
        align <= bin_size(MAX_BIN as nat),
        spec_find_bins(s.bins, spec_size_to_bin(size as int), align) is None,
        s.top_start % (if align < 8 { 8u64 } else { align }) == 0,
        s.top_start > 0,
        s.top_start + bin_size(spec_size_to_bin(size as int)) <= s.top_end,
    ensures
        ({
            let (s1, p) = spec_alloc(s, size, align);
            let s2 = spec_dealloc(s1, p, size);
            &&& p == s.top_start
            &&& s2 == s
            &&& spec_alloc(s2, size, align).1 == p
        }),
{
    let k = spec_size_to_bin(size as int);
    let csize = bin_size(k);
    lemma_size_to_bin_holds(size as int);
    if k > 0 {
        lemma_bin_size_increases((k - 1) as nat, k);
    }
    assert(k <= MAX_BIN) by {
        if k > MAX_BIN {
            if (k - 1) as nat > MAX_BIN as nat {
                lemma_bin_size_increases(MAX_BIN as nat, (k - 1) as nat);
            }
            assert(bin_size((k - 1) as nat) < size);
            assert(false);
        }
    }
    lemma_pow2_pos(k);
    let a = if align < 8 { 8u64 } else { align };
    let (s1, p) = spec_alloc(s, size, align);
    assert(p == s.top_start && s1 == AllocState {
        bins: s.bins,
        top_start: (s.top_start + csize) as u64,
        top_end: s.top_end,
    });
    lemma_rebin_single(s1, p, k);
    let s2 = spec_dealloc(s1, p, size);
    assert(s2 == spec_insert_chunk(s1, p, k));
    assert(s2 =~= s);
    assert(spec_alloc(s2, size, align).1 == p);
}

/// Two equal blocks carved from an empty allocator, both freed in either
/// order, coalesce far enough that one block of twice the size can be
/// carved next: the frees flow back into the top chunk or leave at most
/// one binned chunk below the scanned bins.
pub proof fn lemma_coalesce_doubles(s: AllocState, size: u64, reverse: bool)
    requires
        wf(s),
        bins_empty(s),
        size % 8 == 0,
        8 <= size <= bin_size((MAX_BIN - 1) as nat),
        s.top_start > 0,
        s.top_start + 3 * bin_size(spec_size_to_bin(size as int)) <= s.top_end,
    ensures
        ({
            let (sa, p1) = spec_alloc(s, size, 8);
            let (sb, p2) = spec_alloc(sa, size, 8);
            let sc = if reverse {
                spec_dealloc(spec_dealloc(sb, p2, size), p1, size)
            } else {
                spec_dealloc(spec_dealloc(sb, p1, size), p2, size)
            };
            &&& p1 != 0
            &&& p2 != 0
            &&& p2 == p1 + bin_size(spec_size_to_bin(size as int))
            &&& spec_alloc(sc, (2 * size) as u64, 8).1 != 0
        }),
{
    let k = spec_size_to_bin(size as int);
    let csize = bin_size(k);
    let t0 = s.top_start;
    lemma_size_to_bin_holds(size as int);
    assert(k <= MAX_BIN - 1) by {
        if k > MAX_BIN - 1 {
            if (k - 1) as nat > (MAX_BIN - 1) as nat {
                lemma_bin_size_increases((MAX_BIN - 1) as nat, (k - 1) as nat);
            }
            assert(bin_size((k - 1) as nat) < size);
            assert(false);
        }
    }
    lemma_pow2_pos(k);
    lemma_bin_size_mod8(k);
    assert(8u64 == pow2(3)) by {
        vstd::arithmetic::power2::lemma2_to64();
    }
    assert(is_pow2_64(8u64));
    assert(bin_size(MAX_BIN as nat) == 0x1_0000_0000) by {
        vstd::arithmetic::power2::lemma2_to64();
    }
    vstd::arithmetic::div_mod::lemma_add_mod_noop(t0 as int, csize as int, 8);
    vstd::arithmetic::div_mod::lemma_add_mod_noop(t0 as int + csize, csize as int, 8);

    // First two carvings from the top chunk.
    lemma_find_bins_empty(s.bins, k, 8);
    let (sa, p1) = spec_alloc(s, size, 8);
    assert(p1 == t0 && sa == AllocState {
        bins: s.bins,
        top_start: (t0 + csize) as u64,
        top_end: s.top_end,
    });
    lemma_find_bins_empty(sa.bins, k, 8);
    let (sb, p2) = spec_alloc(sa, size, 8);
    assert(p2 == t0 + csize && sb == AllocState {
        bins: s.bins,
        top_start: (t0 + 2 * csize) as u64,
        top_end: s.top_end,
    });

    // The doubled request lands exactly one bin up.
    lemma_size_to_bin_double(size as int);
    let k2 = spec_size_to_bin(2 * size as int);
    assert(k2 == k + 1);
    assert(bin_size(k2) == 2 * csize) by {
        lemma_pow2_adds(k, 1);
        vstd::arithmetic::power2::lemma2_to64();
    }

    let sc = if reverse {
        // Both frees end at the top chunk's doorstep and are absorbed.
        lemma_rebin_single(sb, p2, k);
        let sx = spec_dealloc(sb, p2, size);
        assert(sx == AllocState { bins: s.bins, top_start: p2, top_end: s.top_end });
        lemma_rebin_single(sx, p1, k);
        let sy = spec_dealloc(sx, p1, size);
        assert(sy == AllocState { bins: s.bins, top_start: p1, top_end: s.top_end });
        sy
    } else {
        // The first free sits below the top and is binned; the second is
        // absorbed into the top.
        lemma_rebin_single(sb, p1, k);
        let sx = spec_dealloc(sb, p1, size);
        assert(spec_find_adjacent(sb.bins[k as int], p1, csize) is None);
        assert(sx == AllocState {
            bins: s.bins.update(k as int, s.bins[k as int].insert(0, p1)),
            top_start: sb.top_start,
            top_end: s.top_end,
        });
        lemma_rebin_single(sx, p2, k);
        let sy = spec_dealloc(sx, p2, size);
        assert(sy == AllocState { bins: sx.bins, top_start: p2, top_end: s.top_end });
        sy
    };

    // Either way a doubled request succeeds from the top chunk.
    assert(forall|m: int|
        k2 <= m < BIN_COUNT ==> spec_find_aligned(#[trigger] sc.bins[m], 8) is None);
    lemma_find_bins_none(sc.bins, k2, 8);
    assert(sc.top_start % 8 == 0);
    assert(spec_alloc(sc, (2 * size) as u64, 8).1 == sc.top_start);
}


/// With no binned chunk, an aligned top and room below the region's
/// end, a request is served, from the top chunk's start: memory is
/// handed out as long as the space suffices.
pub proof fn lemma_alloc_succeeds_with_room(s: AllocState, size: u64, align: u64)
    requires
        wf(s),
        bins_empty(s),
        1 <= size <= bin_size(MAX_BIN as nat),
        is_pow2_64(align),
        align <= bin_size(MAX_BIN as nat),
        s.top_start > 0,
        s.top_start % (if align < 8 {
            8u64
        } else {
            align
        }) == 0,
        s.top_start + bin_size(spec_size_to_bin(size as int)) <= s.top_end,
    ensures
        spec_alloc(s, size, align).1 == s.top_start,
        spec_alloc(s, size, align).1 != 0,
{
    let k = spec_size_to_bin(size as int);
    lemma_size_to_bin_holds(size as int);
    assert(k <= MAX_BIN) by {
        if k > MAX_BIN {
            if (k - 1) as nat > MAX_BIN as nat {
                lemma_bin_size_increases(MAX_BIN as nat, (k - 1) as nat);
            }
            assert(bin_size((k - 1) as nat) < size);
            assert(false);
        }
    }
    lemma_find_bins_empty(s.bins, k, align);
}


/// The next multiple never falls below its argument.
pub proof fn lemma_align_up_ge(x: int, a: int)
    requires
        x >= 0,
        a > 0,
    ensures
        spec_align_up(x, a) >= x,
        spec_align_up(x, a) % a == 0,
{
    if x % a != 0 {
        vstd::arithmetic::div_mod::lemma_mod_bound(x, a);
        lemma_fundamental_div_mod(x, a);
        assert(x + a - x % a == (x / a + 1) * a) by (nonlinear_arith)
            requires
                x == a * (x / a) + x % a,
        ;
        lemma_mod_multiples_basic(x / a + 1, a);
    }
}

/// Blocks carved one after the other from the top chunk do not
/// overlap: with nothing binned and an aligned top, the first request
/// is served at the top's start and the second, whatever its
/// alignment, at or beyond the first block's end.
pub proof fn lemma_two_carvings_disjoint(
    s: AllocState,
    size1: u64,
    align1: u64,
    size2: u64,
    align2: u64,
)
    requires
        wf(s),
        bins_empty(s),
        1 <= size1 <= bin_size(MAX_BIN as nat),
        1 <= size2 <= bin_size(MAX_BIN as nat),
        is_pow2_64(align1),
        align1 <= bin_size(MAX_BIN as nat),
        is_pow2_64(align2),
        align2 <= bin_size(MAX_BIN as nat),
        s.top_start > 0,
        s.top_start % (if align1 < 8 {
            8u64
        } else {
            align1
        }) == 0,
        s.top_start + bin_size(spec_size_to_bin(size1 as int)) <= s.top_end,
    ensures
        ({
            let (s1, p1) = spec_alloc(s, size1, align1);
            let (s2, p2) = spec_alloc(s1, size2, align2);
            &&& p1 == s.top_start
            &&& (p2 != 0 ==> p1 + bin_size(spec_size_to_bin(size1 as int)) <= p2)
        }),
{
    let k1 = spec_size_to_bin(size1 as int);
    let csize1 = bin_size(k1);
    lemma_size_to_bin_holds(size1 as int);
    assert(k1 <= MAX_BIN) by {
        if k1 > MAX_BIN {
            if (k1 - 1) as nat > MAX_BIN as nat {
                lemma_bin_size_increases(MAX_BIN as nat, (k1 - 1) as nat);
            }
            assert(bin_size((k1 - 1) as nat) < size1);
            assert(false);
        }
    }
    lemma_find_bins_empty(s.bins, k1, align1);
    let (s1, p1) = spec_alloc(s, size1, align1);
    assert(p1 == s.top_start && s1 == AllocState {
        bins: s.bins,
        top_start: (s.top_start + csize1) as u64,
        top_end: s.top_end,
    });
    let k2 = spec_size_to_bin(size2 as int);
    lemma_find_bins_empty(s1.bins, k2, align2);
    let a2 = if align2 < 8 {
        8u64
    } else {
        align2
    };
    lemma_align_up_ge(s1.top_start as int, a2 as int);
}


/// Freeing a chunk that coalesces with nothing and asking again with a
/// plain alignment returns the same address: the freed chunk lands at
/// the front of its bin, and the next request of the same size class
/// takes the front of that bin.
pub proof fn lemma_free_then_alloc_same_bin(s: AllocState, ptr: u64, size: u64, align: u64)
    requires
        wf(s),
        1 <= size <= bin_size(MAX_BIN as nat),
        is_pow2_64(align),
        align <= 8,
        ptr != 0,
        ptr % 8 == 0,
        ptr + bin_size(spec_size_to_bin(size as int)) != s.top_start,
        spec_size_to_bin(size as int) < MAX_BIN ==> spec_find_adjacent(
            s.bins[spec_size_to_bin(size as int) as int],
            ptr,
            bin_size(spec_size_to_bin(size as int)),
        ) is None,
    ensures
        ({
            let s1 = spec_dealloc(s, ptr, size);
            &&& spec_alloc(s1, size, align).1 == ptr
        }),
{
    let k = spec_size_to_bin(size as int);
    let csize = bin_size(k);
    lemma_size_to_bin_holds(size as int);
    assert(k <= MAX_BIN) by {
        if k > MAX_BIN {
            if (k - 1) as nat > MAX_BIN as nat {
                lemma_bin_size_increases(MAX_BIN as nat, (k - 1) as nat);
            }
            assert(bin_size((k - 1) as nat) < size);
            assert(false);
        }
    }
    lemma_rebin_single(s, ptr, k);
    let s1 = spec_dealloc(s, ptr, size);
    assert(s1 == AllocState {
        bins: s.bins.update(k as int, s.bins[k as int].insert(0, ptr)),
        top_start: s.top_start,
        top_end: s.top_end,
    });
    assert(bin_size(MAX_BIN as nat) == 0x1_0000_0000) by {
        vstd::arithmetic::power2::lemma2_to64();
    }
    assert(ptr % align == 0) by {
        assert(8u64 == pow2(3)) by {
            vstd::arithmetic::power2::lemma2_to64();
        }
        assert(is_pow2_64(8u64));
        let n = choose|n: nat| n < u64::BITS && align == pow2(n);
        lemma_pow2_pos(n);
        lemma_pow2_divides(align, 8);
        lemma_mod_div_chain(ptr as int, 8, align as int);
    }
    lemma_find_aligned_first(s1.bins[k as int], align, 0);
    lemma_find_bins_at(s1.bins, k, k, align);
}

} // verus!

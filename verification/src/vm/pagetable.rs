//! Two-level page tables at 64 KiB granularity: one L2 table whose first
//! two entries point at two L3 tables, covering 1 GiB of input address
//! space. Entries come in two encodings, stage-1 for the hypervisor's
//! own map and stage-2 for a guest's intermediate-physical map; the
//! encoding is fixed when a table is built.
//!
//! Tables here hold entry words and the physical placement they were
//! built for; the unverified shell installs the base address into the
//! translation registers.
use vstd::prelude::*;

verus! {

use crate::allocator::Allocator;
use crate::allocator::AllocState;
use crate::allocator::spec_alloc;
use crate::allocator::spec_dealloc;
use crate::allocator::spec_size_to_bin;
use crate::allocator::bin_size;
use crate::allocator::is_pow2_64;
use crate::allocator::wf as alloc_wf;
use crate::param::PAGE_SIZE;
use crate::param::IO_BASE;
use crate::param::IO_BASE_END;
use crate::vm::VMManager;

/// Stage-1 access permission: kernel read-write.
pub const PERM_KERN_RW: u64 = 0b00;

/// Stage-2 access permission: read-write.
pub const S2_PERM_READWRITE: u64 = 0b11;

/// Entries per table: 8192 64-bit descriptors fill one 64 KiB page.
pub const ENTRIES_PER_TABLE: usize = 8192;

/// A page of physical memory: its base address, always page-aligned.
#[derive(Debug, PartialEq, Eq, Copy, Clone, Structural)]
pub struct Page {
    pub base: u64,
}

/// A raw 64-bit stage-1 descriptor.
#[derive(Debug, PartialEq, Eq, Copy, Clone, Structural)]
pub struct RawEntry {
    pub bits: u64,
}

/// The ADDR field, bits [47:16]: the page number of the output address.
pub open spec fn spec_addr(b: u64) -> u64 {
    (b >> 16) & 0xFFFFFFFF
}

/// The access flag, bit 10.
pub open spec fn spec_af(b: u64) -> u64 {
    (b >> 10) & 1
}

/// The shareability field, bits [9:8].
pub open spec fn spec_sh(b: u64) -> u64 {
    (b >> 8) & 3
}

/// The stage-1 access-permission field, bits [7:6].
pub open spec fn spec_ap(b: u64) -> u64 {
    (b >> 6) & 3
}

/// The stage-1 memory-attribute index, bits [4:2].
pub open spec fn spec_attr(b: u64) -> u64 {
    (b >> 2) & 7
}

/// The descriptor type, bit 1: table or page rather than block.
pub open spec fn spec_type(b: u64) -> u64 {
    (b >> 1) & 1
}

/// The valid bit, bit 0.
pub open spec fn spec_valid(b: u64) -> u64 {
    b & 1
}

/// The stage-2 access-permission field, bits [7:6].
pub open spec fn spec_s2ap(b: u64) -> u64 {
    (b >> 6) & 3
}

/// The stage-2 outer-cacheability field, bits [5:4].
pub open spec fn spec_cache(b: u64) -> u64 {
    (b >> 4) & 3
}

/// The stage-2 inner-attribute field, bits [3:2].
pub open spec fn spec_attr2(b: u64) -> u64 {
    (b >> 2) & 3
}

impl RawEntry {
    /// Wraps raw descriptor bits.
    pub fn new(bits: u64) -> (r: RawEntry)
        ensures
            r.bits == bits,
    {
        RawEntry { bits }
    }

    /// The raw descriptor bits.
    pub fn get(&self) -> (r: u64)
        ensures
            r == self.bits,
    {
        self.bits
    }
}

/// An L3 slot: a raw descriptor that maps one page when valid.
#[derive(Debug, PartialEq, Eq, Copy, Clone, Structural)]
pub struct L3Entry {
    pub entry: RawEntry,
}

impl L3Entry {
    /// An empty, invalid slot.
    pub fn new() -> (r: L3Entry)
        ensures
            r.entry.bits == 0,
    {
        L3Entry { entry: RawEntry { bits: 0 } }
    }

    /// Whether this slot maps a page.
    pub fn is_valid(&self) -> (r: bool)
        ensures
            r == (spec_valid(self.entry.bits) == 1),
    {
        let b = self.entry.bits;
        b & 1 == 1
    }

    /// The mapped page's address, when the slot is valid.
    pub fn get_page_addr(&self) -> (r: Option<u64>)
        ensures
            r == (if spec_valid(self.entry.bits) == 1 {
                Some(spec_addr(self.entry.bits))
            } else {
                None::<u64>
            }),
    {
        if self.is_valid() {
            let b = self.entry.bits;
            Some((b >> 16u64) & 0xFFFFFFFF)
        } else {
            None
        }
    }
}

/// The L2 table: 8192 descriptors, of which the first two point at the
/// L3 tables, at the physical placement `base`.
pub struct L2PageTable {
    pub base: u64,
    pub entries: Vec<RawEntry>,
}

impl L2PageTable {
    /// The physical address of the table itself.
    pub fn as_ptr(&self) -> (r: u64)
        ensures
            r == self.base,
    {
        self.base
    }
}

/// One L3 table: 8192 page descriptors at the physical placement `base`.
pub struct L3PageTable {
    pub base: u64,
    pub entries: Vec<L3Entry>,
}

impl L3PageTable {
    /// The physical address of the table itself.
    pub fn as_ptr(&self) -> (r: u64)
        ensures
            r == self.base,
    {
        self.base
    }
}

/// A full two-level table: the L2 table and its two L3 tables, laid out
/// one page after another from the L2 base.
pub struct PageTable {
    pub l2: L2PageTable,
    pub l3: Vec<L3PageTable>,
}

/// The L2 index of an input address: bits [41:29], at most 1 here.
pub open spec fn spec_l2_index(va: u64) -> u64 {
    (va >> 29) & 0x1FFF
}

/// The L3 index of an input address: bits [28:16].
pub open spec fn spec_l3_index(va: u64) -> u64 {
    (va >> 16) & 0x1FFF
}

/// An input address this table can hold a mapping for: page-aligned and
/// under 1 GiB.
pub open spec fn va_in_range(va: u64) -> bool {
    va % PAGE_SIZE == 0 && va < 0x40000000
}

/// An in-range address's slot indices are inside the tables.
pub proof fn lemma_index_bounds(va: u64)
    requires
        va < 0x40000000,
    ensures
        spec_l2_index(va) < 2,
        spec_l3_index(va) < ENTRIES_PER_TABLE,
{
    assert(va < 0x40000000 ==> ((va >> 29) & 0x1FFF) < 2 && ((va >> 16) & 0x1FFF) < 8192)
        by (bit_vector);
}

/// Page-aligned addresses under 1 GiB map to table slots injectively.
pub proof fn lemma_locate_injective(va1: u64, va2: u64)
    requires
        va_in_range(va1),
        va_in_range(va2),
        va1 != va2,
    ensures
        spec_l2_index(va1) != spec_l2_index(va2) || spec_l3_index(va1) != spec_l3_index(va2),
{
    assert((va1 % 0x10000 == 0 && va2 % 0x10000 == 0 && va1 < 0x40000000 && va2 < 0x40000000 && ((
    va1 >> 29) & 0x1FFF == (va2 >> 29) & 0x1FFF) && ((va1 >> 16) & 0x1FFF == (va2 >> 16) & 0x1FFF))
        ==> va1 == va2) by (bit_vector);
}

impl PageTable {
    /// All tables present and full-sized, with the L3 tables placed
    /// right after the L2 table.
    pub open spec fn wf(&self) -> bool {
        &&& self.l2.base % PAGE_SIZE == 0
        &&& self.l2.entries@.len() == ENTRIES_PER_TABLE
        &&& self.l3@.len() == 2
        &&& self.l3@[0].entries@.len() == ENTRIES_PER_TABLE
        &&& self.l3@[1].entries@.len() == ENTRIES_PER_TABLE
        &&& self.l3@[0].base == self.l2.base + PAGE_SIZE
        &&& self.l3@[1].base == self.l2.base + 2 * PAGE_SIZE
    }

    /// The L3 slot this table holds for `va`.
    pub open spec fn spec_entry_at(&self, va: u64) -> L3Entry {
        self.l3@[spec_l2_index(va) as int].entries@[spec_l3_index(va) as int]
    }

    /// Returns the (L2 index, L3 index) of an input address.
    ///
    /// Only page-aligned addresses inside the covered gigabyte have
    /// a slot; callers stay in range.
    pub fn locate(va: u64) -> (r: (usize, usize))
        requires
            va_in_range(va),
        ensures
            r.0 == spec_l2_index(va),
            r.1 == spec_l3_index(va),
            r.0 < 2,
            r.1 < ENTRIES_PER_TABLE,
    {
        proof {
            assert(va < 0x40000000 ==> ((va >> 29) & 0x1FFF) < 2 && ((va >> 16) & 0x1FFF) < 8192)
                by (bit_vector);
        }
        let l2index = ((va >> 29u64) & 0x1FFF) as usize;
        let l3index = ((va >> 16u64) & 0x1FFF) as usize;
        (l2index, l3index)
    }

    /// Whether the L3 slot for `va` holds a valid mapping.
    pub fn is_valid(&self, va: u64) -> (r: bool)
        requires
            self.wf(),
            va_in_range(va),
        ensures
            r == (spec_valid(self.spec_entry_at(va).entry.bits) == 1),
    {
        let (l2index, l3index) = Self::locate(va);
        let table = &self.l3[l2index];
        let e = table.entries[l3index];
        e.is_valid()
    }

    /// Whether the L3 slot for `va` holds no mapping.
    pub fn is_invalid(&self, va: u64) -> (r: bool)
        requires
            self.wf(),
            va_in_range(va),
        ensures
            r == (spec_valid(self.spec_entry_at(va).entry.bits) != 1),
    {
        !self.is_valid(va)
    }

    /// Stores `entry` in the L3 slot for `va`; every other slot and the
    /// L2 table keep their contents.
    pub fn set_entry(&mut self, va: u64, entry: RawEntry)
        requires
            old(self).wf(),
            va_in_range(va),
        ensures
            final(self).wf(),
            final(self).spec_entry_at(va) == (L3Entry { entry }),
            final(self).l2 == old(self).l2,
            forall|other: u64|
                va_in_range(other) && other != va ==> final(self).spec_entry_at(other) == old(
                    self,
                ).spec_entry_at(other),
    {
        let (l2index, l3index) = Self::locate(va);
        let table = &mut self.l3[l2index];
        table.entries[l3index] = L3Entry { entry };
        proof {
            assert(self.l3@[l2index as int].entries@ == old(self).l3@[l2index as int].entries@.update(
                l3index as int,
                L3Entry { entry },
            ));
            assert(forall|i: int| 0 <= i < 2 && i != l2index ==> self.l3@[i] == old(self).l3@[i]);
            assert forall|other: u64| va_in_range(other) && other != va implies self.spec_entry_at(
                other,
            ) == old(self).spec_entry_at(other) by {
                lemma_locate_injective(va, other);
                lemma_index_bounds(other);
                lemma_index_bounds(va);
            }
        }
    }

    /// Reads the L3 slot for `va`.
    pub fn get_entry(&self, va: u64) -> (r: L3Entry)
        requires
            self.wf(),
            va_in_range(va),
        ensures
            r == self.spec_entry_at(va),
    {
        let (l2index, l3index) = Self::locate(va);
        let table = &self.l3[l2index];
        table.entries[l3index]
    }

    /// The physical base address of the whole table: where its L2 table
    /// sits. This is the value the translation base register holds, so
    /// a well-formed table keeps it page-aligned.
    pub fn get_baddr(&self) -> (r: u64)
        ensures
            r == self.l2.base,
            self.wf() ==> r % PAGE_SIZE == 0,
    {
        self.l2.as_ptr()
    }
}

/// A valid stage-1 page descriptor for output page `pa`, with the given
/// attribute index, shareability and access permission.
pub open spec fn stage1_entry(pa: u64, attr: u64, sh: u64, ap: u64, b: u64) -> bool {
    &&& spec_addr(b) == (pa >> 16) & 0xFFFFFFFF
    &&& spec_af(b) == 1
    &&& spec_sh(b) == sh
    &&& spec_ap(b) == ap
    &&& spec_attr(b) == attr
    &&& spec_type(b) == 1
    &&& spec_valid(b) == 1
}

/// A valid stage-2 page descriptor for output page `pa`, with the given
/// permission, cacheability and inner attribute.
pub open spec fn stage2_entry(pa: u64, s2ap: u64, cache: u64, attr2: u64, b: u64) -> bool {
    &&& spec_addr(b) == (pa >> 16) & 0xFFFFFFFF
    &&& spec_af(b) == 1
    &&& spec_sh(b) == 3
    &&& spec_s2ap(b) == s2ap
    &&& spec_cache(b) == cache
    &&& spec_attr2(b) == attr2
    &&& spec_type(b) == 1
    &&& spec_valid(b) == 1
}

/// Builds a stage-1 descriptor: ADDR from the page address, the given
/// attribute index, shareability and permission, access flag on, page
/// type, valid. A page-aligned address below 2^48 is recovered exactly
/// by decoding ADDR back.
fn make_stage1_entry(pa: u64, attr: u64, sh: u64, ap: u64) -> (r: RawEntry)
    requires
        attr <= 7,
        sh <= 3,
        ap <= 3,
    ensures
        stage1_entry(pa, attr, sh, ap, r.bits),
        pa % 0x10000 == 0 && pa < 0x1000000000000 ==> spec_addr(r.bits) << 16 == pa,
{
    let bits = (((pa >> 16u64) & 0xFFFFFFFF) << 16u64) | (1u64 << 10u64) | (sh << 8u64) | (ap
        << 6u64) | (attr << 2u64) | (1u64 << 1u64) | 1u64;
    proof {
        let b = bits;
        assert((attr <= 7 && sh <= 3 && ap <= 3 && b == ((((pa >> 16) & 0xFFFFFFFF) << 16) | (1u64
            << 10) | (sh << 8) | (ap << 6) | (attr << 2) | (1u64 << 1) | 1)) ==> ((b >> 16)
            & 0xFFFFFFFF == (pa >> 16) & 0xFFFFFFFF && (b >> 10) & 1 == 1 && (b >> 8) & 3 == sh && (
        b >> 6) & 3 == ap && (b >> 2) & 7 == attr && (b >> 1) & 1 == 1 && b & 1 == 1 && ((pa
            % 0x10000 == 0 && pa < 0x1000000000000) ==> ((b >> 16) & 0xFFFFFFFF) << 16 == pa)))
            by (bit_vector);
    }
    RawEntry { bits }
}

/// Builds a stage-2 descriptor: ADDR from the page address, inner
/// shareable, the given permission, cacheability and inner attribute,
/// access flag on, page type, valid.
fn make_stage2_entry(pa: u64, s2ap: u64, cache: u64, attr2: u64) -> (r: RawEntry)
    requires
        s2ap <= 3,
        cache <= 3,
        attr2 <= 3,
    ensures
        stage2_entry(pa, s2ap, cache, attr2, r.bits),
        pa % 0x10000 == 0 && pa < 0x1000000000000 ==> spec_addr(r.bits) << 16 == pa,
{
    let bits = (((pa >> 16u64) & 0xFFFFFFFF) << 16u64) | (1u64 << 10u64) | (3u64 << 8u64) | (s2ap
        << 6u64) | (cache << 4u64) | (attr2 << 2u64) | (1u64 << 1u64) | 1u64;
    proof {
        let b = bits;
        assert((s2ap <= 3 && cache <= 3 && attr2 <= 3 && b == ((((pa >> 16) & 0xFFFFFFFF) << 16) | (
        1u64 << 10) | (3u64 << 8) | (s2ap << 6) | (cache << 4) | (attr2 << 2) | (1u64 << 1) | 1))
            ==> ((b >> 16) & 0xFFFFFFFF == (pa >> 16) & 0xFFFFFFFF && (b >> 10) & 1 == 1 && (b >> 8)
            & 3 == 3 && (b >> 6) & 3 == s2ap && (b >> 4) & 3 == cache && (b >> 2) & 3 == attr2 && (b
            >> 1) & 1 == 1 && b & 1 == 1 && ((pa % 0x10000 == 0 && pa < 0x1000000000000) ==> ((b
            >> 16) & 0xFFFFFFFF) << 16 == pa))) by (bit_vector);
    }
    RawEntry { bits }
}

/// A fresh table: every L3 slot empty, the L2 table pointing at the two
/// L3 tables and otherwise empty.
pub open spec fn fresh_table(pt: PageTable, base: u64) -> bool {
    &&& pt.wf()
    &&& pt.l2.base == base
    &&& forall|va: u64| va_in_range(va) ==> (#[trigger] pt.spec_entry_at(va)).entry.bits == 0
}

impl PageTable {
    /// A stage-1 L2 descriptor pointing at an L3 table.
    fn new_l2pte(l3_base: u64, perm: u64) -> (r: RawEntry)
        requires
            perm <= 3,
        ensures
            stage1_entry(l3_base, 0, 3, perm, r.bits),
    {
        make_stage1_entry(l3_base, 0, 3, perm)
    }

    /// A stage-2 L2 descriptor pointing at an L3 table: write-back
    /// cacheable both ways, inner shareable.
    fn new_l2pte_stage2(l3_base: u64, perm: u64) -> (r: RawEntry)
        requires
            perm <= 3,
        ensures
            stage2_entry(l3_base, perm, 3, 3, r.bits),
    {
        make_stage2_entry(l3_base, perm, 3, 3)
    }

    /// Builds the skeleton shared by both encodings: zeroed L3 tables
    /// one page after another behind the L2 table, whose slots 0 and 1
    /// carry the two given descriptors.
    fn new_skeleton(base: u64, pte0: RawEntry, pte1: RawEntry) -> (r: PageTable)
        requires
            base % PAGE_SIZE == 0,
            base + 3 * PAGE_SIZE <= u64::MAX,
        ensures
            r.wf(),
            r.l2.base == base,
            r.l2.entries@[0] == pte0,
            r.l2.entries@[1] == pte1,
            forall|i: int| 2 <= i < ENTRIES_PER_TABLE ==> r.l2.entries@[i].bits == 0,
            forall|va: u64| va_in_range(va) ==> (#[trigger] r.spec_entry_at(va)).entry.bits == 0,
    {
        let mut l2_entries: Vec<RawEntry> = Vec::new();
        l2_entries.push(pte0);
        l2_entries.push(pte1);
        let mut i: usize = 2;
        while i < ENTRIES_PER_TABLE
            invariant
                2 <= i <= ENTRIES_PER_TABLE,
                l2_entries@.len() == i,
                l2_entries@[0] == pte0,
                l2_entries@[1] == pte1,
                forall|k: int| 2 <= k < i ==> l2_entries@[k].bits == 0,
            decreases ENTRIES_PER_TABLE - i,
        {
            l2_entries.push(RawEntry { bits: 0 });
            i = i + 1;
        }
        let mut l3: Vec<L3PageTable> = Vec::new();
        let mut t: usize = 0;
        while t < 2
            invariant
                t <= 2,
                base + 3 * PAGE_SIZE <= u64::MAX,
                l3@.len() == t,
                forall|k: int, e: int|
                    #![auto]
                    0 <= k < t && 0 <= e < ENTRIES_PER_TABLE ==> l3@[k].entries@[e].entry.bits == 0,
                forall|k: int| 0 <= k < t ==> #[trigger] l3@[k].entries@.len() == ENTRIES_PER_TABLE,
                forall|k: int| 0 <= k < t ==> #[trigger] l3@[k].base == base + (k + 1) * PAGE_SIZE,
            decreases 2 - t,
        {
            let mut entries: Vec<L3Entry> = Vec::new();
            let mut e: usize = 0;
            while e < ENTRIES_PER_TABLE
                invariant
                    e <= ENTRIES_PER_TABLE,
                    entries@.len() == e,
                    forall|k: int| 0 <= k < e ==> entries@[k].entry.bits == 0,
                decreases ENTRIES_PER_TABLE - e,
            {
                entries.push(L3Entry { entry: RawEntry { bits: 0 } });
                e = e + 1;
            }
            let tbase = if t == 0 {
                base + PAGE_SIZE
            } else {
                base + 2 * PAGE_SIZE
            };
            l3.push(L3PageTable { base: tbase, entries });
            t = t + 1;
        }
        let pt = PageTable { l2: L2PageTable { base, entries: l2_entries }, l3 };
        proof {
            assert forall|va: u64| va_in_range(va) implies (#[trigger] pt.spec_entry_at(
                va,
            )).entry.bits == 0 by {
                lemma_index_bounds(va);
            }
        }
        pt
    }

    /// A fresh stage-1 table at `base`: all L3 slots empty, the L2
    /// table pointing at the two L3 tables with the given permission.
    pub fn new(perm: u64, base: u64) -> (r: PageTable)
        requires
            perm <= 3,
            base % PAGE_SIZE == 0,
            base + 3 * PAGE_SIZE <= u64::MAX,
        ensures
            fresh_table(r, base),
            stage1_entry((base + PAGE_SIZE) as u64, 0, 3, perm, r.l2.entries@[0].bits),
            stage1_entry((base + 2 * PAGE_SIZE) as u64, 0, 3, perm, r.l2.entries@[1].bits),
    {
        let pte0 = Self::new_l2pte(base + PAGE_SIZE, perm);
        let pte1 = Self::new_l2pte(base + 2 * PAGE_SIZE, perm);
        Self::new_skeleton(base, pte0, pte1)
    }

    /// A fresh stage-2 table at `base`: all L3 slots empty, the L2
    /// table pointing at the two L3 tables with the given permission.
    pub fn new_stage2(perm: u64, base: u64) -> (r: PageTable)
        requires
            perm <= 3,
            base % PAGE_SIZE == 0,
            base + 3 * PAGE_SIZE <= u64::MAX,
        ensures
            fresh_table(r, base),
            stage2_entry((base + PAGE_SIZE) as u64, perm, 3, 3, r.l2.entries@[0].bits),
            stage2_entry((base + 2 * PAGE_SIZE) as u64, perm, 3, 3, r.l2.entries@[1].bits),
    {
        let pte0 = Self::new_l2pte_stage2(base + PAGE_SIZE, perm);
        let pte1 = Self::new_l2pte_stage2(base + 2 * PAGE_SIZE, perm);
        Self::new_skeleton(base, pte0, pte1)
    }
}

/// The hypervisor's own stage-1 map: identity-maps RAM as normal
/// write-back memory and the peripheral window as device memory.
pub struct VisorPageTable {
    pub pt: PageTable,
}

/// The L3 slot for `va` identity-maps `va` as stage-1 RAM (attribute 0,
/// inner shareable) or device (attribute 1, outer shareable) memory.
pub open spec fn maps_identity(pt: PageTable, va: u64, device: bool) -> bool {
    if device {
        stage1_entry(va, 1, 2, PERM_KERN_RW, pt.spec_entry_at(va).entry.bits)
    } else {
        stage1_entry(va, 0, 3, PERM_KERN_RW, pt.spec_entry_at(va).entry.bits)
    }
}

impl VisorPageTable {
    /// A stage-1 page descriptor identity-mapping `pa`: device memory
    /// is outer-shareable with the device attribute, normal memory
    /// inner-shareable write-back.
    fn new_l3pte(pa: u64, device: bool) -> (r: RawEntry)
        ensures
            device ==> stage1_entry(pa, 1, 2, PERM_KERN_RW, r.bits),
            !device ==> stage1_entry(pa, 0, 3, PERM_KERN_RW, r.bits),
    {
        if device {
            make_stage1_entry(pa, 1, 2, PERM_KERN_RW)
        } else {
            make_stage1_entry(pa, 0, 3, PERM_KERN_RW)
        }
    }

    /// Installs identity mappings for every page in `[start, end)`,
    /// leaving every other slot alone.
    fn map_identity_range(pt: &mut PageTable, start: u64, end: u64, device: bool)
        requires
            old(pt).wf(),
            start % PAGE_SIZE == 0,
            end % PAGE_SIZE == 0,
            start <= end <= 0x40000000,
        ensures
            final(pt).wf(),
            final(pt).l2 == old(pt).l2,
            forall|va: u64|
                va_in_range(va) && start <= va < end ==> maps_identity(*final(pt), va, device),
            forall|va: u64|
                va_in_range(va) && !(start <= va < end) ==> final(pt).spec_entry_at(va) == old(
                    pt,
                ).spec_entry_at(va),
    {
        let mut va = start;
        while va < end
            invariant
                pt.wf(),
                pt.l2 == old(pt).l2,
                start % PAGE_SIZE == 0,
                end % PAGE_SIZE == 0,
                va % PAGE_SIZE == 0,
                start <= va <= end <= 0x40000000,
                forall|v: u64| va_in_range(v) && start <= v < va ==> maps_identity(*pt, v, device),
                forall|v: u64|
                    va_in_range(v) && !(start <= v < va) ==> pt.spec_entry_at(v) == old(
                        pt,
                    ).spec_entry_at(v),
            decreases end - va,
        {
            let pte = Self::new_l3pte(va, device);
            pt.set_entry(va, pte);
            proof {
                vstd::arithmetic::div_mod::lemma_add_mod_noop(
                    va as int,
                    PAGE_SIZE as int,
                    PAGE_SIZE as int,
                );
            }
            va = va + PAGE_SIZE;
        }
    }

    /// A stage-1 table that identity-maps all of RAM, `[0, ram_end)`,
    /// as normal memory and the peripheral window as device memory.
    pub fn new(ram_end: u64, base: u64) -> (r: VisorPageTable)
        requires
            ram_end % PAGE_SIZE == 0,
            ram_end <= IO_BASE,
            base % PAGE_SIZE == 0,
            base + 3 * PAGE_SIZE <= u64::MAX,
        ensures
            r.pt.wf(),
            r.pt.l2.base == base,
            stage1_entry((base + PAGE_SIZE) as u64, 0, 3, PERM_KERN_RW, r.pt.l2.entries@[0].bits),
            stage1_entry(
                (base + 2 * PAGE_SIZE) as u64,
                0,
                3,
                PERM_KERN_RW,
                r.pt.l2.entries@[1].bits,
            ),
            forall|va: u64| va_in_range(va) && va < ram_end ==> maps_identity(r.pt, va, false),
            forall|va: u64|
                va_in_range(va) && IO_BASE <= va < IO_BASE_END ==> maps_identity(r.pt, va, true),
            forall|va: u64|
                va_in_range(va) && !(va < ram_end) && !(IO_BASE <= va < IO_BASE_END) ==> (
                #[trigger] r.pt.spec_entry_at(va)).entry.bits == 0,
    {
        let mut pt = PageTable::new(PERM_KERN_RW, base);
        Self::map_identity_range(&mut pt, 0, ram_end, false);
        Self::map_identity_range(&mut pt, IO_BASE, IO_BASE_END, true);
        VisorPageTable { pt }
    }

    /// Remaps the page at `va` with the non-cacheable memory attribute,
    /// keeping every other field of its descriptor and every other
    /// slot. Pages holding page tables get this treatment so that the
    /// table walker always sees current entries.
    pub fn mark_noncacheable(&mut self, va: u64)
        requires
            old(self).pt.wf(),
            va_in_range(va),
        ensures
            final(self).pt.wf(),
            ({
                let b0 = old(self).pt.spec_entry_at(va).entry.bits;
                let b1 = final(self).pt.spec_entry_at(va).entry.bits;
                &&& spec_attr(b1) == 2
                &&& spec_addr(b1) == spec_addr(b0)
                &&& spec_af(b1) == spec_af(b0)
                &&& spec_sh(b1) == spec_sh(b0)
                &&& spec_ap(b1) == spec_ap(b0)
                &&& spec_type(b1) == spec_type(b0)
                &&& spec_valid(b1) == spec_valid(b0)
            }),
            forall|other: u64|
                va_in_range(other) && other != va ==> final(self).pt.spec_entry_at(other) == old(
                    self,
                ).pt.spec_entry_at(other),
    {
        let e = self.pt.get_entry(va);
        let b0 = e.entry.bits;
        let bits = (b0 & !(0x7u64 << 2u64)) | (0x2u64 << 2u64);
        proof {
            assert({
                let b1 = (b0 & !(0x7u64 << 2)) | (0x2u64 << 2);
                (b1 >> 2) & 7 == 2 && (b1 >> 16) & 0xFFFFFFFF == (b0 >> 16) & 0xFFFFFFFF && (b1
                    >> 10) & 1 == (b0 >> 10) & 1 && (b1 >> 8) & 3 == (b0 >> 8) & 3 && (b1 >> 6) & 3
                    == (b0 >> 6) & 3 && (b1 >> 1) & 1 == (b0 >> 1) & 1 && b1 & 1 == b0 & 1
            }) by (bit_vector);
        }
        self.pt.set_entry(va, RawEntry { bits });
    }

    /// The physical base address of the table.
    pub fn get_baddr(&self) -> (r: u64)
        ensures
            r == self.pt.l2.base,
    {
        self.pt.get_baddr()
    }
}

/// The permission a guest page is mapped with.
#[derive(Debug, PartialEq, Eq, Copy, Clone, Structural)]
pub enum PagePerm {
    RW,
    RO,
    RWX,
}

/// A guest's stage-2 map: starts empty and fills one page at a time as
/// the guest first touches each of its pages.
pub struct GuestPageTable {
    pub pt: PageTable,
}

impl GuestPageTable {
    /// A fresh, empty stage-2 table at `base`: every guest page still
    /// unmapped, the two L2 slots carrying read-write descriptors for
    /// the L3 tables one and two pages behind the base.
    pub fn new(base: u64) -> (r: GuestPageTable)
        requires
            base % PAGE_SIZE == 0,
            base + 3 * PAGE_SIZE <= u64::MAX,
        ensures
            fresh_table(r.pt, base),
            stage2_entry(
                (base + PAGE_SIZE) as u64,
                S2_PERM_READWRITE,
                3,
                3,
                r.pt.l2.entries@[0].bits,
            ),
            stage2_entry(
                (base + 2 * PAGE_SIZE) as u64,
                S2_PERM_READWRITE,
                3,
                3,
                r.pt.l2.entries@[1].bits,
            ),
    {
        GuestPageTable { pt: PageTable::new_stage2(S2_PERM_READWRITE, base) }
    }

    /// Takes one page from the allocator, installs a stage-2 mapping
    /// for `va` onto it, and marks the fresh page non-cacheable in the
    /// hypervisor's own map, so that stage-2 entries the CPU writes
    /// into it stay visible to the table walker. Returns the page, or
    /// `None` with nothing mapped when the allocator is exhausted.
    pub fn try_allocate(
        &mut self,
        allocator: &mut Allocator,
        vmm: &mut VMManager,
        va: u64,
        perm: PagePerm,
    ) -> (r: Option<u64>)
        requires
            old(self).pt.wf(),
            va_in_range(va),
            spec_valid(old(self).pt.spec_entry_at(va).entry.bits) != 1,
            alloc_wf(old(allocator)@),
            old(allocator)@.top_end <= 0x40000000,
            old(vmm).wf(),
            old(vmm).is_initialized(),
            old(vmm).spec_table().pt.wf(),
        ensures
            final(self).pt.wf(),
            final(allocator)@ == spec_alloc(old(allocator)@, PAGE_SIZE, PAGE_SIZE).0,
            alloc_wf(final(allocator)@),
            final(allocator)@.top_end == old(allocator)@.top_end,
            final(vmm).wf(),
            final(vmm).is_initialized(),
            final(vmm).spec_table().pt.wf(),
            ({
                let page = spec_alloc(old(allocator)@, PAGE_SIZE, PAGE_SIZE).1;
                if page != 0 {
                    &&& r == Some(page)
                    &&& page % PAGE_SIZE == 0
                    &&& stage2_entry(
                        page,
                        S2_PERM_READWRITE,
                        3,
                        3,
                        final(self).pt.spec_entry_at(va).entry.bits,
                    )
                    &&& spec_valid(final(self).pt.spec_entry_at(va).entry.bits) == 1
                    &&& forall|other: u64|
                        va_in_range(other) && other != va ==> final(self).pt.spec_entry_at(other)
                            == old(self).pt.spec_entry_at(other)
                    &&& spec_attr(final(vmm).spec_table().pt.spec_entry_at(page).entry.bits) == 2
                    &&& forall|v: u64|
                        va_in_range(v) && v != page ==> final(vmm).spec_table().pt.spec_entry_at(v)
                            == old(vmm).spec_table().pt.spec_entry_at(v)
                } else {
                    &&& r is None
                    &&& final(self).pt == old(self).pt
                    &&& final(vmm).spec_table() == old(vmm).spec_table()
                }
            }),
    {
        proof {
            lemma_page_size_pow2();
            lemma_page_chunk();
        }
        let buf = allocator.allocate(PAGE_SIZE, PAGE_SIZE);
        if buf == 0 {
            return None;
        }
        let pte = make_stage2_entry(buf, S2_PERM_READWRITE, 3, 3);
        self.pt.set_entry(va, pte);
        vmm.mark_noncacheable(buf, PAGE_SIZE);
        proof {
            assert forall|v: u64| va_in_range(v) && v != buf implies vmm.spec_table(
            ).pt.spec_entry_at(v) == old(vmm).spec_table().pt.spec_entry_at(v) by {
                if buf <= v < buf + PAGE_SIZE {
                    lemma_page_window_unique(buf, v);
                }
            }
        }
        Some(buf)
    }

    /// Takes one page from the allocator and installs a stage-2
    /// mapping for `va` onto it, marking the page non-cacheable in
    /// the hypervisor's map. Returns the page's address.
    ///
    /// Mapping a slot twice would leak its old page, and an
    /// exhausted allocator leaves nothing to map; callers check the
    /// slot first and call only with room left, which the condition
    /// on `spec_alloc` says exactly. `try_allocate` serves callers
    /// that want to handle exhaustion themselves.
    pub fn allocate(
        &mut self,
        allocator: &mut Allocator,
        vmm: &mut VMManager,
        va: u64,
        perm: PagePerm,
    ) -> (r: u64)
        requires
            old(self).pt.wf(),
            va_in_range(va),
            spec_valid(old(self).pt.spec_entry_at(va).entry.bits) != 1,
            alloc_wf(old(allocator)@),
            old(allocator)@.top_end <= 0x40000000,
            spec_alloc(old(allocator)@, PAGE_SIZE, PAGE_SIZE).1 != 0,
            old(vmm).wf(),
            old(vmm).is_initialized(),
            old(vmm).spec_table().pt.wf(),
        ensures
            final(self).pt.wf(),
            final(allocator)@ == spec_alloc(old(allocator)@, PAGE_SIZE, PAGE_SIZE).0,
            alloc_wf(final(allocator)@),
            final(allocator)@.top_end == old(allocator)@.top_end,
            r == spec_alloc(old(allocator)@, PAGE_SIZE, PAGE_SIZE).1,
            r % PAGE_SIZE == 0,
            stage2_entry(r, S2_PERM_READWRITE, 3, 3, final(self).pt.spec_entry_at(va).entry.bits),
            spec_valid(final(self).pt.spec_entry_at(va).entry.bits) == 1,
            forall|other: u64|
                va_in_range(other) && other != va ==> final(self).pt.spec_entry_at(other) == old(
                    self,
                ).pt.spec_entry_at(other),
            final(vmm).wf(),
            final(vmm).is_initialized(),
            final(vmm).spec_table().pt.wf(),
            spec_attr(final(vmm).spec_table().pt.spec_entry_at(r).entry.bits) == 2,
            forall|v: u64|
                va_in_range(v) && v != r ==> final(vmm).spec_table().pt.spec_entry_at(v) == old(
                    vmm,
                ).spec_table().pt.spec_entry_at(v),
    {
        let r = self.try_allocate(allocator, vmm, va, perm);
        match r {
            Some(page) => page,
            None => 0,
        }
    }

    /// Maps every still-unmapped page of `[0, end)` onto a fresh page,
    /// as the loader does for the region below the kernel image.
    /// Returns false when the allocator runs out part-way; slots at
    /// or beyond `end` are never touched.
    pub fn prepopulate(
        &mut self,
        allocator: &mut Allocator,
        vmm: &mut VMManager,
        end: u64,
    ) -> (r: bool)
        requires
            old(self).pt.wf(),
            end % PAGE_SIZE == 0,
            end <= 0x40000000,
            alloc_wf(old(allocator)@),
            old(allocator)@.top_end <= 0x40000000,
            old(vmm).wf(),
            old(vmm).is_initialized(),
            old(vmm).spec_table().pt.wf(),
        ensures
            final(self).pt.wf(),
            alloc_wf(final(allocator)@),
            final(allocator)@.top_end == old(allocator)@.top_end,
            final(vmm).wf(),
            final(vmm).is_initialized(),
            final(vmm).spec_table().pt.wf(),
            r ==> forall|va: u64|
                va_in_range(va) && va < end ==> spec_valid(
                    #[trigger] final(self).pt.spec_entry_at(va).entry.bits,
                ) == 1,
            forall|va: u64|
                va_in_range(va) && va >= end ==> final(self).pt.spec_entry_at(va) == old(
                    self,
                ).pt.spec_entry_at(va),
    {
        let mut va: u64 = 0;
        while va < end
            invariant
                self.pt.wf(),
                end % PAGE_SIZE == 0,
                end <= 0x40000000,
                va % PAGE_SIZE == 0,
                va <= end,
                alloc_wf(allocator@),
                allocator@.top_end == old(allocator)@.top_end,
                allocator@.top_end <= 0x40000000,
                vmm.wf(),
                vmm.is_initialized(),
                vmm.spec_table().pt.wf(),
                forall|v: u64|
                    va_in_range(v) && v < va ==> spec_valid(
                        #[trigger] self.pt.spec_entry_at(v).entry.bits,
                    ) == 1,
                forall|v: u64|
                    va_in_range(v) && v >= end ==> self.pt.spec_entry_at(v) == old(
                        self,
                    ).pt.spec_entry_at(v),
            decreases end - va,
        {
            if self.pt.is_invalid(va) {
                let got = self.try_allocate(allocator, vmm, va, PagePerm::RWX);
                if got.is_none() {
                    return false;
                }
            }
            proof {
                vstd::arithmetic::div_mod::lemma_add_mod_noop(
                    va as int,
                    PAGE_SIZE as int,
                    PAGE_SIZE as int,
                );
            }
            va = va + PAGE_SIZE;
        }
        true
    }

    /// Returns every page a nonzero slot points at to the allocator,
    /// the last duty of a guest's map before the guest dies: the
    /// allocator ends exactly as if each such page had been freed in
    /// slot order. The slots themselves keep their contents; the
    /// table is meant to be discarded afterwards.
    pub fn release_pages(&mut self, allocator: &mut Allocator)
        requires
            old(self).pt.wf(),
            alloc_wf(old(allocator)@),
            forall|va: u64|
                va_in_range(va) && (#[trigger] old(self).pt.spec_entry_at(va)).entry.bits != 0 ==> (
                spec_addr(old(self).pt.spec_entry_at(va).entry.bits) << 16) + PAGE_SIZE <= old(
                    allocator,
                )@.top_end,
        ensures
            final(self).pt == old(self).pt,
            alloc_wf(final(allocator)@),
            final(allocator)@.top_end == old(allocator)@.top_end,
            final(allocator)@ == spec_release_from(old(allocator)@, old(self).pt, 0, 0),
    {
        proof {
            lemma_page_size_pow2();
        }
        let ghost s0 = allocator@;
        let mut t: usize = 0;
        while t < 2
            invariant
                self.pt.wf(),
                self.pt == old(self).pt,
                t <= 2,
                alloc_wf(allocator@),
                allocator@.top_end == old(allocator)@.top_end,
                spec_release_from(allocator@, self.pt, t as int, 0) == spec_release_from(
                    s0,
                    self.pt,
                    0,
                    0,
                ),
                forall|va: u64|
                    va_in_range(va) && (#[trigger] self.pt.spec_entry_at(va)).entry.bits != 0 ==> (
                    spec_addr(self.pt.spec_entry_at(va).entry.bits) << 16) + PAGE_SIZE
                        <= allocator@.top_end,
            decreases 2 - t,
        {
            let mut e: usize = 0;
            while e < ENTRIES_PER_TABLE
                invariant
                    self.pt.wf(),
                    self.pt == old(self).pt,
                    t < 2,
                    e <= ENTRIES_PER_TABLE,
                    alloc_wf(allocator@),
                    allocator@.top_end == old(allocator)@.top_end,
                    spec_release_from(allocator@, self.pt, t as int, e as int)
                        == spec_release_from(s0, self.pt, 0, 0),
                    forall|va: u64|
                        va_in_range(va) && (#[trigger] self.pt.spec_entry_at(va)).entry.bits != 0
                            ==> (spec_addr(self.pt.spec_entry_at(va).entry.bits) << 16) + PAGE_SIZE
                            <= allocator@.top_end,
                decreases ENTRIES_PER_TABLE - e,
            {
                let table = &self.pt.l3[t];
                let slot = table.entries[e];
                if slot.entry.bits != 0 {
                    let b = slot.entry.bits;
                    let page = ((b >> 16u64) & 0xFFFFFFFF) << 16u64;
                    proof {
                        let va = slot_va(t as int, e as int);
                        lemma_slot_va(t as int, e as int);
                        assert(self.pt.spec_entry_at(va) == slot);
                        assert(page == spec_addr(b) << 16);
                        assert(page % 0x10000 == 0 && page % 8 == 0) by (bit_vector)
                            requires
                                page == ((b >> 16) & 0xFFFFFFFF) << 16,
                        ;
                        lemma_page_chunk();
                        lemma_page_size_pow2();
                    }
                    allocator.dealloc(page, PAGE_SIZE);
                }
                e = e + 1;
            }
            t = t + 1;
        }
    }
}

/// The allocator state after returning, in slot order from `(t, e)`
/// on, every page a nonzero slot points at.
pub open spec fn spec_release_from(s: AllocState, pt: PageTable, t: int, e: int) -> AllocState
    decreases 2 - t, ENTRIES_PER_TABLE - e,
{
    if t < 0 || t >= 2 || e < 0 {
        s
    } else if e >= ENTRIES_PER_TABLE {
        spec_release_from(s, pt, t + 1, 0)
    } else {
        let bits = pt.l3@[t].entries@[e].entry.bits;
        let s2 = if bits != 0 {
            spec_dealloc(s, (spec_addr(bits) << 16) as u64, PAGE_SIZE)
        } else {
            s
        };
        spec_release_from(s2, pt, t, e + 1)
    }
}

/// Two page-aligned addresses inside one page window coincide.
pub proof fn lemma_page_window_unique(page: u64, v: u64)
    requires
        page % PAGE_SIZE == 0,
        v % PAGE_SIZE == 0,
        page <= v < page + PAGE_SIZE,
    ensures
        v == page,
{
    vstd::arithmetic::div_mod::lemma_sub_mod_noop(v as int, page as int, PAGE_SIZE as int);
    vstd::arithmetic::div_mod::lemma_small_mod((v - page) as nat, PAGE_SIZE as nat);
}

/// The page-aligned input address of slot `(t, e)`.
pub open spec fn slot_va(t: int, e: int) -> u64 {
    (t * 0x20000000 + e * 0x10000) as u64
}

/// Every slot is some in-range address's slot.
pub proof fn lemma_slot_va(t: int, e: int)
    requires
        0 <= t < 2,
        0 <= e < ENTRIES_PER_TABLE,
    ensures
        va_in_range(slot_va(t, e)),
        spec_l2_index(slot_va(t, e)) == t,
        spec_l3_index(slot_va(t, e)) == e,
{
    let va = slot_va(t, e);
    let tu = t as u64;
    let eu = e as u64;
    assert(va == tu * 0x20000000 + eu * 0x10000);
    assert((tu < 2 && eu < 8192 && va == tu * 0x20000000 + eu * 0x10000) ==> (va % 0x10000 == 0 && va
        < 0x40000000 && (va >> 29) & 0x1FFF == tu && (va >> 16) & 0x1FFF == eu)) by (bit_vector);
}

/// A page is one whole chunk of the page-size bin.
pub proof fn lemma_page_chunk()
    ensures
        bin_size(spec_size_to_bin(PAGE_SIZE as int)) == PAGE_SIZE,
{
    assert(bin_size(13) == 65536 && bin_size(12) == 32768) by {
        vstd::arithmetic::power2::lemma2_to64();
    }
    crate::allocator::lemma_size_to_bin_char(PAGE_SIZE as int, 13);
}

/// The page size is a power of two of the machine word.
pub proof fn lemma_page_size_pow2()
    ensures
        is_pow2_64(PAGE_SIZE),
        PAGE_SIZE <= bin_size(crate::allocator::MAX_BIN as nat),
{
    assert(PAGE_SIZE == vstd::arithmetic::power2::pow2(16)) by {
        vstd::arithmetic::power2::lemma2_to64();
    }
    assert(bin_size(crate::allocator::MAX_BIN as nat) == 0x1_0000_0000) by {
        vstd::arithmetic::power2::lemma2_to64();
    }
}

} // verus!

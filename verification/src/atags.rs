//! ARM boot-time configuration records. The loader writes a CORE, a
//! MEM and a terminator record into the guest's first page, bit-exact,
//! so the guest kernel finds the memory layout where it expects it;
//! the same records can be read back word by word.
use vstd::prelude::*;

verus! {

use crate::param::ATAG_BASE;
use crate::param::GUEST_MAX_VM_SIZE;
use crate::traps::mmio::spec_word_at;
use crate::traps::mmio::read_word;
use crate::traps::mmio::write_word;
use vstd::arithmetic::power::pow;

/// Tag of a CORE record.
pub const ATAG_CORE: u32 = 0x54410001;

/// Tag of a MEM record.
pub const ATAG_MEM: u32 = 0x54410002;

/// Tag of a CMDLINE record.
pub const ATAG_CMDLINE: u32 = 0x54410009;

/// Tag of the list terminator.
pub const ATAG_NONE: u32 = 0;

/// The body of a CORE record.
#[derive(Debug, Copy, Clone, PartialEq, Eq, Structural)]
pub struct Core {
    pub flags: u32,
    pub page_size: u32,
    pub root_dev: u32,
}

/// The body of a MEM record.
#[derive(Debug, Copy, Clone, PartialEq, Eq, Structural)]
pub struct Mem {
    pub size: u32,
    pub start: u32,
}

/// A decoded boot record. The list's final record carries the
/// terminator tag.
#[derive(Debug, Clone, PartialEq, Eq)]
pub enum Atag {
    Core(Core),
    Mem(Mem),
    Cmd(Vec<u8>),
    Unknown(u32),
    Terminator,
}

impl Atag {
    /// The CORE body, if this is a CORE record.
    pub fn core_record(self) -> (r: Option<Core>)
        ensures
            r == (match self {
                Atag::Core(c) => Some(c),
                _ => None::<Core>,
            }),
    {
        match self {
            Atag::Core(c) => Some(c),
            _ => None,
        }
    }

    /// The MEM body, if this is a MEM record.
    pub fn mem_record(self) -> (r: Option<Mem>)
        ensures
            r == (match self {
                Atag::Mem(m) => Some(m),
                _ => None::<Mem>,
            }),
    {
        match self {
            Atag::Mem(m) => Some(m),
            _ => None,
        }
    }

    /// The command line's bytes, if this is a CMDLINE record.
    pub fn cmd(self) -> (r: Option<Vec<u8>>)
        ensures
            r == (match self {
                Atag::Cmd(s) => Some(s),
                _ => None::<Vec<u8>>,
            }),
    {
        match self {
            Atag::Cmd(s) => Some(s),
            _ => None,
        }
    }
}

/// The 32-bit word at byte offset `off`.
pub open spec fn spec_atag_word(page: Seq<u8>, off: int) -> nat {
    spec_word_at(page, off, 4)
}

/// The eleven words the loader writes from `off` on: a CORE record
/// (five words: length, tag, flags 1, page size 4096, root device 0),
/// a MEM record (four words: length, tag, the guest memory size,
/// start 0), and the two-word terminator.
pub open spec fn spec_boot_atags(page: Seq<u8>, off: int) -> bool {
    &&& spec_atag_word(page, off) == 5
    &&& spec_atag_word(page, off + 4) == ATAG_CORE
    &&& spec_atag_word(page, off + 8) == 1
    &&& spec_atag_word(page, off + 12) == 4096
    &&& spec_atag_word(page, off + 16) == 0
    &&& spec_atag_word(page, off + 20) == 4
    &&& spec_atag_word(page, off + 24) == ATAG_MEM
    &&& spec_atag_word(page, off + 28) == GUEST_MAX_VM_SIZE
    &&& spec_atag_word(page, off + 32) == 0
    &&& spec_atag_word(page, off + 36) == 0
    &&& spec_atag_word(page, off + 40) == ATAG_NONE
}

/// Writes one 32-bit word at byte offset `off`, little-endian.
fn write_u32(page: &mut Vec<u8>, off: usize, v: u32)
    requires
        off + 4 <= old(page)@.len(),
        off <= usize::MAX - 8,
    ensures
        final(page)@.len() == old(page)@.len(),
        spec_word_at(final(page)@, off as int, 4) == v,
        forall|k: int|
            0 <= k < old(page)@.len() && !(off <= k < off + 4) ==> final(page)@[k] == old(
                page,
            )@[k],
{
    proof {
        assert(pow(256, 4) == 0x1_0000_0000) by {
            reveal_with_fuel(pow, 5);
        }
    }
    write_word(page, off, 4, v as u64);
}

/// Reads one 32-bit word at byte offset `off`, little-endian.
fn read_u32(page: &Vec<u8>, off: usize) -> (r: u32)
    requires
        off + 4 <= page@.len(),
        off <= usize::MAX - 8,
    ensures
        r == spec_word_at(page@, off as int, 4),
{
    proof {
        crate::traps::mmio::lemma_word_at_bound(page@, off as int, 4);
        assert(pow(256, 4) == 0x1_0000_0000) by {
            reveal_with_fuel(pow, 5);
        }
    }
    read_word(page, off, 4) as u32
}

/// Writes the boot records — CORE, MEM, terminator — at byte offset
/// `off` of the guest's first page, leaving every other byte alone.
pub fn write_atags(page: &mut Vec<u8>, off: usize)
    requires
        off + 44 <= old(page)@.len(),
        old(page)@.len() <= 0x10000,
    ensures
        final(page)@.len() == old(page)@.len(),
        spec_boot_atags(final(page)@, off as int),
        forall|k: int|
            0 <= k < old(page)@.len() && !(off <= k < off + 44) ==> final(page)@[k] == old(
                page,
            )@[k],
{
    let mut vals: Vec<u32> = Vec::new();
    vals.push(5);
    vals.push(ATAG_CORE);
    vals.push(1);
    vals.push(4096);
    vals.push(0);
    vals.push(4);
    vals.push(ATAG_MEM);
    vals.push(0x10000000);
    vals.push(0);
    vals.push(0);
    vals.push(0);
    let mut i: usize = 0;
    while i < 11
        invariant
            vals@ == seq![
                5u32,
                ATAG_CORE,
                1u32,
                4096u32,
                0u32,
                4u32,
                ATAG_MEM,
                0x10000000u32,
                0u32,
                0u32,
                0u32,
            ],
            i <= 11,
            off + 44 <= page@.len(),
            page@.len() == old(page)@.len(),
            page@.len() <= 0x10000,
            forall|j: int|
                0 <= j < i ==> spec_word_at(page@, off + 4 * j, 4) == vals@[j],
            forall|k: int|
                0 <= k < old(page)@.len() && !(off <= k < off + 4 * i) ==> page@[k] == old(
                    page,
                )@[k],
        decreases 11 - i,
    {
        let ghost before = page@;
        let v = vals[i];
        write_u32(page, off + 4 * i, v);
        proof {
            assert forall|j: int| 0 <= j < i implies spec_word_at(page@, off + 4 * j, 4)
                == vals@[j] by {
                crate::traps::mmio::lemma_word_at_frame(before, page@, off + 4 * j, 4);
            }
        }
        i = i + 1;
    }
    proof {
        assert(vals@ =~= seq![
            5u32,
            ATAG_CORE,
            1u32,
            4096u32,
            0u32,
            4u32,
            ATAG_MEM,
            0x10000000u32,
            0u32,
            0u32,
            0u32,
        ]);
    }
}

/// Reads the record at byte offset `off` and where the next record
/// starts. `None` exactly when the header does not fit inside the
/// page, or a non-terminator record's length word is shorter than its
/// own header or runs past the page.
pub fn read_atag(page: &Vec<u8>, off: usize) -> (r: Option<(Atag, usize)>)
    requires
        page@.len() <= 0x10000,
    ensures
        r is None <==> (off + 8 > page@.len() || (spec_atag_word(page@, off as int + 4) != ATAG_NONE
            && (spec_atag_word(page@, off as int) < 2 || off + 4 * spec_atag_word(
            page@,
            off as int,
        ) > page@.len()))),
        match r {
            Some(pair) => {
                let dwords = spec_atag_word(page@, off as int);
                let tag = spec_atag_word(page@, off as int + 4);
                &&& off + 8 <= page@.len()
                &&& if tag == ATAG_NONE {
                    pair.0 == Atag::Terminator && pair.1 == off + 8
                } else if tag == ATAG_CORE && dwords == 5 {
                    &&& pair.0 == Atag::Core(
                        Core {
                            flags: spec_atag_word(page@, off as int + 8) as u32,
                            page_size: spec_atag_word(page@, off as int + 12) as u32,
                            root_dev: spec_atag_word(page@, off as int + 16) as u32,
                        },
                    )
                    &&& pair.1 == off + 20
                } else if tag == ATAG_MEM && dwords == 4 {
                    &&& pair.0 == Atag::Mem(
                        Mem {
                            size: spec_atag_word(page@, off as int + 8) as u32,
                            start: spec_atag_word(page@, off as int + 12) as u32,
                        },
                    )
                    &&& pair.1 == off + 16
                } else if tag == ATAG_CMDLINE {
                    &&& pair.1 == off + 4 * dwords
                    &&& (match pair.0 {
                        Atag::Cmd(cmdline) => {
                            &&& cmdline@ == page@.subrange(off + 8, off + 8 + cmdline@.len())
                            &&& forall|i: int| 0 <= i < cmdline@.len() ==> cmdline@[i] != 0
                        },
                        _ => false,
                    })
                } else {
                    pair.0 == Atag::Unknown(tag as u32) && pair.1 == off + 4 * dwords
                }
            },
            None => true,
        },
{
    if off > page.len() || page.len() - off < 8 {
        return None;
    }
    let dwords = read_u32(page, off);
    let tag = read_u32(page, off + 4);
    if tag == ATAG_NONE {
        return Some((Atag::Terminator, off + 8));
    }
    if dwords < 2 || dwords > 0x4000 {
        return None;
    }
    let dbytes = (dwords as usize) * 4;
    if page.len() - off < dbytes {
        return None;
    }
    if tag == ATAG_CORE && dwords == 5 {
        let flags = read_u32(page, off + 8);
        let page_size = read_u32(page, off + 12);
        let root_dev = read_u32(page, off + 16);
        return Some((Atag::Core(Core { flags, page_size, root_dev }), off + 20));
    }
    if tag == ATAG_MEM && dwords == 4 {
        let size = read_u32(page, off + 8);
        let start = read_u32(page, off + 12);
        return Some((Atag::Mem(Mem { size, start }), off + 16));
    }
    if tag == ATAG_CMDLINE {
        let mut s: Vec<u8> = Vec::new();
        let mut j = off + 8;
        let stop = off + dbytes;
        while j < stop && page[j] != 0
            invariant
                off + 8 <= j <= stop,
                stop == off + 4 * spec_atag_word(page@, off as int),
                stop <= page@.len(),
                s@ == page@.subrange(off + 8, j as int),
                forall|i: int| 0 <= i < s@.len() ==> s@[i] != 0,
            decreases stop - j,
        {
            s.push(page[j]);
            proof {
                assert(s@ =~= page@.subrange(off + 8, j + 1));
            }
            j = j + 1;
        }
        return Some((Atag::Cmd(s), off + dbytes));
    }
    Some((Atag::Unknown(tag), off + dbytes))
}

/// Where the boot records sit inside the guest's first page.
pub fn atag_base() -> (r: usize)
    ensures
        r == ATAG_BASE,
{
    0x100
}

} // verus!

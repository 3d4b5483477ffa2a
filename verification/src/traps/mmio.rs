//! Trap-and-emulate MMIO. A data abort from the guest on a peripheral
//! address carries, in its syndrome, everything about the faulting load
//! or store; the emulator performs that access against the device
//! window, writes a load's result into the saved register file, and
//! advances the saved program counter past the instruction.
//!
//! The device window is modelled as a span of bytes at a base address;
//! the unverified shell maps it onto the real peripherals.
use vstd::prelude::*;

verus! {

use vstd::arithmetic::power::pow;
use vstd::arithmetic::power::lemma_pow_positive;
use vstd::arithmetic::power::lemma_pow_increases;
use crate::traps::frame::TrapFrame;
use crate::traps::syndrome::DataAbortSyndrome;
use crate::traps::syndrome::spec_isv;
use crate::traps::syndrome::spec_sas;
use crate::traps::syndrome::spec_sse;
use crate::traps::syndrome::spec_srt;
use crate::traps::syndrome::spec_sf;
use crate::traps::syndrome::spec_wnr;

/// A span of device memory starting at `base`, byte for byte.
pub struct MmioSpace {
    pub base: u64,
    pub bytes: Vec<u8>,
}

/// The little-endian value of `n` bytes at `off`.
pub open spec fn spec_word_at(mem: Seq<u8>, off: int, n: nat) -> nat
    decreases n,
{
    if n == 0 {
        0
    } else {
        (mem[off] + 256 * spec_word_at(mem, off + 1, (n - 1) as nat)) as nat
    }
}

/// A little-endian word is bounded by 256 to its width.
pub proof fn lemma_word_at_bound(mem: Seq<u8>, off: int, n: nat)
    requires
        0 <= off,
        off + n <= mem.len(),
    ensures
        spec_word_at(mem, off, n) < pow(256, n),
    decreases n,
{
    lemma_pow_positive(256, n);
    if n == 0 {
        reveal(pow);
    } else {
        lemma_word_at_bound(mem, off + 1, (n - 1) as nat);
        assert(pow(256, n) == 256 * pow(256, (n - 1) as nat)) by {
            reveal(pow);
        }
        assert(mem[off] + 256 * spec_word_at(mem, off + 1, (n - 1) as nat) < 256 * pow(
            256,
            (n - 1) as nat,
        )) by (nonlinear_arith)
            requires
                mem[off] < 256,
                spec_word_at(mem, off + 1, (n - 1) as nat) < pow(256, (n - 1) as nat),
                pow(256, (n - 1) as nat) >= 1,
        ;
    }
}

/// A word reads only the bytes it covers: on two spans equal there, it
/// has one value.
pub proof fn lemma_word_at_frame(m1: Seq<u8>, m2: Seq<u8>, off: int, n: nat)
    requires
        0 <= off,
        off + n <= m1.len(),
        off + n <= m2.len(),
        forall|k: int| off <= k < off + n ==> m1[k] == m2[k],
    ensures
        spec_word_at(m1, off, n) == spec_word_at(m2, off, n),
    decreases n,
{
    if n > 0 {
        lemma_word_at_frame(m1, m2, off + 1, (n - 1) as nat);
    }
}

/// Extending a word by its next (highest) byte adds that byte at the
/// next power's place.
pub proof fn lemma_word_at_snoc(mem: Seq<u8>, off: int, n: nat)
    requires
        0 <= off,
        off + n + 1 <= mem.len(),
    ensures
        spec_word_at(mem, off, n + 1) == spec_word_at(mem, off, n) + pow(256, n) * mem[off + n],
    decreases n,
{
    reveal_with_fuel(pow, 2);
    reveal_with_fuel(spec_word_at, 3);
    if n == 0 {
    } else {
        lemma_word_at_snoc(mem, off + 1, (n - 1) as nat);
        assert(256 * (pow(256, (n - 1) as nat) * mem[off + n]) == pow(256, n) * mem[off + n]) by (
        nonlinear_arith)
            requires
                pow(256, n) == 256 * pow(256, (n - 1) as nat),
        ;
    }
}

/// Reads the little-endian value of `n` bytes at `off`.
pub fn read_word(mem: &Vec<u8>, off: usize, n: usize) -> (r: u64)
    requires
        off + n <= mem@.len(),
        off <= usize::MAX - 8,
        1 <= n <= 8,
    ensures
        r == spec_word_at(mem@, off as int, n as nat),
{
    let mut i: usize = n;
    let mut r: u64 = 0;
    proof {
        reveal(pow);
    }
    while i > 0
        invariant
            off + n <= mem@.len(),
            off <= usize::MAX - 8,
            n <= 8,
            i <= n,
            r == spec_word_at(mem@, off + i, (n - i) as nat),
            r < pow(256, (n - i) as nat),
        decreases i,
    {
        proof {
            let w = (n - i) as nat;
            assert(pow(256, (w + 1) as nat) == 256 * pow(256, w)) by {
                reveal(pow);
            }
            assert(pow(256, (w + 1) as nat) <= pow(256, 8)) by {
                lemma_pow_increases(256, (w + 1) as nat, 8);
            }
            assert(pow(256, 8) == 0x1_0000_0000_0000_0000) by {
                reveal_with_fuel(pow, 9);
            }
            assert(r * 256 + 255 < 256 * pow(256, w)) by (nonlinear_arith)
                requires
                    r < pow(256, w),
            ;
        }
        i = i - 1;
        r = r * 256 + (mem[off + i] as u64);
    }
    r
}

/// Writes the low `n` bytes of `v` at `off`, little-endian; other bytes
/// keep their values.
pub fn write_word(mem: &mut Vec<u8>, off: usize, n: usize, v: u64)
    requires
        off + n <= old(mem)@.len(),
        off <= usize::MAX - 8,
        1 <= n <= 8,
    ensures
        final(mem)@.len() == old(mem)@.len(),
        spec_word_at(final(mem)@, off as int, n as nat) == (v as int) % (pow(256, n as nat) as int),
        forall|k: int|
            0 <= k < old(mem)@.len() && !(off <= k < off + n) ==> final(mem)@[k] == old(mem)@[k],
{
    let mut i: usize = 0;
    let mut rest: u64 = v;
    proof {
        reveal(pow);
        lemma_pow_positive(256, n as nat);
    }
    while i < n
        invariant
            off + n <= mem@.len(),
            off <= usize::MAX - 8,
            mem@.len() == old(mem)@.len(),
            1 <= n <= 8,
            i <= n,
            rest == v as int / pow(256, i as nat),
            spec_word_at(mem@, off as int, i as nat) == v as int % pow(256, i as nat),
            forall|k: int|
                0 <= k < old(mem)@.len() && !(off <= k < off + i) ==> mem@[k] == old(mem)@[k],
        decreases n - i,
    {
        let ghost before = mem@;
        let b = (rest % 256) as u8;
        mem[off + i] = b;
        proof {
            let p_i = pow(256, i as nat);
            lemma_pow_positive(256, i as nat);
            assert(pow(256, (i + 1) as nat) == 256 * p_i) by {
                reveal(pow);
            }
            lemma_word_at_frame(before, mem@, off as int, i as nat);
            lemma_word_at_snoc(mem@, off as int, i as nat);
            vstd::arithmetic::div_mod::lemma_mod_breakdown(v as int, p_i as int, 256);
            assert(p_i * 256 == 256 * p_i) by (nonlinear_arith);
            vstd::arithmetic::div_mod::lemma_div_denominator(v as int, p_i as int, 256);
            assert(p_i * (rest % 256) == (rest % 256) * p_i) by (nonlinear_arith);
        }
        rest = rest / 256;
        i = i + 1;
    }
}

/// Bytes moved by an access of size class `sas`: byte, halfword, word,
/// doubleword.
pub open spec fn spec_access_width(sas: u64) -> nat {
    if sas == 0 {
        1
    } else if sas == 1 {
        2
    } else if sas == 2 {
        4
    } else {
        8
    }
}

/// The register value a load of `w` produces before merging: the word
/// itself, or its two's-complement sign extension to 64 bits when the
/// access is narrower than a doubleword, asks for extension, and the
/// word's top bit is set.
pub open spec fn spec_load_extend(w: nat, width: nat, sse: u64) -> nat {
    if sse == 1 && width < 8 && 2 * w >= pow(256, width) {
        (w + 0x1_0000_0000_0000_0000 - pow(256, width)) as nat
    } else {
        w
    }
}

/// How a load's result lands in the register: replacing it entirely for
/// a 64-bit form, or replacing the low half and keeping the high half
/// for a 32-bit form.
pub open spec fn spec_reg_merge(old_reg: u64, data: u64, sf: u64) -> u64 {
    if sf == 1 {
        data
    } else {
        (old_reg & 0xFFFFFFFF00000000) | (data & 0xFFFFFFFF)
    }
}

/// What a store sends towards memory: the full register, or its low 32
/// bits for a 32-bit form.
pub open spec fn spec_store_value(reg: u64, sf: u64) -> u64 {
    if sf == 1 {
        reg
    } else {
        reg & 0xFFFFFFFF
    }
}

/// All trap-frame state that an MMIO access never touches: everything
/// but the saved program counter and the general registers.
pub open spec fn frame_sysregs_eq(a: TrapFrame, b: TrapFrame) -> bool {
    &&& a.VTTBR == b.VTTBR
    &&& a.TTBR0_EL1 == b.TTBR0_EL1
    &&& a.TTBR1_EL1 == b.TTBR1_EL1
    &&& a.SP_EL0 == b.SP_EL0
    &&& a.SP_EL1 == b.SP_EL1
    &&& a.SCTLR_EL1 == b.SCTLR_EL1
    &&& a.VBAR_EL1 == b.VBAR_EL1
    &&& a.TPIDR_EL0 == b.TPIDR_EL0
    &&& a.TPIDR_EL1 == b.TPIDR_EL1
    &&& a.SPSR_EL1 == b.SPSR_EL1
    &&& a.qn == b.qn
}

/// Emulates the load or store described by a data abort's syndrome
/// against the device window, then advances the saved program counter
/// past the faulting instruction.
///
/// A store writes the (possibly 32-bit-masked) register at the access
/// width; a load reads at the access width, sign-extends on request,
/// and replaces the whole register or only its low half. A syndrome
/// without valid instruction details cannot be emulated; the caller
/// checks ISV before coming here.
/// What one emulated access does: the program counter moves past the
/// instruction, system registers hold still, and the access lands as a
/// store into the window or a load into the register file.
pub open spec fn spec_mmio_effect(
    fault_addr: u64,
    iss: DataAbortSyndrome,
    tf0: TrapFrame,
    tf1: TrapFrame,
    dev0: MmioSpace,
    dev1: MmioSpace,
) -> bool {
    let off = fault_addr - dev0.base;
    let width = spec_access_width(spec_sas(iss.bits));
    let srt = spec_srt(iss.bits) as int;
    &&& tf1.ELR == tf0.ELR + 4
    &&& frame_sysregs_eq(tf1, tf0)
    &&& dev1.base == dev0.base
    &&& dev1.bytes@.len() == dev0.bytes@.len()
    &&& if spec_wnr(iss.bits) == 1 {
        &&& tf1.xn == tf0.xn
        &&& spec_word_at(dev1.bytes@, off as int, width) == spec_store_value(
            tf0.xn@[srt],
            spec_sf(iss.bits),
        ) as int % (pow(256, width) as int)
        &&& forall|k: int|
            0 <= k < dev0.bytes@.len() && !(off <= k < off + width) ==> dev1.bytes@[k]
                == dev0.bytes@[k]
    } else {
        &&& dev1.bytes@ == dev0.bytes@
        &&& tf1.xn@ == tf0.xn@.update(
            srt,
            spec_reg_merge(
                tf0.xn@[srt],
                spec_load_extend(
                    spec_word_at(dev0.bytes@, off as int, width),
                    width,
                    spec_sse(iss.bits),
                ) as u64,
                spec_sf(iss.bits),
            ),
        )
    }
}

pub fn handle_mmio(fault_addr: u64, iss: DataAbortSyndrome, tf: &mut TrapFrame, dev: &mut MmioSpace)
    requires
        spec_isv(iss.bits) == 1,
        fault_addr >= old(dev).base,
        fault_addr - old(dev).base + spec_access_width(spec_sas(iss.bits)) <= old(dev).bytes@.len(),
        old(dev).bytes@.len() <= usize::MAX - 8,
        old(tf).ELR + 4 <= u64::MAX,
    ensures
        spec_mmio_effect(fault_addr, iss, *old(tf), *final(tf), *old(dev), *final(dev)),
{
    proof {
        reveal_with_fuel(pow, 5);
    }
    let off = (fault_addr - dev.base) as usize;
    let sas = iss.sas();
    let width: usize = if sas == 0 {
        1
    } else if sas == 1 {
        2
    } else if sas == 2 {
        4
    } else {
        8
    };
    let regno = iss.srt() as usize;
    let write = iss.wnr() == 1;
    let reg64 = iss.sf() == 1;
    let sext = iss.sse() == 1;
    if write {
        let mut data: u64 = tf.xn[regno];
        if !reg64 {
            data = data & 0xFFFFFFFF;
        }
        write_word(&mut dev.bytes, off, width, data);
    } else {
        let v = read_word(&dev.bytes, off, width);
        proof {
            lemma_word_at_bound(dev.bytes@, off as int, width as nat);
        }
        let data: u64 = if sext && width < 8 {
            if width == 1 && v >= 0x80 {
                v + 0xFFFFFFFFFFFFFF00
            } else if width == 2 && v >= 0x8000 {
                v + 0xFFFFFFFFFFFF0000
            } else if width == 4 && v >= 0x80000000 {
                v + 0xFFFFFFFF00000000
            } else {
                v
            }
        } else {
            v
        };
        let merged: u64 = if reg64 {
            data
        } else {
            (tf.xn[regno] & 0xFFFFFFFF00000000) | (data & 0xFFFFFFFF)
        };
        tf.xn[regno] = merged;
    }
    tf.ELR = tf.ELR + 4;
}

} // verus!

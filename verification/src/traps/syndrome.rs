//! Decoding of the exception syndrome register (ESR): the major exception
//! class from bits [31:26], the abort fault kind from bits [5:2], and the
//! data-abort syndrome fields that drive the MMIO emulator.
use vstd::prelude::*;

verus! {

/// The fault kind of an instruction or data abort, from ESR bits [5:2].
#[derive(Debug, PartialEq, Eq, Copy, Clone, Structural)]
pub enum Fault {
    AddressSize,
    Translation,
    AccessFlag,
    Permission,
    Alignment,
    TlbConflict,
    Other(u8),
}

/// The fault kind encoded in the low bits of an abort's ESR.
pub open spec fn spec_fault_of(val: u32) -> Fault {
    let bits = ((val >> 2) & 0xF) as u8;
    if bits == 0 {
        Fault::AddressSize
    } else if bits == 1 {
        Fault::Translation
    } else if bits == 2 {
        Fault::AccessFlag
    } else if bits == 3 {
        Fault::Permission
    } else if bits == 4 || bits == 8 {
        Fault::Alignment
    } else if bits == 12 {
        Fault::TlbConflict
    } else {
        Fault::Other(bits)
    }
}

impl Fault {
    /// Reads the fault kind out of the low ESR bits of an abort.
    pub fn from(val: u32) -> (r: Fault)
        ensures
            r == spec_fault_of(val),
    {
        let bits = ((val >> 2u32) & 0xF) as u8;
        match bits {
            0b0000 => Fault::AddressSize,
            0b0001 => Fault::Translation,
            0b0010 => Fault::AccessFlag,
            0b0011 => Fault::Permission,
            0b0100 | 0b1000 => Fault::Alignment,
            0b1100 => Fault::TlbConflict,
            x => Fault::Other(x),
        }
    }
}

/// The instruction-specific syndrome of a data abort: the low 25 bits of
/// the ESR, read field by field.
#[derive(Debug, PartialEq, Eq, Copy, Clone, Structural)]
pub struct DataAbortSyndrome {
    pub bits: u64,
}

/// Instruction syndrome valid.
pub open spec fn spec_isv(v: u64) -> u64 {
    (v >> 24) & 1
}

/// Access size: 0, 1, 2, 3 for byte, halfword, word, doubleword.
pub open spec fn spec_sas(v: u64) -> u64 {
    (v >> 22) & 3
}

/// Sign-extend the loaded value.
pub open spec fn spec_sse(v: u64) -> u64 {
    (v >> 21) & 1
}

/// Number of the register transferred.
pub open spec fn spec_srt(v: u64) -> u64 {
    (v >> 16) & 0x1F
}

/// Width of the transferred register: 1 for 64-bit, 0 for 32-bit.
pub open spec fn spec_sf(v: u64) -> u64 {
    (v >> 15) & 1
}

/// FAR not valid: the fault address register holds no usable address.
pub open spec fn spec_fnv(v: u64) -> u64 {
    (v >> 10) & 1
}

/// The abort came from a cache-maintenance operation.
pub open spec fn spec_cm(v: u64) -> u64 {
    (v >> 8) & 1
}

/// Write, not read.
pub open spec fn spec_wnr(v: u64) -> u64 {
    (v >> 6) & 1
}

/// Data fault status code: kind and level.
pub open spec fn spec_dfsc(v: u64) -> u64 {
    v & 0x3F
}

impl DataAbortSyndrome {
    /// Wraps the low 25 ESR bits.
    pub fn new(bits: u64) -> (r: DataAbortSyndrome)
        ensures
            r.bits == bits,
    {
        DataAbortSyndrome { bits }
    }

    /// Instruction syndrome valid (bit 24).
    pub fn isv(&self) -> (r: u64)
        ensures
            r == spec_isv(self.bits),
    {
        (self.bits >> 24u64) & 1
    }

    /// Access size (bits [23:22]).
    pub fn sas(&self) -> (r: u64)
        ensures
            r == spec_sas(self.bits),
            r <= 3,
    {
        let b = self.bits;
        proof {
            assert((b >> 22u64) & 3 <= 3) by (bit_vector);
        }
        (b >> 22u64) & 3
    }

    /// Sign-extension flag (bit 21).
    pub fn sse(&self) -> (r: u64)
        ensures
            r == spec_sse(self.bits),
    {
        (self.bits >> 21u64) & 1
    }

    /// Transferred register number (bits [20:16]).
    pub fn srt(&self) -> (r: u64)
        ensures
            r == spec_srt(self.bits),
            r <= 31,
    {
        let b = self.bits;
        proof {
            assert((b >> 16u64) & 0x1F <= 31) by (bit_vector);
        }
        (b >> 16u64) & 0x1F
    }

    /// Register width flag (bit 15).
    pub fn sf(&self) -> (r: u64)
        ensures
            r == spec_sf(self.bits),
    {
        (self.bits >> 15u64) & 1
    }

    /// FAR-not-valid flag (bit 10).
    pub fn fnv(&self) -> (r: u64)
        ensures
            r == spec_fnv(self.bits),
    {
        (self.bits >> 10u64) & 1
    }

    /// Cache-maintenance flag (bit 8).
    pub fn cm(&self) -> (r: u64)
        ensures
            r == spec_cm(self.bits),
    {
        (self.bits >> 8u64) & 1
    }

    /// Write-not-read flag (bit 6).
    pub fn wnr(&self) -> (r: u64)
        ensures
            r == spec_wnr(self.bits),
    {
        (self.bits >> 6u64) & 1
    }

    /// Data fault status code (bits [5:0]).
    pub fn dfsc(&self) -> (r: u64)
        ensures
            r == spec_dfsc(self.bits),
    {
        self.bits & 0x3F
    }
}

/// A decoded exception syndrome: the major class with its class-specific
/// payload.
#[derive(Debug, PartialEq, Eq, Copy, Clone, Structural)]
pub enum Syndrome {
    Unknown(u32),
    WfiWfe,
    SimdFp,
    IllegalExecutionState,
    Svc(u16),
    Hvc(u16),
    Smc(u16),
    MsrMrsSystem,
    InstructionAbort { kind: Fault, level: u8 },
    PCAlignmentFault,
    DataAbort { kind: Fault, level: u8, iss: DataAbortSyndrome },
    SpAlignmentFault,
    TrappedFpu,
    SError,
    Breakpoint,
    Step,
    Watchpoint,
    Brk(u16),
    Other(u32),
}

/// The syndrome denoted by a raw ESR value, by its class bits [31:26].
pub open spec fn spec_syndrome_of(esr: u32) -> Syndrome {
    let ec = esr >> 26;
    if ec == 0x00 {
        Syndrome::Unknown(esr)
    } else if ec == 0x01 {
        Syndrome::WfiWfe
    } else if ec == 0x07 {
        Syndrome::SimdFp
    } else if ec == 0x0E {
        Syndrome::IllegalExecutionState
    } else if ec == 0x11 || ec == 0x15 {
        Syndrome::Svc(esr as u16)
    } else if ec == 0x12 || ec == 0x16 {
        Syndrome::Hvc(esr as u16)
    } else if ec == 0x13 || ec == 0x17 {
        Syndrome::Smc(esr as u16)
    } else if ec == 0x18 {
        Syndrome::MsrMrsSystem
    } else if ec == 0x20 || ec == 0x21 {
        Syndrome::InstructionAbort { kind: spec_fault_of(esr & 0x3F), level: (esr & 3) as u8 }
    } else if ec == 0x22 {
        Syndrome::PCAlignmentFault
    } else if ec == 0x24 || ec == 0x25 {
        Syndrome::DataAbort {
            kind: spec_fault_of(esr & 0x3F),
            level: (esr & 3) as u8,
            iss: DataAbortSyndrome { bits: (esr as u64) & 0x1FFFFFF },
        }
    } else if ec == 0x26 {
        Syndrome::SpAlignmentFault
    } else if ec == 0x2C || ec == 0x28 {
        Syndrome::TrappedFpu
    } else if ec == 0x2F {
        Syndrome::SError
    } else if ec == 0x30 || ec == 0x31 || ec == 0x38 {
        Syndrome::Breakpoint
    } else if ec == 0x32 || ec == 0x33 {
        Syndrome::Step
    } else if ec == 0x34 || ec == 0x35 {
        Syndrome::Watchpoint
    } else if ec == 0x3C {
        Syndrome::Brk(esr as u16)
    } else {
        Syndrome::Other(esr)
    }
}

impl Syndrome {
    /// For an abort, the fault kind and translation level; `None` for
    /// every other class.
    pub fn get_abort_info(&self) -> (r: Option<(Fault, u8)>)
        ensures
            r == (match *self {
                Syndrome::InstructionAbort { kind, level } => Some((kind, level)),
                Syndrome::DataAbort { kind, level, iss } => Some((kind, level)),
                _ => None,
            }),
    {
        match self {
            Syndrome::InstructionAbort { kind, level } => Some((*kind, *level)),
            Syndrome::DataAbort { kind, level, iss } => Some((*kind, *level)),
            _ => None,
        }
    }

    /// Converts a raw syndrome value (ESR) into a `Syndrome`.
    pub fn from(esr: u32) -> (r: Syndrome)
        ensures
            r == spec_syndrome_of(esr),
    {
        let ec = esr >> 26u32;
        match ec {
            0b000000 => Syndrome::Unknown(esr),
            0b000001 => Syndrome::WfiWfe,
            0b000111 => Syndrome::SimdFp,
            0b001110 => Syndrome::IllegalExecutionState,
            0b010001 | 0b010101 => Syndrome::Svc(esr as u16),
            0b010010 | 0b010110 => Syndrome::Hvc(esr as u16),
            0b010011 | 0b010111 => Syndrome::Smc(esr as u16),
            0b011000 => Syndrome::MsrMrsSystem,
            0b100000 | 0b100001 => Syndrome::InstructionAbort {
                kind: Fault::from(esr & 0x3F),
                level: (esr & 3) as u8,
            },
            0b100010 => Syndrome::PCAlignmentFault,
            0b100100 | 0b100101 => Syndrome::DataAbort {
                kind: Fault::from(esr & 0x3F),
                level: (esr & 3) as u8,
                iss: DataAbortSyndrome::new((esr as u64) & 0x1FFFFFF),
            },
            0b100110 => Syndrome::SpAlignmentFault,
            0b101100 | 0b101000 => Syndrome::TrappedFpu,
            0b101111 => Syndrome::SError,
            0b110000 | 0b110001 | 0b111000 => Syndrome::Breakpoint,
            0b110010 | 0b110011 => Syndrome::Step,
            0b110100 | 0b110101 => Syndrome::Watchpoint,
            0b111100 => Syndrome::Brk(esr as u16),
            _ => Syndrome::Other(esr),
        }
    }
}

} // verus!

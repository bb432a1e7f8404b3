//! The instruction set: the closed set of legal instructions, the two fatal
//! error kinds, and the decoder from a 16-bit opcode to an instruction.

use vstd::prelude::*;

verus! {

/// The two fatal error kinds of the machine: an opcode that matches no legal
/// encoding, and a resource-bound violation (call-stack overflow or
/// underflow, a memory access outside the 4096-byte space, or a key index
/// outside the 16-key latch). Each carries the diagnostic values the driver
/// needs; the machine never recovers from either.
#[derive(Clone, Copy, Debug, PartialEq, Eq, Structural)]
pub enum Chip8Error {
    /// The fetched opcode matches none of the legal encodings; `addr` is the
    /// address the opcode was fetched from.
    InvalidOpcode { addr: u16, opcode: u16 },
    /// A call was made with the 16-entry stack already full.
    StackOverflow,
    /// A return was executed with the stack empty.
    StackUnderflow,
    /// An instruction touched memory outside the 4096-byte space; `addr` is
    /// the out-of-range address register or program counter.
    MemoryOutOfRange { addr: u16 },
    /// A key-skip instruction named a key outside the 16-key latch.
    KeyOutOfRange { key: u8 },
}

/// One legal instruction, with its operands already extracted: `x` and `y`
/// are 4-bit register indices, `kk` an 8-bit immediate, `nnn` a 12-bit
/// address, `n` a 4-bit sprite height.
#[derive(Clone, Copy, Debug, PartialEq, Eq, Structural)]
pub enum Instr {
    Cls,
    Ret,
    Jp { nnn: u16 },
    Call { nnn: u16 },
    SeImm { x: u8, kk: u8 },
    SneImm { x: u8, kk: u8 },
    SeReg { x: u8, y: u8 },
    LdImm { x: u8, kk: u8 },
    AddImm { x: u8, kk: u8 },
    LdReg { x: u8, y: u8 },
    Or { x: u8, y: u8 },
    And { x: u8, y: u8 },
    Xor { x: u8, y: u8 },
    AddReg { x: u8, y: u8 },
    Sub { x: u8, y: u8 },
    Shr { x: u8 },
    Subn { x: u8, y: u8 },
    Shl { x: u8 },
    SneReg { x: u8, y: u8 },
    LdIndex { nnn: u16 },
    JpV0 { nnn: u16 },
    Rnd { x: u8, kk: u8 },
    Drw { x: u8, y: u8, n: u8 },
    Skp { x: u8 },
    Sknp { x: u8 },
    LdFromDelay { x: u8 },
    LdKey { x: u8 },
    SetDelay { x: u8 },
    SetSound { x: u8 },
    AddIndex { x: u8 },
    LdFont { x: u8 },
    LdBcd { x: u8 },
    StoreRegs { x: u8 },
    LoadRegs { x: u8 },
}

/// Every operand of a decoded instruction is in range: register indices and
/// sprite heights are 4-bit, addresses 12-bit.
pub open spec fn instr_wf(i: Instr) -> bool {
    match i {
        Instr::Cls => true,
        Instr::Ret => true,
        Instr::Jp { nnn } => nnn < 4096,
        Instr::Call { nnn } => nnn < 4096,
        Instr::SeImm { x, kk } => x < 16,
        Instr::SneImm { x, kk } => x < 16,
        Instr::SeReg { x, y } => x < 16 && y < 16,
        Instr::LdImm { x, kk } => x < 16,
        Instr::AddImm { x, kk } => x < 16,
        Instr::LdReg { x, y } => x < 16 && y < 16,
        Instr::Or { x, y } => x < 16 && y < 16,
        Instr::And { x, y } => x < 16 && y < 16,
        Instr::Xor { x, y } => x < 16 && y < 16,
        Instr::AddReg { x, y } => x < 16 && y < 16,
        Instr::Sub { x, y } => x < 16 && y < 16,
        Instr::Shr { x } => x < 16,
        Instr::Subn { x, y } => x < 16 && y < 16,
        Instr::Shl { x } => x < 16,
        Instr::SneReg { x, y } => x < 16 && y < 16,
        Instr::LdIndex { nnn } => nnn < 4096,
        Instr::JpV0 { nnn } => nnn < 4096,
        Instr::Rnd { x, kk } => x < 16,
        Instr::Drw { x, y, n } => x < 16 && y < 16 && n < 16,
        Instr::Skp { x } => x < 16,
        Instr::Sknp { x } => x < 16,
        Instr::LdFromDelay { x } => x < 16,
        Instr::LdKey { x } => x < 16,
        Instr::SetDelay { x } => x < 16,
        Instr::SetSound { x } => x < 16,
        Instr::AddIndex { x } => x < 16,
        Instr::LdFont { x } => x < 16,
        Instr::LdBcd { x } => x < 16,
        Instr::StoreRegs { x } => x < 16,
        Instr::LoadRegs { x } => x < 16,
    }
}

/// What a 16-bit opcode decodes to: `None` where it matches no legal
/// encoding. The top nibble classifies; the `5xy0`/`9xy0` families demand a
/// zero low nibble, and the `8xxx`/`Exxx`/`Fxxx` families a recognised low
/// nibble or byte.
pub open spec fn spec_decode(op: u16) -> Option<Instr> {
    let t = op / 0x1000;
    let x = ((op / 0x100) % 0x10) as u8;
    let y = ((op / 0x10) % 0x10) as u8;
    let n = (op % 0x10) as u8;
    let kk = (op % 0x100) as u8;
    let nnn = (op % 0x1000) as u16;
    if op == 0x00E0 {
        Some(Instr::Cls)
    } else if op == 0x00EE {
        Some(Instr::Ret)
    } else if t == 0x1 {
        Some(Instr::Jp { nnn })
    } else if t == 0x2 {
        Some(Instr::Call { nnn })
    } else if t == 0x3 {
        Some(Instr::SeImm { x, kk })
    } else if t == 0x4 {
        Some(Instr::SneImm { x, kk })
    } else if t == 0x5 {
        if n == 0 {
            Some(Instr::SeReg { x, y })
        } else {
            None
        }
    } else if t == 0x6 {
        Some(Instr::LdImm { x, kk })
    } else if t == 0x7 {
        Some(Instr::AddImm { x, kk })
    } else if t == 0x8 {
        if n == 0x0 {
            Some(Instr::LdReg { x, y })
        } else if n == 0x1 {
            Some(Instr::Or { x, y })
        } else if n == 0x2 {
            Some(Instr::And { x, y })
        } else if n == 0x3 {
            Some(Instr::Xor { x, y })
        } else if n == 0x4 {
            Some(Instr::AddReg { x, y })
        } else if n == 0x5 {
            Some(Instr::Sub { x, y })
        } else if n == 0x6 {
            Some(Instr::Shr { x })
        } else if n == 0x7 {
            Some(Instr::Subn { x, y })
        } else if n == 0xE {
            Some(Instr::Shl { x })
        } else {
            None
        }
    } else if t == 0x9 {
        if n == 0 {
            Some(Instr::SneReg { x, y })
        } else {
            None
        }
    } else if t == 0xA {
        Some(Instr::LdIndex { nnn })
    } else if t == 0xB {
        Some(Instr::JpV0 { nnn })
    } else if t == 0xC {
        Some(Instr::Rnd { x, kk })
    } else if t == 0xD {
        Some(Instr::Drw { x, y, n })
    } else if t == 0xE {
        if kk == 0x9E {
            Some(Instr::Skp { x })
        } else if kk == 0xA1 {
            Some(Instr::Sknp { x })
        } else {
            None
        }
    } else if t == 0xF {
        if kk == 0x07 {
            Some(Instr::LdFromDelay { x })
        } else if kk == 0x0A {
            Some(Instr::LdKey { x })
        } else if kk == 0x15 {
            Some(Instr::SetDelay { x })
        } else if kk == 0x18 {
            Some(Instr::SetSound { x })
        } else if kk == 0x1E {
            Some(Instr::AddIndex { x })
        } else if kk == 0x29 {
            Some(Instr::LdFont { x })
        } else if kk == 0x33 {
            Some(Instr::LdBcd { x })
        } else if kk == 0x55 {
            Some(Instr::StoreRegs { x })
        } else if kk == 0x65 {
            Some(Instr::LoadRegs { x })
        } else {
            None
        }
    } else {
        None
    }
}

/// Decodes a 16-bit opcode to an instruction; `None` is a fatal decode
/// error for the caller. Every operand of a decoded instruction is in range.
pub fn decode(op: u16) -> (r: Option<Instr>)
    ensures
        r == spec_decode(op),
        r matches Some(i) ==> instr_wf(i),
{
    let t = op / 0x1000;
    let x = ((op / 0x100) % 0x10) as u8;
    let y = ((op / 0x10) % 0x10) as u8;
    let n = (op % 0x10) as u8;
    let kk = (op % 0x100) as u8;
    let nnn = op % 0x1000;
    if op == 0x00E0 {
        Some(Instr::Cls)
    } else if op == 0x00EE {
        Some(Instr::Ret)
    } else if t == 0x1 {
        Some(Instr::Jp { nnn })
    } else if t == 0x2 {
        Some(Instr::Call { nnn })
    } else if t == 0x3 {
        Some(Instr::SeImm { x, kk })
    } else if t == 0x4 {
        Some(Instr::SneImm { x, kk })
    } else if t == 0x5 {
        if n == 0 {
            Some(Instr::SeReg { x, y })
        } else {
            None
        }
    } else if t == 0x6 {
        Some(Instr::LdImm { x, kk })
    } else if t == 0x7 {
        Some(Instr::AddImm { x, kk })
    } else if t == 0x8 {
        if n == 0x0 {
            Some(Instr::LdReg { x, y })
        } else if n == 0x1 {
            Some(Instr::Or { x, y })
        } else if n == 0x2 {
            Some(Instr::And { x, y })
        } else if n == 0x3 {
            Some(Instr::Xor { x, y })
        } else if n == 0x4 {
            Some(Instr::AddReg { x, y })
        } else if n == 0x5 {
            Some(Instr::Sub { x, y })
        } else if n == 0x6 {
            Some(Instr::Shr { x })
        } else if n == 0x7 {
            Some(Instr::Subn { x, y })
        } else if n == 0xE {
            Some(Instr::Shl { x })
        } else {
            None
        }
    } else if t == 0x9 {
        if n == 0 {
            Some(Instr::SneReg { x, y })
        } else {
            None
        }
    } else if t == 0xA {
        Some(Instr::LdIndex { nnn })
    } else if t == 0xB {
        Some(Instr::JpV0 { nnn })
    } else if t == 0xC {
        Some(Instr::Rnd { x, kk })
    } else if t == 0xD {
        Some(Instr::Drw { x, y, n })
    } else if t == 0xE {
        if kk == 0x9E {
            Some(Instr::Skp { x })
        } else if kk == 0xA1 {
            Some(Instr::Sknp { x })
        } else {
            None
        }
    } else if t == 0xF {
        if kk == 0x07 {
            Some(Instr::LdFromDelay { x })
        } else if kk == 0x0A {
            Some(Instr::LdKey { x })
        } else if kk == 0x15 {
            Some(Instr::SetDelay { x })
        } else if kk == 0x18 {
            Some(Instr::SetSound { x })
        } else if kk == 0x1E {
            Some(Instr::AddIndex { x })
        } else if kk == 0x29 {
            Some(Instr::LdFont { x })
        } else if kk == 0x33 {
            Some(Instr::LdBcd { x })
        } else if kk == 0x55 {
            Some(Instr::StoreRegs { x })
        } else if kk == 0x65 {
            Some(Instr::LoadRegs { x })
        } else {
            None
        }
    } else {
        None
    }
}

} // verus!

//! Splitting a 16-bit instruction word into its addressing fields and
//! classifying it into one of the machine's operations.

use vstd::prelude::*;

verus! {

/// Register-index operand in bits 8..12 of the instruction word.
pub open spec fn fld_x(op: u16) -> u8 {
    ((op >> 8) & 0xF) as u8
}

/// Register-index operand in bits 4..8 of the instruction word.
pub open spec fn fld_y(op: u16) -> u8 {
    ((op >> 4) & 0xF) as u8
}

/// Four-bit immediate / sub-selector in bits 0..4 of the instruction word.
pub open spec fn fld_n(op: u16) -> u8 {
    (op & 0xF) as u8
}

/// Eight-bit immediate in bits 0..8 of the instruction word.
pub open spec fn fld_kk(op: u16) -> u8 {
    (op & 0xFF) as u8
}

/// Twelve-bit address in bits 0..12 of the instruction word.
pub open spec fn fld_addr(op: u16) -> u16 {
    op & 0xFFF
}

/// The decoded fields are small enough to index registers and memory.
pub proof fn lemma_fields_bounded(op: u16)
    ensures
        fld_x(op) < 16,
        fld_y(op) < 16,
        fld_n(op) < 16,
        fld_addr(op) < 4096,
{
    assert((((op >> 8) & 0xF) as u8) < 16) by (bit_vector);
    assert((((op >> 4) & 0xF) as u8) < 16) by (bit_vector);
    assert(((op & 0xF) as u8) < 16) by (bit_vector);
    assert((op & 0xFFF) < 4096) by (bit_vector);
}

/// One operation of the instruction set, with its decoded operands.
pub enum Instr {
    /// Clear the framebuffer.
    Cls,
    /// Pop the return address into the program counter.
    Ret,
    /// Jump to `addr`.
    Jp { addr: u16 },
    /// Push the program counter and jump to `addr`.
    Call { addr: u16 },
    /// Skip the next instruction if register `x` equals `kk`.
    SeByte { x: u8, kk: u8 },
    /// Skip the next instruction if register `x` differs from `kk`.
    SneByte { x: u8, kk: u8 },
    /// Skip the next instruction if registers `x` and `y` are equal.
    SeXy { x: u8, y: u8 },
    /// Load the immediate `kk` into register `x`.
    LdByte { x: u8, kk: u8 },
    /// Add the immediate `kk` to register `x`, wrapping.
    AddByte { x: u8, kk: u8 },
    /// Copy register `y` into register `x`.
    LdXy { x: u8, y: u8 },
    /// Bitwise OR of registers `x` and `y` into register `x`.
    OrXy { x: u8, y: u8 },
    /// Bitwise AND of registers `x` and `y` into register `x`.
    AndXy { x: u8, y: u8 },
    /// Bitwise XOR of registers `x` and `y` into register `x`.
    XorXy { x: u8, y: u8 },
    /// Wrapping sum of registers `x` and `y`; the flag register records the carry.
    AddXy { x: u8, y: u8 },
    /// Wrapping difference `x - y`; the flag register records strict `x > y`.
    SubXy { x: u8, y: u8 },
    /// Shift register `x` right by one; the flag register records the old low bit.
    ShrX { x: u8 },
    /// Wrapping difference `y - x`; the flag register records strict `y > x`.
    SubnXy { x: u8, y: u8 },
    /// Shift register `x` left by one; the flag register records the old high bit.
    ShlX { x: u8 },
    /// Skip the next instruction if registers `x` and `y` differ.
    SneXy { x: u8, y: u8 },
    /// Load `addr` into the index register.
    LdI { addr: u16 },
    /// Jump to `addr` plus register 0, wrapping.
    JpV0 { addr: u16 },
    /// Load a random byte masked by `kk` into register `x`.
    Rnd { x: u8, kk: u8 },
    /// XOR-composite an `n`-row sprite at the position given by registers `x` and `y`.
    Drw { x: u8, y: u8, n: u8 },
    /// Skip the next instruction if the key selected by register `x` is pressed.
    SkpX { x: u8 },
    /// Skip the next instruction if the key selected by register `x` is not pressed.
    SknpX { x: u8 },
    /// Load the delay timer into register `x`.
    LdXDt { x: u8 },
    /// Block until a key is pressed; store the highest pressed index in register `x`.
    LdXK { x: u8 },
    /// Load register `x` into the delay timer.
    LdDtX { x: u8 },
    /// Load register `x` into the sound timer.
    LdStX { x: u8 },
    /// Add register `x` to the index register, wrapping.
    AddIX { x: u8 },
    /// Point the index register at the font glyph for the digit in register `x`.
    LdFX { x: u8 },
    /// Store the decimal digits of register `x` at the index register.
    LdBX { x: u8 },
    /// Store registers 0 through `x` into memory at the index register.
    LdIX { x: u8 },
    /// Load registers 0 through `x` from memory at the index register.
    LdXI { x: u8 },
}

/// The dispatcher's classification: the top four bits pick the opcode family,
/// and families 8, E and F sub-dispatch on the low fields. A word that matches
/// no case decodes to `None` and is a fatal condition for the machine.
pub open spec fn spec_decode(op: u16) -> Option<Instr> {
    let x = fld_x(op);
    let y = fld_y(op);
    let n = fld_n(op);
    let kk = fld_kk(op);
    let addr = fld_addr(op);
    let fam = op >> 12;
    if op == 0x00E0 {
        Some(Instr::Cls)
    } else if op == 0x00EE {
        Some(Instr::Ret)
    } else if fam == 0x1 {
        Some(Instr::Jp { addr })
    } else if fam == 0x2 {
        Some(Instr::Call { addr })
    } else if fam == 0x3 {
        Some(Instr::SeByte { x, kk })
    } else if fam == 0x4 {
        Some(Instr::SneByte { x, kk })
    } else if fam == 0x5 {
        Some(Instr::SeXy { x, y })
    } else if fam == 0x6 {
        Some(Instr::LdByte { x, kk })
    } else if fam == 0x7 {
        Some(Instr::AddByte { x, kk })
    } else if fam == 0x8 {
        if n == 0x0 {
            Some(Instr::LdXy { x, y })
        } else if n == 0x1 {
            Some(Instr::OrXy { x, y })
        } else if n == 0x2 {
            Some(Instr::AndXy { x, y })
        } else if n == 0x3 {
            Some(Instr::XorXy { x, y })
        } else if n == 0x4 {
            Some(Instr::AddXy { x, y })
        } else if n == 0x5 {
            Some(Instr::SubXy { x, y })
        } else if n == 0x6 {
            Some(Instr::ShrX { x })
        } else if n == 0x7 {
            Some(Instr::SubnXy { x, y })
        } else if n == 0xE {
            Some(Instr::ShlX { x })
        } else {
            None
        }
    } else if fam == 0x9 {
        Some(Instr::SneXy { x, y })
    } else if fam == 0xA {
        Some(Instr::LdI { addr })
    } else if fam == 0xB {
        Some(Instr::JpV0 { addr })
    } else if fam == 0xC {
        Some(Instr::Rnd { x, kk })
    } else if fam == 0xD {
        Some(Instr::Drw { x, y, n })
    } else if fam == 0xE {
        if y == 0x9 && n == 0xE {
            Some(Instr::SkpX { x })
        } else if y == 0xA && n == 0x1 {
            Some(Instr::SknpX { x })
        } else {
            None
        }
    } else if fam == 0xF {
        if y == 0x0 && n == 0x7 {
            Some(Instr::LdXDt { x })
        } else if y == 0x0 && n == 0xA {
            Some(Instr::LdXK { x })
        } else if y == 0x1 && n == 0x5 {
            Some(Instr::LdDtX { x })
        } else if y == 0x1 && n == 0x8 {
            Some(Instr::LdStX { x })
        } else if y == 0x1 && n == 0xE {
            Some(Instr::AddIX { x })
        } else if y == 0x2 && n == 0x9 {
            Some(Instr::LdFX { x })
        } else if y == 0x3 && n == 0x3 {
            Some(Instr::LdBX { x })
        } else if y == 0x5 && n == 0x5 {
            Some(Instr::LdIX { x })
        } else if y == 0x6 && n == 0x5 {
            Some(Instr::LdXI { x })
        } else {
            None
        }
    } else {
        None
    }
}

/// Decode one instruction word. Any 16-bit value either classifies into an
/// operation or is reported as unknown by returning `None`.
pub fn decode(op: u16) -> (r: Option<Instr>)
    ensures
        r == spec_decode(op),
{
    let x = ((op >> 8) & 0xF) as u8;
    let y = ((op >> 4) & 0xF) as u8;
    let n = (op & 0xF) as u8;
    let kk = (op & 0xFF) as u8;
    let addr = op & 0xFFF;
    let fam = op >> 12;
    if op == 0x00E0 {
        Some(Instr::Cls)
    } else if op == 0x00EE {
        Some(Instr::Ret)
    } else if fam == 0x1 {
        Some(Instr::Jp { addr })
    } else if fam == 0x2 {
        Some(Instr::Call { addr })
    } else if fam == 0x3 {
        Some(Instr::SeByte { x, kk })
    } else if fam == 0x4 {
        Some(Instr::SneByte { x, kk })
    } else if fam == 0x5 {
        Some(Instr::SeXy { x, y })
    } else if fam == 0x6 {
        Some(Instr::LdByte { x, kk })
    } else if fam == 0x7 {
        Some(Instr::AddByte { x, kk })
    } else if fam == 0x8 {
        if n == 0x0 {
            Some(Instr::LdXy { x, y })
        } else if n == 0x1 {
            Some(Instr::OrXy { x, y })
        } else if n == 0x2 {
            Some(Instr::AndXy { x, y })
        } else if n == 0x3 {
            Some(Instr::XorXy { x, y })
        } else if n == 0x4 {
            Some(Instr::AddXy { x, y })
        } else if n == 0x5 {
            Some(Instr::SubXy { x, y })
        } else if n == 0x6 {
            Some(Instr::ShrX { x })
        } else if n == 0x7 {
            Some(Instr::SubnXy { x, y })
        } else if n == 0xE {
            Some(Instr::ShlX { x })
        } else {
            None
        }
    } else if fam == 0x9 {
        Some(Instr::SneXy { x, y })
    } else if fam == 0xA {
        Some(Instr::LdI { addr })
    } else if fam == 0xB {
        Some(Instr::JpV0 { addr })
    } else if fam == 0xC {
        Some(Instr::Rnd { x, kk })
    } else if fam == 0xD {
        Some(Instr::Drw { x, y, n })
    } else if fam == 0xE {
        if y == 0x9 && n == 0xE {
            Some(Instr::SkpX { x })
        } else if y == 0xA && n == 0x1 {
            Some(Instr::SknpX { x })
        } else {
            None
        }
    } else if fam == 0xF {
        if y == 0x0 && n == 0x7 {
            Some(Instr::LdXDt { x })
        } else if y == 0x0 && n == 0xA {
            Some(Instr::LdXK { x })
        } else if y == 0x1 && n == 0x5 {
            Some(Instr::LdDtX { x })
        } else if y == 0x1 && n == 0x8 {
            Some(Instr::LdStX { x })
        } else if y == 0x1 && n == 0xE {
            Some(Instr::AddIX { x })
        } else if y == 0x2 && n == 0x9 {
            Some(Instr::LdFX { x })
        } else if y == 0x3 && n == 0x3 {
            Some(Instr::LdBX { x })
        } else if y == 0x5 && n == 0x5 {
            Some(Instr::LdIX { x })
        } else if y == 0x6 && n == 0x5 {
            Some(Instr::LdXI { x })
        } else {
            None
        }
    } else {
        None
    }
}

} // verus!

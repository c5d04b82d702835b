//! Packed register file: eight 8-bit registers aliased into four 16-bit
//! pairs, plus the standalone 16-bit SP and PC.
//!
//! Each pair is stored as one `u16`; the 8-bit names are derived views of
//! the high or low byte of their pair, so a write through either name is
//! immediately visible through the other.

use vstd::prelude::*;

verus! {

/// A register name. Eight-bit names address one byte of their parent
/// pair; sixteen-bit names address both bytes atomically.
#[derive(Clone, Copy, Debug, PartialEq, Eq, Structural)]
pub enum RegisterName {
    A,
    F,
    AF,
    B,
    C,
    BC,
    D,
    E,
    DE,
    H,
    L,
    HL,
    SP,
    PC,
}

/// The register file. Pairs share storage with their halves: `a` is the
/// high byte of `af`, `f` its low byte, and so on.
#[derive(Clone, Copy, Debug, PartialEq, Eq, Structural)]
pub struct Registers {
    pub af: u16,
    pub bc: u16,
    pub de: u16,
    pub hl: u16,
    pub sp: u16,
    pub pc: u16,
}

/// The high byte of a 16-bit value.
pub open spec fn hi(x: u16) -> u8 {
    (x / 0x100) as u8
}

/// The low byte of a 16-bit value.
pub open spec fn lo(x: u16) -> u8 {
    (x % 0x100) as u8
}

/// `x` with its high byte replaced by `b`.
pub open spec fn with_hi(x: u16, b: u8) -> u16 {
    (b * 0x100 + x % 0x100) as u16
}

/// `x` with its low byte replaced by `b`.
pub open spec fn with_lo(x: u16, b: u8) -> u16 {
    ((x / 0x100) * 0x100 + b) as u16
}

/// True of the eight one-byte register names.
pub open spec fn is_r8(r: RegisterName) -> bool {
    match r {
        RegisterName::A
        | RegisterName::F
        | RegisterName::B
        | RegisterName::C
        | RegisterName::D
        | RegisterName::E
        | RegisterName::H
        | RegisterName::L => true,
        _ => false,
    }
}

/// What a read of register `r` returns: the pair value for a 16-bit name,
/// the zero-extended byte for an 8-bit name.
pub open spec fn spec_read_reg(regs: Registers, r: RegisterName) -> u16 {
    match r {
        RegisterName::A => hi(regs.af) as u16,
        RegisterName::F => lo(regs.af) as u16,
        RegisterName::AF => regs.af,
        RegisterName::B => hi(regs.bc) as u16,
        RegisterName::C => lo(regs.bc) as u16,
        RegisterName::BC => regs.bc,
        RegisterName::D => hi(regs.de) as u16,
        RegisterName::E => lo(regs.de) as u16,
        RegisterName::DE => regs.de,
        RegisterName::H => hi(regs.hl) as u16,
        RegisterName::L => lo(regs.hl) as u16,
        RegisterName::HL => regs.hl,
        RegisterName::SP => regs.sp,
        RegisterName::PC => regs.pc,
    }
}

/// The register file after writing `data` to register `r`. An 8-bit name
/// takes the low byte of `data` and leaves its sibling byte untouched; a
/// 16-bit name takes all of `data`.
pub open spec fn spec_write_reg(regs: Registers, r: RegisterName, data: u16) -> Registers {
    match r {
        RegisterName::A => Registers { af: with_hi(regs.af, lo(data)), ..regs },
        RegisterName::F => Registers { af: with_lo(regs.af, lo(data)), ..regs },
        RegisterName::AF => Registers { af: data, ..regs },
        RegisterName::B => Registers { bc: with_hi(regs.bc, lo(data)), ..regs },
        RegisterName::C => Registers { bc: with_lo(regs.bc, lo(data)), ..regs },
        RegisterName::BC => Registers { bc: data, ..regs },
        RegisterName::D => Registers { de: with_hi(regs.de, lo(data)), ..regs },
        RegisterName::E => Registers { de: with_lo(regs.de, lo(data)), ..regs },
        RegisterName::DE => Registers { de: data, ..regs },
        RegisterName::H => Registers { hl: with_hi(regs.hl, lo(data)), ..regs },
        RegisterName::L => Registers { hl: with_lo(regs.hl, lo(data)), ..regs },
        RegisterName::HL => Registers { hl: data, ..regs },
        RegisterName::SP => Registers { sp: data, ..regs },
        RegisterName::PC => Registers { pc: data, ..regs },
    }
}

/// The fixed power-on register values of the modeled hardware.
pub open spec fn power_on_registers() -> Registers {
    Registers { af: 0x01B0, bc: 0x0013, de: 0x00D8, hl: 0x014D, sp: 0xFFFE, pc: 0x0100 }
}

impl Registers {
    /// A register file holding the hardware's power-on values.
    pub fn new() -> (r: Registers)
        ensures
            r == power_on_registers(),
    {
        Registers { af: 0x01B0, bc: 0x0013, de: 0x00D8, hl: 0x014D, sp: 0xFFFE, pc: 0x0100 }
    }

    /// Read a register; an 8-bit name yields its byte zero-extended.
    pub fn read(&self, register: RegisterName) -> (r: u16)
        ensures
            r == spec_read_reg(*self, register),
            is_r8(register) ==> r <= 0xFF,
    {
        match register {
            RegisterName::A => self.af / 0x100,
            RegisterName::F => self.af % 0x100,
            RegisterName::AF => self.af,
            RegisterName::B => self.bc / 0x100,
            RegisterName::C => self.bc % 0x100,
            RegisterName::BC => self.bc,
            RegisterName::D => self.de / 0x100,
            RegisterName::E => self.de % 0x100,
            RegisterName::DE => self.de,
            RegisterName::H => self.hl / 0x100,
            RegisterName::L => self.hl % 0x100,
            RegisterName::HL => self.hl,
            RegisterName::SP => self.sp,
            RegisterName::PC => self.pc,
        }
    }

    /// Write a register. An 8-bit name stores the low byte of `data` into
    /// its half of the pair, leaving the sibling byte untouched; a 16-bit
    /// name stores all of `data`.
    pub fn write(&mut self, register: RegisterName, data: u16)
        ensures
            *final(self) == spec_write_reg(*old(self), register, data),
    {
        let b: u16 = data % 0x100;
        match register {
            RegisterName::A => {
                self.af = b * 0x100 + self.af % 0x100;
            },
            RegisterName::F => {
                self.af = (self.af / 0x100) * 0x100 + b;
            },
            RegisterName::AF => {
                self.af = data;
            },
            RegisterName::B => {
                self.bc = b * 0x100 + self.bc % 0x100;
            },
            RegisterName::C => {
                self.bc = (self.bc / 0x100) * 0x100 + b;
            },
            RegisterName::BC => {
                self.bc = data;
            },
            RegisterName::D => {
                self.de = b * 0x100 + self.de % 0x100;
            },
            RegisterName::E => {
                self.de = (self.de / 0x100) * 0x100 + b;
            },
            RegisterName::DE => {
                self.de = data;
            },
            RegisterName::H => {
                self.hl = b * 0x100 + self.hl % 0x100;
            },
            RegisterName::L => {
                self.hl = (self.hl / 0x100) * 0x100 + b;
            },
            RegisterName::HL => {
                self.hl = data;
            },
            RegisterName::SP => {
                self.sp = data;
            },
            RegisterName::PC => {
                self.pc = data;
            },
        }
    }
}

/// Replacing one byte of a pair stores exactly that byte and leaves the
/// sibling byte untouched.
pub proof fn lemma_byte_aliasing(x: u16, b: u8)
    ensures
        hi(with_hi(x, b)) == b,
        lo(with_hi(x, b)) == lo(x),
        lo(with_lo(x, b)) == b,
        hi(with_lo(x, b)) == hi(x),
{
    assert((((b * 0x100 + x % 0x100) as u16) / 0x100) as u8 == b) by (bit_vector);
    assert((((b * 0x100 + x % 0x100) as u16) % 0x100) as u8 == (x % 0x100) as u8) by (bit_vector);
    assert(((((x / 0x100) * 0x100 + b) as u16) % 0x100) as u8 == b) by (bit_vector);
    assert(((((x / 0x100) * 0x100 + b) as u16) / 0x100) as u8 == (x / 0x100) as u8) by (bit_vector);
}

/// Law: writing any 8-bit register then reading it back returns the
/// written value truncated to 8 bits.
pub proof fn lemma_r8_write_read(regs: Registers, r: RegisterName, v: u16)
    requires
        is_r8(r),
    ensures
        spec_read_reg(spec_write_reg(regs, r, v), r) == v % 0x100,
{
    lemma_byte_aliasing(regs.af, lo(v));
    lemma_byte_aliasing(regs.bc, lo(v));
    lemma_byte_aliasing(regs.de, lo(v));
    lemma_byte_aliasing(regs.hl, lo(v));
}

/// Law: writing a 16-bit pair then reading each half recovers the byte
/// split of the written value: the high half reads `v / 0x100` and the
/// low half reads `v % 0x100`.
pub proof fn lemma_pair_write_halves_read(regs: Registers, v: u16)
    ensures
        spec_read_reg(spec_write_reg(regs, RegisterName::AF, v), RegisterName::A) == v / 0x100,
        spec_read_reg(spec_write_reg(regs, RegisterName::AF, v), RegisterName::F) == v % 0x100,
        spec_read_reg(spec_write_reg(regs, RegisterName::BC, v), RegisterName::B) == v / 0x100,
        spec_read_reg(spec_write_reg(regs, RegisterName::BC, v), RegisterName::C) == v % 0x100,
        spec_read_reg(spec_write_reg(regs, RegisterName::DE, v), RegisterName::D) == v / 0x100,
        spec_read_reg(spec_write_reg(regs, RegisterName::DE, v), RegisterName::E) == v % 0x100,
        spec_read_reg(spec_write_reg(regs, RegisterName::HL, v), RegisterName::H) == v / 0x100,
        spec_read_reg(spec_write_reg(regs, RegisterName::HL, v), RegisterName::L) == v % 0x100,
{
}

/// Law: writing one half of a pair then reading the pair reflects exactly
/// that change — the written byte in its half, the sibling byte untouched.
pub proof fn lemma_half_write_pair_read(regs: Registers, v: u16)
    ensures
        spec_read_reg(spec_write_reg(regs, RegisterName::A, v), RegisterName::AF)
            == lo(v) * 0x100 + lo(regs.af),
        spec_read_reg(spec_write_reg(regs, RegisterName::F, v), RegisterName::AF)
            == hi(regs.af) * 0x100 + lo(v),
        spec_read_reg(spec_write_reg(regs, RegisterName::B, v), RegisterName::BC)
            == lo(v) * 0x100 + lo(regs.bc),
        spec_read_reg(spec_write_reg(regs, RegisterName::C, v), RegisterName::BC)
            == hi(regs.bc) * 0x100 + lo(v),
        spec_read_reg(spec_write_reg(regs, RegisterName::D, v), RegisterName::DE)
            == lo(v) * 0x100 + lo(regs.de),
        spec_read_reg(spec_write_reg(regs, RegisterName::E, v), RegisterName::DE)
            == hi(regs.de) * 0x100 + lo(v),
        spec_read_reg(spec_write_reg(regs, RegisterName::H, v), RegisterName::HL)
            == lo(v) * 0x100 + lo(regs.hl),
        spec_read_reg(spec_write_reg(regs, RegisterName::L, v), RegisterName::HL)
            == hi(regs.hl) * 0x100 + lo(v),
{
}

} // verus!

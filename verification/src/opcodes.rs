//! The constant opcode table: for each of the 256 primary and 256
//! prefixed opcodes, its mnemonic, encoded byte length, base duration in
//! machine cycles, and the longer duration a conditional instruction
//! costs when its branch is taken.
//!
//! The durations follow the architecture's public per-opcode timing
//! reference. The mnemonic is a diagnostic label; length and durations
//! are pinned to the spec-level table the instruction engine is proved
//! against.

use vstd::prelude::*;

verus! {

/// One immutable instruction descriptor.
pub struct Instruction {
    /// Mnemonic of the operation family.
    pub name: &'static str,
    /// Encoded byte length, 1 to 3.
    pub length: u8,
    /// Base duration in machine cycles.
    pub cycles: u8,
    /// Duration when a conditional branch is taken; equals `cycles` for
    /// every unconditional instruction.
    pub cycles_taken: u8,
}

/// The encoded byte length of a primary opcode.
pub open spec fn spec_instr_length(op: u8) -> u8 {
    match op {
        0x06 | 0x0E | 0x16 | 0x1E | 0x26 | 0x2E | 0x36 | 0x3E => 2,
        0x10 | 0x18 | 0x20 | 0x28 | 0x30 | 0x38 => 2,
        0xC6 | 0xCE | 0xD6 | 0xDE | 0xE6 | 0xEE | 0xF6 | 0xFE => 2,
        0xE0 | 0xF0 | 0xE8 | 0xF8 => 2,
        0x01 | 0x11 | 0x21 | 0x31 | 0x08 => 3,
        0xC2 | 0xC3 | 0xCA | 0xD2 | 0xDA => 3,
        0xC4 | 0xCC | 0xD4 | 0xDC | 0xCD => 3,
        0xEA | 0xFA => 3,
        _ => 1,
    }
}

/// The base duration of a primary opcode in machine cycles.
pub open spec fn spec_instr_cycles(op: u8) -> u8 {
    match op {
        0x02 | 0x12 | 0x22 | 0x32 | 0x0A | 0x1A | 0x2A | 0x3A => 2,
        0x03 | 0x13 | 0x23 | 0x33 | 0x0B | 0x1B | 0x2B | 0x3B => 2,
        0x06 | 0x0E | 0x16 | 0x1E | 0x26 | 0x2E | 0x3E => 2,
        0x09 | 0x19 | 0x29 | 0x39 => 2,
        0x20 | 0x28 | 0x30 | 0x38 => 2,
        0x46 | 0x4E | 0x56 | 0x5E | 0x66 | 0x6E | 0x7E => 2,
        0x70 | 0x71 | 0x72 | 0x73 | 0x74 | 0x75 | 0x77 => 2,
        0x86 | 0x8E | 0x96 | 0x9E | 0xA6 | 0xAE | 0xB6 | 0xBE => 2,
        0xC6 | 0xCE | 0xD6 | 0xDE | 0xE6 | 0xEE | 0xF6 | 0xFE => 2,
        0xC0 | 0xC8 | 0xD0 | 0xD8 => 2,
        0xE2 | 0xF2 | 0xF9 => 2,
        0x01 | 0x11 | 0x21 | 0x31 => 3,
        0x18 | 0x34 | 0x35 | 0x36 => 3,
        0xC1 | 0xD1 | 0xE1 | 0xF1 => 3,
        0xC2 | 0xCA | 0xD2 | 0xDA => 3,
        0xC4 | 0xCC | 0xD4 | 0xDC => 3,
        0xE0 | 0xF0 | 0xF8 => 3,
        0xC3 | 0xC5 | 0xD5 | 0xE5 | 0xF5 => 4,
        0xC7 | 0xCF | 0xD7 | 0xDF | 0xE7 | 0xEF | 0xF7 | 0xFF => 4,
        0xC9 | 0xD9 | 0xE8 | 0xEA | 0xFA => 4,
        0x08 => 5,
        0xCD => 6,
        _ => 1,
    }
}

/// The duration of a primary opcode when its condition holds and the
/// branch is taken; equal to the base duration for every unconditional
/// opcode.
pub open spec fn spec_instr_cycles_taken(op: u8) -> u8 {
    match op {
        0x20 | 0x28 | 0x30 | 0x38 => 3,
        0xC2 | 0xCA | 0xD2 | 0xDA => 4,
        0xC4 | 0xCC | 0xD4 | 0xDC => 6,
        0xC0 | 0xC8 | 0xD0 | 0xD8 => 5,
        _ => spec_instr_cycles(op),
    }
}

/// The duration of a prefixed opcode: two cycles on a register, four on
/// the memory operand, three for a bit test on the memory operand. Every
/// prefixed opcode is two bytes long and unconditional.
pub open spec fn spec_prefixed_cycles(op: u8) -> u8 {
    if op % 8 == 6 {
        if 0x40 <= op <= 0x7F {
            3
        } else {
            4
        }
    } else {
        2
    }
}

/// The encoded byte length of a primary opcode.
pub fn instr_length(op: u8) -> (r: u8)
    ensures
        r == spec_instr_length(op),
{
    match op {
        0x06 | 0x0E | 0x16 | 0x1E | 0x26 | 0x2E | 0x36 | 0x3E => 2,
        0x10 | 0x18 | 0x20 | 0x28 | 0x30 | 0x38 => 2,
        0xC6 | 0xCE | 0xD6 | 0xDE | 0xE6 | 0xEE | 0xF6 | 0xFE => 2,
        0xE0 | 0xF0 | 0xE8 | 0xF8 => 2,
        0x01 | 0x11 | 0x21 | 0x31 | 0x08 => 3,
        0xC2 | 0xC3 | 0xCA | 0xD2 | 0xDA => 3,
        0xC4 | 0xCC | 0xD4 | 0xDC | 0xCD => 3,
        0xEA | 0xFA => 3,
        _ => 1,
    }
}

/// The base duration of a primary opcode in machine cycles.
pub fn instr_cycles(op: u8) -> (r: u8)
    ensures
        r == spec_instr_cycles(op),
{
    match op {
        0x02 | 0x12 | 0x22 | 0x32 | 0x0A | 0x1A | 0x2A | 0x3A => 2,
        0x03 | 0x13 | 0x23 | 0x33 | 0x0B | 0x1B | 0x2B | 0x3B => 2,
        0x06 | 0x0E | 0x16 | 0x1E | 0x26 | 0x2E | 0x3E => 2,
        0x09 | 0x19 | 0x29 | 0x39 => 2,
        0x20 | 0x28 | 0x30 | 0x38 => 2,
        0x46 | 0x4E | 0x56 | 0x5E | 0x66 | 0x6E | 0x7E => 2,
        0x70 | 0x71 | 0x72 | 0x73 | 0x74 | 0x75 | 0x77 => 2,
        0x86 | 0x8E | 0x96 | 0x9E | 0xA6 | 0xAE | 0xB6 | 0xBE => 2,
        0xC6 | 0xCE | 0xD6 | 0xDE | 0xE6 | 0xEE | 0xF6 | 0xFE => 2,
        0xC0 | 0xC8 | 0xD0 | 0xD8 => 2,
        0xE2 | 0xF2 | 0xF9 => 2,
        0x01 | 0x11 | 0x21 | 0x31 => 3,
        0x18 | 0x34 | 0x35 | 0x36 => 3,
        0xC1 | 0xD1 | 0xE1 | 0xF1 => 3,
        0xC2 | 0xCA | 0xD2 | 0xDA => 3,
        0xC4 | 0xCC | 0xD4 | 0xDC => 3,
        0xE0 | 0xF0 | 0xF8 => 3,
        0xC3 | 0xC5 | 0xD5 | 0xE5 | 0xF5 => 4,
        0xC7 | 0xCF | 0xD7 | 0xDF | 0xE7 | 0xEF | 0xF7 | 0xFF => 4,
        0xC9 | 0xD9 | 0xE8 | 0xEA | 0xFA => 4,
        0x08 => 5,
        0xCD => 6,
        _ => 1,
    }
}

/// The duration of a primary opcode when its branch is taken.
pub fn instr_cycles_taken(op: u8) -> (r: u8)
    ensures
        r == spec_instr_cycles_taken(op),
{
    match op {
        0x20 | 0x28 | 0x30 | 0x38 => 3,
        0xC2 | 0xCA | 0xD2 | 0xDA => 4,
        0xC4 | 0xCC | 0xD4 | 0xDC => 6,
        0xC0 | 0xC8 | 0xD0 | 0xD8 => 5,
        _ => instr_cycles(op),
    }
}

/// The mnemonic of a primary opcode's operation family.
pub fn instr_name(op: u8) -> &'static str {
    match op {
        0x00 => "NOP",
        0x10 => "STOP",
        0x76 => "HALT",
        0xCB => "PREFIX",
        0xF3 => "DI",
        0xFB => "EI",
        0x07 => "RLCA",
        0x0F => "RRCA",
        0x17 => "RLA",
        0x1F => "RRA",
        0x27 => "DAA",
        0x2F => "CPL",
        0x37 => "SCF",
        0x3F => "CCF",
        0xE0 | 0xF0 => "LDH",
        0x03 | 0x04 | 0x0C | 0x13 | 0x14 | 0x1C | 0x23 | 0x24 | 0x2C | 0x33 | 0x34 | 0x3C => "INC",
        0x05 | 0x0B | 0x0D | 0x15 | 0x1B | 0x1D | 0x25 | 0x2B | 0x2D | 0x35 | 0x3B | 0x3D => "DEC",
        0x09 | 0x19 | 0x29 | 0x39 | 0xE8 => "ADD",
        0x18 | 0x20 | 0x28 | 0x30 | 0x38 => "JR",
        0xC2 | 0xC3 | 0xCA | 0xD2 | 0xDA | 0xE9 => "JP",
        0xC4 | 0xCC | 0xCD | 0xD4 | 0xDC => "CALL",
        0xC0 | 0xC8 | 0xC9 | 0xD0 | 0xD8 => "RET",
        0xD9 => "RETI",
        0xC1 | 0xD1 | 0xE1 | 0xF1 => "POP",
        0xC5 | 0xD5 | 0xE5 | 0xF5 => "PUSH",
        0xC7 | 0xCF | 0xD7 | 0xDF | 0xE7 | 0xEF | 0xF7 | 0xFF => "RST",
        0xC6 => "ADD",
        0xCE => "ADC",
        0xD6 => "SUB",
        0xDE => "SBC",
        0xE6 => "AND",
        0xEE => "XOR",
        0xF6 => "OR",
        0xFE => "CP",
        0xD3 | 0xDB | 0xDD | 0xE3 | 0xE4 | 0xEB | 0xEC | 0xED | 0xF4 | 0xFC | 0xFD => "ILLEGAL",
        _ => {
            if 0x80 <= op && op <= 0x87 {
                "ADD"
            } else if 0x88 <= op && op <= 0x8F {
                "ADC"
            } else if 0x90 <= op && op <= 0x97 {
                "SUB"
            } else if 0x98 <= op && op <= 0x9F {
                "SBC"
            } else if 0xA0 <= op && op <= 0xA7 {
                "AND"
            } else if 0xA8 <= op && op <= 0xAF {
                "XOR"
            } else if 0xB0 <= op && op <= 0xB7 {
                "OR"
            } else if 0xB8 <= op && op <= 0xBF {
                "CP"
            } else {
                "LD"
            }
        },
    }
}

/// The mnemonic of a prefixed opcode's operation family.
pub fn prefixed_name(op: u8) -> &'static str {
    if op <= 0x07 {
        "RLC"
    } else if op <= 0x0F {
        "RRC"
    } else if op <= 0x17 {
        "RL"
    } else if op <= 0x1F {
        "RR"
    } else if op <= 0x27 {
        "SLA"
    } else if op <= 0x2F {
        "SRA"
    } else if op <= 0x37 {
        "SWAP"
    } else if op <= 0x3F {
        "SRL"
    } else if op <= 0x7F {
        "BIT"
    } else if op <= 0xBF {
        "RES"
    } else {
        "SET"
    }
}

/// The table entry of a primary opcode.
pub fn instruction_info(op: u8) -> (r: Instruction)
    ensures
        r.length == spec_instr_length(op),
        r.cycles == spec_instr_cycles(op),
        r.cycles_taken == spec_instr_cycles_taken(op),
        1 <= r.length <= 3,
        1 <= r.cycles,
        r.cycles <= r.cycles_taken,
{
    Instruction {
        name: instr_name(op),
        length: instr_length(op),
        cycles: instr_cycles(op),
        cycles_taken: instr_cycles_taken(op),
    }
}

/// The table entry of a prefixed opcode.
pub fn prefixed_info(op: u8) -> (r: Instruction)
    ensures
        r.length == 2,
        r.cycles == spec_prefixed_cycles(op),
        r.cycles_taken == r.cycles,
        1 <= r.cycles,
{
    let cycles: u8 = if op % 8 == 6 {
        if 0x40 <= op && op <= 0x7F {
            3
        } else {
            4
        }
    } else {
        2
    };
    Instruction { name: prefixed_name(op), length: 2, cycles, cycles_taken: cycles }
}

/// True of the architecture's defined illegal opcode bytes: fetching one
/// signals corrupted control flow, distinct from a merely unimplemented
/// opcode.
pub open spec fn spec_is_illegal(op: u8) -> bool {
    op == 0xD3 || op == 0xDB || op == 0xDD || op == 0xE3 || op == 0xE4 || op == 0xEB || op == 0xEC
        || op == 0xED || op == 0xF4 || op == 0xFC || op == 0xFD
}

/// Whether a byte is one of the architecture's defined illegal opcodes.
pub fn is_illegal(op: u8) -> (r: bool)
    ensures
        r == spec_is_illegal(op),
{
    match op {
        0xD3 | 0xDB | 0xDD | 0xE3 | 0xE4 | 0xEB | 0xEC | 0xED | 0xF4 | 0xFC | 0xFD => true,
        _ => false,
    }
}

} // verus!

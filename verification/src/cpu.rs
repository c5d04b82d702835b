//! Instruction engine: the fetch-decode-execute loop.
//!
//! Each step is one atomic transition: the opcode latched at the end of
//! the previous step selects a handler, the handler reads its operands,
//! computes results and flags, the consumed length and cycle cost come
//! from the opcode table, the program counter advances with wraparound
//! (or takes an absolute jump target verbatim), and the byte at the new
//! program counter is latched as the next opcode.
//!
//! The whole transition is pinned to the spec-level function
//! [`spec_step`]: a step either returns the cycle count and moves the
//! machine to exactly the state `spec_step` names, or returns a fault
//! and leaves every register and memory byte exactly as it was — no
//! partial execution is ever observable.

use vstd::prelude::*;
use crate::EmuError;
use crate::bus::AddressSpace;
use crate::bus::BusView;
use crate::bus::addr_mapped;
use crate::bus::bus_wf;
use crate::bus::spec_bus_read;
use crate::bus::spec_bus_write;
use crate::flags::add_flags_u16;
use crate::flags::add_flags_u8;
use crate::flags::adc_flags_u8;
use crate::flags::and_flags_u8;
use crate::flags::dec_flags_u8;
use crate::flags::flag_c;
use crate::flags::flag_n;
use crate::flags::flag_h;
use crate::flags::flag_z;
use crate::flags::inc_flags_u8;
use crate::flags::or_flags_u8;
use crate::flags::rot_a_flags;
use crate::flags::set_rot_a_flags_u8;
use crate::flags::rotate_flags_u8;
use crate::flags::set_rotate_flags_u8;
use crate::flags::make_flags;
use crate::flags::compose_flags;
use crate::flags::sbc_flags_u8;
use crate::flags::sub_flags_u8;
use crate::flags::set_adc_flags_u8;
use crate::flags::set_add_flags_u16;
use crate::flags::set_add_flags_u8;
use crate::flags::set_and_flags_u8;
use crate::flags::set_dec_flags_u8;
use crate::flags::set_inc_flags_u8;
use crate::flags::set_or_flags_u8;
use crate::flags::set_sbc_flags_u8;
use crate::flags::set_sub_flags_u8;
use crate::mbc::Mbc;
use crate::opcodes::instruction_info;
use crate::opcodes::is_illegal;
use crate::opcodes::spec_instr_cycles;
use crate::opcodes::spec_instr_cycles_taken;
use crate::opcodes::spec_is_illegal;
use crate::opcodes::spec_prefixed_cycles;
use crate::opcodes::prefixed_info;
use crate::registers::RegisterName;
use crate::registers::Registers;
use crate::registers::hi;
use crate::registers::lo;
use crate::registers::power_on_registers;
use crate::registers::spec_read_reg;
use crate::registers::spec_write_reg;
use crate::rom::Rom;

verus! {

/// The mathematical model of the whole machine: registers, the latched
/// opcode, and the bus.
pub ghost struct CpuView {
    pub regs: Registers,
    pub opcode: u8,
    pub bus: BusView,
}

/// The computed outcome of one handler, before it is committed: the
/// registers (program counter not yet advanced), at most one pending
/// memory store, the next program counter, and the cycle cost.
pub ghost struct Effect {
    pub regs: Registers,
    pub store: Option<(u16, u8)>,
    pub store2: Option<(u16, u8)>,
    pub next_pc: u16,
    pub cycles: u8,
}

/// Whether a pending store, if any, targets a mapped address.
pub open spec fn store_mapped(st: Option<(u16, u8)>) -> bool {
    match st {
        Some(av) => addr_mapped(av.0),
        None => true,
    }
}

/// The target address of a pending store; meaningful only when one is
/// pending.
pub open spec fn store_addr(st: Option<(u16, u8)>) -> u16 {
    match st {
        Some(av) => av.0,
        None => 0,
    }
}

/// The bus after a pending store is applied, if one is pending.
pub open spec fn apply_store(b: BusView, st: Option<(u16, u8)>) -> BusView {
    match st {
        Some(av) => spec_bus_write(b, av.0, av.1),
        None => b,
    }
}

/// The 8-bit register an operand field selects: 0,1,2,3,4,5,7 name
/// B,C,D,E,H,L,A; field 6 names the memory operand and is decoded
/// separately.
pub open spec fn spec_match_register(bits: u8) -> RegisterName
    recommends
        bits < 8,
        bits != 6,
{
    if bits == 0 {
        RegisterName::B
    } else if bits == 1 {
        RegisterName::C
    } else if bits == 2 {
        RegisterName::D
    } else if bits == 3 {
        RegisterName::E
    } else if bits == 4 {
        RegisterName::H
    } else if bits == 5 {
        RegisterName::L
    } else {
        RegisterName::A
    }
}

/// Map an operand field to its 8-bit register.
pub fn match_register_u8(op: u8) -> (r: RegisterName)
    requires
        op < 8,
        op != 6,
    ensures
        r == spec_match_register(op),
{
    if op == 0 {
        RegisterName::B
    } else if op == 1 {
        RegisterName::C
    } else if op == 2 {
        RegisterName::D
    } else if op == 3 {
        RegisterName::E
    } else if op == 4 {
        RegisterName::H
    } else if op == 5 {
        RegisterName::L
    } else {
        RegisterName::A
    }
}

/// The 16-bit register pair a two-bit field selects: 0,1,2,3 name
/// BC,DE,HL,SP.
pub open spec fn spec_match_register16(bits: u8) -> RegisterName
    recommends
        bits < 4,
{
    if bits == 0 {
        RegisterName::BC
    } else if bits == 1 {
        RegisterName::DE
    } else if bits == 2 {
        RegisterName::HL
    } else {
        RegisterName::SP
    }
}

/// Map a two-bit field to its 16-bit register pair.
pub fn match_register16(bits: u8) -> (r: RegisterName)
    requires
        bits < 4,
    ensures
        r == spec_match_register16(bits),
{
    if bits == 0 {
        RegisterName::BC
    } else if bits == 1 {
        RegisterName::DE
    } else if bits == 2 {
        RegisterName::HL
    } else {
        RegisterName::SP
    }
}

/// The 16-bit register pair a stack instruction's two-bit field
/// selects: 0,1,2,3 name BC,DE,HL,AF.
pub open spec fn spec_match_register_stack(bits: u8) -> RegisterName
    recommends
        bits < 4,
{
    if bits == 0 {
        RegisterName::BC
    } else if bits == 1 {
        RegisterName::DE
    } else if bits == 2 {
        RegisterName::HL
    } else {
        RegisterName::AF
    }
}

/// Map a stack instruction's two-bit field to its register pair.
pub fn match_register_stack(bits: u8) -> (r: RegisterName)
    requires
        bits < 4,
    ensures
        r == spec_match_register_stack(bits),
{
    if bits == 0 {
        RegisterName::BC
    } else if bits == 1 {
        RegisterName::DE
    } else if bits == 2 {
        RegisterName::HL
    } else {
        RegisterName::AF
    }
}

/// Whether the condition field of a conditional instruction holds under
/// flag byte `f`: 0 is not-Zero, 1 is Zero, 2 is not-Carry, 3 is Carry.
pub open spec fn spec_cond_holds(cond: u8, f: u8) -> bool {
    if cond == 0 {
        !flag_z(f)
    } else if cond == 1 {
        flag_z(f)
    } else if cond == 2 {
        !flag_c(f)
    } else {
        flag_c(f)
    }
}

/// Evaluate a condition field against a flag byte.
pub fn condition_holds(cond: u8, f: u8) -> (r: bool)
    ensures
        r == spec_cond_holds(cond, f),
{
    if cond == 0 {
        !(f / 0x80 % 2 == 1)
    } else if cond == 1 {
        f / 0x80 % 2 == 1
    } else if cond == 2 {
        !(f / 0x10 % 2 == 1)
    } else {
        f / 0x10 % 2 == 1
    }
}

/// The target of a relative jump: the address after the two-byte
/// instruction plus the sign-extended offset, wrapping around the
/// 16-bit address space.
pub open spec fn spec_rel_target(pc: u16, off: u8) -> u16 {
    pc.wrapping_add(2).wrapping_add(off as u16).wrapping_add(
        if off >= 0x80 {
            0xFF00u16
        } else {
            0u16
        },
    )
}

/// Compute a relative jump target.
pub fn rel_target(pc: u16, off: u8) -> (r: u16)
    ensures
        r == spec_rel_target(pc, off),
{
    pc.wrapping_add(2).wrapping_add(off as u16).wrapping_add(
        if off >= 0x80 {
            0xFF00u16
        } else {
            0u16
        },
    )
}

/// The accumulator and flag byte an ALU family computes from the
/// accumulator `acc`, the operand `v` and the current flags `f`:
/// families 0..8 are add, add-with-carry, subtract, subtract-with-
/// borrow, and, xor, or, compare.
pub open spec fn spec_alu(fam: u8, acc: u8, v: u8, f: u8) -> (u8, u8)
    recommends
        fam < 8,
{
    if fam == 0 {
        (acc.wrapping_add(v), add_flags_u8(acc, v, f))
    } else if fam == 1 {
        let cin: u8 = if flag_c(f) {
            1
        } else {
            0
        };
        (acc.wrapping_add(v).wrapping_add(cin), adc_flags_u8(acc, v, flag_c(f), f))
    } else if fam == 2 {
        (acc.wrapping_sub(v), sub_flags_u8(acc, v, f))
    } else if fam == 3 {
        let cin: u8 = if flag_c(f) {
            1
        } else {
            0
        };
        (acc.wrapping_sub(v).wrapping_sub(cin), sbc_flags_u8(acc, v, flag_c(f), f))
    } else if fam == 4 {
        ((acc & v), and_flags_u8((acc & v), f))
    } else if fam == 5 {
        ((acc ^ v), or_flags_u8((acc ^ v), f))
    } else if fam == 6 {
        ((acc | v), or_flags_u8((acc | v), f))
    } else {
        (acc, sub_flags_u8(acc, v, f))
    }
}

/// Compute one ALU family's result and flag byte.
pub fn alu_op(fam: u8, acc: u8, v: u8, f: u8) -> (r: (u8, u8))
    requires
        fam < 8,
    ensures
        r == spec_alu(fam, acc, v, f),
{
    if fam == 0 {
        (acc.wrapping_add(v), set_add_flags_u8(acc, v, f))
    } else if fam == 1 {
        let carry: bool = f / 0x10 % 2 == 1;
        let cin: u8 = if carry {
            1
        } else {
            0
        };
        (acc.wrapping_add(v).wrapping_add(cin), set_adc_flags_u8(acc, v, carry, f))
    } else if fam == 2 {
        (acc.wrapping_sub(v), set_sub_flags_u8(acc, v, f))
    } else if fam == 3 {
        let carry: bool = f / 0x10 % 2 == 1;
        let cin: u8 = if carry {
            1
        } else {
            0
        };
        (acc.wrapping_sub(v).wrapping_sub(cin), set_sbc_flags_u8(acc, v, carry, f))
    } else if fam == 4 {
        (acc & v, set_and_flags_u8(acc & v, f))
    } else if fam == 5 {
        (acc ^ v, set_or_flags_u8(acc ^ v, f))
    } else if fam == 6 {
        (acc | v, set_or_flags_u8(acc | v, f))
    } else {
        (acc, set_sub_flags_u8(acc, v, f))
    }
}

/// The value and flag byte a prefixed operation computes from operand
/// `v` under flags `f`. Kinds 0..8 (by the opcode's high five bits) are
/// the rotates and shifts, 8..16 the bit tests, 16..24 the bit resets,
/// 24..32 the bit sets. A bit test returns the operand unchanged; a
/// reset or set leaves the flags unchanged.
pub open spec fn spec_cb_op(cb: u8, v: u8, f: u8) -> (u8, u8) {
    let k = cb / 8;
    if k == 0 {
        let r = (v << 1) | (v >> 7);
        (r, rotate_flags_u8(r, v >= 0x80, f))
    } else if k == 1 {
        let r = (v >> 1) | ((v & 1) << 7);
        (r, rotate_flags_u8(r, v & 1 == 1, f))
    } else if k == 2 {
        let cin: u8 = if flag_c(f) {
            1
        } else {
            0
        };
        let r = (v << 1) | cin;
        (r, rotate_flags_u8(r, v >= 0x80, f))
    } else if k == 3 {
        let cin: u8 = if flag_c(f) {
            1
        } else {
            0
        };
        let r = (v >> 1) | (cin << 7);
        (r, rotate_flags_u8(r, v & 1 == 1, f))
    } else if k == 4 {
        let r = v << 1;
        (r, rotate_flags_u8(r, v >= 0x80, f))
    } else if k == 5 {
        let r = (v >> 1) | (v & 0x80);
        (r, rotate_flags_u8(r, v & 1 == 1, f))
    } else if k == 6 {
        let r = (v << 4) | (v >> 4);
        (r, rotate_flags_u8(r, false, f))
    } else if k == 7 {
        let r = v >> 1;
        (r, rotate_flags_u8(r, v & 1 == 1, f))
    } else if k < 16 {
        (v, compose_flags((v >> (k - 8) as u8) & 1 == 0, false, true, flag_c(f), f))
    } else if k < 24 {
        ((v & !((1 as u8) << (k - 16) as u8)), f)
    } else {
        ((v | ((1 as u8) << (k - 24) as u8)), f)
    }
}

/// Compute one prefixed operation's value and flag byte.
pub fn cb_op(cb: u8, v: u8, f: u8) -> (r: (u8, u8))
    ensures
        r == spec_cb_op(cb, v, f),
{
    let k = cb / 8;
    let carry: bool = f / 0x10 % 2 == 1;
    let cin: u8 = if carry {
        1
    } else {
        0
    };
    if k == 0 {
        let r = (v << 1) | (v >> 7);
        (r, set_rotate_flags_u8(r, v >= 0x80, f))
    } else if k == 1 {
        let r = (v >> 1) | ((v & 1) << 7);
        (r, set_rotate_flags_u8(r, v & 1 == 1, f))
    } else if k == 2 {
        let r = (v << 1) | cin;
        (r, set_rotate_flags_u8(r, v >= 0x80, f))
    } else if k == 3 {
        let r = (v >> 1) | (cin << 7);
        (r, set_rotate_flags_u8(r, v & 1 == 1, f))
    } else if k == 4 {
        let r = v << 1;
        (r, set_rotate_flags_u8(r, v >= 0x80, f))
    } else if k == 5 {
        let r = (v >> 1) | (v & 0x80);
        (r, set_rotate_flags_u8(r, v & 1 == 1, f))
    } else if k == 6 {
        let r = (v << 4) | (v >> 4);
        (r, set_rotate_flags_u8(r, false, f))
    } else if k == 7 {
        let r = v >> 1;
        (r, set_rotate_flags_u8(r, v & 1 == 1, f))
    } else if k < 16 {
        let bit = (v >> (k - 8)) & 1;
        (v, make_flags(bit == 0, false, true, carry, f))
    } else if k < 24 {
        (v & !(1u8 << (k - 16)), f)
    } else {
        (v | (1u8 << (k - 24)), f)
    }
}

/// What a read of address `a` returns: the routed byte, or the unmapped
/// fault.
pub open spec fn spec_read8(b: BusView, a: u16) -> Result<u8, EmuError> {
    if addr_mapped(a) {
        Ok(spec_bus_read(b, a))
    } else {
        Err(EmuError::UnmappedAddress(a))
    }
}

/// True of the 16-bit load-immediate opcodes.
pub open spec fn is_ld_rr_d16(op: u8) -> bool {
    op == 0x01 || op == 0x11 || op == 0x21 || op == 0x31
}

/// True of the 16-bit increment opcodes.
pub open spec fn is_inc_rr(op: u8) -> bool {
    op == 0x03 || op == 0x13 || op == 0x23 || op == 0x33
}

/// True of the 16-bit decrement opcodes.
pub open spec fn is_dec_rr(op: u8) -> bool {
    op == 0x0B || op == 0x1B || op == 0x2B || op == 0x3B
}

/// True of the 16-bit add-to-HL opcodes.
pub open spec fn is_add_hl_rr(op: u8) -> bool {
    op == 0x09 || op == 0x19 || op == 0x29 || op == 0x39
}

/// True of the increment opcodes this engine executes.
pub open spec fn is_inc_r8(op: u8) -> bool {
    op == 0x04 || op == 0x0C || op == 0x14 || op == 0x1C || op == 0x24 || op == 0x2C || op == 0x3C
}

/// True of the decrement opcodes this engine executes.
pub open spec fn is_dec_r8(op: u8) -> bool {
    op == 0x05 || op == 0x0D || op == 0x15 || op == 0x1D || op == 0x25 || op == 0x2D || op == 0x3D
}

/// True of the load-immediate opcodes, the memory-destination form
/// included.
pub open spec fn is_ld_d8(op: u8) -> bool {
    op == 0x06 || op == 0x0E || op == 0x16 || op == 0x1E || op == 0x26 || op == 0x2E || op == 0x36
        || op == 0x3E
}

/// True of the conditional relative jumps.
pub open spec fn is_jr_cc(op: u8) -> bool {
    op == 0x20 || op == 0x28 || op == 0x30 || op == 0x38
}

/// True of the immediate-operand ALU opcodes.
pub open spec fn is_alu_d8(op: u8) -> bool {
    op == 0xC6 || op == 0xCE || op == 0xD6 || op == 0xDE || op == 0xE6 || op == 0xEE || op == 0xF6
        || op == 0xFE
}

/// True of the conditional absolute jumps.
pub open spec fn is_jp_cc(op: u8) -> bool {
    op == 0xC2 || op == 0xCA || op == 0xD2 || op == 0xDA
}

/// True of the no-op, halt and 16-bit register opcodes, the first arms
/// of the dispatch.
pub open spec fn in_dispatch_open16(op: u8) -> bool {
    op == 0x00 || op == 0x76 || is_ld_rr_d16(op) || is_inc_rr(op) || is_dec_rr(op) || is_add_hl_rr(
        op,
    )
}

/// True of the opcodes the opening arms of the dispatch handle: the
/// no-op, halt, the 16-bit forms, the accumulator rotates and the other
/// single-byte register instructions.
pub open spec fn in_dispatch_open(op: u8) -> bool {
    op == 0x00 || op == 0x76 || is_ld_rr_d16(op) || is_inc_rr(op) || is_dec_rr(op) || is_add_hl_rr(
        op,
    ) || op == 0x07 || op == 0x0F || op == 0x17 || op == 0x1F || op == 0x2F || op == 0x37 || op
        == 0x3F || op == 0x27 || op == 0xE9 || op == 0xF9
}

/// True of the memory-form load opcodes: the register-pair indirect
/// forms and the absolute-address forms.
pub open spec fn is_mem_load(op: u8) -> bool {
    op == 0x02 || op == 0x12 || op == 0x22 || op == 0x32 || op == 0x0A || op == 0x1A || op == 0x2A
        || op == 0x3A || op == 0xEA || op == 0xFA
}

/// True of the opcodes the head of the dispatch handles, before the
/// register-to-register load and ALU blocks.
pub open spec fn in_dispatch_head(op: u8) -> bool {
    op == 0x00 || op == 0x76 || is_ld_rr_d16(op) || is_inc_rr(op) || is_dec_rr(op) || is_add_hl_rr(
        op,
    ) || op == 0x07 || op == 0x0F || op == 0x17 || op == 0x1F || op == 0x2F || op == 0x37 || op
        == 0x3F || op == 0xE9 || op == 0xF9 || op == 0x02 || op == 0x12 || op == 0x22 || op == 0x32
        || op == 0x0A || op == 0x1A || op == 0x2A || op == 0x3A || op == 0xEA || op == 0xFA
        || is_inc_r8(op) || is_dec_r8(op) || is_ld_d8(op) || op == 0x18 || is_jr_cc(op) || op
        == 0x27
}

/// True of the stack and stack-pointer opcodes: push, pop, call,
/// return, restart, and the stack-pointer stores and adds.
pub open spec fn is_stack_op(op: u8) -> bool {
    op == 0xC5 || op == 0xD5 || op == 0xE5 || op == 0xF5 || op == 0xC1 || op == 0xD1 || op == 0xE1
        || op == 0xF1 || op == 0xCD || op == 0xC4 || op == 0xCC || op == 0xD4 || op == 0xDC || op
        == 0xC9 || op == 0xC0 || op == 0xC8 || op == 0xD0 || op == 0xD8 || op == 0xC7 || op == 0xCF
        || op == 0xD7 || op == 0xDF || op == 0xE7 || op == 0xEF || op == 0xF7 || op == 0xFF || op
        == 0x08 || op == 0xE8 || op == 0xF8
}

/// True of the opcodes the first dispatch chain handles; the second
/// chain handles the stack, call, return, restart and IO-page forms.
pub open spec fn in_first_dispatch(op: u8) -> bool {
    op == 0x00 || op == 0x76 || is_ld_rr_d16(op) || is_inc_rr(op) || is_dec_rr(op) || is_add_hl_rr(
        op,
    ) || op == 0x07 || op == 0x0F || op == 0x17 || op == 0x1F || op == 0x2F || op == 0x37 || op
        == 0x3F || op == 0xE9 || op == 0xF9 || op == 0x02 || op == 0x12 || op == 0x22 || op == 0x32
        || op == 0x0A || op == 0x1A || op == 0x2A || op == 0x3A || op == 0xEA || op == 0xFA
        || is_inc_r8(op) || is_dec_r8(op) || is_ld_d8(op) || op == 0x18 || is_jr_cc(op) || (0x40
        <= op && op <= 0x7F) || (0x80 <= op && op <= 0xBF) || is_alu_d8(op) || op == 0xC3
        || is_jp_cc(op) || op == 0x27
}

/// True of every opcode this engine executes; fetching any other legal
/// byte is the unimplemented-opcode fault, kept distinct from the
/// illegal bytes.
pub open spec fn spec_implemented(op: u8) -> bool {
    in_first_dispatch(op) || is_stack_op(op) || op == 0xE0 || op == 0xF0 || op == 0xE2 || op
        == 0xF2 || op == 0xCB
}

/// What one handler computes from state `s`, before the commit: the
/// registers and pending stores it produces, the next program counter
/// and the cycle cost — or the fault that aborts the step with nothing
/// committed. Kept opaque so callers reason through [`run_handler`]'s
/// contract rather than by unfolding the whole dispatch.
#[verifier::opaque]
/// One arm of the handler table; see [`spec_execute`].
#[verifier::opaque]
pub open spec fn spec_exec_nop(s: CpuView, interrupt_pending: bool) -> Result<
    Effect,
    EmuError,
> {
    let op = s.opcode;
    let regs = s.regs;
    let pc = regs.pc;
    let f = lo(regs.af);
    let acc = hi(regs.af);
    Ok(
        Effect {
            regs,
            store: None,
            store2: None,
            next_pc: pc.wrapping_add(1),
            cycles: spec_instr_cycles(op),
        },
    )
}

/// One arm of the handler table; see [`spec_execute`].
#[verifier::opaque]
pub open spec fn spec_exec_halt(s: CpuView, interrupt_pending: bool) -> Result<
    Effect,
    EmuError,
> {
    let op = s.opcode;
    let regs = s.regs;
    let pc = regs.pc;
    let f = lo(regs.af);
    let acc = hi(regs.af);
    if interrupt_pending {
        Ok(
            Effect {
                regs,
                store: None,
                store2: None,
                next_pc: pc.wrapping_add(1),
                cycles: spec_instr_cycles(op),
            },
        )
    } else {
        Ok(Effect { regs, store: None, store2: None, next_pc: pc, cycles: spec_instr_cycles(op) })
    }
}

/// One arm of the handler table; see [`spec_execute`].
#[verifier::opaque]
pub open spec fn spec_exec_ld16_imm(s: CpuView, interrupt_pending: bool) -> Result<
    Effect,
    EmuError,
> {
    let op = s.opcode;
    let regs = s.regs;
    let pc = regs.pc;
    let f = lo(regs.af);
    let acc = hi(regs.af);
    match spec_read8(s.bus, pc.wrapping_add(1)) {
        Err(e) => Err(e),
        Ok(lo_b) => match spec_read8(s.bus, pc.wrapping_add(2)) {
            Err(e) => Err(e),
            Ok(hi_b) => {
                let rr = spec_match_register16(op / 16);
                Ok(
                    Effect {
                        regs: spec_write_reg(regs, rr, (hi_b * 0x100 + lo_b) as u16),
                        store: None,
                        store2: None,
                        next_pc: pc.wrapping_add(3),
                        cycles: spec_instr_cycles(op),
                    },
                )
            },
        },
    }
}

/// One arm of the handler table; see [`spec_execute`].
#[verifier::opaque]
pub open spec fn spec_exec_inc16(s: CpuView, interrupt_pending: bool) -> Result<
    Effect,
    EmuError,
> {
    let op = s.opcode;
    let regs = s.regs;
    let pc = regs.pc;
    let f = lo(regs.af);
    let acc = hi(regs.af);
    let rr = spec_match_register16(op / 16);
    let v = spec_read_reg(regs, rr);
    Ok(
        Effect {
            regs: spec_write_reg(regs, rr, v.wrapping_add(1)),
            store: None,
            store2: None,
            next_pc: pc.wrapping_add(1),
            cycles: spec_instr_cycles(op),
        },
    )
}

/// One arm of the handler table; see [`spec_execute`].
#[verifier::opaque]
pub open spec fn spec_exec_dec16(s: CpuView, interrupt_pending: bool) -> Result<
    Effect,
    EmuError,
> {
    let op = s.opcode;
    let regs = s.regs;
    let pc = regs.pc;
    let f = lo(regs.af);
    let acc = hi(regs.af);
    let rr = spec_match_register16(op / 16);
    let v = spec_read_reg(regs, rr);
    Ok(
        Effect {
            regs: spec_write_reg(regs, rr, v.wrapping_sub(1)),
            store: None,
            store2: None,
            next_pc: pc.wrapping_add(1),
            cycles: spec_instr_cycles(op),
        },
    )
}

/// One arm of the handler table; see [`spec_execute`].
#[verifier::opaque]
pub open spec fn spec_exec_add16(s: CpuView, interrupt_pending: bool) -> Result<
    Effect,
    EmuError,
> {
    let op = s.opcode;
    let regs = s.regs;
    let pc = regs.pc;
    let f = lo(regs.af);
    let acc = hi(regs.af);
    let rr = spec_match_register16(op / 16);
    let v = spec_read_reg(regs, rr);
    let hl = regs.hl;
    let regs1 = spec_write_reg(regs, RegisterName::HL, hl.wrapping_add(v));
    let regs2 = spec_write_reg(regs1, RegisterName::F, add_flags_u16(hl, v, f) as u16);
    Ok(
        Effect {
            regs: regs2,
            store: None,
            store2: None,
            next_pc: pc.wrapping_add(1),
            cycles: spec_instr_cycles(op),
        },
    )
}

/// One arm of the handler table; see [`spec_execute`].
#[verifier::opaque]
pub open spec fn spec_exec_rot_a(s: CpuView, interrupt_pending: bool) -> Result<
    Effect,
    EmuError,
> {
    let op = s.opcode;
    let regs = s.regs;
    let pc = regs.pc;
    let f = lo(regs.af);
    let acc = hi(regs.af);
    let cin: u8 = if flag_c(f) {
        1
    } else {
        0
    };
    let a1: u8 = if op == 0x07 {
        (acc << 1) | (acc >> 7)
    } else if op == 0x0F {
        (acc >> 1) | ((acc & 1) << 7)
    } else if op == 0x17 {
        (acc << 1) | cin
    } else {
        (acc >> 1) | (cin << 7)
    };
    let c_out: bool = if op == 0x07 || op == 0x17 {
        acc >= 0x80
    } else {
        acc & 1 == 1
    };
    let regs1 = spec_write_reg(regs, RegisterName::A, a1 as u16);
    let regs2 = spec_write_reg(regs1, RegisterName::F, rot_a_flags(c_out, f) as u16);
    Ok(
        Effect {
            regs: regs2,
            store: None,
            store2: None,
            next_pc: pc.wrapping_add(1),
            cycles: spec_instr_cycles(op),
        },
    )
}

/// One arm of the handler table; see [`spec_execute`].
#[verifier::opaque]
pub open spec fn spec_exec_cpl(s: CpuView, interrupt_pending: bool) -> Result<
    Effect,
    EmuError,
> {
    let op = s.opcode;
    let regs = s.regs;
    let pc = regs.pc;
    let f = lo(regs.af);
    let acc = hi(regs.af);
    let regs1 = spec_write_reg(regs, RegisterName::A, !acc as u16);
    let regs2 = spec_write_reg(
        regs1,
        RegisterName::F,
        compose_flags(flag_z(f), true, true, flag_c(f), f) as u16,
    );
    Ok(
        Effect {
            regs: regs2,
            store: None,
            store2: None,
            next_pc: pc.wrapping_add(1),
            cycles: spec_instr_cycles(op),
        },
    )
}

/// One arm of the handler table; see [`spec_execute`].
#[verifier::opaque]
pub open spec fn spec_exec_scf(s: CpuView, interrupt_pending: bool) -> Result<
    Effect,
    EmuError,
> {
    let op = s.opcode;
    let regs = s.regs;
    let pc = regs.pc;
    let f = lo(regs.af);
    let acc = hi(regs.af);
    let regs1 = spec_write_reg(
        regs,
        RegisterName::F,
        compose_flags(flag_z(f), false, false, true, f) as u16,
    );
    Ok(
        Effect {
            regs: regs1,
            store: None,
            store2: None,
            next_pc: pc.wrapping_add(1),
            cycles: spec_instr_cycles(op),
        },
    )
}

/// One arm of the handler table; see [`spec_execute`].
#[verifier::opaque]
pub open spec fn spec_exec_ccf(s: CpuView, interrupt_pending: bool) -> Result<
    Effect,
    EmuError,
> {
    let op = s.opcode;
    let regs = s.regs;
    let pc = regs.pc;
    let f = lo(regs.af);
    let acc = hi(regs.af);
    let regs1 = spec_write_reg(
        regs,
        RegisterName::F,
        compose_flags(flag_z(f), false, false, !flag_c(f), f) as u16,
    );
    Ok(
        Effect {
            regs: regs1,
            store: None,
            store2: None,
            next_pc: pc.wrapping_add(1),
            cycles: spec_instr_cycles(op),
        },
    )
}

/// One arm of the handler table; see [`spec_execute`].
#[verifier::opaque]
pub open spec fn spec_exec_daa(s: CpuView, interrupt_pending: bool) -> Result<
    Effect,
    EmuError,
> {
    let op = s.opcode;
    let regs = s.regs;
    let pc = regs.pc;
    let f = lo(regs.af);
    let acc = hi(regs.af);
    let n = flag_n(f);
    let adj6: u8 = if flag_h(f) || (!n && acc % 0x10 > 0x09) {
        0x06
    } else {
        0
    };
    let adj60: u8 = if flag_c(f) || (!n && acc > 0x99) {
        0x60
    } else {
        0
    };
    let a1 = if n {
        acc.wrapping_sub((adj6 + adj60) as u8)
    } else {
        acc.wrapping_add((adj6 + adj60) as u8)
    };
    let c_out = if n {
        flag_c(f)
    } else {
        flag_c(f) || acc > 0x99
    };
    let regs1 = spec_write_reg(regs, RegisterName::A, a1 as u16);
    let regs2 = spec_write_reg(
        regs1,
        RegisterName::F,
        compose_flags(a1 == 0, n, false, c_out, f) as u16,
    );
    Ok(
        Effect {
            regs: regs2,
            store: None,
            store2: None,
            next_pc: pc.wrapping_add(1),
            cycles: spec_instr_cycles(op),
        },
    )
}

/// One arm of the handler table; see [`spec_execute`].
#[verifier::opaque]
pub open spec fn spec_exec_jp_hl(s: CpuView, interrupt_pending: bool) -> Result<
    Effect,
    EmuError,
> {
    let op = s.opcode;
    let regs = s.regs;
    let pc = regs.pc;
    let f = lo(regs.af);
    let acc = hi(regs.af);
    Ok(Effect { regs, store: None, store2: None, next_pc: regs.hl, cycles: spec_instr_cycles(op) })
}

/// One arm of the handler table; see [`spec_execute`].
#[verifier::opaque]
pub open spec fn spec_exec_ld_sp_hl(s: CpuView, interrupt_pending: bool) -> Result<
    Effect,
    EmuError,
> {
    let op = s.opcode;
    let regs = s.regs;
    let pc = regs.pc;
    let f = lo(regs.af);
    let acc = hi(regs.af);
    Ok(
        Effect {
            regs: spec_write_reg(regs, RegisterName::SP, regs.hl),
            store: None,
            store2: None,
            next_pc: pc.wrapping_add(1),
            cycles: spec_instr_cycles(op),
        },
    )
}

/// One arm of the handler table; see [`spec_execute`].
#[verifier::opaque]
pub open spec fn spec_exec_store_indirect(s: CpuView, interrupt_pending: bool) -> Result<
    Effect,
    EmuError,
> {
    let op = s.opcode;
    let regs = s.regs;
    let pc = regs.pc;
    let f = lo(regs.af);
    let acc = hi(regs.af);
    let addr = if op == 0x02 {
        regs.bc
    } else if op == 0x12 {
        regs.de
    } else {
        regs.hl
    };
    let regs1 = if op == 0x22 {
        spec_write_reg(regs, RegisterName::HL, regs.hl.wrapping_add(1))
    } else if op == 0x32 {
        spec_write_reg(regs, RegisterName::HL, regs.hl.wrapping_sub(1))
    } else {
        regs
    };
    Ok(
        Effect {
            regs: regs1,
            store: Some((addr, acc)),
            store2: None,
            next_pc: pc.wrapping_add(1),
            cycles: spec_instr_cycles(op),
        },
    )
}

/// One arm of the handler table; see [`spec_execute`].
#[verifier::opaque]
pub open spec fn spec_exec_load_indirect(s: CpuView, interrupt_pending: bool) -> Result<
    Effect,
    EmuError,
> {
    let op = s.opcode;
    let regs = s.regs;
    let pc = regs.pc;
    let f = lo(regs.af);
    let acc = hi(regs.af);
    let addr = if op == 0x0A {
        regs.bc
    } else if op == 0x1A {
        regs.de
    } else {
        regs.hl
    };
    match spec_read8(s.bus, addr) {
        Err(e) => Err(e),
        Ok(v) => {
            let regs1 = spec_write_reg(regs, RegisterName::A, v as u16);
            let regs2 = if op == 0x2A {
                spec_write_reg(regs1, RegisterName::HL, regs.hl.wrapping_add(1))
            } else if op == 0x3A {
                spec_write_reg(regs1, RegisterName::HL, regs.hl.wrapping_sub(1))
            } else {
                regs1
            };
            Ok(
                Effect {
                    regs: regs2,
                    store: None,
                    store2: None,
                    next_pc: pc.wrapping_add(1),
                    cycles: spec_instr_cycles(op),
                },
            )
        },
    }
}

/// One arm of the handler table; see [`spec_execute`].
#[verifier::opaque]
pub open spec fn spec_exec_abs_load(s: CpuView, interrupt_pending: bool) -> Result<
    Effect,
    EmuError,
> {
    let op = s.opcode;
    let regs = s.regs;
    let pc = regs.pc;
    let f = lo(regs.af);
    let acc = hi(regs.af);
    match spec_read8(s.bus, pc.wrapping_add(1)) {
        Err(e) => Err(e),
        Ok(lo_b) => match spec_read8(s.bus, pc.wrapping_add(2)) {
            Err(e) => Err(e),
            Ok(hi_b) => {
                let target = (hi_b * 0x100 + lo_b) as u16;
                if op == 0xEA {
                    Ok(
                        Effect {
                            regs,
                            store: Some((target, acc)),
                            store2: None,
                            next_pc: pc.wrapping_add(3),
                            cycles: spec_instr_cycles(op),
                        },
                    )
                } else {
                    match spec_read8(s.bus, target) {
                        Err(e) => Err(e),
                        Ok(v) => Ok(
                            Effect {
                                regs: spec_write_reg(regs, RegisterName::A, v as u16),
                                store: None,
                                store2: None,
                                next_pc: pc.wrapping_add(3),
                                cycles: spec_instr_cycles(op),
                            },
                        ),
                    }
                }
            },
        },
    }
}

/// One arm of the handler table; see [`spec_execute`].
#[verifier::opaque]
pub open spec fn spec_exec_inc8(s: CpuView, interrupt_pending: bool) -> Result<
    Effect,
    EmuError,
> {
    let op = s.opcode;
    let regs = s.regs;
    let pc = regs.pc;
    let f = lo(regs.af);
    let acc = hi(regs.af);
    let r = spec_match_register(op / 8 % 8);
    let v = spec_read_reg(regs, r) as u8;
    let regs1 = spec_write_reg(regs, r, v.wrapping_add(1) as u16);
    let regs2 = spec_write_reg(regs1, RegisterName::F, inc_flags_u8(v, f) as u16);
    Ok(
        Effect {
            regs: regs2,
            store: None,
            store2: None,
            next_pc: pc.wrapping_add(1),
            cycles: spec_instr_cycles(op),
        },
    )
}

/// One arm of the handler table; see [`spec_execute`].
#[verifier::opaque]
pub open spec fn spec_exec_dec8(s: CpuView, interrupt_pending: bool) -> Result<
    Effect,
    EmuError,
> {
    let op = s.opcode;
    let regs = s.regs;
    let pc = regs.pc;
    let f = lo(regs.af);
    let acc = hi(regs.af);
    let r = spec_match_register(op / 8 % 8);
    let v = spec_read_reg(regs, r) as u8;
    let regs1 = spec_write_reg(regs, r, v.wrapping_sub(1) as u16);
    let regs2 = spec_write_reg(regs1, RegisterName::F, dec_flags_u8(v, f) as u16);
    Ok(
        Effect {
            regs: regs2,
            store: None,
            store2: None,
            next_pc: pc.wrapping_add(1),
            cycles: spec_instr_cycles(op),
        },
    )
}

/// One arm of the handler table; see [`spec_execute`].
#[verifier::opaque]
pub open spec fn spec_exec_ld8_imm(s: CpuView, interrupt_pending: bool) -> Result<
    Effect,
    EmuError,
> {
    let op = s.opcode;
    let regs = s.regs;
    let pc = regs.pc;
    let f = lo(regs.af);
    let acc = hi(regs.af);
    match spec_read8(s.bus, pc.wrapping_add(1)) {
        Err(e) => Err(e),
        Ok(imm) => if op == 0x36 {
            Ok(
                Effect {
                    regs,
                    store: Some((regs.hl, imm)),
                    store2: None,
                    next_pc: pc.wrapping_add(2),
                    cycles: spec_instr_cycles(op),
                },
            )
        } else {
            let r = spec_match_register(op / 8 % 8);
            Ok(
                Effect {
                    regs: spec_write_reg(regs, r, imm as u16),
                    store: None,
                    store2: None,
                    next_pc: pc.wrapping_add(2),
                    cycles: spec_instr_cycles(op),
                },
            )
        },
    }
}

/// One arm of the handler table; see [`spec_execute`].
#[verifier::opaque]
pub open spec fn spec_exec_jr(s: CpuView, interrupt_pending: bool) -> Result<
    Effect,
    EmuError,
> {
    let op = s.opcode;
    let regs = s.regs;
    let pc = regs.pc;
    let f = lo(regs.af);
    let acc = hi(regs.af);
    match spec_read8(s.bus, pc.wrapping_add(1)) {
        Err(e) => Err(e),
        Ok(off) => Ok(
            Effect {
                regs,
                store: None,
                store2: None,
                next_pc: spec_rel_target(pc, off),
                cycles: spec_instr_cycles(op),
            },
        ),
    }
}

/// One arm of the handler table; see [`spec_execute`].
#[verifier::opaque]
pub open spec fn spec_exec_jr_cc(s: CpuView, interrupt_pending: bool) -> Result<
    Effect,
    EmuError,
> {
    let op = s.opcode;
    let regs = s.regs;
    let pc = regs.pc;
    let f = lo(regs.af);
    let acc = hi(regs.af);
    match spec_read8(s.bus, pc.wrapping_add(1)) {
        Err(e) => Err(e),
        Ok(off) => {
            let taken = spec_cond_holds(op / 8 % 4, f);
            Ok(
                Effect {
                    regs,
                    store: None,
                    store2: None,
                    next_pc: if taken {
                        spec_rel_target(pc, off)
                    } else {
                        pc.wrapping_add(2)
                    },
                    cycles: if taken {
                        spec_instr_cycles_taken(op)
                    } else {
                        spec_instr_cycles(op)
                    },
                },
            )
        },
    }
}

/// One arm of the handler table; see [`spec_execute`].
#[verifier::opaque]
pub open spec fn spec_exec_ld_block(s: CpuView, interrupt_pending: bool) -> Result<
    Effect,
    EmuError,
> {
    let op = s.opcode;
    let regs = s.regs;
    let pc = regs.pc;
    let f = lo(regs.af);
    let acc = hi(regs.af);
    let src = op % 8;
    let dst = op / 8 % 8;
    if src == 6 {
        match spec_read8(s.bus, regs.hl) {
            Err(e) => Err(e),
            Ok(v) => Ok(
                Effect {
                    regs: spec_write_reg(regs, spec_match_register(dst), v as u16),
                    store: None,
                    store2: None,
                    next_pc: pc.wrapping_add(1),
                    cycles: spec_instr_cycles(op),
                },
            ),
        }
    } else {
        let v = spec_read_reg(regs, spec_match_register(src)) as u8;
        if dst == 6 {
            Ok(
                Effect {
                    regs,
                    store: Some((regs.hl, v)),
                    store2: None,
                    next_pc: pc.wrapping_add(1),
                    cycles: spec_instr_cycles(op),
                },
            )
        } else {
            Ok(
                Effect {
                    regs: spec_write_reg(regs, spec_match_register(dst), v as u16),
                    store: None,
                    store2: None,
                    next_pc: pc.wrapping_add(1),
                    cycles: spec_instr_cycles(op),
                },
            )
        }
    }
}

/// One arm of the handler table; see [`spec_execute`].
#[verifier::opaque]
pub open spec fn spec_exec_alu_block(s: CpuView, interrupt_pending: bool) -> Result<
    Effect,
    EmuError,
> {
    let op = s.opcode;
    let regs = s.regs;
    let pc = regs.pc;
    let f = lo(regs.af);
    let acc = hi(regs.af);
    let fam = op / 8 % 8;
    let src = op % 8;
    if src == 6 {
        match spec_read8(s.bus, regs.hl) {
            Err(e) => Err(e),
            Ok(v) => {
                let rf = spec_alu(fam, acc, v, f);
                let regs1 = spec_write_reg(regs, RegisterName::A, rf.0 as u16);
                let regs2 = spec_write_reg(regs1, RegisterName::F, rf.1 as u16);
                Ok(
                    Effect {
                        regs: regs2,
                        store: None,
                        store2: None,
                        next_pc: pc.wrapping_add(1),
                        cycles: spec_instr_cycles(op),
                    },
                )
            },
        }
    } else {
        let v = spec_read_reg(regs, spec_match_register(src)) as u8;
        let rf = spec_alu(fam, acc, v, f);
        let regs1 = spec_write_reg(regs, RegisterName::A, rf.0 as u16);
        let regs2 = spec_write_reg(regs1, RegisterName::F, rf.1 as u16);
        Ok(
            Effect {
                regs: regs2,
                store: None,
                store2: None,
                next_pc: pc.wrapping_add(1),
                cycles: spec_instr_cycles(op),
            },
        )
    }
}

/// One arm of the handler table; see [`spec_execute`].
#[verifier::opaque]
pub open spec fn spec_exec_alu_imm(s: CpuView, interrupt_pending: bool) -> Result<
    Effect,
    EmuError,
> {
    let op = s.opcode;
    let regs = s.regs;
    let pc = regs.pc;
    let f = lo(regs.af);
    let acc = hi(regs.af);
    match spec_read8(s.bus, pc.wrapping_add(1)) {
        Err(e) => Err(e),
        Ok(v) => {
            let fam = op / 8 % 8;
            let rf = spec_alu(fam, acc, v, f);
            let regs1 = spec_write_reg(regs, RegisterName::A, rf.0 as u16);
            let regs2 = spec_write_reg(regs1, RegisterName::F, rf.1 as u16);
            Ok(
                Effect {
                    regs: regs2,
                    store: None,
                    store2: None,
                    next_pc: pc.wrapping_add(2),
                    cycles: spec_instr_cycles(op),
                },
            )
        },
    }
}

/// One arm of the handler table; see [`spec_execute`].
#[verifier::opaque]
pub open spec fn spec_exec_jp(s: CpuView, interrupt_pending: bool) -> Result<
    Effect,
    EmuError,
> {
    let op = s.opcode;
    let regs = s.regs;
    let pc = regs.pc;
    let f = lo(regs.af);
    let acc = hi(regs.af);
    match spec_read8(s.bus, pc.wrapping_add(1)) {
        Err(e) => Err(e),
        Ok(lo_b) => match spec_read8(s.bus, pc.wrapping_add(2)) {
            Err(e) => Err(e),
            Ok(hi_b) => {
                let target = (hi_b * 0x100 + lo_b) as u16;
                if op == 0xC3 {
                    Ok(
                        Effect {
                            regs,
                            store: None,
                            store2: None,
                            next_pc: target,
                            cycles: spec_instr_cycles(op),
                        },
                    )
                } else {
                    let taken = spec_cond_holds(op / 8 % 4, f);
                    Ok(
                        Effect {
                            regs,
                            store: None,
                            store2: None,
                            next_pc: if taken {
                                target
                            } else {
                                pc.wrapping_add(3)
                            },
                            cycles: if taken {
                                spec_instr_cycles_taken(op)
                            } else {
                                spec_instr_cycles(op)
                            },
                        },
                    )
                }
            },
        },
    }
}

/// One arm of the handler table; see [`spec_execute`].
#[verifier::opaque]
pub open spec fn spec_exec_push(s: CpuView, interrupt_pending: bool) -> Result<
    Effect,
    EmuError,
> {
    let op = s.opcode;
    let regs = s.regs;
    let pc = regs.pc;
    let f = lo(regs.af);
    let acc = hi(regs.af);
    let rr = spec_match_register_stack(op / 16 % 4);
    let v = spec_read_reg(regs, rr);
    let sp = regs.sp;
    let regs1 = spec_write_reg(regs, RegisterName::SP, sp.wrapping_sub(2));
    Ok(
        Effect {
            regs: regs1,
            store: Some((sp.wrapping_sub(1), hi(v))),
            store2: Some((sp.wrapping_sub(2), lo(v))),
            next_pc: pc.wrapping_add(1),
            cycles: spec_instr_cycles(op),
        },
    )
}

/// One arm of the handler table; see [`spec_execute`].
#[verifier::opaque]
pub open spec fn spec_exec_pop(s: CpuView, interrupt_pending: bool) -> Result<
    Effect,
    EmuError,
> {
    let op = s.opcode;
    let regs = s.regs;
    let pc = regs.pc;
    let f = lo(regs.af);
    let acc = hi(regs.af);
    let sp = regs.sp;
    match spec_read8(s.bus, sp) {
        Err(e) => Err(e),
        Ok(lo_b) => match spec_read8(s.bus, sp.wrapping_add(1)) {
            Err(e) => Err(e),
            Ok(hi_b) => {
                let rr = spec_match_register_stack(op / 16 % 4);
                let regs1 = spec_write_reg(regs, rr, (hi_b * 0x100 + lo_b) as u16);
                let regs2 = spec_write_reg(regs1, RegisterName::SP, sp.wrapping_add(2));
                Ok(
                    Effect {
                        regs: regs2,
                        store: None,
                        store2: None,
                        next_pc: pc.wrapping_add(1),
                        cycles: spec_instr_cycles(op),
                    },
                )
            },
        },
    }
}

/// One arm of the handler table; see [`spec_execute`].
#[verifier::opaque]
pub open spec fn spec_exec_call(s: CpuView, interrupt_pending: bool) -> Result<
    Effect,
    EmuError,
> {
    let op = s.opcode;
    let regs = s.regs;
    let pc = regs.pc;
    let f = lo(regs.af);
    let acc = hi(regs.af);
    match spec_read8(s.bus, pc.wrapping_add(1)) {
        Err(e) => Err(e),
        Ok(lo_b) => match spec_read8(s.bus, pc.wrapping_add(2)) {
            Err(e) => Err(e),
            Ok(hi_b) => {
                let target = (hi_b * 0x100 + lo_b) as u16;
                let taken = op == 0xCD || spec_cond_holds(op / 8 % 4, f);
                if taken {
                    let ret = pc.wrapping_add(3);
                    let sp = regs.sp;
                    let regs1 = spec_write_reg(regs, RegisterName::SP, sp.wrapping_sub(2));
                    Ok(
                        Effect {
                            regs: regs1,
                            store: Some((sp.wrapping_sub(1), hi(ret))),
                            store2: Some((sp.wrapping_sub(2), lo(ret))),
                            next_pc: target,
                            cycles: spec_instr_cycles_taken(op),
                        },
                    )
                } else {
                    Ok(
                        Effect {
                            regs,
                            store: None,
                            store2: None,
                            next_pc: pc.wrapping_add(3),
                            cycles: spec_instr_cycles(op),
                        },
                    )
                }
            },
        },
    }
}

/// One arm of the handler table; see [`spec_execute`].
#[verifier::opaque]
pub open spec fn spec_exec_ret(s: CpuView, interrupt_pending: bool) -> Result<
    Effect,
    EmuError,
> {
    let op = s.opcode;
    let regs = s.regs;
    let pc = regs.pc;
    let f = lo(regs.af);
    let acc = hi(regs.af);
    let taken = op == 0xC9 || spec_cond_holds(op / 8 % 4, f);
    if taken {
        let sp = regs.sp;
        match spec_read8(s.bus, sp) {
            Err(e) => Err(e),
            Ok(lo_b) => match spec_read8(s.bus, sp.wrapping_add(1)) {
                Err(e) => Err(e),
                Ok(hi_b) => {
                    let regs1 = spec_write_reg(regs, RegisterName::SP, sp.wrapping_add(2));
                    Ok(
                        Effect {
                            regs: regs1,
                            store: None,
                            store2: None,
                            next_pc: (hi_b * 0x100 + lo_b) as u16,
                            cycles: spec_instr_cycles_taken(op),
                        },
                    )
                },
            },
        }
    } else {
        Ok(
            Effect {
                regs,
                store: None,
                store2: None,
                next_pc: pc.wrapping_add(1),
                cycles: spec_instr_cycles(op),
            },
        )
    }
}

/// One arm of the handler table; see [`spec_execute`].
#[verifier::opaque]
pub open spec fn spec_exec_rst(s: CpuView, interrupt_pending: bool) -> Result<
    Effect,
    EmuError,
> {
    let op = s.opcode;
    let regs = s.regs;
    let pc = regs.pc;
    let f = lo(regs.af);
    let acc = hi(regs.af);
    let vector = ((op / 8 % 8) * 8) as u16;
    let ret = pc.wrapping_add(1);
    let sp = regs.sp;
    let regs1 = spec_write_reg(regs, RegisterName::SP, sp.wrapping_sub(2));
    Ok(
        Effect {
            regs: regs1,
            store: Some((sp.wrapping_sub(1), hi(ret))),
            store2: Some((sp.wrapping_sub(2), lo(ret))),
            next_pc: vector,
            cycles: spec_instr_cycles(op),
        },
    )
}

/// One arm of the handler table; see [`spec_execute`].
#[verifier::opaque]
pub open spec fn spec_exec_store_sp(s: CpuView, interrupt_pending: bool) -> Result<
    Effect,
    EmuError,
> {
    let op = s.opcode;
    let regs = s.regs;
    let pc = regs.pc;
    let f = lo(regs.af);
    let acc = hi(regs.af);
    match spec_read8(s.bus, pc.wrapping_add(1)) {
        Err(e) => Err(e),
        Ok(lo_b) => match spec_read8(s.bus, pc.wrapping_add(2)) {
            Err(e) => Err(e),
            Ok(hi_b) => {
                let target = (hi_b * 0x100 + lo_b) as u16;
                Ok(
                    Effect {
                        regs,
                        store: Some((target, lo(regs.sp))),
                        store2: Some((target.wrapping_add(1), hi(regs.sp))),
                        next_pc: pc.wrapping_add(3),
                        cycles: spec_instr_cycles(op),
                    },
                )
            },
        },
    }
}

/// One arm of the handler table; see [`spec_execute`].
#[verifier::opaque]
pub open spec fn spec_exec_sp_add(s: CpuView, interrupt_pending: bool) -> Result<
    Effect,
    EmuError,
> {
    let op = s.opcode;
    let regs = s.regs;
    let pc = regs.pc;
    let f = lo(regs.af);
    let acc = hi(regs.af);
    match spec_read8(s.bus, pc.wrapping_add(1)) {
        Err(e) => Err(e),
        Ok(e8) => {
            let sp = regs.sp;
            let res = sp.wrapping_add(e8 as u16).wrapping_add(
                if e8 >= 0x80 {
                    0xFF00u16
                } else {
                    0u16
                },
            );
            let nf = compose_flags(
                false,
                false,
                sp % 0x10 + e8 % 0x10 >= 0x10,
                sp % 0x100 + e8 >= 0x100,
                f,
            );
            let regs1 = if op == 0xE8 {
                spec_write_reg(regs, RegisterName::SP, res)
            } else {
                spec_write_reg(regs, RegisterName::HL, res)
            };
            let regs2 = spec_write_reg(regs1, RegisterName::F, nf as u16);
            Ok(
                Effect {
                    regs: regs2,
                    store: None,
                    store2: None,
                    next_pc: pc.wrapping_add(2),
                    cycles: spec_instr_cycles(op),
                },
            )
        },
    }
}

/// One arm of the handler table; see [`spec_execute`].
#[verifier::opaque]
pub open spec fn spec_exec_io_imm(s: CpuView, interrupt_pending: bool) -> Result<
    Effect,
    EmuError,
> {
    let op = s.opcode;
    let regs = s.regs;
    let pc = regs.pc;
    let f = lo(regs.af);
    let acc = hi(regs.af);
    match spec_read8(s.bus, pc.wrapping_add(1)) {
        Err(e) => Err(e),
        Ok(a8) => {
            let addr = (0xFF00 + a8) as u16;
            if op == 0xE0 {
                Ok(
                    Effect {
                        regs,
                        store: Some((addr, acc)),
                        store2: None,
                        next_pc: pc.wrapping_add(2),
                        cycles: spec_instr_cycles(op),
                    },
                )
            } else {
                match spec_read8(s.bus, addr) {
                    Err(e) => Err(e),
                    Ok(v) => Ok(
                        Effect {
                            regs: spec_write_reg(regs, RegisterName::A, v as u16),
                            store: None,
                            store2: None,
                            next_pc: pc.wrapping_add(2),
                            cycles: spec_instr_cycles(op),
                        },
                    ),
                }
            }
        },
    }
}

/// One arm of the handler table; see [`spec_execute`].
#[verifier::opaque]
pub open spec fn spec_exec_io_c(s: CpuView, interrupt_pending: bool) -> Result<
    Effect,
    EmuError,
> {
    let op = s.opcode;
    let regs = s.regs;
    let pc = regs.pc;
    let f = lo(regs.af);
    let acc = hi(regs.af);
    let addr = (0xFF00 + lo(regs.bc)) as u16;
    if op == 0xE2 {
        Ok(
            Effect {
                regs,
                store: Some((addr, acc)),
                store2: None,
                next_pc: pc.wrapping_add(1),
                cycles: spec_instr_cycles(op),
            },
        )
    } else {
        match spec_read8(s.bus, addr) {
            Err(e) => Err(e),
            Ok(v) => Ok(
                Effect {
                    regs: spec_write_reg(regs, RegisterName::A, v as u16),
                    store: None,
                    store2: None,
                    next_pc: pc.wrapping_add(1),
                    cycles: spec_instr_cycles(op),
                },
            ),
        }
    }
}

/// One arm of the handler table; see [`spec_execute`].
#[verifier::opaque]
pub open spec fn spec_exec_prefixed(s: CpuView, interrupt_pending: bool) -> Result<
    Effect,
    EmuError,
> {
    let op = s.opcode;
    let regs = s.regs;
    let pc = regs.pc;
    let f = lo(regs.af);
    let acc = hi(regs.af);
    match spec_read8(s.bus, pc.wrapping_add(1)) {
        Err(e) => Err(e),
        Ok(cb) => {
            let kind = cb / 8;
            if cb % 8 == 6 {
                match spec_read8(s.bus, regs.hl) {
                    Err(e) => Err(e),
                    Ok(v) => {
                        let rf = spec_cb_op(cb, v, f);
                        let regs1 = if kind < 16 {
                            spec_write_reg(regs, RegisterName::F, rf.1 as u16)
                        } else {
                            regs
                        };
                        Ok(
                            Effect {
                                regs: regs1,
                                store: if kind < 8 || kind >= 16 {
                                    Some((regs.hl, rf.0))
                                } else {
                                    None
                                },
                                store2: None,
                                next_pc: pc.wrapping_add(2),
                                cycles: spec_prefixed_cycles(cb),
                            },
                        )
                    },
                }
            } else {
                let r8 = spec_match_register(cb % 8);
                let v = spec_read_reg(regs, r8) as u8;
                let rf = spec_cb_op(cb, v, f);
                let regs1 = if kind < 8 || kind >= 16 {
                    spec_write_reg(regs, r8, rf.0 as u16)
                } else {
                    regs
                };
                let regs2 = if kind < 16 {
                    spec_write_reg(regs1, RegisterName::F, rf.1 as u16)
                } else {
                    regs1
                };
                Ok(
                    Effect {
                        regs: regs2,
                        store: None,
                        store2: None,
                        next_pc: pc.wrapping_add(2),
                        cycles: spec_prefixed_cycles(cb),
                    },
                )
            }
        },
    }
}

pub open spec fn spec_execute(s: CpuView, interrupt_pending: bool) -> Result<Effect, EmuError> {
    let op = s.opcode;
    if spec_is_illegal(op) {
        Err(EmuError::IllegalOpcode(op))
    } else if !spec_implemented(op) {
        Err(EmuError::UnimplementedOpcode(op))
    } else if op == 0x00 {
        spec_exec_nop(s, interrupt_pending)
    } else if op == 0x76 {
        spec_exec_halt(s, interrupt_pending)
    } else if is_ld_rr_d16(op) {
        spec_exec_ld16_imm(s, interrupt_pending)
    } else if is_inc_rr(op) {
        spec_exec_inc16(s, interrupt_pending)
    } else if is_dec_rr(op) {
        spec_exec_dec16(s, interrupt_pending)
    } else if is_add_hl_rr(op) {
        spec_exec_add16(s, interrupt_pending)
    } else if op == 0x07 || op == 0x0F || op == 0x17 || op == 0x1F {
        spec_exec_rot_a(s, interrupt_pending)
    } else if op == 0x2F {
        spec_exec_cpl(s, interrupt_pending)
    } else if op == 0x37 {
        spec_exec_scf(s, interrupt_pending)
    } else if op == 0x3F {
        spec_exec_ccf(s, interrupt_pending)
    } else if op == 0x27 {
        spec_exec_daa(s, interrupt_pending)
    } else if op == 0xE9 {
        spec_exec_jp_hl(s, interrupt_pending)
    } else if op == 0xF9 {
        spec_exec_ld_sp_hl(s, interrupt_pending)
    } else if op == 0x02 || op == 0x12 || op == 0x22 || op == 0x32 {
        spec_exec_store_indirect(s, interrupt_pending)
    } else if op == 0x0A || op == 0x1A || op == 0x2A || op == 0x3A {
        spec_exec_load_indirect(s, interrupt_pending)
    } else if op == 0xEA || op == 0xFA {
        spec_exec_abs_load(s, interrupt_pending)
    } else if is_inc_r8(op) {
        spec_exec_inc8(s, interrupt_pending)
    } else if is_dec_r8(op) {
        spec_exec_dec8(s, interrupt_pending)
    } else if is_ld_d8(op) {
        spec_exec_ld8_imm(s, interrupt_pending)
    } else if op == 0x18 {
        spec_exec_jr(s, interrupt_pending)
    } else if is_jr_cc(op) {
        spec_exec_jr_cc(s, interrupt_pending)
    } else if 0x40 <= op && op <= 0x7F {
        spec_exec_ld_block(s, interrupt_pending)
    } else if 0x80 <= op && op <= 0xBF {
        spec_exec_alu_block(s, interrupt_pending)
    } else if is_alu_d8(op) {
        spec_exec_alu_imm(s, interrupt_pending)
    } else if op == 0xC3 || is_jp_cc(op) {
        spec_exec_jp(s, interrupt_pending)
    } else if op == 0xC5 || op == 0xD5 || op == 0xE5 || op == 0xF5 {
        spec_exec_push(s, interrupt_pending)
    } else if op == 0xC1 || op == 0xD1 || op == 0xE1 || op == 0xF1 {
        spec_exec_pop(s, interrupt_pending)
    } else if op == 0xCD || op == 0xC4 || op == 0xCC || op == 0xD4 || op == 0xDC {
        spec_exec_call(s, interrupt_pending)
    } else if op == 0xC9 || op == 0xC0 || op == 0xC8 || op == 0xD0 || op == 0xD8 {
        spec_exec_ret(s, interrupt_pending)
    } else if op == 0xC7 || op == 0xCF || op == 0xD7 || op == 0xDF || op == 0xE7 || op == 0xEF
        || op == 0xF7 || op == 0xFF {
        spec_exec_rst(s, interrupt_pending)
    } else if op == 0x08 {
        spec_exec_store_sp(s, interrupt_pending)
    } else if op == 0xE8 || op == 0xF8 {
        spec_exec_sp_add(s, interrupt_pending)
    } else if op == 0xE0 || op == 0xF0 {
        spec_exec_io_imm(s, interrupt_pending)
    } else if op == 0xE2 || op == 0xF2 {
        spec_exec_io_c(s, interrupt_pending)
    } else if op == 0xCB {
        spec_exec_prefixed(s, interrupt_pending)
    } else {
        Err(EmuError::UnimplementedOpcode(op))
    }
}

/// The full step transition from state `s`: the handler's effect, then —
/// only if the new program counter and any pending store are mapped —
/// the committed state with the byte at the new program counter latched
/// as the next opcode, paired with the cycle cost. Every fault leaves
/// the state unchanged.
pub open spec fn spec_step(s: CpuView, interrupt_pending: bool) -> Result<
    (CpuView, u8),
    EmuError,
> {
    match spec_execute(s, interrupt_pending) {
        Err(e) => Err(e),
        Ok(eff) => if !addr_mapped(eff.next_pc) {
            Err(EmuError::UnmappedAddress(eff.next_pc))
        } else if !store_mapped(eff.store) {
            Err(EmuError::UnmappedAddress(store_addr(eff.store)))
        } else if !store_mapped(eff.store2) {
            Err(EmuError::UnmappedAddress(store_addr(eff.store2)))
        } else {
            let bus2 = apply_store(apply_store(s.bus, eff.store), eff.store2);
            Ok(
                (
                    CpuView {
                        regs: Registers { pc: eff.next_pc, ..eff.regs },
                        opcode: spec_bus_read(bus2, eff.next_pc),
                        bus: bus2,
                    },
                    eff.cycles,
                ),
            )
        },
    }
}

/// Law: the step transition is deterministic — equal states stepped
/// under equal interrupt lines yield equal outcomes, so identical
/// opcode sequences from identical initial state produce bit-identical
/// register, memory and flag state and identical elapsed cycles.
pub proof fn lemma_step_deterministic(
    s1: CpuView,
    s2: CpuView,
    p1: bool,
    p2: bool,
)
    requires
        s1 == s2,
        p1 == p2,
    ensures
        spec_step(s1, p1) == spec_step(s2, p2),
{
}

/// Law: whenever the latched opcode is one of the architecture's
/// defined illegal bytes, the step faults with the illegal-opcode
/// error — and, by the step contract, leaves every register and memory
/// byte unchanged.
pub proof fn lemma_illegal_opcode_faults(s: CpuView, interrupt_pending: bool)
    requires
        spec_is_illegal(s.opcode),
    ensures
        spec_step(s, interrupt_pending) == Err::<(CpuView, u8), EmuError>(
            EmuError::IllegalOpcode(s.opcode),
        ),
{
    reveal(spec_execute);
}

/// The staged outcome of one handler, not yet committed.
struct StepEffect {
    regs: Registers,
    store: Option<(u16, u8)>,
    store2: Option<(u16, u8)>,
    next_pc: u16,
    cycles: u8,
}

/// Run the handler the latched opcode selects: compute the registers,
/// the pending store, the next program counter and the cycle cost that
/// [`spec_execute`] names, without touching the machine.
#[verifier::rlimit(100)]
#[verifier::spinoff_prover]
fn run_handler(bus: &AddressSpace, regs_in: Registers, op: u8, interrupt_pending: bool) -> (r:
    Result<StepEffect, EmuError>)
    requires
        bus_wf(bus@),
        !spec_is_illegal(op),
    ensures
        match r {
            Ok(h) => spec_execute(
                CpuView { regs: regs_in, opcode: op, bus: bus@ },
                interrupt_pending,
            ) == Ok::<Effect, EmuError>(
                Effect { regs: h.regs, store: h.store, store2: h.store2, next_pc: h.next_pc, cycles: h.cycles },
            ),
            Err(e) => spec_execute(
                CpuView { regs: regs_in, opcode: op, bus: bus@ },
                interrupt_pending,
            ) == Err::<Effect, EmuError>(e),
        },
{
    let ghost s0 = CpuView { regs: regs_in, opcode: op, bus: bus@ };
    proof {
        reveal(spec_execute);
    }
    let info = instruction_info(op);
    let mut regs = regs_in;
    let pc = regs.pc;
        let f = regs.read(RegisterName::F) as u8;
        let acc = regs.read(RegisterName::A) as u8;
        let mut store: Option<(u16, u8)> = None;
    let mut store2: Option<(u16, u8)> = None;
        let next_pc: u16;
        let cycles: u8;
        if op == 0x00 {
            proof {
                reveal(spec_exec_nop);
            }
            next_pc = pc.wrapping_add(1);
            cycles = info.cycles;
            proof {
                assert(spec_execute(s0, interrupt_pending) == Ok::<Effect, EmuError>(
                    Effect { regs, store, store2, next_pc, cycles },
                ));
            }
        } else if op == 0x76 {
            proof {
                reveal(spec_exec_halt);
            }
            if interrupt_pending {
                next_pc = pc.wrapping_add(1);
            } else {
                next_pc = pc;
            }
            cycles = info.cycles;
            proof {
                assert(spec_execute(s0, interrupt_pending) == Ok::<Effect, EmuError>(
                    Effect { regs, store, store2, next_pc, cycles },
                ));
            }
        } else if op == 0x01 || op == 0x11 || op == 0x21 || op == 0x31 {
            proof {
                reveal(spec_exec_ld16_imm);
            }
            let lo_b = match bus.read(pc.wrapping_add(1)) {
                Ok(b) => b,
                Err(e) => {
                    return Err(e);
                },
            };
            let hi_b = match bus.read(pc.wrapping_add(2)) {
                Ok(b) => b,
                Err(e) => {
                    return Err(e);
                },
            };
            let rr = match_register16(op / 16);
            regs.write(rr, (hi_b as u16) * 0x100 + lo_b as u16);
            next_pc = pc.wrapping_add(3);
            cycles = info.cycles;
            proof {
                assert(spec_execute(s0, interrupt_pending) == Ok::<Effect, EmuError>(
                    Effect { regs, store, store2, next_pc, cycles },
                ));
            }
        } else if op == 0x03 || op == 0x13 || op == 0x23 || op == 0x33 {
            proof {
                reveal(spec_exec_inc16);
            }
            let rr = match_register16(op / 16);
            let v = regs.read(rr);
            regs.write(rr, v.wrapping_add(1));
            next_pc = pc.wrapping_add(1);
            cycles = info.cycles;
            proof {
                assert(spec_execute(s0, interrupt_pending) == Ok::<Effect, EmuError>(
                    Effect { regs, store, store2, next_pc, cycles },
                ));
            }
        } else if op == 0x0B || op == 0x1B || op == 0x2B || op == 0x3B {
            proof {
                reveal(spec_exec_dec16);
            }
            let rr = match_register16(op / 16);
            let v = regs.read(rr);
            regs.write(rr, v.wrapping_sub(1));
            next_pc = pc.wrapping_add(1);
            cycles = info.cycles;
            proof {
                assert(spec_execute(s0, interrupt_pending) == Ok::<Effect, EmuError>(
                    Effect { regs, store, store2, next_pc, cycles },
                ));
            }
        } else if op == 0x09 || op == 0x19 || op == 0x29 || op == 0x39 {
            proof {
                reveal(spec_exec_add16);
            }
            let rr = match_register16(op / 16);
            let v = regs.read(rr);
            let hl = regs.read(RegisterName::HL);
            regs.write(RegisterName::HL, hl.wrapping_add(v));
            let f1 = set_add_flags_u16(hl, v, f);
            regs.write(RegisterName::F, f1 as u16);
            next_pc = pc.wrapping_add(1);
            cycles = info.cycles;
            proof {
                assert(spec_execute(s0, interrupt_pending) == Ok::<Effect, EmuError>(
                    Effect { regs, store, store2, next_pc, cycles },
                ));
            }
        } else {
            return run_handler0b(bus, regs_in, op, interrupt_pending);
        }
    Ok(StepEffect { regs, store, store2, next_pc, cycles })
}





/// Run the handler for the accumulator rotates, the flag-byte
/// instructions, the decimal adjust, and the jumps through HL.
#[verifier::rlimit(100)]
#[verifier::spinoff_prover]
fn run_handler0b(bus: &AddressSpace, regs_in: Registers, op: u8, interrupt_pending: bool) -> (r:
    Result<StepEffect, EmuError>)
    requires
        bus_wf(bus@),
        !spec_is_illegal(op),
        !in_dispatch_open16(op),
    ensures
        match r {
            Ok(h) => spec_execute(
                CpuView { regs: regs_in, opcode: op, bus: bus@ },
                interrupt_pending,
            ) == Ok::<Effect, EmuError>(
                Effect {
                    regs: h.regs,
                    store: h.store,
                    store2: h.store2,
                    next_pc: h.next_pc,
                    cycles: h.cycles,
                },
            ),
            Err(e) => spec_execute(
                CpuView { regs: regs_in, opcode: op, bus: bus@ },
                interrupt_pending,
            ) == Err::<Effect, EmuError>(e),
        },
{
    let ghost s0 = CpuView { regs: regs_in, opcode: op, bus: bus@ };
    proof {
        reveal(spec_execute);
    }
    let info = instruction_info(op);
    let mut regs = regs_in;
    let pc = regs.pc;
    let f = regs.read(RegisterName::F) as u8;
    let acc = regs.read(RegisterName::A) as u8;
    let mut store: Option<(u16, u8)> = None;
    let mut store2: Option<(u16, u8)> = None;
    let next_pc: u16;
    let cycles: u8;
        if op == 0x07 || op == 0x0F || op == 0x17 || op == 0x1F {
            proof {
                reveal(spec_exec_rot_a);
            }
            let carry: bool = f / 0x10 % 2 == 1;
            let cin: u8 = if carry {
                1
            } else {
                0
            };
            let a1: u8 = if op == 0x07 {
                (acc << 1) | (acc >> 7)
            } else if op == 0x0F {
                (acc >> 1) | ((acc & 1) << 7)
            } else if op == 0x17 {
                (acc << 1) | cin
            } else {
                (acc >> 1) | (cin << 7)
            };
            let c_out: bool = if op == 0x07 || op == 0x17 {
                acc >= 0x80
            } else {
                acc & 1 == 1
            };
            regs.write(RegisterName::A, a1 as u16);
            let f1 = set_rot_a_flags_u8(c_out, f);
            regs.write(RegisterName::F, f1 as u16);
            next_pc = pc.wrapping_add(1);
            cycles = info.cycles;
            proof {
                assert(spec_execute(s0, interrupt_pending) == Ok::<Effect, EmuError>(
                    Effect { regs, store, store2, next_pc, cycles },
                ));
            }
        } else if op == 0x2F {
            proof {
                reveal(spec_exec_cpl);
            }
            let z: bool = f / 0x80 % 2 == 1;
            let carry: bool = f / 0x10 % 2 == 1;
            regs.write(RegisterName::A, !acc as u16);
            let f1 = make_flags(z, true, true, carry, f);
            regs.write(RegisterName::F, f1 as u16);
            next_pc = pc.wrapping_add(1);
            cycles = info.cycles;
            proof {
                assert(spec_execute(s0, interrupt_pending) == Ok::<Effect, EmuError>(
                    Effect { regs, store, store2, next_pc, cycles },
                ));
            }
        } else if op == 0x37 {
            proof {
                reveal(spec_exec_scf);
            }
            let z: bool = f / 0x80 % 2 == 1;
            let f1 = make_flags(z, false, false, true, f);
            regs.write(RegisterName::F, f1 as u16);
            next_pc = pc.wrapping_add(1);
            cycles = info.cycles;
            proof {
                assert(spec_execute(s0, interrupt_pending) == Ok::<Effect, EmuError>(
                    Effect { regs, store, store2, next_pc, cycles },
                ));
            }
        } else if op == 0x3F {
            proof {
                reveal(spec_exec_ccf);
            }
            let z: bool = f / 0x80 % 2 == 1;
            let carry: bool = f / 0x10 % 2 == 1;
            let f1 = make_flags(z, false, false, !carry, f);
            regs.write(RegisterName::F, f1 as u16);
            next_pc = pc.wrapping_add(1);
            cycles = info.cycles;
            proof {
                assert(spec_execute(s0, interrupt_pending) == Ok::<Effect, EmuError>(
                    Effect { regs, store, store2, next_pc, cycles },
                ));
            }
        } else if op == 0x27 {
            proof {
                reveal(spec_exec_daa);
            }
            let n: bool = f / 0x40 % 2 == 1;
            let hf: bool = f / 0x20 % 2 == 1;
            let cf: bool = f / 0x10 % 2 == 1;
            let adj6: u8 = if hf || (!n && acc % 0x10 > 0x09) {
                0x06
            } else {
                0
            };
            let adj60: u8 = if cf || (!n && acc > 0x99) {
                0x60
            } else {
                0
            };
            let a1 = if n {
                acc.wrapping_sub(adj6 + adj60)
            } else {
                acc.wrapping_add(adj6 + adj60)
            };
            let c_out = if n {
                cf
            } else {
                cf || acc > 0x99
            };
            regs.write(RegisterName::A, a1 as u16);
            let f1 = make_flags(a1 == 0, n, false, c_out, f);
            regs.write(RegisterName::F, f1 as u16);
            next_pc = pc.wrapping_add(1);
            cycles = info.cycles;
            proof {
                assert(spec_execute(s0, interrupt_pending) == Ok::<Effect, EmuError>(
                    Effect { regs, store, store2, next_pc, cycles },
                ));
            }
        } else if op == 0xE9 {
            proof {
                reveal(spec_exec_jp_hl);
            }
            next_pc = regs.read(RegisterName::HL);
            cycles = info.cycles;
            proof {
                assert(spec_execute(s0, interrupt_pending) == Ok::<Effect, EmuError>(
                    Effect { regs, store, store2, next_pc, cycles },
                ));
            }
        } else if op == 0xF9 {
            proof {
                reveal(spec_exec_ld_sp_hl);
            }
            let hl = regs.read(RegisterName::HL);
            regs.write(RegisterName::SP, hl);
            next_pc = pc.wrapping_add(1);
            cycles = info.cycles;
            proof {
                assert(spec_execute(s0, interrupt_pending) == Ok::<Effect, EmuError>(
                    Effect { regs, store, store2, next_pc, cycles },
                ));
            }
        } else {
            return run_handler1a(bus, regs_in, op, interrupt_pending);
        }
    Ok(StepEffect { regs, store, store2, next_pc, cycles })
}

/// Run the handler for the memory-form loads, the 8-bit increments and
/// decrements, the immediate loads and the relative jumps.
#[verifier::rlimit(100)]
#[verifier::spinoff_prover]
fn run_handler1a(bus: &AddressSpace, regs_in: Registers, op: u8, interrupt_pending: bool) -> (r:
    Result<StepEffect, EmuError>)
    requires
        bus_wf(bus@),
        !spec_is_illegal(op),
        !in_dispatch_open(op),
    ensures
        match r {
            Ok(h) => spec_execute(
                CpuView { regs: regs_in, opcode: op, bus: bus@ },
                interrupt_pending,
            ) == Ok::<Effect, EmuError>(
                Effect {
                    regs: h.regs,
                    store: h.store,
                    store2: h.store2,
                    next_pc: h.next_pc,
                    cycles: h.cycles,
                },
            ),
            Err(e) => spec_execute(
                CpuView { regs: regs_in, opcode: op, bus: bus@ },
                interrupt_pending,
            ) == Err::<Effect, EmuError>(e),
        },
{
    let ghost s0 = CpuView { regs: regs_in, opcode: op, bus: bus@ };
    proof {
        reveal(spec_execute);
    }
    let info = instruction_info(op);
    let mut regs = regs_in;
    let pc = regs.pc;
    let f = regs.read(RegisterName::F) as u8;
    let acc = regs.read(RegisterName::A) as u8;
    let mut store: Option<(u16, u8)> = None;
    let mut store2: Option<(u16, u8)> = None;
    let next_pc: u16;
    let cycles: u8;
        if op == 0x02 || op == 0x12 || op == 0x22 || op == 0x32 {
            proof {
                reveal(spec_exec_store_indirect);
            }
            let addr = if op == 0x02 {
                regs.read(RegisterName::BC)
            } else if op == 0x12 {
                regs.read(RegisterName::DE)
            } else {
                regs.read(RegisterName::HL)
            };
            store = Some((addr, acc));
            if op == 0x22 {
                regs.write(RegisterName::HL, addr.wrapping_add(1));
            } else if op == 0x32 {
                regs.write(RegisterName::HL, addr.wrapping_sub(1));
            }
            next_pc = pc.wrapping_add(1);
            cycles = info.cycles;
            proof {
                assert(spec_execute(s0, interrupt_pending) == Ok::<Effect, EmuError>(
                    Effect { regs, store, store2, next_pc, cycles },
                ));
            }
        } else if op == 0x0A || op == 0x1A || op == 0x2A || op == 0x3A {
            proof {
                reveal(spec_exec_load_indirect);
            }
            let addr = if op == 0x0A {
                regs.read(RegisterName::BC)
            } else if op == 0x1A {
                regs.read(RegisterName::DE)
            } else {
                regs.read(RegisterName::HL)
            };
            let v = match bus.read(addr) {
                Ok(b) => b,
                Err(e) => {
                    return Err(e);
                },
            };
            regs.write(RegisterName::A, v as u16);
            if op == 0x2A {
                regs.write(RegisterName::HL, addr.wrapping_add(1));
            } else if op == 0x3A {
                regs.write(RegisterName::HL, addr.wrapping_sub(1));
            }
            next_pc = pc.wrapping_add(1);
            cycles = info.cycles;
            proof {
                assert(spec_execute(s0, interrupt_pending) == Ok::<Effect, EmuError>(
                    Effect { regs, store, store2, next_pc, cycles },
                ));
            }
        } else if op == 0xEA || op == 0xFA {
            proof {
                reveal(spec_exec_abs_load);
            }
            let lo_b = match bus.read(pc.wrapping_add(1)) {
                Ok(b) => b,
                Err(e) => {
                    return Err(e);
                },
            };
            let hi_b = match bus.read(pc.wrapping_add(2)) {
                Ok(b) => b,
                Err(e) => {
                    return Err(e);
                },
            };
            let target: u16 = (hi_b as u16) * 0x100 + lo_b as u16;
            if op == 0xEA {
                store = Some((target, acc));
            } else {
                let v = match bus.read(target) {
                    Ok(b) => b,
                    Err(e) => {
                        return Err(e);
                    },
                };
                regs.write(RegisterName::A, v as u16);
            }
            next_pc = pc.wrapping_add(3);
            cycles = info.cycles;
            proof {
                assert(spec_execute(s0, interrupt_pending) == Ok::<Effect, EmuError>(
                    Effect { regs, store, store2, next_pc, cycles },
                ));
            }
        } else {
            return run_handler1a2(bus, regs_in, op, interrupt_pending);
        }
    Ok(StepEffect { regs, store, store2, next_pc, cycles })
}


/// Run the handler for the 8-bit increments and decrements, the
/// immediate loads and the relative jumps.
#[verifier::rlimit(100)]
#[verifier::spinoff_prover]
fn run_handler1a2(bus: &AddressSpace, regs_in: Registers, op: u8, interrupt_pending: bool) -> (r:
    Result<StepEffect, EmuError>)
    requires
        bus_wf(bus@),
        !spec_is_illegal(op),
        !in_dispatch_open(op),
        !is_mem_load(op),
    ensures
        match r {
            Ok(h) => spec_execute(
                CpuView { regs: regs_in, opcode: op, bus: bus@ },
                interrupt_pending,
            ) == Ok::<Effect, EmuError>(
                Effect {
                    regs: h.regs,
                    store: h.store,
                    store2: h.store2,
                    next_pc: h.next_pc,
                    cycles: h.cycles,
                },
            ),
            Err(e) => spec_execute(
                CpuView { regs: regs_in, opcode: op, bus: bus@ },
                interrupt_pending,
            ) == Err::<Effect, EmuError>(e),
        },
{
    let ghost s0 = CpuView { regs: regs_in, opcode: op, bus: bus@ };
    proof {
        reveal(spec_execute);
    }
    let info = instruction_info(op);
    let mut regs = regs_in;
    let pc = regs.pc;
    let f = regs.read(RegisterName::F) as u8;
    let acc = regs.read(RegisterName::A) as u8;
    let mut store: Option<(u16, u8)> = None;
    let mut store2: Option<(u16, u8)> = None;
    let next_pc: u16;
    let cycles: u8;
        if op == 0x04 || op == 0x0C || op == 0x14 || op == 0x1C || op == 0x24 || op == 0x2C
            || op == 0x3C {
            proof {
                reveal(spec_exec_inc8);
            }
            let r = match_register_u8(op / 8 % 8);
            let v = regs.read(r) as u8;
            regs.write(r, v.wrapping_add(1) as u16);
            let f1 = set_inc_flags_u8(v, f);
            regs.write(RegisterName::F, f1 as u16);
            next_pc = pc.wrapping_add(1);
            cycles = info.cycles;
            proof {
                assert(spec_execute(s0, interrupt_pending) == Ok::<Effect, EmuError>(
                    Effect { regs, store, store2, next_pc, cycles },
                ));
            }
        } else if op == 0x05 || op == 0x0D || op == 0x15 || op == 0x1D || op == 0x25 || op == 0x2D
            || op == 0x3D {
            proof {
                reveal(spec_exec_dec8);
            }
            let r = match_register_u8(op / 8 % 8);
            let v = regs.read(r) as u8;
            regs.write(r, v.wrapping_sub(1) as u16);
            let f1 = set_dec_flags_u8(v, f);
            regs.write(RegisterName::F, f1 as u16);
            next_pc = pc.wrapping_add(1);
            cycles = info.cycles;
            proof {
                assert(spec_execute(s0, interrupt_pending) == Ok::<Effect, EmuError>(
                    Effect { regs, store, store2, next_pc, cycles },
                ));
            }
        } else {
            return run_handler1a3(bus, regs_in, op, interrupt_pending);
        }
    Ok(StepEffect { regs, store, store2, next_pc, cycles })
}


/// Run the handler for the immediate loads and the relative jumps.
#[verifier::rlimit(100)]
#[verifier::spinoff_prover]
fn run_handler1a3(bus: &AddressSpace, regs_in: Registers, op: u8, interrupt_pending: bool) -> (r:
    Result<StepEffect, EmuError>)
    requires
        bus_wf(bus@),
        !spec_is_illegal(op),
        !in_dispatch_open(op),
        !is_mem_load(op),
        !is_inc_r8(op),
        !is_dec_r8(op),
    ensures
        match r {
            Ok(h) => spec_execute(
                CpuView { regs: regs_in, opcode: op, bus: bus@ },
                interrupt_pending,
            ) == Ok::<Effect, EmuError>(
                Effect {
                    regs: h.regs,
                    store: h.store,
                    store2: h.store2,
                    next_pc: h.next_pc,
                    cycles: h.cycles,
                },
            ),
            Err(e) => spec_execute(
                CpuView { regs: regs_in, opcode: op, bus: bus@ },
                interrupt_pending,
            ) == Err::<Effect, EmuError>(e),
        },
{
    let ghost s0 = CpuView { regs: regs_in, opcode: op, bus: bus@ };
    proof {
        reveal(spec_execute);
    }
    let info = instruction_info(op);
    let mut regs = regs_in;
    let pc = regs.pc;
    let f = regs.read(RegisterName::F) as u8;
    let acc = regs.read(RegisterName::A) as u8;
    let mut store: Option<(u16, u8)> = None;
    let mut store2: Option<(u16, u8)> = None;
    let next_pc: u16;
    let cycles: u8;
        if op == 0x06 || op == 0x0E || op == 0x16 || op == 0x1E || op == 0x26 || op == 0x2E
            || op == 0x36 || op == 0x3E {
            proof {
                reveal(spec_exec_ld8_imm);
            }
            let imm = match bus.read(pc.wrapping_add(1)) {
                Ok(v) => v,
                Err(e) => {
                    return Err(e);
                },
            };
            if op == 0x36 {
                store = Some((regs.read(RegisterName::HL), imm));
            } else {
                let r = match_register_u8(op / 8 % 8);
                regs.write(r, imm as u16);
            }
            next_pc = pc.wrapping_add(2);
            cycles = info.cycles;
            proof {
                assert(spec_execute(s0, interrupt_pending) == Ok::<Effect, EmuError>(
                    Effect { regs, store, store2, next_pc, cycles },
                ));
            }
        } else if op == 0x18 {
            proof {
                reveal(spec_exec_jr);
            }
            let off = match bus.read(pc.wrapping_add(1)) {
                Ok(v) => v,
                Err(e) => {
                    return Err(e);
                },
            };
            next_pc = rel_target(pc, off);
            cycles = info.cycles;
            proof {
                assert(spec_execute(s0, interrupt_pending) == Ok::<Effect, EmuError>(
                    Effect { regs, store, store2, next_pc, cycles },
                ));
            }
        } else if op == 0x20 || op == 0x28 || op == 0x30 || op == 0x38 {
            proof {
                reveal(spec_exec_jr_cc);
            }
            let off = match bus.read(pc.wrapping_add(1)) {
                Ok(v) => v,
                Err(e) => {
                    return Err(e);
                },
            };
            let taken = condition_holds(op / 8 % 4, f);
            if taken {
                next_pc = rel_target(pc, off);
                cycles = info.cycles_taken;
            } else {
                next_pc = pc.wrapping_add(2);
                cycles = info.cycles;
            }
            proof {
                assert(spec_execute(s0, interrupt_pending) == Ok::<Effect, EmuError>(
                    Effect { regs, store, store2, next_pc, cycles },
                ));
            }
        } else {
            return run_handler1b(bus, regs_in, op, interrupt_pending);
        }
    Ok(StepEffect { regs, store, store2, next_pc, cycles })
}

/// Run the handler for the register-to-register load block, the ALU
/// blocks and the absolute jumps; the rest of the tail chain is handled
/// further on.
#[verifier::rlimit(100)]
#[verifier::spinoff_prover]
fn run_handler1b(bus: &AddressSpace, regs_in: Registers, op: u8, interrupt_pending: bool) -> (r:
    Result<StepEffect, EmuError>)
    requires
        bus_wf(bus@),
        !spec_is_illegal(op),
        !in_dispatch_head(op),
    ensures
        match r {
            Ok(h) => spec_execute(
                CpuView { regs: regs_in, opcode: op, bus: bus@ },
                interrupt_pending,
            ) == Ok::<Effect, EmuError>(
                Effect {
                    regs: h.regs,
                    store: h.store,
                    store2: h.store2,
                    next_pc: h.next_pc,
                    cycles: h.cycles,
                },
            ),
            Err(e) => spec_execute(
                CpuView { regs: regs_in, opcode: op, bus: bus@ },
                interrupt_pending,
            ) == Err::<Effect, EmuError>(e),
        },
{
    let ghost s0 = CpuView { regs: regs_in, opcode: op, bus: bus@ };
    proof {
        reveal(spec_execute);
    }
    let info = instruction_info(op);
    let mut regs = regs_in;
    let pc = regs.pc;
    let f = regs.read(RegisterName::F) as u8;
    let acc = regs.read(RegisterName::A) as u8;
    let mut store: Option<(u16, u8)> = None;
    let mut store2: Option<(u16, u8)> = None;
    let next_pc: u16;
    let cycles: u8;
        if 0x40 <= op && op <= 0x7F {
            proof {
                reveal(spec_exec_ld_block);
            }
            let src = op % 8;
            let dst = op / 8 % 8;
            if src == 6 {
                let v = match bus.read(regs.read(RegisterName::HL)) {
                    Ok(v) => v,
                    Err(e) => {
                        return Err(e);
                    },
                };
                regs.write(match_register_u8(dst), v as u16);
            } else {
                let v = regs.read(match_register_u8(src)) as u8;
                if dst == 6 {
                    store = Some((regs.read(RegisterName::HL), v));
                } else {
                    regs.write(match_register_u8(dst), v as u16);
                }
            }
            next_pc = pc.wrapping_add(1);
            cycles = info.cycles;
            proof {
                assert(spec_execute(s0, interrupt_pending) == Ok::<Effect, EmuError>(
                    Effect { regs, store, store2, next_pc, cycles },
                ));
            }
        } else if 0x80 <= op && op <= 0xBF {
            proof {
                reveal(spec_exec_alu_block);
            }
            let fam = op / 8 % 8;
            let src = op % 8;
            let v: u8;
            if src == 6 {
                v = match bus.read(regs.read(RegisterName::HL)) {
                    Ok(b) => b,
                    Err(e) => {
                        return Err(e);
                    },
                };
            } else {
                v = regs.read(match_register_u8(src)) as u8;
            }
            let rf = alu_op(fam, acc, v, f);
            regs.write(RegisterName::A, rf.0 as u16);
            regs.write(RegisterName::F, rf.1 as u16);
            next_pc = pc.wrapping_add(1);
            cycles = info.cycles;
            proof {
                assert(spec_execute(s0, interrupt_pending) == Ok::<Effect, EmuError>(
                    Effect { regs, store, store2, next_pc, cycles },
                ));
            }
        } else if op == 0xC6 || op == 0xCE || op == 0xD6 || op == 0xDE || op == 0xE6 || op == 0xEE
            || op == 0xF6 || op == 0xFE {
            proof {
                reveal(spec_exec_alu_imm);
            }
            let v = match bus.read(pc.wrapping_add(1)) {
                Ok(b) => b,
                Err(e) => {
                    return Err(e);
                },
            };
            let fam = op / 8 % 8;
            let rf = alu_op(fam, acc, v, f);
            regs.write(RegisterName::A, rf.0 as u16);
            regs.write(RegisterName::F, rf.1 as u16);
            next_pc = pc.wrapping_add(2);
            cycles = info.cycles;
            proof {
                assert(spec_execute(s0, interrupt_pending) == Ok::<Effect, EmuError>(
                    Effect { regs, store, store2, next_pc, cycles },
                ));
            }
        } else if op == 0xC3 || op == 0xC2 || op == 0xCA || op == 0xD2 || op == 0xDA {
            proof {
                reveal(spec_exec_jp);
            }
            let lo_b = match bus.read(pc.wrapping_add(1)) {
                Ok(b) => b,
                Err(e) => {
                    return Err(e);
                },
            };
            let hi_b = match bus.read(pc.wrapping_add(2)) {
                Ok(b) => b,
                Err(e) => {
                    return Err(e);
                },
            };
            let target: u16 = (hi_b as u16) * 0x100 + lo_b as u16;
            if op == 0xC3 {
                next_pc = target;
                cycles = info.cycles;
            } else {
                let taken = condition_holds(op / 8 % 4, f);
                if taken {
                    next_pc = target;
                    cycles = info.cycles_taken;
                } else {
                    next_pc = pc.wrapping_add(3);
                    cycles = info.cycles;
                }
            }
            proof {
                assert(spec_execute(s0, interrupt_pending) == Ok::<Effect, EmuError>(
                    Effect { regs, store, store2, next_pc, cycles },
                ));
            }
        } else {
            return run_handler2(bus, regs_in, op, interrupt_pending);
        }
    Ok(StepEffect { regs, store, store2, next_pc, cycles })
}

/// Run the handler for the stack, call, return, restart and IO-page
/// opcodes the first chain does not cover.
#[verifier::rlimit(100)]
#[verifier::spinoff_prover]
fn run_handler2(bus: &AddressSpace, regs_in: Registers, op: u8, interrupt_pending: bool) -> (r:
    Result<StepEffect, EmuError>)
    requires
        bus_wf(bus@),
        !spec_is_illegal(op),
        !in_first_dispatch(op),
    ensures
        match r {
            Ok(h) => spec_execute(
                CpuView { regs: regs_in, opcode: op, bus: bus@ },
                interrupt_pending,
            ) == Ok::<Effect, EmuError>(
                Effect {
                    regs: h.regs,
                    store: h.store,
                    store2: h.store2,
                    next_pc: h.next_pc,
                    cycles: h.cycles,
                },
            ),
            Err(e) => spec_execute(
                CpuView { regs: regs_in, opcode: op, bus: bus@ },
                interrupt_pending,
            ) == Err::<Effect, EmuError>(e),
        },
{
    let ghost s0 = CpuView { regs: regs_in, opcode: op, bus: bus@ };
    proof {
        reveal(spec_execute);
    }
    let info = instruction_info(op);
    let mut regs = regs_in;
    let pc = regs.pc;
    let f = regs.read(RegisterName::F) as u8;
    let acc = regs.read(RegisterName::A) as u8;
    let mut store: Option<(u16, u8)> = None;
    let mut store2: Option<(u16, u8)> = None;
    let next_pc: u16;
    let cycles: u8;
        if op == 0xC5 || op == 0xD5 || op == 0xE5 || op == 0xF5 {
            proof {
                reveal(spec_exec_push);
            }
            let rr = match_register_stack(op / 16 % 4);
            let v = regs.read(rr);
            let sp = regs.read(RegisterName::SP);
            regs.write(RegisterName::SP, sp.wrapping_sub(2));
            store = Some((sp.wrapping_sub(1), (v / 0x100) as u8));
            store2 = Some((sp.wrapping_sub(2), (v % 0x100) as u8));
            next_pc = pc.wrapping_add(1);
            cycles = info.cycles;
            proof {
                assert(spec_execute(s0, interrupt_pending) == Ok::<Effect, EmuError>(
                    Effect { regs, store, store2, next_pc, cycles },
                ));
            }
        } else if op == 0xC1 || op == 0xD1 || op == 0xE1 || op == 0xF1 {
            proof {
                reveal(spec_exec_pop);
            }
            let sp = regs.read(RegisterName::SP);
            let lo_b = match bus.read(sp) {
                Ok(b) => b,
                Err(e) => {
                    return Err(e);
                },
            };
            let hi_b = match bus.read(sp.wrapping_add(1)) {
                Ok(b) => b,
                Err(e) => {
                    return Err(e);
                },
            };
            let rr = match_register_stack(op / 16 % 4);
            regs.write(rr, (hi_b as u16) * 0x100 + lo_b as u16);
            regs.write(RegisterName::SP, sp.wrapping_add(2));
            next_pc = pc.wrapping_add(1);
            cycles = info.cycles;
            proof {
                assert(spec_execute(s0, interrupt_pending) == Ok::<Effect, EmuError>(
                    Effect { regs, store, store2, next_pc, cycles },
                ));
            }
        } else if op == 0xCD || op == 0xC4 || op == 0xCC || op == 0xD4 || op == 0xDC {
            proof {
                reveal(spec_exec_call);
            }
            let lo_b = match bus.read(pc.wrapping_add(1)) {
                Ok(b) => b,
                Err(e) => {
                    return Err(e);
                },
            };
            let hi_b = match bus.read(pc.wrapping_add(2)) {
                Ok(b) => b,
                Err(e) => {
                    return Err(e);
                },
            };
            let target: u16 = (hi_b as u16) * 0x100 + lo_b as u16;
            let taken = op == 0xCD || condition_holds(op / 8 % 4, f);
            if taken {
                let ret = pc.wrapping_add(3);
                let sp = regs.read(RegisterName::SP);
                regs.write(RegisterName::SP, sp.wrapping_sub(2));
                store = Some((sp.wrapping_sub(1), (ret / 0x100) as u8));
                store2 = Some((sp.wrapping_sub(2), (ret % 0x100) as u8));
                next_pc = target;
                cycles = info.cycles_taken;
            } else {
                next_pc = pc.wrapping_add(3);
                cycles = info.cycles;
            }
            proof {
                assert(spec_execute(s0, interrupt_pending) == Ok::<Effect, EmuError>(
                    Effect { regs, store, store2, next_pc, cycles },
                ));
            }
        } else if op == 0xC9 || op == 0xC0 || op == 0xC8 || op == 0xD0 || op == 0xD8 {
            proof {
                reveal(spec_exec_ret);
            }
            let taken = op == 0xC9 || condition_holds(op / 8 % 4, f);
            if taken {
                let sp = regs.read(RegisterName::SP);
                let lo_b = match bus.read(sp) {
                    Ok(b) => b,
                    Err(e) => {
                        return Err(e);
                    },
                };
                let hi_b = match bus.read(sp.wrapping_add(1)) {
                    Ok(b) => b,
                    Err(e) => {
                        return Err(e);
                    },
                };
                regs.write(RegisterName::SP, sp.wrapping_add(2));
                next_pc = (hi_b as u16) * 0x100 + lo_b as u16;
                cycles = info.cycles_taken;
            } else {
                next_pc = pc.wrapping_add(1);
                cycles = info.cycles;
            }
            proof {
                assert(spec_execute(s0, interrupt_pending) == Ok::<Effect, EmuError>(
                    Effect { regs, store, store2, next_pc, cycles },
                ));
            }
        } else if op == 0xC7 || op == 0xCF || op == 0xD7 || op == 0xDF || op == 0xE7 || op == 0xEF
            || op == 0xF7 || op == 0xFF {
            proof {
                reveal(spec_exec_rst);
            }
            let vector: u16 = ((op / 8 % 8) as u16) * 8;
            let ret = pc.wrapping_add(1);
            let sp = regs.read(RegisterName::SP);
            regs.write(RegisterName::SP, sp.wrapping_sub(2));
            store = Some((sp.wrapping_sub(1), (ret / 0x100) as u8));
            store2 = Some((sp.wrapping_sub(2), (ret % 0x100) as u8));
            next_pc = vector;
            cycles = info.cycles;
            proof {
                assert(spec_execute(s0, interrupt_pending) == Ok::<Effect, EmuError>(
                    Effect { regs, store, store2, next_pc, cycles },
                ));
            }
        } else if op == 0x08 {
            proof {
                reveal(spec_exec_store_sp);
            }
            let lo_b = match bus.read(pc.wrapping_add(1)) {
                Ok(b) => b,
                Err(e) => {
                    return Err(e);
                },
            };
            let hi_b = match bus.read(pc.wrapping_add(2)) {
                Ok(b) => b,
                Err(e) => {
                    return Err(e);
                },
            };
            let target: u16 = (hi_b as u16) * 0x100 + lo_b as u16;
            let sp = regs.read(RegisterName::SP);
            store = Some((target, (sp % 0x100) as u8));
            store2 = Some((target.wrapping_add(1), (sp / 0x100) as u8));
            next_pc = pc.wrapping_add(3);
            cycles = info.cycles;
            proof {
                assert(spec_execute(s0, interrupt_pending) == Ok::<Effect, EmuError>(
                    Effect { regs, store, store2, next_pc, cycles },
                ));
            }
        } else if op == 0xE8 || op == 0xF8 {
            proof {
                reveal(spec_exec_sp_add);
            }
            let e8 = match bus.read(pc.wrapping_add(1)) {
                Ok(b) => b,
                Err(e) => {
                    return Err(e);
                },
            };
            let sp = regs.read(RegisterName::SP);
            let res = sp.wrapping_add(e8 as u16).wrapping_add(
                if e8 >= 0x80 {
                    0xFF00u16
                } else {
                    0u16
                },
            );
            let h = sp % 0x10 + (e8 % 0x10) as u16 >= 0x10;
            let c = sp % 0x100 + e8 as u16 >= 0x100;
            let nf = make_flags(false, false, h, c, f);
            if op == 0xE8 {
                regs.write(RegisterName::SP, res);
            } else {
                regs.write(RegisterName::HL, res);
            }
            regs.write(RegisterName::F, nf as u16);
            next_pc = pc.wrapping_add(2);
            cycles = info.cycles;
            proof {
                assert(spec_execute(s0, interrupt_pending) == Ok::<Effect, EmuError>(
                    Effect { regs, store, store2, next_pc, cycles },
                ));
            }
        } else {
            return run_handler3(bus, regs_in, op, interrupt_pending);
        }
    Ok(StepEffect { regs, store, store2, next_pc, cycles })
}


/// Run the handler for the IO-page loads and the prefixed operations;
/// anything else is an unimplemented opcode.
#[verifier::rlimit(100)]
#[verifier::spinoff_prover]
fn run_handler3(bus: &AddressSpace, regs_in: Registers, op: u8, interrupt_pending: bool) -> (r:
    Result<StepEffect, EmuError>)
    requires
        bus_wf(bus@),
        !spec_is_illegal(op),
        !in_first_dispatch(op),
        !is_stack_op(op),
    ensures
        match r {
            Ok(h) => spec_execute(
                CpuView { regs: regs_in, opcode: op, bus: bus@ },
                interrupt_pending,
            ) == Ok::<Effect, EmuError>(
                Effect {
                    regs: h.regs,
                    store: h.store,
                    store2: h.store2,
                    next_pc: h.next_pc,
                    cycles: h.cycles,
                },
            ),
            Err(e) => spec_execute(
                CpuView { regs: regs_in, opcode: op, bus: bus@ },
                interrupt_pending,
            ) == Err::<Effect, EmuError>(e),
        },
{
    let ghost s0 = CpuView { regs: regs_in, opcode: op, bus: bus@ };
    proof {
        reveal(spec_execute);
    }
    let info = instruction_info(op);
    let mut regs = regs_in;
    let pc = regs.pc;
    let f = regs.read(RegisterName::F) as u8;
    let acc = regs.read(RegisterName::A) as u8;
    let mut store: Option<(u16, u8)> = None;
    let mut store2: Option<(u16, u8)> = None;
    let next_pc: u16;
    let cycles: u8;
        if op == 0xE0 || op == 0xF0 {
            proof {
                reveal(spec_exec_io_imm);
            }
            let a8 = match bus.read(pc.wrapping_add(1)) {
                Ok(b) => b,
                Err(e) => {
                    return Err(e);
                },
            };
            let addr: u16 = 0xFF00 + a8 as u16;
            if op == 0xE0 {
                store = Some((addr, acc));
            } else {
                let v = match bus.read(addr) {
                    Ok(b) => b,
                    Err(e) => {
                        return Err(e);
                    },
                };
                regs.write(RegisterName::A, v as u16);
            }
            next_pc = pc.wrapping_add(2);
            cycles = info.cycles;
            proof {
                assert(spec_execute(s0, interrupt_pending) == Ok::<Effect, EmuError>(
                    Effect { regs, store, store2, next_pc, cycles },
                ));
            }
        } else if op == 0xE2 || op == 0xF2 {
            proof {
                reveal(spec_exec_io_c);
            }
            let c_reg = regs.read(RegisterName::C);
            let addr: u16 = 0xFF00 + c_reg;
            if op == 0xE2 {
                store = Some((addr, acc));
            } else {
                let v = match bus.read(addr) {
                    Ok(b) => b,
                    Err(e) => {
                        return Err(e);
                    },
                };
                regs.write(RegisterName::A, v as u16);
            }
            next_pc = pc.wrapping_add(1);
            cycles = info.cycles;
            proof {
                assert(spec_execute(s0, interrupt_pending) == Ok::<Effect, EmuError>(
                    Effect { regs, store, store2, next_pc, cycles },
                ));
            }
        } else {
            return run_handler4(bus, regs_in, op, interrupt_pending);
        }
    Ok(StepEffect { regs, store, store2, next_pc, cycles })
}


/// Run the handler for the prefixed operations; anything else is an
/// unimplemented opcode.
#[verifier::rlimit(100)]
#[verifier::spinoff_prover]
fn run_handler4(bus: &AddressSpace, regs_in: Registers, op: u8, interrupt_pending: bool) -> (r:
    Result<StepEffect, EmuError>)
    requires
        bus_wf(bus@),
        !spec_is_illegal(op),
        !in_first_dispatch(op),
        !is_stack_op(op),
        op != 0xE0 && op != 0xF0 && op != 0xE2 && op != 0xF2,
    ensures
        match r {
            Ok(h) => spec_execute(
                CpuView { regs: regs_in, opcode: op, bus: bus@ },
                interrupt_pending,
            ) == Ok::<Effect, EmuError>(
                Effect {
                    regs: h.regs,
                    store: h.store,
                    store2: h.store2,
                    next_pc: h.next_pc,
                    cycles: h.cycles,
                },
            ),
            Err(e) => spec_execute(
                CpuView { regs: regs_in, opcode: op, bus: bus@ },
                interrupt_pending,
            ) == Err::<Effect, EmuError>(e),
        },
{
    let ghost s0 = CpuView { regs: regs_in, opcode: op, bus: bus@ };
    if op != 0xCB {
        proof {
            reveal(spec_execute);
        }
        return Err(EmuError::UnimplementedOpcode(op));
    }
    let pc = regs_in.pc;
    let cb = match bus.read(pc.wrapping_add(1)) {
        Ok(b) => b,
        Err(e) => {
            proof {
                reveal(spec_execute);
                reveal(spec_exec_prefixed);
            }
            return Err(e);
        },
    };
    if cb % 8 == 6 {
        run_cb_mem(bus, regs_in, cb, interrupt_pending)
    } else {
        run_cb_reg(bus, regs_in, cb, interrupt_pending)
    }
}

/// Run a prefixed operation whose operand is the memory byte the HL
/// pair addresses.
#[verifier::rlimit(100)]
#[verifier::spinoff_prover]
fn run_cb_mem(bus: &AddressSpace, regs_in: Registers, cb: u8, interrupt_pending: bool) -> (r:
    Result<StepEffect, EmuError>)
    requires
        bus_wf(bus@),
        addr_mapped(regs_in.pc.wrapping_add(1)),
        cb == spec_bus_read(bus@, regs_in.pc.wrapping_add(1)),
        cb % 8 == 6,
    ensures
        match r {
            Ok(h) => spec_execute(
                CpuView { regs: regs_in, opcode: 0xCB, bus: bus@ },
                interrupt_pending,
            ) == Ok::<Effect, EmuError>(
                Effect {
                    regs: h.regs,
                    store: h.store,
                    store2: h.store2,
                    next_pc: h.next_pc,
                    cycles: h.cycles,
                },
            ),
            Err(e) => spec_execute(
                CpuView { regs: regs_in, opcode: 0xCB, bus: bus@ },
                interrupt_pending,
            ) == Err::<Effect, EmuError>(e),
        },
{
    let ghost s0 = CpuView { regs: regs_in, opcode: 0xCB, bus: bus@ };
    proof {
        reveal(spec_execute);
        reveal(spec_exec_prefixed);
    }
    let mut regs = regs_in;
    let pc = regs.pc;
    let f = regs.read(RegisterName::F) as u8;
    let mut store: Option<(u16, u8)> = None;
    let store2: Option<(u16, u8)> = None;
    let kind = cb / 8;
    let next_pc = pc.wrapping_add(2);
    let cycles = prefixed_info(cb).cycles;
    let hl = regs.read(RegisterName::HL);
    let v = match bus.read(hl) {
        Ok(b) => b,
        Err(e) => {
            return Err(e);
        },
    };
    let rf = cb_op(cb, v, f);
    if kind < 16 {
        regs.write(RegisterName::F, rf.1 as u16);
    }
    if kind < 8 || kind >= 16 {
        store = Some((hl, rf.0));
    }
    proof {
        assert(spec_execute(s0, interrupt_pending) == Ok::<Effect, EmuError>(
            Effect { regs, store, store2, next_pc, cycles },
        ));
    }
    Ok(StepEffect { regs, store, store2, next_pc, cycles })
}

/// Run a prefixed operation whose operand is an 8-bit register.
#[verifier::rlimit(100)]
#[verifier::spinoff_prover]
fn run_cb_reg(bus: &AddressSpace, regs_in: Registers, cb: u8, interrupt_pending: bool) -> (r:
    Result<StepEffect, EmuError>)
    requires
        bus_wf(bus@),
        addr_mapped(regs_in.pc.wrapping_add(1)),
        cb == spec_bus_read(bus@, regs_in.pc.wrapping_add(1)),
        cb % 8 != 6,
    ensures
        match r {
            Ok(h) => spec_execute(
                CpuView { regs: regs_in, opcode: 0xCB, bus: bus@ },
                interrupt_pending,
            ) == Ok::<Effect, EmuError>(
                Effect {
                    regs: h.regs,
                    store: h.store,
                    store2: h.store2,
                    next_pc: h.next_pc,
                    cycles: h.cycles,
                },
            ),
            Err(e) => spec_execute(
                CpuView { regs: regs_in, opcode: 0xCB, bus: bus@ },
                interrupt_pending,
            ) == Err::<Effect, EmuError>(e),
        },
{
    let ghost s0 = CpuView { regs: regs_in, opcode: 0xCB, bus: bus@ };
    proof {
        reveal(spec_execute);
        reveal(spec_exec_prefixed);
    }
    let mut regs = regs_in;
    let pc = regs.pc;
    let f = regs.read(RegisterName::F) as u8;
    let store: Option<(u16, u8)> = None;
    let store2: Option<(u16, u8)> = None;
    let kind = cb / 8;
    let next_pc = pc.wrapping_add(2);
    let cycles = prefixed_info(cb).cycles;
    let r8 = match_register_u8(cb % 8);
    let v = regs.read(r8) as u8;
    let rf = cb_op(cb, v, f);
    if kind < 8 || kind >= 16 {
        regs.write(r8, rf.0 as u16);
    }
    if kind < 16 {
        regs.write(RegisterName::F, rf.1 as u16);
    }
    proof {
        assert(spec_execute(s0, interrupt_pending) == Ok::<Effect, EmuError>(
            Effect { regs, store, store2, next_pc, cycles },
        ));
    }
    Ok(StepEffect { regs, store, store2, next_pc, cycles })
}

/// The processor: the address space it owns, the register file, and the
/// opcode latched for the next step.
pub struct Cpu {
    /// The address space, owning cartridge, memories and bank controller.
    pub bus: AddressSpace,
    /// The register file.
    pub registers: Registers,
    /// The opcode fetched at the end of the previous step.
    pub opcode: u8,
}

impl View for Cpu {
    type V = CpuView;

    open spec fn view(&self) -> CpuView {
        CpuView { regs: self.registers, opcode: self.opcode, bus: self.bus@ }
    }
}

impl Cpu {
    /// Internal consistency: the bus is well formed.
    pub open spec fn wf(&self) -> bool {
        bus_wf(self.bus@)
    }

    /// Build a processor from a validated cartridge: registers at their
    /// power-on values, bank controller at its power-on state, zeroed
    /// memories, and the byte at the entry point latched as the first
    /// opcode. Faults exactly when the cartridge type names no supported
    /// controller family.
    pub fn new(rom: Rom) -> (r: Result<Cpu, EmuError>)
        requires
            rom.wf(),
        ensures
            match r {
                Ok(cpu) => {
                    &&& cpu.wf()
                    &&& cpu.registers == power_on_registers()
                    &&& cpu.opcode == rom.data@[0x0100]
                    &&& cpu.bus.rom == rom
                    &&& Mbc::spec_kind_of(rom.cartridge_type) == Some(cpu.bus.mbc.kind)
                    &&& cpu.bus.mbc.active_bank == 1
                    &&& cpu.bus.mbc.ram_bank == 0
                    &&& !cpu.bus.mbc.ram_enabled
                    &&& cpu.bus.vram@ =~= Seq::new(0x2000, |i: int| 0u8)
                    &&& cpu.bus.wram@ =~= Seq::new(0x2000, |i: int| 0u8)
                    &&& cpu.bus.lcdc == 0 && cpu.bus.scy == 0 && cpu.bus.scx == 0
                },
                Err(e) => {
                    &&& Mbc::spec_kind_of(rom.cartridge_type) is None
                    &&& e == EmuError::Configuration(crate::ConfigFault::UnsupportedController)
                },
            },
    {
        let opcode = rom.data[0x0100];
        let bus = match AddressSpace::new(rom) {
            Ok(b) => b,
            Err(e) => {
                return Err(e);
            },
        };
        Ok(Cpu { bus, registers: Registers::new(), opcode })
    }

    /// Read the byte at `address` through the address space, faulting on
    /// an unmapped address.
    pub fn read_from_memory(&self, address: u16) -> (r: Result<u8, EmuError>)
        requires
            self.wf(),
        ensures
            r == spec_read8(self@.bus, address),
    {
        self.bus.read(address)
    }

    /// Write `data` to `address` through the address space, faulting on
    /// an unmapped address and leaving the machine unchanged in that
    /// case.
    pub fn write_to_memory(&mut self, address: u16, data: u8) -> (r: Result<(), EmuError>)
        requires
            old(self).wf(),
        ensures
            final(self).wf(),
            final(self).registers == old(self).registers,
            final(self).opcode == old(self).opcode,
            match r {
                Ok(()) => addr_mapped(address) && final(self)@.bus == spec_bus_write(
                    old(self)@.bus,
                    address,
                    data,
                ),
                Err(e) => !addr_mapped(address) && e == EmuError::UnmappedAddress(address)
                    && *final(self) == *old(self),
            },
    {
        self.bus.write(address, data)
    }

    /// Execute one atomic fetch-decode-execute-advance step and return
    /// its machine-cycle cost.
    ///
    /// The outcome is exactly what [`spec_step`] names for the starting
    /// state: on success the machine moves to that state and the cycle
    /// count is returned; on any fault the machine is left with every
    /// register and memory byte exactly as before the step. A latched
    /// halt instruction suspends the program counter until
    /// `interrupt_pending` is asserted by the host.
    #[verifier::rlimit(100)]
    #[verifier::spinoff_prover]
    pub fn exec(&mut self, interrupt_pending: bool) -> (r: Result<u8, EmuError>)
        requires
            old(self).wf(),
        ensures
            final(self).wf(),
            match r {
                Ok(c) => spec_step(old(self)@, interrupt_pending) == Ok::<(CpuView, u8), EmuError>(
                    (final(self)@, c),
                ),
                Err(e) => *final(self) == *old(self) && spec_step(old(self)@, interrupt_pending)
                    == Err::<(CpuView, u8), EmuError>(e),
            },
    {
        let op = self.opcode;
        if is_illegal(op) {
            proof {
                reveal(spec_execute);
            }
            return Err(EmuError::IllegalOpcode(op));
        }
        let h = match run_handler(&self.bus, self.registers, op, interrupt_pending) {
            Ok(h) => h,
            Err(e) => {
                return Err(e);
            },
        };
        let mut regs = h.regs;
        let next_pc = h.next_pc;
        let cycles = h.cycles;
        if !self.bus.is_mapped(next_pc) {
            return Err(EmuError::UnmappedAddress(next_pc));
        }
        match h.store {
            Some(av) => {
                if !self.bus.is_mapped(av.0) {
                    return Err(EmuError::UnmappedAddress(av.0));
                }
            },
            None => {},
        }
        match h.store2 {
            Some(av) => {
                if !self.bus.is_mapped(av.0) {
                    return Err(EmuError::UnmappedAddress(av.0));
                }
            },
            None => {},
        }
        match h.store {
            Some(av) => {
                match self.bus.write(av.0, av.1) {
                    Ok(()) => {},
                    Err(e) => {
                        proof {
                            assert(false);
                        }
                        return Err(e);
                    },
                }
            },
            None => {},
        }
        match h.store2 {
            Some(av) => {
                match self.bus.write(av.0, av.1) {
                    Ok(()) => {},
                    Err(e) => {
                        proof {
                            assert(false);
                        }
                        return Err(e);
                    },
                }
            },
            None => {},
        }
        regs.pc = next_pc;
        self.registers = regs;
        match self.bus.read(next_pc) {
            Ok(b) => {
                self.opcode = b;
                Ok(cycles)
            },
            Err(e) => {
                proof {
                    assert(false);
                }
                Err(e)
            },
        }
    }
}

} // verus!

//! End-to-end tests of the instruction engine: programs are placed at
//! the entry point of a valid cartridge image and stepped.

use jage::cpu::Cpu;
use jage::registers::RegisterName;
use jage::rom::Rom;
use jage::EmuError;

const LOGO: [u8; 48] = [
    0xCE, 0xED, 0x66, 0x66, 0xCC, 0x0D, 0x00, 0x0B, 0x03, 0x73, 0x00, 0x83, 0x00, 0x0C, 0x00,
    0x0D, 0x00, 0x08, 0x11, 0x1F, 0x88, 0x89, 0x00, 0x0E, 0xDC, 0xCC, 0x6E, 0xE6, 0xDD, 0xDD,
    0xD9, 0x99, 0xBB, 0xBB, 0x67, 0x63, 0x6E, 0x0E, 0xEC, 0xCC, 0xDD, 0xDC, 0x99, 0x9F, 0xBB,
    0xB9, 0x33, 0x3E,
];

/// A CPU running a valid two-bank cartridge with `program` at 0x0150,
/// reached — as on real cartridges — by a jump at the entry point; the
/// jump has already been stepped.
fn cpu_with_program(program: &[u8]) -> Cpu {
    let mut data = vec![0u8; 0x8000];
    data[0x0104..0x0134].copy_from_slice(&LOGO);
    data[0x0100..0x0103].copy_from_slice(&[0xC3, 0x50, 0x01]);
    data[0x0147] = 0x13;
    data[0x0148] = 0x00;
    data[0x0149] = 0x00;
    let mut checksum: u8 = 0;
    for i in 0x0134..0x014D {
        checksum = checksum.wrapping_sub(data[i]).wrapping_sub(1);
    }
    data[0x014D] = checksum;
    data[0x0150..0x0150 + program.len()].copy_from_slice(program);
    let rom = Rom::from_bytes(data).unwrap();
    let mut cpu = match Cpu::new(rom) {
        Ok(cpu) => cpu,
        Err(_) => panic!("construction must succeed"),
    };
    assert_eq!(cpu.exec(false).unwrap(), 4, "the entry jump costs four cycles");
    assert_eq!(cpu.registers.read(RegisterName::PC), 0x0150);
    cpu
}

#[test]
fn straight_line_program_takes_no_branch_and_sums_base_durations() {
    // LD A,0x05; SUB A,0x01; JP Z,0x0200 — the jump must not be taken.
    let mut cpu = cpu_with_program(&[0x3E, 0x05, 0xD6, 0x01, 0xCA, 0x00, 0x02, 0x00]);
    let mut total: u32 = 0;
    total += cpu.exec(false).unwrap() as u32;
    assert_eq!(cpu.registers.read(RegisterName::A), 0x05);
    total += cpu.exec(false).unwrap() as u32;
    assert_eq!(cpu.registers.read(RegisterName::A), 0x04);
    let f = cpu.registers.read(RegisterName::F);
    assert_eq!(f & 0x80, 0, "Zero must be reset after a non-zero result");
    total += cpu.exec(false).unwrap() as u32;
    assert_eq!(
        cpu.registers.read(RegisterName::PC),
        0x0157,
        "the conditional jump must fall through"
    );
    assert_eq!(total, 2 + 2 + 3, "base durations only, no branch penalty");
}

#[test]
fn conditional_jump_is_taken_on_zero_and_costs_the_taken_duration() {
    // LD A,0x01; SUB A,0x01; JP Z,0x0200.
    let mut cpu = cpu_with_program(&[0x3E, 0x01, 0xD6, 0x01, 0xCA, 0x00, 0x02]);
    let mut total: u32 = 0;
    total += cpu.exec(false).unwrap() as u32;
    total += cpu.exec(false).unwrap() as u32;
    assert_eq!(cpu.registers.read(RegisterName::A), 0x00);
    let f = cpu.registers.read(RegisterName::F);
    assert_ne!(f & 0x80, 0, "Zero must be set");
    total += cpu.exec(false).unwrap() as u32;
    assert_eq!(cpu.registers.read(RegisterName::PC), 0x0200);
    assert_eq!(total, 2 + 2 + 4, "the taken jump costs one extra cycle");
}

#[test]
fn illegal_opcode_faults_and_leaves_state_untouched() {
    let mut cpu = cpu_with_program(&[0xD3]);
    let regs_before = cpu.registers;
    let opcode_before = cpu.opcode;
    let probes = [0x0000u16, 0x0150, 0x4000, 0x8000, 0xC000, 0xFF40];
    let mem_before: Vec<u8> = probes.iter().map(|&a| cpu.read_from_memory(a).unwrap()).collect();
    let r = cpu.exec(false);
    assert_eq!(r.err().unwrap(), EmuError::IllegalOpcode(0xD3));
    assert_eq!(cpu.registers, regs_before);
    assert_eq!(cpu.opcode, opcode_before);
    let mem_after: Vec<u8> = probes.iter().map(|&a| cpu.read_from_memory(a).unwrap()).collect();
    assert_eq!(mem_after, mem_before);
}

#[test]
fn every_documented_illegal_byte_raises_the_illegal_fault() {
    for op in [0xD3u8, 0xDB, 0xDD, 0xE3, 0xE4, 0xEB, 0xEC, 0xED, 0xF4, 0xFC, 0xFD] {
        let mut cpu = cpu_with_program(&[op]);
        assert_eq!(cpu.exec(false).err().unwrap(), EmuError::IllegalOpcode(op));
    }
}

#[test]
fn unimplemented_opcode_is_distinct_from_illegal() {
    // The stop instruction is legal but not handled by this engine.
    let mut cpu = cpu_with_program(&[0x10]);
    let regs_before = cpu.registers;
    assert_eq!(cpu.exec(false).err().unwrap(), EmuError::UnimplementedOpcode(0x10));
    assert_eq!(cpu.registers, regs_before);
}

#[test]
fn stepping_identical_states_twice_is_bit_identical() {
    let program = [
        0x3E, 0x07, // LD A,0x07
        0x06, 0x03, // LD B,0x03
        0x80, // ADD A,B
        0x26, 0xC0, // LD H,0xC0
        0x2E, 0x10, // LD L,0x10
        0x36, 0x42, // LD (HL),0x42
        0x7E, // LD A,(HL)
        0x3C, // INC A
        0x05, // DEC B
        0x20, 0xF0, // JR NZ,-16
    ];
    let mut cpu1 = cpu_with_program(&program);
    let mut cpu2 = cpu_with_program(&program);
    let mut cycles1: u32 = 0;
    let mut cycles2: u32 = 0;
    for _ in 0..12 {
        cycles1 += cpu1.exec(false).unwrap() as u32;
        cycles2 += cpu2.exec(false).unwrap() as u32;
        assert_eq!(cpu1.registers, cpu2.registers);
        assert_eq!(cpu1.opcode, cpu2.opcode);
    }
    assert_eq!(cycles1, cycles2);
    for a in [0xC010u16, 0xC000, 0x0150] {
        assert_eq!(
            cpu1.read_from_memory(a).unwrap(),
            cpu2.read_from_memory(a).unwrap()
        );
    }
}

#[test]
fn loads_route_through_memory() {
    let program = [
        0x26, 0xC0, // LD H,0xC0
        0x2E, 0x00, // LD L,0x00
        0x36, 0x42, // LD (HL),0x42
        0x7E, // LD A,(HL)
        0x47, // LD B,A
    ];
    let mut cpu = cpu_with_program(&program);
    assert_eq!(cpu.exec(false).unwrap(), 2);
    assert_eq!(cpu.exec(false).unwrap(), 2);
    assert_eq!(cpu.registers.read(RegisterName::HL), 0xC000);
    assert_eq!(cpu.exec(false).unwrap(), 3);
    assert_eq!(cpu.read_from_memory(0xC000).unwrap(), 0x42);
    assert_eq!(cpu.exec(false).unwrap(), 2);
    assert_eq!(cpu.registers.read(RegisterName::A), 0x42);
    assert_eq!(cpu.exec(false).unwrap(), 1);
    assert_eq!(cpu.registers.read(RegisterName::B), 0x42);
}

#[test]
fn store_to_memory_costs_two_cycles_for_register_source() {
    let program = [
        0x26, 0xC0, // LD H,0xC0
        0x2E, 0x08, // LD L,0x08
        0x3E, 0x99, // LD A,0x99
        0x77, // LD (HL),A
    ];
    let mut cpu = cpu_with_program(&program);
    cpu.exec(false).unwrap();
    cpu.exec(false).unwrap();
    cpu.exec(false).unwrap();
    assert_eq!(cpu.exec(false).unwrap(), 2);
    assert_eq!(cpu.read_from_memory(0xC008).unwrap(), 0x99);
}

#[test]
fn halt_suspends_until_an_interrupt_is_pending() {
    let mut cpu = cpu_with_program(&[0x76, 0x3E, 0x55]);
    assert_eq!(cpu.exec(false).unwrap(), 1);
    assert_eq!(cpu.registers.read(RegisterName::PC), 0x0150);
    assert_eq!(cpu.opcode, 0x76);
    assert_eq!(cpu.exec(false).unwrap(), 1);
    assert_eq!(cpu.registers.read(RegisterName::PC), 0x0150);
    // The pending interrupt releases the halt.
    assert_eq!(cpu.exec(true).unwrap(), 1);
    assert_eq!(cpu.registers.read(RegisterName::PC), 0x0151);
    assert_eq!(cpu.opcode, 0x3E);
    cpu.exec(false).unwrap();
    assert_eq!(cpu.registers.read(RegisterName::A), 0x55);
}

#[test]
fn jump_to_an_unmapped_address_faults_without_mutation() {
    let mut cpu = cpu_with_program(&[0xC3, 0x00, 0xE0]);
    let regs_before = cpu.registers;
    let opcode_before = cpu.opcode;
    assert_eq!(cpu.exec(false).err().unwrap(), EmuError::UnmappedAddress(0xE000));
    assert_eq!(cpu.registers, regs_before);
    assert_eq!(cpu.opcode, opcode_before);
}

#[test]
fn relative_jumps_sign_extend_their_offset() {
    // JR +2 skips the two-byte instruction that follows.
    let mut cpu = cpu_with_program(&[0x18, 0x02, 0x3E, 0x99, 0x3E, 0x07]);
    assert_eq!(cpu.exec(false).unwrap(), 3);
    assert_eq!(cpu.registers.read(RegisterName::PC), 0x0154);
    cpu.exec(false).unwrap();
    assert_eq!(cpu.registers.read(RegisterName::A), 0x07);

    // JR -2 re-executes the jump itself.
    let mut cpu = cpu_with_program(&[0x18, 0xFE]);
    assert_eq!(cpu.exec(false).unwrap(), 3);
    assert_eq!(cpu.registers.read(RegisterName::PC), 0x0150);
    assert_eq!(cpu.opcode, 0x18);
}

#[test]
fn compare_sets_flags_without_touching_the_accumulator() {
    // LD A,0x10; LD B,0x10; CP A,B.
    let mut cpu = cpu_with_program(&[0x3E, 0x10, 0x06, 0x10, 0xB8]);
    cpu.exec(false).unwrap();
    cpu.exec(false).unwrap();
    assert_eq!(cpu.exec(false).unwrap(), 1);
    assert_eq!(cpu.registers.read(RegisterName::A), 0x10);
    let f = cpu.registers.read(RegisterName::F);
    assert_ne!(f & 0x80, 0, "Zero set: operands equal");
    assert_ne!(f & 0x40, 0, "Subtract set");
}

#[test]
fn alu_families_compute_and_set_flags() {
    // LD A,0x3C; LD B,0x12; AND A,B; then OR and XOR with immediates.
    let mut cpu = cpu_with_program(&[0x3E, 0x3C, 0x06, 0x12, 0xA0, 0xF6, 0x40, 0xEE, 0x50]);
    cpu.exec(false).unwrap();
    cpu.exec(false).unwrap();
    cpu.exec(false).unwrap();
    assert_eq!(cpu.registers.read(RegisterName::A), 0x3C & 0x12);
    let f = cpu.registers.read(RegisterName::F);
    assert_ne!(f & 0x20, 0, "AND always sets HalfCarry");
    assert_eq!(f & 0x10, 0, "AND always resets Carry");
    cpu.exec(false).unwrap();
    assert_eq!(cpu.registers.read(RegisterName::A), (0x3C & 0x12) | 0x40);
    cpu.exec(false).unwrap();
    assert_eq!(cpu.registers.read(RegisterName::A), ((0x3C & 0x12) | 0x40) ^ 0x50);
}

#[test]
fn add_with_carry_uses_the_carry_bit() {
    // LD A,0xFF; ADD A,0x01 (sets Carry, A=0); ADC A,0x00 (adds the carry).
    let mut cpu = cpu_with_program(&[0x3E, 0xFF, 0xC6, 0x01, 0xCE, 0x00]);
    cpu.exec(false).unwrap();
    cpu.exec(false).unwrap();
    assert_eq!(cpu.registers.read(RegisterName::A), 0x00);
    let f = cpu.registers.read(RegisterName::F);
    assert_ne!(f & 0x10, 0, "Carry set by the overflowing add");
    cpu.exec(false).unwrap();
    assert_eq!(cpu.registers.read(RegisterName::A), 0x01);
}

#[test]
fn advancing_past_mapped_memory_faults() {
    // A jump to 0xDFFF lands on the last mapped byte; the single-byte
    // instruction there advances the program counter past 0xDFFF into
    // unmapped space, which faults on the next opcode fetch.
    let mut cpu = cpu_with_program(&[0xC3, 0xFF, 0xDF]);
    assert_eq!(cpu.exec(false).unwrap(), 4);
    assert_eq!(cpu.registers.read(RegisterName::PC), 0xDFFF);
    assert_eq!(cpu.opcode, 0x00, "work memory is zeroed, so a no-op is latched");
    assert_eq!(cpu.exec(false).err().unwrap(), EmuError::UnmappedAddress(0xE000));
}

#[test]
fn sixteen_bit_loads_and_arithmetic() {
    let program = [
        0x21, 0x34, 0x12, // LD HL,0x1234
        0x01, 0x00, 0x10, // LD BC,0x1000
        0x09, // ADD HL,BC
        0x23, // INC HL
        0x0B, // DEC BC
        0x31, 0xFE, 0xDF, // LD SP,0xDFFE
        0x33, // INC SP
    ];
    let mut cpu = cpu_with_program(&program);
    assert_eq!(cpu.exec(false).unwrap(), 3);
    assert_eq!(cpu.registers.read(RegisterName::HL), 0x1234);
    assert_eq!(cpu.exec(false).unwrap(), 3);
    assert_eq!(cpu.registers.read(RegisterName::BC), 0x1000);
    assert_eq!(cpu.exec(false).unwrap(), 2);
    assert_eq!(cpu.registers.read(RegisterName::HL), 0x2234);
    assert_eq!(cpu.exec(false).unwrap(), 2);
    assert_eq!(cpu.registers.read(RegisterName::HL), 0x2235);
    assert_eq!(cpu.exec(false).unwrap(), 2);
    assert_eq!(cpu.registers.read(RegisterName::BC), 0x0FFF);
    assert_eq!(cpu.exec(false).unwrap(), 3);
    assert_eq!(cpu.registers.read(RegisterName::SP), 0xDFFE);
    assert_eq!(cpu.exec(false).unwrap(), 2);
    assert_eq!(cpu.registers.read(RegisterName::SP), 0xDFFF);
}

#[test]
fn add_hl_wraps_and_reports_carries_without_touching_zero() {
    let program = [
        0x21, 0xFF, 0xFF, // LD HL,0xFFFF
        0x01, 0x01, 0x00, // LD BC,0x0001
        0x09, // ADD HL,BC
    ];
    let mut cpu = cpu_with_program(&program);
    cpu.exec(false).unwrap();
    cpu.exec(false).unwrap();
    let z_before = cpu.registers.read(RegisterName::F) & 0x80;
    cpu.exec(false).unwrap();
    assert_eq!(cpu.registers.read(RegisterName::HL), 0x0000);
    let f = cpu.registers.read(RegisterName::F);
    assert_eq!(f & 0x80, z_before, "Zero is preserved by the 16-bit add");
    assert_ne!(f & 0x20, 0, "carry out of bit 11");
    assert_ne!(f & 0x10, 0, "carry out of bit 15");
    assert_eq!(f & 0x40, 0, "Subtract reset");
}

#[test]
fn accumulator_rotates_follow_the_hardware_rules() {
    // LD A,0x85; RLCA; RRCA; RLA with carry seeded by the RRCA.
    let mut cpu = cpu_with_program(&[0x3E, 0x85, 0x07, 0x0F, 0x17]);
    cpu.exec(false).unwrap();
    assert_eq!(cpu.exec(false).unwrap(), 1);
    // RLCA of 0x85: bit 7 rotates into bit 0 and into Carry.
    assert_eq!(cpu.registers.read(RegisterName::A), 0x0B);
    let f = cpu.registers.read(RegisterName::F);
    assert_ne!(f & 0x10, 0, "Carry takes the rotated-out bit");
    assert_eq!(f & 0xE0, 0, "Zero, Subtract and HalfCarry are reset");
    // RRCA of 0x0B: bit 0 rotates into bit 7 and into Carry.
    cpu.exec(false).unwrap();
    assert_eq!(cpu.registers.read(RegisterName::A), 0x85);
    assert_ne!(cpu.registers.read(RegisterName::F) & 0x10, 0);
    // RLA shifts the seeded Carry into bit 0.
    cpu.exec(false).unwrap();
    assert_eq!(cpu.registers.read(RegisterName::A), 0x0B);
}

#[test]
fn complement_and_carry_instructions() {
    // LD A,0x35; CPL; SCF; CCF.
    let mut cpu = cpu_with_program(&[0x3E, 0x35, 0x2F, 0x37, 0x3F]);
    cpu.exec(false).unwrap();
    cpu.exec(false).unwrap();
    assert_eq!(cpu.registers.read(RegisterName::A), 0xCA);
    let f = cpu.registers.read(RegisterName::F);
    assert_ne!(f & 0x40, 0, "CPL sets Subtract");
    assert_ne!(f & 0x20, 0, "CPL sets HalfCarry");
    cpu.exec(false).unwrap();
    let f = cpu.registers.read(RegisterName::F);
    assert_ne!(f & 0x10, 0, "SCF sets Carry");
    assert_eq!(f & 0x60, 0, "SCF resets Subtract and HalfCarry");
    cpu.exec(false).unwrap();
    assert_eq!(cpu.registers.read(RegisterName::F) & 0x10, 0, "CCF flips Carry");
}

#[test]
fn jump_through_hl_and_load_sp_from_hl() {
    // LD HL,0xC123; LD SP,HL; JP HL.
    let mut cpu = cpu_with_program(&[0x21, 0x23, 0xC1, 0xF9, 0xE9]);
    cpu.exec(false).unwrap();
    assert_eq!(cpu.exec(false).unwrap(), 2);
    assert_eq!(cpu.registers.read(RegisterName::SP), 0xC123);
    assert_eq!(cpu.exec(false).unwrap(), 1);
    assert_eq!(cpu.registers.read(RegisterName::PC), 0xC123);
}

#[test]
fn indirect_loads_through_register_pairs() {
    let program = [
        0x01, 0x00, 0xC1, // LD BC,0xC100
        0x3E, 0x7A, // LD A,0x7A
        0x02, // LD (BC),A
        0x11, 0x00, 0xC1, // LD DE,0xC100
        0x1A, // LD A,(DE)
    ];
    let mut cpu = cpu_with_program(&program);
    cpu.exec(false).unwrap();
    cpu.exec(false).unwrap();
    assert_eq!(cpu.exec(false).unwrap(), 2);
    assert_eq!(cpu.read_from_memory(0xC100).unwrap(), 0x7A);
    cpu.exec(false).unwrap();
    cpu.exec(false).unwrap();
    assert_eq!(cpu.registers.read(RegisterName::A), 0x7A);
}

#[test]
fn post_increment_and_post_decrement_loads_move_hl() {
    let program = [
        0x21, 0x00, 0xC2, // LD HL,0xC200
        0x3E, 0x11, // LD A,0x11
        0x22, // LD (HL+),A
        0x3E, 0x22, // LD A,0x22
        0x32, // LD (HL-),A
        0x2A, // LD A,(HL+)
    ];
    let mut cpu = cpu_with_program(&program);
    cpu.exec(false).unwrap();
    cpu.exec(false).unwrap();
    cpu.exec(false).unwrap();
    assert_eq!(cpu.registers.read(RegisterName::HL), 0xC201);
    cpu.exec(false).unwrap();
    cpu.exec(false).unwrap();
    assert_eq!(cpu.registers.read(RegisterName::HL), 0xC200);
    assert_eq!(cpu.read_from_memory(0xC200).unwrap(), 0x11);
    assert_eq!(cpu.read_from_memory(0xC201).unwrap(), 0x22);
    cpu.exec(false).unwrap();
    assert_eq!(cpu.registers.read(RegisterName::A), 0x11);
    assert_eq!(cpu.registers.read(RegisterName::HL), 0xC201);
}

#[test]
fn absolute_loads_use_a_sixteen_bit_address() {
    let program = [
        0x3E, 0x66, // LD A,0x66
        0xEA, 0x34, 0xC3, // LD (0xC334),A
        0x3E, 0x00, // LD A,0x00
        0xFA, 0x34, 0xC3, // LD A,(0xC334)
    ];
    let mut cpu = cpu_with_program(&program);
    cpu.exec(false).unwrap();
    assert_eq!(cpu.exec(false).unwrap(), 4);
    assert_eq!(cpu.read_from_memory(0xC334).unwrap(), 0x66);
    cpu.exec(false).unwrap();
    assert_eq!(cpu.registers.read(RegisterName::A), 0x00);
    assert_eq!(cpu.exec(false).unwrap(), 4);
    assert_eq!(cpu.registers.read(RegisterName::A), 0x66);
}

#[test]
fn push_and_pop_round_trip_through_the_stack() {
    let program = [
        0x31, 0xFE, 0xDF, // LD SP,0xDFFE
        0x01, 0x34, 0x12, // LD BC,0x1234
        0xC5, // PUSH BC
        0xD1, // POP DE
    ];
    let mut cpu = cpu_with_program(&program);
    cpu.exec(false).unwrap();
    cpu.exec(false).unwrap();
    assert_eq!(cpu.exec(false).unwrap(), 4);
    assert_eq!(cpu.registers.read(RegisterName::SP), 0xDFFC);
    assert_eq!(cpu.read_from_memory(0xDFFD).unwrap(), 0x12);
    assert_eq!(cpu.read_from_memory(0xDFFC).unwrap(), 0x34);
    assert_eq!(cpu.exec(false).unwrap(), 3);
    assert_eq!(cpu.registers.read(RegisterName::DE), 0x1234);
    assert_eq!(cpu.registers.read(RegisterName::SP), 0xDFFE);
}

#[test]
fn call_pushes_the_return_address_and_ret_pops_it() {
    // LD SP,0xDFFE; CALL 0x0200; ... 0x0200 holds RET.
    let mut program = vec![0u8; 0xB1];
    program[0..6].copy_from_slice(&[0x31, 0xFE, 0xDF, 0xCD, 0x00, 0x02]);
    program[0xB0] = 0xC9; // RET at 0x0200
    let mut cpu = cpu_with_program(&program);
    cpu.exec(false).unwrap();
    assert_eq!(cpu.exec(false).unwrap(), 6);
    assert_eq!(cpu.registers.read(RegisterName::PC), 0x0200);
    assert_eq!(cpu.registers.read(RegisterName::SP), 0xDFFC);
    // The pushed return address is the byte after the call.
    assert_eq!(cpu.read_from_memory(0xDFFD).unwrap(), 0x01);
    assert_eq!(cpu.read_from_memory(0xDFFC).unwrap(), 0x56);
    assert_eq!(cpu.exec(false).unwrap(), 4);
    assert_eq!(cpu.registers.read(RegisterName::PC), 0x0156);
    assert_eq!(cpu.registers.read(RegisterName::SP), 0xDFFE);
}

#[test]
fn conditional_call_and_return_cost_extra_only_when_taken() {
    // LD SP,0xDFFE; LD A,0x01; SUB A,0x01 (sets Zero); CALL NZ (not
    // taken); RET NZ (not taken).
    let program = [
        0x31, 0xFE, 0xDF, 0x3E, 0x01, 0xD6, 0x01, 0xC4, 0x00, 0x02, 0xC0,
    ];
    let mut cpu = cpu_with_program(&program);
    cpu.exec(false).unwrap();
    cpu.exec(false).unwrap();
    cpu.exec(false).unwrap();
    assert_eq!(cpu.exec(false).unwrap(), 3, "untaken call costs its base duration");
    assert_eq!(cpu.registers.read(RegisterName::SP), 0xDFFE, "nothing pushed");
    assert_eq!(cpu.exec(false).unwrap(), 2, "untaken return costs its base duration");
    assert_eq!(cpu.registers.read(RegisterName::PC), 0x015B);
}

#[test]
fn restart_jumps_to_its_vector_and_pushes_the_return() {
    let program = [
        0x31, 0xFE, 0xDF, // LD SP,0xDFFE
        0xDF, // RST 0x18
    ];
    let mut cpu = cpu_with_program(&program);
    cpu.exec(false).unwrap();
    assert_eq!(cpu.exec(false).unwrap(), 4);
    assert_eq!(cpu.registers.read(RegisterName::PC), 0x0018);
    assert_eq!(cpu.registers.read(RegisterName::SP), 0xDFFC);
    assert_eq!(cpu.read_from_memory(0xDFFD).unwrap(), 0x01);
    assert_eq!(cpu.read_from_memory(0xDFFC).unwrap(), 0x54);
}

#[test]
fn push_onto_an_unmapped_stack_faults_without_mutation() {
    // The power-on stack pointer sits above mapped memory.
    let mut cpu = cpu_with_program(&[0xC5]);
    let regs_before = cpu.registers;
    assert_eq!(
        cpu.exec(false).err().unwrap(),
        EmuError::UnmappedAddress(0xFFFD)
    );
    assert_eq!(cpu.registers, regs_before);
}

#[test]
fn io_page_loads_reach_the_display_registers() {
    let program = [
        0x3E, 0x91, // LD A,0x91
        0xE0, 0x40, // LDH (0x40),A — display control
        0x0E, 0x43, // LD C,0x43
        0x3E, 0x07, // LD A,0x07
        0xE2, // LD (C),A — horizontal scroll
        0xF0, 0x42, // LDH A,(0x42) — vertical scroll, still zero
    ];
    let mut cpu = cpu_with_program(&program);
    cpu.exec(false).unwrap();
    assert_eq!(cpu.exec(false).unwrap(), 3);
    assert_eq!(cpu.read_from_memory(0xFF40).unwrap(), 0x91);
    cpu.exec(false).unwrap();
    cpu.exec(false).unwrap();
    assert_eq!(cpu.exec(false).unwrap(), 2);
    assert_eq!(cpu.read_from_memory(0xFF43).unwrap(), 0x07);
    cpu.exec(false).unwrap();
    assert_eq!(cpu.registers.read(RegisterName::A), 0x00);
}

#[test]
fn io_page_access_outside_the_display_registers_faults() {
    // LDH (0x00),A targets the unmapped joypad register.
    let mut cpu = cpu_with_program(&[0x3E, 0x01, 0xE0, 0x00]);
    cpu.exec(false).unwrap();
    assert_eq!(
        cpu.exec(false).err().unwrap(),
        EmuError::UnmappedAddress(0xFF00)
    );
}

#[test]
fn prefixed_operations_on_a_register() {
    let program = [
        0x3E, 0x81, // LD A,0x81
        0xCB, 0x37, // SWAP A
        0xCB, 0xC7, // SET 0,A
        0xCB, 0x7F, // BIT 7,A
        0xCB, 0x3F, // SRL A
    ];
    let mut cpu = cpu_with_program(&program);
    cpu.exec(false).unwrap();
    assert_eq!(cpu.exec(false).unwrap(), 2);
    assert_eq!(cpu.registers.read(RegisterName::A), 0x18, "SWAP exchanges the nibbles");
    cpu.exec(false).unwrap();
    assert_eq!(cpu.registers.read(RegisterName::A), 0x19);
    assert_eq!(cpu.exec(false).unwrap(), 2);
    let f = cpu.registers.read(RegisterName::F);
    assert_ne!(f & 0x80, 0, "BIT sets Zero for a clear bit");
    assert_ne!(f & 0x20, 0, "BIT sets HalfCarry");
    cpu.exec(false).unwrap();
    assert_eq!(cpu.registers.read(RegisterName::A), 0x0C);
    assert_ne!(cpu.registers.read(RegisterName::F) & 0x10, 0, "SRL shifts bit 0 into Carry");
}

#[test]
fn prefixed_operations_on_the_memory_operand() {
    let program = [
        0x21, 0x00, 0xC0, // LD HL,0xC000
        0x36, 0x80, // LD (HL),0x80
        0xCB, 0x3E, // SRL (HL)
        0xCB, 0x46, // BIT 0,(HL)
    ];
    let mut cpu = cpu_with_program(&program);
    cpu.exec(false).unwrap();
    cpu.exec(false).unwrap();
    assert_eq!(cpu.exec(false).unwrap(), 4, "a shift on the memory operand costs four cycles");
    assert_eq!(cpu.read_from_memory(0xC000).unwrap(), 0x40);
    assert_eq!(cpu.exec(false).unwrap(), 3, "a bit test on the memory operand costs three");
    assert_ne!(cpu.registers.read(RegisterName::F) & 0x80, 0);
}

#[test]
fn decimal_adjust_corrects_packed_decimal_addition() {
    // 15 + 27 = 42 in packed decimal.
    let mut cpu = cpu_with_program(&[0x3E, 0x15, 0xC6, 0x27, 0x27]);
    cpu.exec(false).unwrap();
    cpu.exec(false).unwrap();
    assert_eq!(cpu.registers.read(RegisterName::A), 0x3C);
    cpu.exec(false).unwrap();
    assert_eq!(cpu.registers.read(RegisterName::A), 0x42);
    assert_eq!(cpu.registers.read(RegisterName::F) & 0x10, 0, "no decimal carry");

    // 99 + 01 = 100: the result wraps to zero with the decimal carry set.
    let mut cpu = cpu_with_program(&[0x3E, 0x99, 0xC6, 0x01, 0x27]);
    cpu.exec(false).unwrap();
    cpu.exec(false).unwrap();
    cpu.exec(false).unwrap();
    assert_eq!(cpu.registers.read(RegisterName::A), 0x00);
    let f = cpu.registers.read(RegisterName::F);
    assert_ne!(f & 0x10, 0, "decimal carry set");
    assert_ne!(f & 0x80, 0, "Zero set");
}

#[test]
fn stack_pointer_adds_sign_extend_and_report_low_byte_carries() {
    let program = [
        0x31, 0x00, 0xDF, // LD SP,0xDF00
        0xE8, 0xFE, // ADD SP,-2
        0xF8, 0x04, // LD HL,SP+4
    ];
    let mut cpu = cpu_with_program(&program);
    cpu.exec(false).unwrap();
    assert_eq!(cpu.exec(false).unwrap(), 4);
    assert_eq!(cpu.registers.read(RegisterName::SP), 0xDEFE);
    assert_eq!(cpu.exec(false).unwrap(), 3);
    assert_eq!(cpu.registers.read(RegisterName::HL), 0xDF02);
    let f = cpu.registers.read(RegisterName::F);
    assert_ne!(f & 0x10, 0, "0xFE + 4 carries out of the low byte");
    assert_eq!(f & 0x80, 0, "Zero is always reset");
}

#[test]
fn storing_the_stack_pointer_writes_both_bytes() {
    let program = [
        0x31, 0xFE, 0xDF, // LD SP,0xDFFE
        0x08, 0x00, 0xC0, // LD (0xC000),SP
    ];
    let mut cpu = cpu_with_program(&program);
    cpu.exec(false).unwrap();
    assert_eq!(cpu.exec(false).unwrap(), 5);
    assert_eq!(cpu.read_from_memory(0xC000).unwrap(), 0xFE);
    assert_eq!(cpu.read_from_memory(0xC001).unwrap(), 0xDF);
}

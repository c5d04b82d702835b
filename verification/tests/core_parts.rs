//! Tests for the register file, the flag engine, the opcode table and
//! the display-side data.

use jage::flags::{
    set_adc_flags_u8, set_add_flags_u16, set_add_flags_u8, set_dec_flags_u8, set_inc_flags_u8,
    set_sub_flags_u8,
};
use jage::opcodes::{instruction_info, is_illegal, prefixed_info};
use jage::registers::{RegisterName, Registers};
use jage::screen::{tile_pixel, Screen, Tile};

const R8_NAMES: [RegisterName; 8] = [
    RegisterName::A,
    RegisterName::F,
    RegisterName::B,
    RegisterName::C,
    RegisterName::D,
    RegisterName::E,
    RegisterName::H,
    RegisterName::L,
];

#[test]
fn registers_power_on_values() {
    let r = Registers::new();
    assert_eq!(r.read(RegisterName::AF), 0x01B0);
    assert_eq!(r.read(RegisterName::BC), 0x0013);
    assert_eq!(r.read(RegisterName::DE), 0x00D8);
    assert_eq!(r.read(RegisterName::HL), 0x014D);
    assert_eq!(r.read(RegisterName::SP), 0xFFFE);
    assert_eq!(r.read(RegisterName::PC), 0x0100);
}

#[test]
fn r8_write_then_read_truncates() {
    for name in R8_NAMES {
        let mut r = Registers::new();
        r.write(name, 0x1234);
        assert_eq!(r.read(name), 0x34);
        r.write(name, 0x00FF);
        assert_eq!(r.read(name), 0xFF);
    }
}

#[test]
fn pair_write_then_halves_read() {
    let cases = [
        (RegisterName::AF, RegisterName::A, RegisterName::F),
        (RegisterName::BC, RegisterName::B, RegisterName::C),
        (RegisterName::DE, RegisterName::D, RegisterName::E),
        (RegisterName::HL, RegisterName::H, RegisterName::L),
    ];
    for (pair, high, low) in cases {
        let mut r = Registers::new();
        r.write(pair, 0xABCD);
        assert_eq!(r.read(high), 0xAB);
        assert_eq!(r.read(low), 0xCD);
        assert_eq!(r.read(pair), 0xABCD);
    }
}

#[test]
fn half_write_then_pair_read() {
    let mut r = Registers::new();
    r.write(RegisterName::BC, 0x1234);
    r.write(RegisterName::B, 0xFF);
    assert_eq!(r.read(RegisterName::BC), 0xFF34);
    r.write(RegisterName::C, 0x01);
    assert_eq!(r.read(RegisterName::BC), 0xFF01);
    r.write(RegisterName::HL, 0x5678);
    r.write(RegisterName::L, 0x00);
    assert_eq!(r.read(RegisterName::HL), 0x5600);
}

#[test]
fn sixteen_bit_registers_hold_full_width() {
    let mut r = Registers::new();
    r.write(RegisterName::SP, 0xBEEF);
    assert_eq!(r.read(RegisterName::SP), 0xBEEF);
    r.write(RegisterName::PC, 0xCAFE);
    assert_eq!(r.read(RegisterName::PC), 0xCAFE);
}

#[test]
fn add_ff_plus_one_sets_zero_half_carry_and_carry() {
    let f = set_add_flags_u8(0xFF, 0x01, 0x00);
    assert_eq!(f, 0xB0);
    assert!(f & 0x80 != 0);
    assert!(f & 0x40 == 0);
    assert!(f & 0x20 != 0);
    assert!(f & 0x10 != 0);
}

#[test]
fn add_0f_plus_one_sets_half_carry_only() {
    let f = set_add_flags_u8(0x0F, 0x01, 0xF0);
    assert_eq!(f, 0x20);
}

#[test]
fn sub_zero_minus_one_sets_subtract_half_carry_and_carry() {
    let f = set_sub_flags_u8(0x00, 0x01, 0x80);
    assert_eq!(f, 0x70);
    assert!(f & 0x80 == 0);
}

#[test]
fn inc_and_dec_preserve_seeded_carry() {
    assert_eq!(set_inc_flags_u8(0x05, 0x10) & 0x10, 0x10);
    assert_eq!(set_inc_flags_u8(0x05, 0x00) & 0x10, 0x00);
    assert_eq!(set_dec_flags_u8(0x05, 0x10) & 0x10, 0x10);
    assert_eq!(set_dec_flags_u8(0x05, 0x00) & 0x10, 0x00);
    assert_eq!(set_inc_flags_u8(0xFF, 0x10), 0xA0 | 0x10);
    assert_eq!(set_dec_flags_u8(0x01, 0x00), 0xC0);
}

#[test]
fn adc_carries_through_the_carry_in() {
    let f = set_adc_flags_u8(0xFF, 0x00, true, 0x00);
    assert_eq!(f, 0xB0);
    let f = set_adc_flags_u8(0xFF, 0x00, false, 0x00);
    assert_eq!(f, 0x00);
}

#[test]
fn add16_preserves_zero_and_reports_bit11_carry() {
    let f = set_add_flags_u16(0x0FFF, 0x0001, 0x80);
    assert_eq!(f, 0xA0);
    let f = set_add_flags_u16(0xFFFF, 0x0001, 0x00);
    assert_eq!(f, 0x30);
}

#[test]
fn flag_low_nibble_passes_through() {
    let f = set_add_flags_u8(0x01, 0x01, 0x0F);
    assert_eq!(f & 0x0F, 0x0F);
}

#[test]
fn table_entries_match_the_timing_reference() {
    let nop = instruction_info(0x00);
    assert_eq!(nop.name, "NOP");
    assert_eq!((nop.length, nop.cycles, nop.cycles_taken), (1, 1, 1));

    let ld_a_d8 = instruction_info(0x3E);
    assert_eq!(ld_a_d8.name, "LD");
    assert_eq!((ld_a_d8.length, ld_a_d8.cycles), (2, 2));

    let jp = instruction_info(0xC3);
    assert_eq!(jp.name, "JP");
    assert_eq!((jp.length, jp.cycles, jp.cycles_taken), (3, 4, 4));

    let jr_nz = instruction_info(0x20);
    assert_eq!(jr_nz.name, "JR");
    assert_eq!((jr_nz.length, jr_nz.cycles, jr_nz.cycles_taken), (2, 2, 3));

    let jp_z = instruction_info(0xCA);
    assert_eq!((jp_z.length, jp_z.cycles, jp_z.cycles_taken), (3, 3, 4));

    let call = instruction_info(0xCD);
    assert_eq!(call.name, "CALL");
    assert_eq!((call.length, call.cycles), (3, 6));

    let call_nz = instruction_info(0xC4);
    assert_eq!((call_nz.cycles, call_nz.cycles_taken), (3, 6));

    let ret_nz = instruction_info(0xC0);
    assert_eq!((ret_nz.cycles, ret_nz.cycles_taken), (2, 5));

    let halt = instruction_info(0x76);
    assert_eq!(halt.name, "HALT");
    assert_eq!((halt.length, halt.cycles), (1, 1));

    let add_r = instruction_info(0x80);
    assert_eq!(add_r.name, "ADD");
    assert_eq!((add_r.length, add_r.cycles), (1, 1));

    let add_hl_mem = instruction_info(0x86);
    assert_eq!(add_hl_mem.cycles, 2);

    let ld_mem_d8 = instruction_info(0x36);
    assert_eq!((ld_mem_d8.length, ld_mem_d8.cycles), (2, 3));

    let ld_a16_sp = instruction_info(0x08);
    assert_eq!((ld_a16_sp.length, ld_a16_sp.cycles), (3, 5));

    let illegal = instruction_info(0xD3);
    assert_eq!(illegal.name, "ILLEGAL");
}

#[test]
fn prefixed_entries_match_the_timing_reference() {
    let rlc_b = prefixed_info(0x00);
    assert_eq!(rlc_b.name, "RLC");
    assert_eq!((rlc_b.length, rlc_b.cycles), (2, 2));

    let rlc_mem = prefixed_info(0x06);
    assert_eq!(rlc_mem.cycles, 4);

    let bit_mem = prefixed_info(0x46);
    assert_eq!(bit_mem.name, "BIT");
    assert_eq!(bit_mem.cycles, 3);

    let set_mem = prefixed_info(0xC6);
    assert_eq!(set_mem.name, "SET");
    assert_eq!(set_mem.cycles, 4);

    let swap = prefixed_info(0x37);
    assert_eq!(swap.name, "SWAP");
    assert_eq!(swap.cycles, 2);
}

#[test]
fn illegal_byte_set_is_exactly_the_documented_one() {
    let illegal = [0xD3, 0xDB, 0xDD, 0xE3, 0xE4, 0xEB, 0xEC, 0xED, 0xF4, 0xFC, 0xFD];
    for op in 0..=255u8 {
        assert_eq!(is_illegal(op), illegal.contains(&op));
    }
}

#[test]
fn screen_new_is_blank() {
    let s = Screen::new();
    assert_eq!(s.lcdc, 0);
    assert_eq!(s.scx, 0);
    assert_eq!(s.scy, 0);
    assert!(s.tiledata.iter().all(|b| b.iter().all(|t| t.data.iter().all(|&x| x == 0))));
    assert!(s.tilemaps.iter().all(|m| m.iter().all(|r| r.iter().all(|&x| x == 0))));
}

#[test]
fn test_screen_holds_the_demo_tile() {
    let s = Screen::test_screen();
    assert_eq!(s.lcdc, 0b10010011);
    assert_eq!(s.scx, 0b00000110);
    assert_eq!(s.scy, 0b00000110);
    assert_eq!(
        s.tiledata[0][0].data,
        [0x3C, 0x7E, 0x42, 0x42, 0x42, 0x42, 0x42, 0x42, 0x7E, 0x5E, 0x7E, 0x0A, 0x7C, 0x56, 0x38,
            0x7C]
    );
}

#[test]
fn tile_pixels_decode_two_planes() {
    let t = Tile {
        data: [0x3C, 0x7E, 0x42, 0x42, 0x42, 0x42, 0x42, 0x42, 0x7E, 0x5E, 0x7E, 0x0A, 0x7C, 0x56,
            0x38, 0x7C],
    };
    // Row 0: low plane 0x3C, high plane 0x7E.
    assert_eq!(tile_pixel(&t, 0, 0), 0);
    assert_eq!(tile_pixel(&t, 0, 1), 2);
    assert_eq!(tile_pixel(&t, 0, 2), 3);
    assert_eq!(tile_pixel(&t, 0, 6), 2);
    assert_eq!(tile_pixel(&t, 0, 7), 0);
    // Row 1: both planes 0x42.
    assert_eq!(tile_pixel(&t, 1, 1), 3);
    assert_eq!(tile_pixel(&t, 1, 2), 0);
}

//! Tests for cartridge image validation and the bank controller, driven
//! through the address space.

use jage::cpu::Cpu;
use jage::rom::Rom;
use jage::{ConfigFault, EmuError};

const LOGO: [u8; 48] = [
    0xCE, 0xED, 0x66, 0x66, 0xCC, 0x0D, 0x00, 0x0B, 0x03, 0x73, 0x00, 0x83, 0x00, 0x0C, 0x00,
    0x0D, 0x00, 0x08, 0x11, 0x1F, 0x88, 0x89, 0x00, 0x0E, 0xDC, 0xCC, 0x6E, 0xE6, 0xDD, 0xDD,
    0xD9, 0x99, 0xBB, 0xBB, 0x67, 0x63, 0x6E, 0x0E, 0xEC, 0xCC, 0xDD, 0xDC, 0x99, 0x9F, 0xBB,
    0xB9, 0x33, 0x3E,
];

/// A valid image of `banks` 16 KiB banks with the given header bytes.
fn build_image(banks: usize, cartridge_type: u8, rom_size: u8, ram_size: u8) -> Vec<u8> {
    let mut data = vec![0u8; 0x4000 * banks];
    data[0x0104..0x0134].copy_from_slice(&LOGO);
    data[0x0147] = cartridge_type;
    data[0x0148] = rom_size;
    data[0x0149] = ram_size;
    let mut checksum: u8 = 0;
    for i in 0x0134..0x014D {
        checksum = checksum.wrapping_sub(data[i]).wrapping_sub(1);
    }
    data[0x014D] = checksum;
    data
}

#[test]
fn valid_image_parses_header_fields() {
    let mut data = build_image(2, 0x13, 0x00, 0x02);
    data[0x0134..0x013F].copy_from_slice(b"DEMO TITLE ");
    let mut checksum: u8 = 0;
    for i in 0x0134..0x014D {
        checksum = checksum.wrapping_sub(data[i]).wrapping_sub(1);
    }
    data[0x014D] = checksum;
    let rom = Rom::from_bytes(data).unwrap();
    assert_eq!(rom.cartridge_type, 0x13);
    assert_eq!(rom.rom_size, 0x00);
    assert_eq!(rom.ram_size, 0x02);
    assert_eq!(rom.title, b"DEMO TITLE ");
    assert_eq!(rom.bank_count(), 2);
    // The old-format licensee byte is zero here, so it lands in the
    // second slot with the first left clear.
    assert_eq!(rom.licensee_code, [0x00, 0x00]);
}

#[test]
fn empty_or_ragged_image_is_rejected() {
    let r = Rom::from_bytes(Vec::new());
    assert_eq!(r.err().unwrap(), EmuError::Configuration(ConfigFault::BadSize));
    let r = Rom::from_bytes(vec![0u8; 100]);
    assert_eq!(r.err().unwrap(), EmuError::Configuration(ConfigFault::BadSize));
}

#[test]
fn image_shorter_than_declared_bank_count_is_rejected() {
    // Two banks of data, but a header declaring four.
    let data = build_image(2, 0x13, 0x01, 0x00);
    let r = Rom::from_bytes(data);
    assert_eq!(r.err().unwrap(), EmuError::Configuration(ConfigFault::BadSize));
}

#[test]
fn broken_logo_is_rejected() {
    let mut data = build_image(2, 0x13, 0x00, 0x00);
    data[0x0104] ^= 0xFF;
    let r = Rom::from_bytes(data);
    assert_eq!(r.err().unwrap(), EmuError::Configuration(ConfigFault::BadLogo));
}

#[test]
fn broken_checksum_is_rejected() {
    let mut data = build_image(2, 0x13, 0x00, 0x00);
    data[0x014D] = data[0x014D].wrapping_add(1);
    let r = Rom::from_bytes(data);
    assert_eq!(r.err().unwrap(), EmuError::Configuration(ConfigFault::BadChecksum));
}

#[test]
fn unknown_ram_size_code_is_rejected() {
    let data = build_image(2, 0x13, 0x00, 0x06);
    let r = Rom::from_bytes(data);
    assert_eq!(r.err().unwrap(), EmuError::Configuration(ConfigFault::BadRamSize));
}

#[test]
fn unsupported_controller_type_is_rejected_at_construction() {
    let data = build_image(2, 0x99, 0x00, 0x00);
    let rom = Rom::from_bytes(data).unwrap();
    match Cpu::new(rom) {
        Ok(_) => panic!("a cartridge type naming no controller family must be rejected"),
        Err(e) => {
            assert_eq!(e, EmuError::Configuration(ConfigFault::UnsupportedController));
        },
    }
}

/// A four-bank cartridge with one distinctive byte per bank at the same
/// in-bank offset, probed through the switchable window at 0x4100.
fn four_bank_cpu() -> Cpu {
    let mut data = build_image(4, 0x13, 0x01, 0x00);
    data[0x0100] = 0xAA;
    data[0x4100] = 0xBB;
    data[0x8100] = 0xCC;
    data[0xC100] = 0xDD;
    let rom = Rom::from_bytes(data).unwrap();
    match Cpu::new(rom) {
        Ok(cpu) => cpu,
        Err(_) => panic!("construction must succeed"),
    }
}

#[test]
fn bank_zero_resolves_to_the_same_data_as_bank_one() {
    let mut cpu = four_bank_cpu();
    cpu.write_to_memory(0x2000, 1).unwrap();
    let via_one = cpu.read_from_memory(0x4100).unwrap();
    cpu.write_to_memory(0x2000, 0).unwrap();
    let via_zero = cpu.read_from_memory(0x4100).unwrap();
    assert_eq!(via_zero, via_one);
    assert_eq!(via_zero, 0xAA);
}

#[test]
fn bank_selection_routes_the_switchable_window() {
    let mut cpu = four_bank_cpu();
    assert_eq!(cpu.read_from_memory(0x4100).unwrap(), 0xAA);
    cpu.write_to_memory(0x2000, 2).unwrap();
    assert_eq!(cpu.read_from_memory(0x4100).unwrap(), 0xBB);
    cpu.write_to_memory(0x2000, 3).unwrap();
    assert_eq!(cpu.read_from_memory(0x4100).unwrap(), 0xCC);
    cpu.write_to_memory(0x2000, 4).unwrap();
    assert_eq!(cpu.read_from_memory(0x4100).unwrap(), 0xDD);
    // The fixed window is not affected by the selection.
    assert_eq!(cpu.read_from_memory(0x0100).unwrap(), 0xAA);
}

#[test]
fn bank_beyond_declared_count_is_normalized() {
    let mut cpu = four_bank_cpu();
    // Five banks past the window wrap cyclically back to bank one.
    cpu.write_to_memory(0x2000, 5).unwrap();
    assert_eq!(cpu.read_from_memory(0x4100).unwrap(), 0xAA);
    cpu.write_to_memory(0x2000, 6).unwrap();
    assert_eq!(cpu.read_from_memory(0x4100).unwrap(), 0xBB);
}

#[test]
fn bankless_controller_ignores_control_writes() {
    let mut data = build_image(2, 0x00, 0x00, 0x00);
    data[0x0000] = 0x11;
    let rom = Rom::from_bytes(data).unwrap();
    let mut cpu = match Cpu::new(rom) {
        Ok(cpu) => cpu,
        Err(_) => panic!("construction must succeed"),
    };
    assert_eq!(cpu.read_from_memory(0x4000).unwrap(), 0x11);
    cpu.write_to_memory(0x2000, 2).unwrap();
    assert_eq!(cpu.read_from_memory(0x4000).unwrap(), 0x11);
}

#[test]
fn cartridge_ram_is_gated_by_the_enable_register() {
    let data = build_image(2, 0x13, 0x00, 0x02);
    let rom = Rom::from_bytes(data).unwrap();
    let mut cpu = match Cpu::new(rom) {
        Ok(cpu) => cpu,
        Err(_) => panic!("construction must succeed"),
    };
    // Disabled RAM reads as 0xFF and swallows writes.
    assert_eq!(cpu.read_from_memory(0xA000).unwrap(), 0xFF);
    cpu.write_to_memory(0xA000, 0x55).unwrap();
    assert_eq!(cpu.read_from_memory(0xA000).unwrap(), 0xFF);
    // Enabled RAM holds data.
    cpu.write_to_memory(0x0000, 0x0A).unwrap();
    assert_eq!(cpu.read_from_memory(0xA000).unwrap(), 0x00);
    cpu.write_to_memory(0xA000, 0x55).unwrap();
    assert_eq!(cpu.read_from_memory(0xA000).unwrap(), 0x55);
    // Disabling hides it again.
    cpu.write_to_memory(0x0000, 0x00).unwrap();
    assert_eq!(cpu.read_from_memory(0xA000).unwrap(), 0xFF);
}

#[test]
fn unmapped_addresses_fault() {
    let cpu = four_bank_cpu();
    assert_eq!(
        cpu.read_from_memory(0xFE00).err().unwrap(),
        EmuError::UnmappedAddress(0xFE00)
    );
    let mut cpu = four_bank_cpu();
    assert_eq!(
        cpu.write_to_memory(0xFFFF, 1).err().unwrap(),
        EmuError::UnmappedAddress(0xFFFF)
    );
    // The display registers are mapped.
    cpu.write_to_memory(0xFF40, 0x91).unwrap();
    assert_eq!(cpu.read_from_memory(0xFF40).unwrap(), 0x91);
    cpu.write_to_memory(0xFF42, 0x05).unwrap();
    cpu.write_to_memory(0xFF43, 0x07).unwrap();
    assert_eq!(cpu.read_from_memory(0xFF42).unwrap(), 0x05);
    assert_eq!(cpu.read_from_memory(0xFF43).unwrap(), 0x07);
}

//! Cartridge image: the raw bytes plus the parsed header fields, with
//! the validation the loader performs before the core will execute from
//! the image.
//!
//! Reading the image from disk is the host's job; this module takes the
//! bytes and checks the fixed logo bitmap, the header checksum, and that
//! the image length matches the bank count the header declares.

use vstd::prelude::*;
use crate::ConfigFault;
use crate::EmuError;

verus! {

/// The fixed 48-byte logo bitmap every valid header carries at
/// 0x0104..0x0134.
pub open spec fn spec_logo() -> Seq<u8> {
    seq![
        0xCEu8, 0xED, 0x66, 0x66, 0xCC, 0x0D, 0x00, 0x0B, 0x03, 0x73, 0x00, 0x83, 0x00, 0x0C,
        0x00, 0x0D, 0x00, 0x08, 0x11, 0x1F, 0x88, 0x89, 0x00, 0x0E, 0xDC, 0xCC, 0x6E, 0xE6,
        0xDD, 0xDD, 0xD9, 0x99, 0xBB, 0xBB, 0x67, 0x63, 0x6E, 0x0E, 0xEC, 0xCC, 0xDD, 0xDC,
        0x99, 0x9F, 0xBB, 0xB9, 0x33, 0x3E,
    ]
}

/// 8-bit wrapping subtraction.
pub open spec fn wsub(a: u8, b: u8) -> u8 {
    if a >= b {
        (a - b) as u8
    } else {
        (a + 0x100 - b) as u8
    }
}

/// The header checksum over the first `n` bytes of 0x0134..0x014D:
/// starting from zero, each byte and an extra one are subtracted with
/// 8-bit wraparound.
pub open spec fn spec_checksum_upto(data: Seq<u8>, n: int) -> u8
    decreases n,
{
    if n <= 0 {
        0
    } else {
        wsub(wsub(spec_checksum_upto(data, n - 1), data[0x0134 + n - 1]), 1)
    }
}

/// How many 16 KiB ROM banks a ROM-size header code declares; zero for a
/// code this core does not know.
pub open spec fn spec_rom_bank_count(size_code: u8) -> u16 {
    match size_code {
        0 => 2,
        1 => 4,
        2 => 8,
        3 => 16,
        4 => 32,
        5 => 64,
        6 => 128,
        7 => 256,
        8 => 512,
        _ => 0,
    }
}

/// How many 8 KiB RAM banks a RAM-size header code declares; invalid
/// codes are rejected separately.
pub open spec fn spec_ram_bank_count(size_code: u8) -> u8 {
    match size_code {
        2 => 1,
        3 => 4,
        4 => 16,
        5 => 8,
        _ => 0,
    }
}

/// The image is non-empty, a whole number of bank pairs, and exactly as
/// long as the bank count its header declares.
pub open spec fn size_ok(data: Seq<u8>) -> bool {
    &&& data.len() > 0
    &&& data.len() % 0x8000 == 0
    &&& spec_rom_bank_count(data[0x0148]) > 0
    &&& data.len() == 0x4000 * spec_rom_bank_count(data[0x0148])
}

/// The logo bitmap at 0x0104..0x0134 matches the fixed one.
pub open spec fn logo_ok(data: Seq<u8>) -> bool {
    forall|i: int| 0 <= i < 48 ==> data[0x0104 + i] == spec_logo()[i]
}

/// The checksum over the 25 header bytes equals the stored checksum byte.
pub open spec fn checksum_ok(data: Seq<u8>) -> bool {
    spec_checksum_upto(data, 25) == data[0x014D]
}

/// The RAM-size header code is one this core knows.
pub open spec fn ram_size_ok(data: Seq<u8>) -> bool {
    data[0x0149] <= 5
}

/// A validated cartridge image with its parsed header fields.
pub struct Rom {
    /// The whole image, indexed by the address space through the bank
    /// controller.
    pub data: Vec<u8>,
    /// Title bytes from 0x0134..0x013F.
    pub title: Vec<u8>,
    /// Manufacturing code bytes from 0x013F..0x0143.
    pub manufacturing_code: Vec<u8>,
    /// Enhanced-display flag byte.
    pub cgb: u8,
    /// Two licensee code bytes; the new-format pair when the old-format
    /// byte is 0x33, else the old-format byte alone in the second slot.
    pub licensee_code: Vec<u8>,
    /// Alternate-console flag byte at 0x0146.
    pub sgb: u8,
    /// Cartridge type byte at 0x0147, naming the bank controller family.
    pub cartridge_type: u8,
    /// ROM size code at 0x0148.
    pub rom_size: u8,
    /// RAM size code at 0x0149.
    pub ram_size: u8,
}

impl Rom {
    /// A well-formed image: validated, with the header fields holding
    /// exactly what the image's header bytes hold.
    pub open spec fn wf(&self) -> bool {
        &&& size_ok(self.data@)
        &&& logo_ok(self.data@)
        &&& checksum_ok(self.data@)
        &&& ram_size_ok(self.data@)
        &&& self.rom_size == self.data@[0x0148]
        &&& self.ram_size == self.data@[0x0149]
        &&& self.cartridge_type == self.data@[0x0147]
    }

    /// The bank count the header declares.
    pub open spec fn spec_bank_count(&self) -> u16 {
        spec_rom_bank_count(self.rom_size)
    }

    /// Validate a cartridge image and parse its header. Returns the
    /// image exactly when its size matches the declared bank count, the
    /// logo matches, the checksum matches and the RAM size code is
    /// known; otherwise the configuration fault of the first check that
    /// failed, in that order.
    pub fn from_bytes(data: Vec<u8>) -> (r: Result<Rom, EmuError>)
        ensures
            match r {
                Ok(rom) => {
                    &&& size_ok(data@)
                    &&& logo_ok(data@)
                    &&& checksum_ok(data@)
                    &&& ram_size_ok(data@)
                    &&& rom.wf()
                    &&& rom.data@ == data@
                    &&& rom.title@ == data@.subrange(0x0134, 0x013F)
                    &&& rom.manufacturing_code@ == data@.subrange(0x013F, 0x0143)
                    &&& rom.licensee_code@ == if data@[0x014B] == 0x33 {
                        seq![data@[0x0144], data@[0x0145]]
                    } else {
                        seq![0u8, data@[0x014B]]
                    }
                    &&& rom.cgb == data@[0x0134]
                    &&& rom.sgb == data@[0x0146]
                    &&& rom.cartridge_type == data@[0x0147]
                    &&& rom.rom_size == data@[0x0148]
                    &&& rom.ram_size == data@[0x0149]
                },
                Err(e) => {
                    &&& (e == EmuError::Configuration(ConfigFault::BadSize) <==> !size_ok(data@))
                    &&& (e == EmuError::Configuration(ConfigFault::BadLogo) <==> size_ok(data@)
                        && !logo_ok(data@))
                    &&& (e == EmuError::Configuration(ConfigFault::BadChecksum) <==> size_ok(data@)
                        && logo_ok(data@) && !checksum_ok(data@))
                    &&& (e == EmuError::Configuration(ConfigFault::BadRamSize) <==> size_ok(data@)
                        && logo_ok(data@) && checksum_ok(data@) && !ram_size_ok(data@))
                },
            },
            r is Ok <==> size_ok(data@) && logo_ok(data@) && checksum_ok(data@) && ram_size_ok(
                data@,
            ),
    {
        if !check_size(&data) {
            return Err(EmuError::Configuration(ConfigFault::BadSize));
        }
        if !check_logo(&data) {
            return Err(EmuError::Configuration(ConfigFault::BadLogo));
        }
        if !check_checksum(&data) {
            return Err(EmuError::Configuration(ConfigFault::BadChecksum));
        }
        if data[0x0149] > 5 {
            return Err(EmuError::Configuration(ConfigFault::BadRamSize));
        }
        let title = copy_range(&data, 0x0134, 0x013F);
        let manufacturing_code = copy_range(&data, 0x013F, 0x0143);
        let mut licensee_code: Vec<u8> = Vec::new();
        if data[0x014B] == 0x33 {
            licensee_code.push(data[0x0144]);
            licensee_code.push(data[0x0145]);
        } else {
            licensee_code.push(0);
            licensee_code.push(data[0x014B]);
        }
        let cgb = data[0x0134];
        let sgb = data[0x0146];
        let cartridge_type = data[0x0147];
        let rom_size = data[0x0148];
        let ram_size = data[0x0149];
        Ok(
            Rom {
                data,
                title,
                manufacturing_code,
                cgb,
                licensee_code,
                sgb,
                cartridge_type,
                rom_size,
                ram_size,
            },
        )
    }

    /// How many 16 KiB ROM banks the header declares.
    pub fn bank_count(&self) -> (r: u16)
        requires
            self.wf(),
        ensures
            r == self.spec_bank_count(),
            2 <= r <= 512,
    {
        rom_bank_count_of(self.rom_size)
    }
}

/// The bank count a ROM-size header code declares; zero for an unknown
/// code.
pub fn rom_bank_count_of(size_code: u8) -> (r: u16)
    ensures
        r == spec_rom_bank_count(size_code),
{
    match size_code {
        0 => 2,
        1 => 4,
        2 => 8,
        3 => 16,
        4 => 32,
        5 => 64,
        6 => 128,
        7 => 256,
        8 => 512,
        _ => 0,
    }
}

/// The RAM bank count a RAM-size header code declares.
pub fn ram_bank_count_of(size_code: u8) -> (r: u8)
    ensures
        r == spec_ram_bank_count(size_code),
{
    match size_code {
        2 => 1,
        3 => 4,
        4 => 16,
        5 => 8,
        _ => 0,
    }
}

fn check_size(data: &Vec<u8>) -> (r: bool)
    ensures
        r == size_ok(data@),
{
    if data.len() == 0 || data.len() % 0x8000 != 0 {
        return false;
    }
    let banks = rom_bank_count_of(data[0x0148]);
    banks > 0 && data.len() == 0x4000 * (banks as usize)
}

fn check_logo(data: &Vec<u8>) -> (r: bool)
    requires
        data@.len() >= 0x0134,
    ensures
        r == logo_ok(data@),
{
    let logo: Vec<u8> = vec![
        0xCEu8, 0xED, 0x66, 0x66, 0xCC, 0x0D, 0x00, 0x0B, 0x03, 0x73, 0x00, 0x83, 0x00, 0x0C,
        0x00, 0x0D, 0x00, 0x08, 0x11, 0x1F, 0x88, 0x89, 0x00, 0x0E, 0xDC, 0xCC, 0x6E, 0xE6,
        0xDD, 0xDD, 0xD9, 0x99, 0xBB, 0xBB, 0x67, 0x63, 0x6E, 0x0E, 0xEC, 0xCC, 0xDD, 0xDC,
        0x99, 0x9F, 0xBB, 0xB9, 0x33, 0x3E,
    ];
    assert(logo@ =~= spec_logo());
    let mut i: usize = 0;
    while i < 48
        invariant
            0 <= i <= 48,
            data@.len() >= 0x0134,
            logo@ == spec_logo(),
            forall|j: int| 0 <= j < i ==> data@[0x0104 + j] == spec_logo()[j],
        decreases 48 - i,
    {
        if data[0x0104 + i] != logo[i] {
            return false;
        }
        i = i + 1;
    }
    true
}

/// 8-bit wrapping subtraction.
fn wrapping_sub_u8(a: u8, b: u8) -> (r: u8)
    ensures
        r == wsub(a, b),
{
    if a >= b {
        a - b
    } else {
        (a as u16 + 0x100 - b as u16) as u8
    }
}

fn check_checksum(data: &Vec<u8>) -> (r: bool)
    requires
        data@.len() >= 0x014E,
    ensures
        r == checksum_ok(data@),
{
    let mut checksum: u8 = 0;
    let mut i: usize = 0;
    while i < 25
        invariant
            0 <= i <= 25,
            data@.len() >= 0x014E,
            checksum == spec_checksum_upto(data@, i as int),
        decreases 25 - i,
    {
        checksum = wrapping_sub_u8(wrapping_sub_u8(checksum, data[0x0134 + i]), 1);
        i = i + 1;
    }
    checksum == data[0x014D]
}

fn copy_range(data: &Vec<u8>, from: usize, to: usize) -> (r: Vec<u8>)
    requires
        from <= to <= data@.len(),
    ensures
        r@ == data@.subrange(from as int, to as int),
{
    let mut out: Vec<u8> = Vec::new();
    let mut i: usize = from;
    while i < to
        invariant
            from <= i <= to <= data@.len(),
            out@ == data@.subrange(from as int, i as int),
        decreases to - i,
    {
        out.push(data[i]);
        assert(out@ =~= data@.subrange(from as int, i + 1 as int));
        i = i + 1;
    }
    out
}

} // verus!

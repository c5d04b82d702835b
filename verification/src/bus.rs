//! Address space: routes every 16-bit CPU address to cartridge data,
//! video memory, cartridge RAM, work memory or a display register,
//! consulting the bank controller for the switchable cartridge window.
//!
//! Writes landing in the cartridge ROM range are control writes: they
//! update the bank controller instead of any backing memory. Any address
//! outside every recognized region is an unmapped-access fault, never a
//! silent no-op.

use vstd::prelude::*;
use crate::EmuError;
use crate::mbc::Mbc;
use crate::mbc::spec_control_write;
use crate::rom::Rom;
use crate::rom::spec_ram_bank_count;
use crate::rom::spec_rom_bank_count;

verus! {

/// The mathematical model of the address space: the raw byte stores and
/// the bank-controller state that routing consults.
pub ghost struct BusView {
    pub rom: Seq<u8>,
    pub mbc: Mbc,
    pub vram: Seq<u8>,
    pub wram: Seq<u8>,
    pub eram: Seq<u8>,
    pub lcdc: u8,
    pub scy: u8,
    pub scx: u8,
}

/// True of every address some region recognizes; reads and writes of any
/// other address fault.
pub open spec fn addr_mapped(a: u16) -> bool {
    a < 0xE000 || a == 0xFF40 || a == 0xFF42 || a == 0xFF43
}

/// Internal consistency of a bus: the controller is well formed and each
/// store has exactly the length its bank count declares.
pub open spec fn bus_wf(b: BusView) -> bool {
    &&& b.mbc.wf()
    &&& b.rom.len() == 0x4000 * b.mbc.rom_bank_count
    &&& b.vram.len() == 0x2000
    &&& b.wram.len() == 0x2000
    &&& b.eram.len() == 0x2000 * b.mbc.ram_bank_count
}

/// The byte a read of address `a` returns. The switchable window reads
/// the cartridge at `(a - 0x4000) + 0x4000 * (active_bank - 1)`;
/// disabled or absent cartridge RAM reads as 0xFF.
pub open spec fn spec_bus_read(b: BusView, a: u16) -> u8
    recommends
        addr_mapped(a),
        bus_wf(b),
{
    if a < 0x4000 {
        b.rom[a as int]
    } else if a < 0x8000 {
        b.rom[(a - 0x4000) + 0x4000 * (b.mbc.active_bank - 1)]
    } else if a < 0xA000 {
        b.vram[a - 0x8000]
    } else if a < 0xC000 {
        if b.mbc.ram_enabled && b.mbc.ram_bank_count > 0 {
            b.eram[0x2000 * b.mbc.ram_bank + (a - 0xA000)]
        } else {
            0xFF
        }
    } else if a < 0xE000 {
        b.wram[a - 0xC000]
    } else if a == 0xFF40 {
        b.lcdc
    } else if a == 0xFF42 {
        b.scy
    } else {
        b.scx
    }
}

/// The bus after a write of `v` to address `a`. A write into the
/// cartridge ROM range is a control write into the bank controller; a
/// write into disabled or absent cartridge RAM is ignored, as the
/// hardware ignores it.
pub open spec fn spec_bus_write(b: BusView, a: u16, v: u8) -> BusView
    recommends
        addr_mapped(a),
        bus_wf(b),
{
    if a < 0x8000 {
        BusView { mbc: spec_control_write(b.mbc, a, v), ..b }
    } else if a < 0xA000 {
        BusView { vram: b.vram.update((a - 0x8000) as int, v), ..b }
    } else if a < 0xC000 {
        if b.mbc.ram_enabled && b.mbc.ram_bank_count > 0 {
            BusView { eram: b.eram.update(0x2000 * b.mbc.ram_bank + (a - 0xA000), v), ..b }
        } else {
            b
        }
    } else if a < 0xE000 {
        BusView { wram: b.wram.update((a - 0xC000) as int, v), ..b }
    } else if a == 0xFF40 {
        BusView { lcdc: v, ..b }
    } else if a == 0xFF42 {
        BusView { scy: v, ..b }
    } else {
        BusView { scx: v, ..b }
    }
}

/// Law: a write to a mapped address keeps the bus well formed — in
/// particular a control write leaves the active bank normalized into the
/// declared bank count.
pub proof fn lemma_bus_write_preserves_wf(b: BusView, a: u16, v: u8)
    requires
        bus_wf(b),
    ensures
        bus_wf(spec_bus_write(b, a, v)),
{
    if a < 0x8000 {
        match b.mbc.kind {
            crate::mbc::MbcKind::RomOnly => {},
            crate::mbc::MbcKind::Mbc3 => {
                if 0x2000 <= a < 0x4000 {
                    crate::mbc::lemma_normalize_in_range(v, b.mbc.rom_bank_count);
                }
            },
        }
    }
}

/// Law: on the banked controller family, selecting bank index zero for
/// the switchable window leaves the bus in exactly the state selecting
/// bank one does — every subsequent read resolves to the same data.
pub proof fn lemma_select_zero_equals_select_one(b: BusView, ctrl: u16)
    requires
        bus_wf(b),
        b.mbc.kind == crate::mbc::MbcKind::Mbc3,
        0x2000 <= ctrl < 0x4000,
    ensures
        spec_bus_write(b, ctrl, 0) == spec_bus_write(b, ctrl, 1),
{
    crate::mbc::lemma_bank_zero_aliases_one(b.mbc.rom_bank_count);
}

/// The address space: cartridge image, bank controller, video memory,
/// work memory, cartridge RAM and the display registers.
pub struct AddressSpace {
    /// The cartridge image being executed.
    pub rom: Rom,
    /// The cartridge's bank controller.
    pub mbc: Mbc,
    /// Video memory, 0x8000..0xA000.
    pub vram: Vec<u8>,
    /// Cartridge RAM, banked into 0xA000..0xC000.
    pub eram: Vec<u8>,
    /// Work memory, 0xC000..0xE000.
    pub wram: Vec<u8>,
    /// Display control register at 0xFF40.
    pub lcdc: u8,
    /// Vertical scroll register at 0xFF42.
    pub scy: u8,
    /// Horizontal scroll register at 0xFF43.
    pub scx: u8,
}

impl View for AddressSpace {
    type V = BusView;

    open spec fn view(&self) -> BusView {
        BusView {
            rom: self.rom.data@,
            mbc: self.mbc,
            vram: self.vram@,
            wram: self.wram@,
            eram: self.eram@,
            lcdc: self.lcdc,
            scy: self.scy,
            scx: self.scx,
        }
    }
}

/// A vector of `n` zero bytes.
fn zero_vec(n: usize) -> (v: Vec<u8>)
    ensures
        v@ =~= Seq::new(n as nat, |i: int| 0u8),
{
    let mut v: Vec<u8> = Vec::new();
    let mut i: usize = 0;
    while i < n
        invariant
            0 <= i <= n,
            v@ =~= Seq::new(i as nat, |j: int| 0u8),
        decreases n - i,
    {
        v.push(0);
        i = i + 1;
    }
    v
}

impl AddressSpace {
    /// Internal consistency; everything the routing rules assume.
    pub open spec fn wf(&self) -> bool {
        bus_wf(self@)
    }

    /// Build the address space around a validated cartridge: controller
    /// at power-on state, zeroed video, work and cartridge RAM. Faults
    /// exactly when the cartridge type names no supported controller
    /// family.
    pub fn new(rom: Rom) -> (r: Result<AddressSpace, EmuError>)
        requires
            rom.wf(),
        ensures
            match r {
                Ok(bus) => {
                    &&& bus.wf()
                    &&& Mbc::spec_kind_of(rom.cartridge_type) == Some(bus.mbc.kind)
                    &&& bus.rom == rom
                    &&& bus.mbc.active_bank == 1
                    &&& bus.mbc.ram_bank == 0
                    &&& !bus.mbc.ram_enabled
                    &&& bus.mbc.rom_bank_count == spec_rom_bank_count(rom.rom_size)
                    &&& bus.mbc.ram_bank_count == spec_ram_bank_count(rom.ram_size)
                    &&& bus.vram@ =~= Seq::new(0x2000, |i: int| 0u8)
                    &&& bus.wram@ =~= Seq::new(0x2000, |i: int| 0u8)
                    &&& bus.eram@ =~= Seq::new(
                        0x2000 * bus.mbc.ram_bank_count as nat,
                        |i: int| 0u8,
                    )
                    &&& bus.lcdc == 0 && bus.scy == 0 && bus.scx == 0
                },
                Err(e) => {
                    &&& Mbc::spec_kind_of(rom.cartridge_type) is None
                    &&& e == EmuError::Configuration(crate::ConfigFault::UnsupportedController)
                },
            },
    {
        let rom_banks = rom.bank_count();
        let ram_banks = crate::rom::ram_bank_count_of(rom.ram_size);
        let mbc = match Mbc::new(rom.cartridge_type, rom_banks, ram_banks) {
            Ok(m) => m,
            Err(e) => {
                return Err(e);
            },
        };
        let vram = zero_vec(0x2000);
        let wram = zero_vec(0x2000);
        let eram = zero_vec(0x2000 * (ram_banks as usize));
        Ok(AddressSpace { rom, mbc, vram, eram, wram, lcdc: 0, scy: 0, scx: 0 })
    }

    /// Whether `a` lies in some recognized region.
    pub fn is_mapped(&self, a: u16) -> (r: bool)
        ensures
            r == addr_mapped(a),
    {
        a < 0xE000 || a == 0xFF40 || a == 0xFF42 || a == 0xFF43
    }

    /// Read the byte at address `a`, faulting on an unmapped address.
    pub fn read(&self, a: u16) -> (r: Result<u8, EmuError>)
        requires
            self.wf(),
        ensures
            match r {
                Ok(v) => addr_mapped(a) && v == spec_bus_read(self@, a),
                Err(e) => !addr_mapped(a) && e == EmuError::UnmappedAddress(a),
            },
    {
        if a < 0x4000 {
            Ok(self.rom.data[a as usize])
        } else if a < 0x8000 {
            let off: usize = (a as usize - 0x4000) + 0x4000 * (self.mbc.active_bank as usize - 1);
            Ok(self.rom.data[off])
        } else if a < 0xA000 {
            Ok(self.vram[a as usize - 0x8000])
        } else if a < 0xC000 {
            if self.mbc.ram_enabled && self.mbc.ram_bank_count > 0 {
                let off: usize = 0x2000 * (self.mbc.ram_bank as usize) + (a as usize - 0xA000);
                Ok(self.eram[off])
            } else {
                Ok(0xFF)
            }
        } else if a < 0xE000 {
            Ok(self.wram[a as usize - 0xC000])
        } else if a == 0xFF40 {
            Ok(self.lcdc)
        } else if a == 0xFF42 {
            Ok(self.scy)
        } else if a == 0xFF43 {
            Ok(self.scx)
        } else {
            Err(EmuError::UnmappedAddress(a))
        }
    }

    /// Write `v` to address `a`, faulting on an unmapped address and
    /// leaving the bus unchanged in that case.
    pub fn write(&mut self, a: u16, v: u8) -> (r: Result<(), EmuError>)
        requires
            old(self).wf(),
        ensures
            final(self).wf(),
            final(self).rom.data == old(self).rom.data,
            match r {
                Ok(()) => addr_mapped(a) && final(self)@ == spec_bus_write(old(self)@, a, v),
                Err(e) => !addr_mapped(a) && e == EmuError::UnmappedAddress(a) && *final(self)
                    == *old(self),
            },
    {
        proof {
            lemma_bus_write_preserves_wf(self@, a, v);
        }
        if a < 0x8000 {
            self.mbc.control_write(a, v);
            Ok(())
        } else if a < 0xA000 {
            self.vram[a as usize - 0x8000] = v;
            Ok(())
        } else if a < 0xC000 {
            if self.mbc.ram_enabled && self.mbc.ram_bank_count > 0 {
                let off: usize = 0x2000 * (self.mbc.ram_bank as usize) + (a as usize - 0xA000);
                self.eram[off] = v;
            }
            Ok(())
        } else if a < 0xE000 {
            self.wram[a as usize - 0xC000] = v;
            Ok(())
        } else if a == 0xFF40 {
            self.lcdc = v;
            Ok(())
        } else if a == 0xFF42 {
            self.scy = v;
            Ok(())
        } else if a == 0xFF43 {
            self.scx = v;
            Ok(())
        } else {
            Err(EmuError::UnmappedAddress(a))
        }
    }
}

} // verus!

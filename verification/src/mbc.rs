//! Bank controller: the cartridge-side state that remaps the switchable
//! ROM window onto the larger image, plus the RAM bank selection and
//! RAM-enable gate.
//!
//! The controller is polymorphic over cartridge families: each variant
//! has its own rule for normalizing a requested bank index into the
//! declared bank count. The family modeled in full keeps a 7-bit bank
//! register, treats a request of zero as one (a hardware quirk), and
//! wraps a request beyond the declared count cyclically back into the
//! range starting at one. The plain, bankless family pins the window to
//! bank one and ignores every control write.

use vstd::prelude::*;
use crate::ConfigFault;
use crate::EmuError;

verus! {

/// A supported bank-controller family.
#[derive(Clone, Copy, Debug, PartialEq, Eq, Structural)]
pub enum MbcKind {
    /// No banking hardware: the switchable window is pinned to bank one
    /// and control writes do nothing.
    RomOnly,
    /// The banked family: 7-bit bank register, zero aliases to one,
    /// optional RAM banking behind an enable gate.
    Mbc3,
}

/// Bank-controller state. Mutated only through address-space writes to
/// the control address ranges.
#[derive(Clone, Copy, Debug, PartialEq, Eq, Structural)]
pub struct Mbc {
    /// The controller family.
    pub kind: MbcKind,
    /// How many 16 KiB ROM banks the cartridge declares; at least 2.
    pub rom_bank_count: u16,
    /// The bank the switchable window shows; always in
    /// `1..=rom_bank_count`.
    pub active_bank: u16,
    /// How many 8 KiB RAM banks the cartridge declares; may be 0.
    pub ram_bank_count: u8,
    /// The selected RAM bank; below `ram_bank_count`, or 0 when there is
    /// no RAM.
    pub ram_bank: u8,
    /// Whether cartridge RAM is enabled; reads of disabled RAM see 0xFF
    /// and writes to it are ignored.
    pub ram_enabled: bool,
}

/// The banked family's normalization rule: keep the low 7 bits, read a
/// request of zero as one, then wrap cyclically into `1..=count`.
pub open spec fn spec_normalize_mbc3(requested: u8, count: u16) -> u16
    recommends
        count >= 1,
{
    let b = (requested % 0x80) as u16;
    let b1: u16 = if b == 0 {
        1
    } else {
        b
    };
    (((b1 - 1) % (count as int)) + 1) as u16
}

/// The bank a requested index resolves to, per the controller's own
/// family rule.
pub open spec fn spec_normalize_bank(m: Mbc, requested: u8) -> u16
    recommends
        m.rom_bank_count >= 1,
{
    match m.kind {
        MbcKind::RomOnly => 1,
        MbcKind::Mbc3 => spec_normalize_mbc3(requested, m.rom_bank_count),
    }
}

/// The controller state after a write of `v` to control address `a`
/// (below 0x8000). The banked family splits the control space into the
/// RAM-enable gate, the ROM bank register, the RAM bank register, and an
/// ignored top quarter; the bankless family ignores everything.
pub open spec fn spec_control_write(m: Mbc, a: u16, v: u8) -> Mbc
    recommends
        a < 0x8000,
{
    match m.kind {
        MbcKind::RomOnly => m,
        MbcKind::Mbc3 => if a < 0x2000 {
            Mbc { ram_enabled: v % 0x10 == 0x0A, ..m }
        } else if a < 0x4000 {
            Mbc { active_bank: spec_normalize_mbc3(v, m.rom_bank_count), ..m }
        } else if a < 0x6000 {
            if m.ram_bank_count > 0 {
                Mbc { ram_bank: (v % m.ram_bank_count) as u8, ..m }
            } else {
                m
            }
        } else {
            m
        },
    }
}

impl Mbc {
    /// Internal consistency: the active bank is always normalized into
    /// the declared bank count, and the RAM bank into its count.
    pub open spec fn wf(&self) -> bool {
        &&& 2 <= self.rom_bank_count <= 512
        &&& 1 <= self.active_bank <= self.rom_bank_count
        &&& self.ram_bank_count <= 16
        &&& if self.ram_bank_count > 0 {
            self.ram_bank < self.ram_bank_count
        } else {
            self.ram_bank == 0
        }
    }

    /// The supported controller family a cartridge-type byte names, if
    /// any.
    pub open spec fn spec_kind_of(cartridge_type: u8) -> Option<MbcKind> {
        if cartridge_type == 0x00 {
            Some(MbcKind::RomOnly)
        } else if 0x0F <= cartridge_type <= 0x13 {
            Some(MbcKind::Mbc3)
        } else {
            None
        }
    }

    /// A controller at its power-on state: bank one active, RAM disabled,
    /// RAM bank zero. Returns the configuration fault for a cartridge
    /// type naming no supported family.
    pub fn new(cartridge_type: u8, rom_bank_count: u16, ram_bank_count: u8) -> (r: Result<
        Mbc,
        EmuError,
    >)
        requires
            2 <= rom_bank_count <= 512,
            ram_bank_count <= 16,
        ensures
            match r {
                Ok(m) => {
                    &&& Self::spec_kind_of(cartridge_type) == Some(m.kind)
                    &&& m.wf()
                    &&& m.rom_bank_count == rom_bank_count
                    &&& m.ram_bank_count == ram_bank_count
                    &&& m.active_bank == 1
                    &&& m.ram_bank == 0
                    &&& !m.ram_enabled
                },
                Err(e) => {
                    &&& Self::spec_kind_of(cartridge_type) is None
                    &&& e == EmuError::Configuration(
                        ConfigFault::UnsupportedController,
                    )
                },
            },
    {
        let kind = if cartridge_type == 0x00 {
            MbcKind::RomOnly
        } else if 0x0F <= cartridge_type && cartridge_type <= 0x13 {
            MbcKind::Mbc3
        } else {
            return Err(EmuError::Configuration(ConfigFault::UnsupportedController));
        };
        Ok(
            Mbc {
                kind,
                rom_bank_count,
                active_bank: 1,
                ram_bank_count,
                ram_bank: 0,
                ram_enabled: false,
            },
        )
    }

    /// The bank the switchable window currently shows.
    pub fn active_rom_bank(&self) -> (r: u16)
        ensures
            r == self.active_bank,
    {
        self.active_bank
    }

    /// Apply a write to a control address, updating the controller per
    /// its family's rule.
    pub fn control_write(&mut self, a: u16, v: u8)
        requires
            a < 0x8000,
            old(self).wf(),
        ensures
            *final(self) == spec_control_write(*old(self), a, v),
            final(self).wf(),
    {
        proof {
            lemma_normalize_in_range(v, self.rom_bank_count);
        }
        match self.kind {
            MbcKind::RomOnly => {},
            MbcKind::Mbc3 => {
                if a < 0x2000 {
                    self.ram_enabled = v % 0x10 == 0x0A;
                } else if a < 0x4000 {
                    self.active_bank = normalize_mbc3(v, self.rom_bank_count);
                } else if a < 0x6000 {
                    if self.ram_bank_count > 0 {
                        self.ram_bank = v % self.ram_bank_count;
                    }
                }
            },
        }
    }
}

/// The banked family's normalization rule as executable code.
pub fn normalize_mbc3(requested: u8, count: u16) -> (r: u16)
    requires
        count >= 1,
    ensures
        r == spec_normalize_mbc3(requested, count),
{
    let b: u16 = (requested % 0x80) as u16;
    let b1: u16 = if b == 0 {
        1
    } else {
        b
    };
    ((b1 - 1) % count) + 1
}

/// Law: whatever is requested, the banked family's rule lands in the
/// declared range `1..=count` — a request is never left to read outside
/// the image.
pub proof fn lemma_normalize_in_range(requested: u8, count: u16)
    requires
        count >= 1,
    ensures
        1 <= spec_normalize_mbc3(requested, count) <= count,
{
}

/// Law: a requested bank index of zero resolves to the same bank as a
/// request of one — the zero request aliases bank one.
pub proof fn lemma_bank_zero_aliases_one(count: u16)
    requires
        count >= 1,
    ensures
        spec_normalize_mbc3(0, count) == spec_normalize_mbc3(1, count),
        spec_normalize_mbc3(0, count) == 1,
{
    assert(0int % (count as int) == 0) by (nonlinear_arith)
        requires
            count >= 1,
    ;
}

} // verus!

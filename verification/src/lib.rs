//! Core of an emulator for a classic 8-bit handheld console's CPU.
//!
//! The crate models the packed register file, the per-opcode flag
//! computation, the banked cartridge address space, and the
//! fetch-decode-execute engine. Display output and real-time pacing are
//! external collaborators and live outside this library.

use vstd::prelude::*;

pub mod bus;
pub mod cpu;
pub mod flags;
pub mod mbc;
pub mod opcodes;
pub mod registers;
pub mod rom;
pub mod screen;

verus! {

/// A fault that aborts construction or execution; no fault is ever
/// silently absorbed.
#[derive(Clone, Copy, Debug, PartialEq, Eq, Structural)]
pub enum EmuError {
    /// Unsupported bank-controller type or malformed cartridge header;
    /// raised once at construction.
    Configuration(ConfigFault),
    /// An architecturally defined illegal byte was fetched as an opcode.
    IllegalOpcode(u8),
    /// A legal opcode that this engine does not handle yet; kept distinct
    /// from an illegal byte so a feature gap is never mistaken for a
    /// corrupted program.
    UnimplementedOpcode(u8),
    /// A bus access outside every recognized address region.
    UnmappedAddress(u16),
}

/// The precise reason a cartridge image or header was rejected.
#[derive(Clone, Copy, Debug, PartialEq, Eq, Structural)]
pub enum ConfigFault {
    /// The image is empty, not a whole number of bank pairs, or does not
    /// match the bank count its header declares.
    BadSize,
    /// The fixed logo bitmap in the header does not match.
    BadLogo,
    /// The header checksum does not match the header bytes.
    BadChecksum,
    /// The declared RAM size code is not one this core knows.
    BadRamSize,
    /// The declared cartridge type names no supported bank controller.
    UnsupportedController,
}

} // verus!

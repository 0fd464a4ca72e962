//! Core of a cycle-accurate Game Boy (DMG) emulator: the SM83 CPU driven by a
//! micro-operation queue, the MBC1 cartridge mapper, the memory-mapped I/O
//! register file with its timer and joypad logic, the PPU scanline state
//! machine, and the system harness that weaves them together one dot at a time.

use vstd::prelude::*;

pub mod alu;
pub mod bits;
pub mod button_state;
pub mod cpu;
pub mod mbc1;
pub mod mmio;
pub mod opcodes;
pub mod ppu;
pub mod spare_parts;
pub mod system;

pub use cpu::SM83;
pub use mmio::MMIO;
pub use ppu::OamEntry;
pub use spare_parts::IrqTy;

verus! {

/// Size in bytes of one ROM bank of an MBC1 cartridge.
pub const ROM_BANK_SIZE: usize = 16 * 1024;

/// Size in bytes of one cartridge (save) RAM bank.
pub const SRAM_BANK_SIZE: usize = 8 * 1024;

/// Size in bytes of one video RAM bank.
pub const VRAM_BANK_SIZE: usize = 8 * 1024;

/// Size in bytes of one work RAM bank.
pub const WRAM_BANK_SIZE: usize = 4 * 1024;

} // verus!

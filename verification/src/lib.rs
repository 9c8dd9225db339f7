//! An instruction-accurate emulator core for the NES: a 6502-family CPU
//! interpreter, a scanline/dot-granular background PPU, the bus that joins
//! them, and the NROM cartridge mapper, with machine-checked contracts for
//! every step of the machine.

pub mod arithmetic;
pub mod branch;
pub mod control;
pub mod cpu;
pub mod emu;
pub mod flags;
pub mod instructions;
pub mod laws;
pub mod load;
pub mod logic;
pub mod mapper;
pub mod misc;
pub mod nes;
pub mod nrom;
pub mod palette;
pub mod ppu;
pub mod stack;
pub mod status;
pub mod trans;
pub mod vram;

pub use status::StatusRegister;

//! A cycle-coordinated emulator core for the NES: a 6502 CPU, a pixel-accurate
//! PPU, OAM DMA, the iNES cartridge loader and the NROM mapper.
pub mod bits;
pub mod cartridge;
pub mod clock;
pub mod cpu;
pub mod dma;
pub mod emu;
pub mod ext;
pub mod joypad;
pub mod ppu;
pub mod ram;
pub mod rom;
pub mod types;

pub use emu::Emu;

//! The picture processing unit.
pub mod name_table;
pub mod oam;
pub mod palette_ram;
pub mod pattern_table;
pub mod pixel;
pub mod ppu;
pub mod registers;
pub mod screen;

pub use ppu::Ppu;

//! Cartridges: the iNES image loader and the boards that map its memory.
pub mod mapper;
pub mod mapper_000;

pub mod cartridge;

pub use cartridge::{Cartridge, Error, Mirror};
pub use mapper::Mapper;
pub use mapper_000::Mapper000;

//! The PPU's memory-mapped registers and internal latches.
pub mod addrreg;
pub mod oam;
pub mod ppuaddr;
pub mod ppuctrl;
pub mod ppumask;
pub mod ppuscroll;
pub mod ppustatus;

pub use addrreg::AddrReg;
pub use ppuctrl::PpuCtrl;
pub use ppumask::PpuMask;
pub use ppustatus::PpuStatus;

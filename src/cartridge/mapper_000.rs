//! NROM: no bank switching. 16 KiB of program memory is mirrored over
//! 0x8000-0xFFFF, 32 KiB fills it; character memory passes straight through.
use crate::cartridge::mapper::Mapper;
use crate::cartridge::Mirror;
use crate::types::{Addr, Byte, ExtAddr};
use vstd::prelude::*;

verus! {

pub struct Mapper000 {
    pub prg_banks: usize,
    pub chr_banks: usize,
}

impl Mapper000 {
    pub fn new(prg_banks: usize, chr_banks: usize) -> (r: Mapper000)
        ensures
            r.prg_banks == prg_banks,
            r.chr_banks == chr_banks,
    {
        Mapper000 { prg_banks, chr_banks }
    }

    /// The program-memory offset of a CPU address in 0x8000-0xFFFF.
    pub open spec fn prg_offset(&self, addr: u16) -> u32 {
        if self.prg_banks > 1 {
            (addr % 0x8000) as u32
        } else {
            (addr % 0x4000) as u32
        }
    }
}

impl Mapper for Mapper000 {
    open spec fn cpu_read_map(&self, addr: u16) -> Option<u32> {
        if addr >= 0x8000 {
            Some(self.prg_offset(addr))
        } else {
            None
        }
    }

    open spec fn cpu_read_value(&self, addr: u16) -> u8 {
        0
    }

    open spec fn cpu_write_map(&self, addr: u16) -> Option<u32> {
        self.cpu_read_map(addr)
    }

    open spec fn after_write(&self, addr: u16, v: u8) -> Self {
        *self
    }

    open spec fn ppu_read_map(&self, addr: u16) -> Option<u32> {
        if addr < 0x2000 {
            Some(addr as u32)
        } else {
            None
        }
    }

    open spec fn ppu_write_map(&self, addr: u16) -> Option<u32> {
        if addr < 0x2000 && self.chr_banks == 0 {
            Some(addr as u32)
        } else {
            None
        }
    }

    open spec fn mirror_spec(&self) -> Mirror {
        Mirror::Hardware
    }

    open spec fn irq_spec(&self) -> bool {
        false
    }

    open spec fn after_clear_irq(&self) -> Self {
        *self
    }

    open spec fn after_scanline(&self) -> Self {
        *self
    }

    fn map_read(&mut self, addr: Addr, mapped_addr: &mut ExtAddr, v: &mut Byte) -> (r: bool) {
        if addr.0 >= 0x8000 {
            *mapped_addr = if self.prg_banks > 1 {
                ExtAddr((addr.0 % 0x8000) as u32)
            } else {
                ExtAddr((addr.0 % 0x4000) as u32)
            };
            true
        } else {
            false
        }
    }

    fn map_write(&mut self, addr: Addr, mapped_addr: &mut ExtAddr, v: Byte) -> (r: bool) {
        if addr.0 >= 0x8000 {
            *mapped_addr = if self.prg_banks > 1 {
                ExtAddr((addr.0 % 0x8000) as u32)
            } else {
                ExtAddr((addr.0 % 0x4000) as u32)
            };
            true
        } else {
            false
        }
    }

    fn map_read_chr(&mut self, addr: Addr, mapped_addr: &mut ExtAddr) -> (r: bool) {
        if addr.0 < 0x2000 {
            *mapped_addr = addr.as_lo_ext_addr();
            true
        } else {
            false
        }
    }

    fn map_write_chr(&mut self, addr: Addr, mapped_addr: &mut ExtAddr) -> (r: bool) {
        // Character memory is writable only when the board carries RAM there.
        if addr.0 < 0x2000 && self.chr_banks == 0 {
            *mapped_addr = addr.as_lo_ext_addr();
            true
        } else {
            false
        }
    }

    fn mirror(&self) -> (r: Mirror) {
        Mirror::Hardware
    }

    fn has_irq(&self) -> (r: bool) {
        false
    }

    fn clear_irq(&mut self) {
    }

    fn scanline(&mut self) {
    }
}

} // verus!

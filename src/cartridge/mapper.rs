//! The mapper contract: how a cartridge board translates bus addresses.
use crate::cartridge::Mirror;
use crate::types::{Addr, Byte, ExtAddr};
use vstd::prelude::*;

verus! {

/// Marks a mapped CPU read or write that the mapper served from its own state.
pub const HANDLED: u32 = 0xFFFF_FFFF;

/// Address translation of a cartridge board.
pub trait Mapper: Sized {
    /// Where a CPU read of `addr` lands: an offset into program memory, or
    /// `HANDLED` when the mapper supplies the byte itself.
    spec fn cpu_read_map(&self, addr: u16) -> Option<u32>;

    /// The byte a mapper supplies for a handled CPU read.
    spec fn cpu_read_value(&self, addr: u16) -> u8;

    /// Where a CPU write of `addr` lands.
    spec fn cpu_write_map(&self, addr: u16) -> Option<u32>;

    /// The mapper after it has seen a CPU write.
    spec fn after_write(&self, addr: u16, v: u8) -> Self;

    /// Where a PPU read of `addr` lands in character memory.
    spec fn ppu_read_map(&self, addr: u16) -> Option<u32>;

    /// Where a PPU write of `addr` lands in character memory.
    spec fn ppu_write_map(&self, addr: u16) -> Option<u32>;

    /// The mirroring the board imposes, `Hardware` for none.
    spec fn mirror_spec(&self) -> Mirror;

    /// Whether the board raises an interrupt request.
    spec fn irq_spec(&self) -> bool;

    /// The mapper after its interrupt request was acknowledged.
    spec fn after_clear_irq(&self) -> Self;

    /// The mapper after a scanline notification.
    spec fn after_scanline(&self) -> Self;

    fn map_read(&mut self, addr: Addr, mapped_addr: &mut ExtAddr, v: &mut Byte) -> (r: bool)
        ensures
            *final(self) == *old(self),
            r == old(self).cpu_read_map(addr.0) is Some,
            r ==> final(mapped_addr).0 == old(self).cpu_read_map(addr.0)->0,
            !r ==> *final(mapped_addr) == *old(mapped_addr),
            r && final(mapped_addr).0 == HANDLED ==> final(v).0 == old(self).cpu_read_value(addr.0),
            !(r && final(mapped_addr).0 == HANDLED) ==> *final(v) == *old(v),
    ;

    fn map_write(&mut self, addr: Addr, mapped_addr: &mut ExtAddr, v: Byte) -> (r: bool)
        ensures
            *final(self) == old(self).after_write(addr.0, v.0),
            r == old(self).cpu_write_map(addr.0) is Some,
            r ==> final(mapped_addr).0 == old(self).cpu_write_map(addr.0)->0,
            !r ==> *final(mapped_addr) == *old(mapped_addr),
    ;

    fn map_read_chr(&mut self, addr: Addr, mapped_addr: &mut ExtAddr) -> (r: bool)
        ensures
            *final(self) == *old(self),
            r == old(self).ppu_read_map(addr.0) is Some,
            r ==> final(mapped_addr).0 == old(self).ppu_read_map(addr.0)->0,
            !r ==> *final(mapped_addr) == *old(mapped_addr),
    ;

    fn map_write_chr(&mut self, addr: Addr, mapped_addr: &mut ExtAddr) -> (r: bool)
        ensures
            *final(self) == *old(self),
            r == old(self).ppu_write_map(addr.0) is Some,
            r ==> final(mapped_addr).0 == old(self).ppu_write_map(addr.0)->0,
            !r ==> *final(mapped_addr) == *old(mapped_addr),
    ;

    fn mirror(&self) -> (r: Mirror)
        ensures
            r == self.mirror_spec(),
    ;

    fn has_irq(&self) -> (r: bool)
        ensures
            r == self.irq_spec(),
    ;

    fn clear_irq(&mut self)
        ensures
            *final(self) == old(self).after_clear_irq(),
            !final(self).irq_spec(),
    ;

    /// Notifies the board that the PPU finished a scanline.
    fn scanline(&mut self)
        ensures
            *final(self) == old(self).after_scanline(),
    ;
}

} // verus!

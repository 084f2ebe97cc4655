//! The CPU's view of the system: RAM, PPU registers, DMA trigger, joypads
//! and the cartridge, arbitrated by address.
use crate::cartridge::Cartridge;
use crate::dma::Dma;
use crate::joypad::Joypad;
use crate::ppu::Ppu;
use crate::ram::{ram_index, Ram};
use crate::types::{Addr, Byte};
use vstd::prelude::*;

verus! {

/// An address whose read has no side effect: work RAM or the cartridge.
pub open spec fn quiet(addr: u16) -> bool {
    addr < 0x2000 || addr >= 0x4020
}

/// The components the CPU reaches over its bus.
pub struct CpuBus {
    pub cart: Cartridge,
    pub ram: Ram,
    pub ppu: Ppu,
    pub dma: Dma,
    pub joy_1: Joypad,
    pub joy_2: Joypad,
}

impl CpuBus {
    pub open spec fn wf(&self) -> bool {
        &&& self.cart.wf()
        &&& self.ram.wf()
        &&& self.ppu.wf()
        &&& self.dma.wf()
    }

    /// The PPU is at the same dot of the same frame, with the same latch.
    pub open spec fn ppu_clock_same(&self, o: &CpuBus) -> bool {
        &&& self.ppu.scanline == o.ppu.scanline
        &&& self.ppu.cycle == o.ppu.cycle
        &&& self.ppu.odd_frame == o.ppu.odd_frame
        &&& self.ppu.screen.ready == o.ppu.screen.ready
        &&& self.ppu.nmi == o.ppu.nmi
    }

    /// What a read of a quiet address returns.
    pub open spec fn peek(&self, addr: u16) -> Byte {
        if addr < 0x2000 {
            self.ram.mem@[ram_index(addr)]
        } else if addr >= 0x4020 {
            self.cart.spec_read(addr)
        } else {
            Byte(0)
        }
    }

    /// `after` equals this bus with `v` written to the quiet address `addr`.
    pub open spec fn written_to(&self, after: &CpuBus, addr: u16, v: Byte) -> bool {
        &&& after.wf()
        &&& after.ppu == self.ppu
        &&& after.dma == self.dma
        &&& after.joy_1 == self.joy_1
        &&& after.joy_2 == self.joy_2
        &&& addr < 0x2000 ==> after.ram.mem@ == self.ram.mem@.update(ram_index(addr), v)
            && after.cart == self.cart
        &&& addr >= 0x4020 ==> after.cart.prg_mem@ == self.cart.spec_write(addr, v)
            && after.cart.chr_mem@ == self.cart.chr_mem@ && after.cart.mirror == self.cart.mirror
            && after.cart.mapper == self.cart.mapper && after.ram == self.ram
    }

    pub fn new(cart: Cartridge, ram: Ram, ppu: Ppu, dma: Dma, joy_1: Joypad, joy_2: Joypad) -> (r:
        CpuBus)
        ensures
            r == (CpuBus { cart, ram, ppu, dma, joy_1, joy_2 }),
    {
        CpuBus { cart, ram, ppu, dma, joy_1, joy_2 }
    }

    pub fn read(&mut self, addr: Addr) -> (r: Byte)
        requires
            old(self).wf(),
        ensures
            final(self).ppu_clock_same(old(self)),
            final(self).wf(),
            quiet(addr.0) ==> r == old(self).peek(addr.0) && *final(self) == *old(self),
            0x4000 <= addr.0 < 0x4020 && addr.0 != 0x4016 && addr.0 != 0x4017 ==> r == Byte(0)
                && *final(self) == *old(self),
            final(self).ram == old(self).ram,
            final(self).dma == old(self).dma,
            final(self).ppu.oam == old(self).ppu.oam,
            final(self).ppu.oam_addr == old(self).ppu.oam_addr,
            final(self).cart == old(self).cart,
    {
        let a = addr.0;
        if a < 0x2000 {
            self.ram.read(addr)
        } else if a < 0x4000 {
            self.ppu.read(&mut self.cart, addr)
        } else if a == 0x4016 {
            self.joy_1.read()
        } else if a == 0x4017 {
            self.joy_2.read()
        } else if a < 0x4020 {
            // The APU and test-mode registers read as an undriven bus.
            Byte(0)
        } else {
            self.cart.read(addr)
        }
    }

    pub fn write(&mut self, addr: Addr, v: Byte)
        requires
            old(self).wf(),
        ensures
            final(self).ppu_clock_same(old(self)),
            final(self).wf(),
            quiet(addr.0) ==> old(self).written_to(final(self), addr.0, v),
            addr.0 == 0x4014 ==> {
                &&& final(self).dma.has_request
                &&& final(self).dma.wait_start
                &&& final(self).dma.page.0 == v.0 as int * 256
                &&& final(self).dma.addr.0 == 0
                &&& final(self).dma.cycles == 0
                &&& final(self).ram == old(self).ram
                &&& final(self).ppu == old(self).ppu
                &&& final(self).cart == old(self).cart
            },
            0x2000 <= addr.0 < 0x4000 ==> final(self).ram == old(self).ram && final(self).dma == old(
                self).dma,
    {
        let a = addr.0;
        if a < 0x2000 {
            self.ram.write(addr, v);
        } else if a < 0x4000 {
            self.ppu.write(&mut self.cart, addr, v);
        } else if a == 0x4014 {
            self.dma.write(v);
        } else if a == 0x4016 {
            self.joy_1.write(v);
            self.joy_2.write(v);
        } else if a < 0x4020 {
            // APU and test-mode registers: not emulated.
        } else {
            self.cart.write(addr, v);
        }
    }
}

} // verus!

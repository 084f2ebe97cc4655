//! The master clock: one tick per PPU dot, a CPU cycle every third tick.
use vstd::prelude::*;

verus! {

/// Master ticks per CPU cycle.
pub const CPU_COUNT: u64 = 3;

/// Master ticks per PPU dot.
pub const PPU_COUNT: u64 = 1;

pub struct Clock {
    pub counter: u64,
}

impl Clock {
    pub fn new() -> (r: Clock)
        ensures
            r.counter == 0,
    {
        Clock { counter: 0 }
    }

    pub fn reset(&mut self)
        ensures
            final(self).counter == 0,
    {
        self.counter = 0;
    }

    pub fn update(&mut self)
        ensures
            final(self).counter == (old(self).counter + 1) % 0x1_0000_0000_0000_0000,
    {
        self.counter = if self.counter == u64::MAX { 0 } else { self.counter + 1 };
    }

    pub fn need_step_cpu(&self) -> (r: bool)
        ensures
            r == (self.counter % CPU_COUNT == 0),
    {
        self.counter % CPU_COUNT == 0
    }

    pub fn need_step_ppu(&self) -> (r: bool)
        ensures
            r == (self.counter % PPU_COUNT == 0),
    {
        self.counter % PPU_COUNT == 0
    }

    /// Whether a pending DMA may start now: on a CPU cycle boundary whose
    /// master count is odd, so that the transfer proper begins on an even
    /// CPU cycle.
    pub fn need_start_dma(&self) -> (r: bool)
        ensures
            r == (self.counter % 2 == 1),
    {
        self.counter % 2 == 1
    }

    pub fn counter(&self) -> (r: u64)
        ensures
            r == self.counter,
    {
        self.counter
    }
}

} // verus!

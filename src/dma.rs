//! The OAM DMA engine: copies one 256-byte CPU page into OAM, one byte every
//! two CPU cycles, while the CPU is stalled.
use crate::ppu::oam::Oam;
use crate::types::{Addr, Byte};
use vstd::prelude::*;

verus! {

/// The engine at rest.
pub open spec fn idle_dma() -> Dma {
    Dma {
        has_request: false,
        wait_start: true,
        data: Byte(0),
        page: Addr(0),
        addr: Addr(0),
        cycles: 0,
    }
}

/// One transfer cycle as a function: the engine and OAM after it, given the
/// byte the bus holds at the source on a read cycle and OAMADDR `k`.
pub open spec fn dma_step_spec(d: Dma, oam: Seq<Byte>, data: Byte, k: u8) -> (Dma, Seq<Byte>) {
    if d.cycles % 2 == 0 {
        (Dma { data, cycles: (d.cycles + 1) as u16, ..d }, oam)
    } else {
        let o = oam.update((k + d.addr.0) % 256, d.data);
        if d.addr.0 < 255 {
            (Dma { addr: Addr((d.addr.0 + 1) as u16), cycles: (d.cycles + 1) as u16, ..d }, o)
        } else {
            (idle_dma(), o)
        }
    }
}

/// `n` transfer cycles whose reads see the source page `src`.
pub open spec fn dma_run(d: Dma, oam: Seq<Byte>, src: Seq<Byte>, k: u8, n: nat) -> (Dma, Seq<Byte>)
    decreases n,
{
    if n == 0 {
        (d, oam)
    } else {
        let (d1, o1) = dma_step_spec(d, oam, src[d.addr.0 as int], k);
        dma_run(d1, o1, src, k, (n - 1) as nat)
    }
}

proof fn lemma_dma_run_from(d: Dma, oam: Seq<Byte>, src: Seq<Byte>, k: u8, j: int)
    requires
        0 <= j < 256,
        d.addr.0 == j,
        d.cycles == 2 * j,
        src.len() == 256,
        oam.len() == 256,
        forall|i: int| 0 <= i < j ==> #[trigger] oam[(k + i) % 256] == src[i],
    ensures
        dma_run(d, oam, src, k, (2 * (256 - j)) as nat).0 == idle_dma(),
        forall|i: int|
            0 <= i < 256 ==> #[trigger] dma_run(d, oam, src, k, (2 * (256 - j)) as nat).1[(k + i)
                % 256] == src[i],
    decreases 256 - j,
{
    let (d1, o1) = dma_step_spec(d, oam, src[j], k);
    let (d2, o2) = dma_step_spec(d1, o1, src[d1.addr.0 as int], k);
    assert(o2 == oam.update((k + j) % 256, src[j]));
    let n = (2 * (256 - j)) as nat;
    assert(dma_run(d, oam, src, k, n) == dma_run(d1, o1, src, k, (n - 1) as nat));
    assert(d1.addr.0 == j);
    assert(dma_run(d1, o1, src, k, (n - 1) as nat) == dma_run(d2, o2, src, k, (n - 2) as nat));
    assert(dma_run(d, oam, src, k, (2 * (256 - j)) as nat) == dma_run(
        d2,
        o2,
        src,
        k,
        (2 * (256 - j) - 2) as nat,
    ));
    assert forall|i: int| 0 <= i < j + 1 implies #[trigger] o2[(k + i) % 256] == src[i] by {
        if i < j {
            assert((k + i) % 256 != (k + j) % 256);
        }
    }
    if j < 255 {
        lemma_dma_run_from(d2, o2, src, k, j + 1);
    } else {
        assert(d2 == idle_dma());
    }
}

/// A started transfer from page `src` with OAMADDR `k`: after 512 cycles
/// OAM holds `src[i]` at `k + i` for every `i`, and the engine is idle.
pub proof fn lemma_dma_copies_page(d: Dma, oam: Seq<Byte>, src: Seq<Byte>, k: u8)
    requires
        d.addr.0 == 0,
        d.cycles == 0,
        src.len() == 256,
        oam.len() == 256,
    ensures
        dma_run(d, oam, src, k, 512).0 == idle_dma(),
        forall|i: int| 0 <= i < 256 ==> #[trigger] dma_run(d, oam, src, k, 512).1[(k + i) % 256] == src[i],
{
    lemma_dma_run_from(d, oam, src, k, 0);
}

pub struct Dma {
    pub has_request: bool,
    pub wait_start: bool,
    pub data: Byte,
    pub page: Addr,
    pub addr: Addr,
    pub cycles: u16,
}

impl Dma {
    /// `addr` counts the bytes moved; `cycles` is twice that, plus one
    /// between a read and its write.
    pub open spec fn wf(&self) -> bool {
        &&& self.addr.0 < 256
        &&& self.cycles == 2 * self.addr.0 || self.cycles == 2 * self.addr.0 + 1
        &&& self.page.0 % 256 == 0
    }

    /// The idle engine.
    pub open spec fn is_idle(&self) -> bool {
        &&& !self.has_request
        &&& self.wait_start
        &&& self.data == Byte(0)
        &&& self.page == Addr(0)
        &&& self.addr == Addr(0)
        &&& self.cycles == 0
    }

    pub fn new() -> (r: Dma)
        ensures
            r.wf(),
            r.is_idle(),
    {
        Dma {
            has_request: false,
            wait_start: true,
            data: Byte(0x00),
            page: Addr(0x0000),
            addr: Addr(0x0000),
            cycles: 0,
        }
    }

    pub fn has_request(&self) -> (r: bool)
        ensures
            r == self.has_request,
    {
        self.has_request
    }

    pub fn wait_start(&self) -> (r: bool)
        ensures
            r == self.wait_start,
    {
        self.wait_start
    }

    /// The alignment wait is over: the transfer proper begins.
    pub fn start(&mut self)
        ensures
            *final(self) == (Dma { wait_start: false, ..*old(self) }),
    {
        self.wait_start = false;
    }

    fn reset(&mut self)
        ensures
            final(self).wf(),
            final(self).is_idle(),
    {
        self.has_request = false;
        self.wait_start = true;
        self.addr = Addr(0x0000);
        self.page = Addr(0x0000);
        self.data = Byte(0x00);
        self.cycles = 0;
    }

    /// The CPU address the next read cycle takes its byte from.
    pub fn source(&self) -> (r: Addr)
        requires
            self.wf(),
        ensures
            r.0 == self.page.0 + self.addr.0,
    {
        Addr(self.page.0 + self.addr.0)
    }

    /// Whether this cycle reads (even cycles) rather than writes.
    pub fn need_read(&self) -> (r: bool)
        ensures
            r == (self.cycles % 2 == 0),
    {
        self.cycles % 2 == 0
    }

    /// One CPU cycle of transfer: on even cycles `data` is the byte the CPU
    /// bus holds at `source()`, and is latched; odd cycles write the latched
    /// byte to OAM at `oam_addr + addr`. After the 256th write the request
    /// clears.
    pub fn step(&mut self, data: Byte, oam: &mut Oam, oam_addr: Byte)
        requires
            old(self).wf(),
            old(oam).wf(),
        ensures
            final(self).wf(),
            final(oam).wf(),
            (*final(self), final(oam).mem@) == dma_step_spec(*old(self), old(oam).mem@, data, oam_addr.0),
            old(self).cycles % 2 == 0 ==> {
                &&& *final(self) == (Dma {
                    data,
                    cycles: (old(self).cycles + 1) as u16,
                    ..*old(self)
                })
                &&& final(oam).mem@ == old(oam).mem@
            },
            old(self).cycles % 2 == 1 ==> {
                &&& final(oam).mem@ == old(oam).mem@.update(
                    (oam_addr.0 + old(self).addr.0) % 256,
                    old(self).data,
                )
                &&& old(self).addr.0 < 255 ==> *final(self) == (Dma {
                    addr: Addr((old(self).addr.0 + 1) as u16),
                    cycles: (old(self).cycles + 1) as u16,
                    ..*old(self)
                })
                &&& old(self).addr.0 == 255 ==> final(self).is_idle()
            },
    {
        if self.need_read() {
            self.data = data;
            self.cycles = self.cycles + 1;
        } else {
            let target = Addr((oam_addr.0 as u16 + self.addr.0) % 256);
            oam.write(target, self.data);
            self.addr.inc();
            self.cycles = self.cycles + 1;
            if self.addr.0 == 256 {
                self.reset();
            }
        }
    }

    /// A CPU write to 0x4014: latch page `v` and request a transfer.
    pub fn write(&mut self, v: Byte)
        ensures
            final(self).wf(),
            final(self).has_request,
            final(self).wait_start,
            final(self).page.0 == v.0 as int * 256,
            final(self).addr.0 == 0,
            final(self).cycles == 0,
    {
        self.reset();
        self.page = v.as_hi_addr();
        self.has_request = true;
    }
}

} // verus!

//! The console: every component, and the frame loop that drives them from
//! the master clock.
use crate::cartridge::cartridge::{ines_error, Cartridge, Error};
use crate::cartridge::mapper::Mapper;
use crate::clock::Clock;
use crate::cpu::bus::CpuBus;
use crate::cpu::Cpu;
use crate::dma::Dma;
use crate::joypad::{Joypad, JoypadState};
use crate::ppu::screen::Screen;
use crate::ppu::Ppu;
use crate::bits::bit8;
use crate::cpu::bus::quiet;
use crate::cpu::cpu::cpu_step_spec;
use crate::cpu::instruction::{interrupt_status, stack_index};
use crate::cpu::registers::INTERRUPT_BIT;
use crate::ppu::ppu::next_dot;
use crate::ram::Ram;
use crate::types::{Addr, Byte};
use vstd::prelude::*;

verus! {

/// Master ticks in one frame: 341 dots on 262 scanlines.
pub const TICKS_PER_FRAME: u32 = 89342;

/// The PPU is on the last dot of the frame.
pub open spec fn at_frame_end(e: &Emu) -> bool {
    e.bus.ppu.scanline == 260 && e.bus.ppu.cycle == 340
}

/// The PPU raises its NMI line on this tick, or has it raised already.
pub open spec fn nmi_due(e: &Emu) -> bool {
    e.bus.ppu.nmi || (e.bus.ppu.scanline == 241 && e.bus.ppu.cycle == 1 && bit8(
        e.bus.ppu.control.0,
        7,
    ))
}

/// The cartridge requests an interrupt.
pub open spec fn cart_irq(e: &Emu) -> bool {
    match e.bus.cart.mapper {
        Some(m) => m.irq_spec(),
        None => false,
    }
}

/// The work of one CPU cycle from `o` to `b`: the DMA engine's when a
/// transfer is pending; else, once the current instruction is done, a raised
/// NMI or an unmasked IRQ; else one CPU step.
pub open spec fn cpu_cycle_spec(o: &Emu, b: &Emu) -> bool {
    let dma = o.bus.dma.has_request;
    let nmi_now = !dma && o.cpu.cycles == 0 && o.bus.ppu.nmi;
    let irq_now = !dma && o.cpu.cycles == 0 && !o.bus.ppu.nmi && cart_irq(o) && !o.cpu.regs.flag(
        INTERRUPT_BIT,
    );
    let s = o.cpu.regs.sp.0;
    let pc = o.cpu.regs.pc.0;
    &&& b.bus.ppu.nmi == (o.bus.ppu.nmi && !nmi_now)
    // While a transfer is pending the CPU rests and memory stays as it is.
    &&& dma ==> {
        &&& b.cpu == o.cpu
        &&& b.bus.ram == o.bus.ram
        &&& b.bus.cart == o.bus.cart
        &&& b.bus.ppu.oam_addr == o.bus.ppu.oam_addr
    }
    // An interrupt is taken once the current instruction is done: PC and P
    // (break clear, reserved set) are pushed, and PC comes from the vector.
    &&& nmi_now || irq_now ==> {
        &&& b.cpu.cycles == if nmi_now { 8u8 } else { 7u8 }
        &&& b.cpu.regs.flag(INTERRUPT_BIT)
        &&& b.cpu.regs.sp.0 == (s + 253) % 256
        &&& nmi_now ==> b.cpu.regs.pc.0 == o.bus.peek(0xFFFB).0 * 256 + o.bus.peek(0xFFFA).0
        &&& irq_now ==> b.cpu.regs.pc.0 == o.bus.peek(0xFFFF).0 * 256 + o.bus.peek(0xFFFE).0
        &&& b.bus.ram.mem@ == o.bus.ram.mem@.update(stack_index(s), Byte((pc / 256) as u8)).update(
            stack_index(((s + 255) % 256) as u8),
            Byte((pc % 256) as u8),
        ).update(
            stack_index(((s + 254) % 256) as u8),
            Byte(interrupt_status(o.cpu.regs.status.0)),
        )
        &&& b.bus.cart == o.bus.cart
        &&& b.bus.dma == o.bus.dma
        &&& b.bus.ppu.oam_addr == o.bus.ppu.oam_addr
    }
    // Otherwise the CPU steps, on the bus as the PPU dot left it.
    &&& !dma && !nmi_now && !irq_now ==> exists|mb: CpuBus|
        {
            &&& mb.ram == o.bus.ram
            &&& mb.cart == o.bus.cart
            &&& mb.dma == o.bus.dma
            &&& mb.ppu.oam_addr == o.bus.ppu.oam_addr
            &&& #[trigger] cpu_step_spec(&o.cpu, &mb, &b.cpu, &b.bus)
        }
    // With a transfer pending: the alignment wait, then the transfer.
    &&& dma && o.bus.dma.wait_start ==> b.bus.dma == (Dma {
        wait_start: !(o.clock.counter % 2 == 1),
        ..o.bus.dma
    })
    &&& dma && !o.bus.dma.wait_start ==> {
        let d = o.bus.dma;
        &&& d.cycles % 2 == 0 ==> {
            &&& b.bus.dma == (Dma { data: b.bus.dma.data, cycles: (d.cycles + 1) as u16, ..d })
            &&& quiet((d.page.0 + d.addr.0) as u16) ==> b.bus.dma.data == o.bus.peek(
                (d.page.0 + d.addr.0) as u16,
            )
            &&& b.bus.ppu.oam.mem@ == o.bus.ppu.oam.mem@
        }
        &&& d.cycles % 2 == 1 ==> {
            &&& b.bus.ppu.oam.mem@ == o.bus.ppu.oam.mem@.update((o.bus.ppu.oam_addr.0 + d.addr.0) % 256, d.data)
            &&& d.addr.0 < 255 ==> b.bus.dma == (Dma {
                addr: Addr((d.addr.0 + 1) as u16),
                cycles: (d.cycles + 1) as u16,
                ..d
            })
            &&& d.addr.0 == 255 ==> b.bus.dma.is_idle()
        }
    }
}

/// One master tick from `a` to `b`: the PPU dot first, then on every third
/// tick a CPU cycle, which sees the NMI line as the dot left it.
pub open spec fn tick_spec(a: &Emu, b: &Emu) -> bool {
    let p = a.bus.ppu;
    let skip = p.scanline == 0 && p.cycle == 0 && p.odd_frame && p.rendering();
    let c = if skip {
        1i16
    } else {
        p.cycle
    };
    &&& b.wf()
    &&& b.clock.counter == (a.clock.counter + 1) % 0x1_0000_0000_0000_0000
    // The PPU advances one dot.
    &&& (b.bus.ppu.scanline, b.bus.ppu.cycle) == next_dot(p.scanline, c)
    &&& b.bus.ppu.odd_frame == (p.odd_frame != at_frame_end(a))
    &&& at_frame_end(a) ==> b.bus.ppu.screen.ready
    &&& !at_frame_end(a) ==> b.bus.ppu.screen.ready == p.screen.ready
    // Between CPU cycles nothing but the PPU moves.
    &&& a.clock.counter % 3 != 0 ==> {
        &&& b.cpu == a.cpu
        &&& b.bus.ram == a.bus.ram
        &&& b.bus.cart == a.bus.cart
        &&& b.bus.dma == a.bus.dma
        &&& b.bus.ppu.oam_addr == a.bus.ppu.oam_addr
        &&& b.bus.ppu.nmi == nmi_due(a)
    }
    &&& a.clock.counter % 3 == 0 ==> {
        let dma = a.bus.dma.has_request;
        let nmi_now = !dma && a.cpu.cycles == 0 && nmi_due(a);
        let irq_now = !dma && a.cpu.cycles == 0 && !nmi_due(a) && cart_irq(a) && !a.cpu.regs.flag(
            INTERRUPT_BIT,
        );
        let s = a.cpu.regs.sp.0;
        let pc = a.cpu.regs.pc.0;
        &&& b.bus.ppu.nmi == (nmi_due(a) && !nmi_now)
        // While a transfer is pending the CPU rests and memory stays as it is.
        &&& dma ==> {
            &&& b.cpu == a.cpu
            &&& b.bus.ram == a.bus.ram
            &&& b.bus.cart == a.bus.cart
            &&& b.bus.ppu.oam_addr == a.bus.ppu.oam_addr
        }
        // An interrupt is taken once the current instruction is done: PC and P
        // (break clear, reserved set) are pushed, and PC comes from the vector.
        &&& nmi_now || irq_now ==> {
            &&& b.cpu.cycles == if nmi_now { 8u8 } else { 7u8 }
            &&& b.cpu.regs.flag(INTERRUPT_BIT)
            &&& b.cpu.regs.sp.0 == (s + 253) % 256
            &&& nmi_now ==> b.cpu.regs.pc.0 == a.bus.peek(0xFFFB).0 * 256 + a.bus.peek(0xFFFA).0
            &&& irq_now ==> b.cpu.regs.pc.0 == a.bus.peek(0xFFFF).0 * 256 + a.bus.peek(0xFFFE).0
            &&& b.bus.ram.mem@ == a.bus.ram.mem@.update(stack_index(s), Byte((pc / 256) as u8)).update(
                stack_index(((s + 255) % 256) as u8),
                Byte((pc % 256) as u8),
            ).update(
                stack_index(((s + 254) % 256) as u8),
                Byte(interrupt_status(a.cpu.regs.status.0)),
            )
            &&& b.bus.cart == a.bus.cart
            &&& b.bus.dma == a.bus.dma
            &&& b.bus.ppu.oam_addr == a.bus.ppu.oam_addr
        }
        // Otherwise the CPU steps, on the bus as the PPU dot left it.
        &&& !dma && !nmi_now && !irq_now ==> exists|mb: CpuBus|
            {
                &&& mb.ram == a.bus.ram
                &&& mb.cart == a.bus.cart
                &&& mb.dma == a.bus.dma
                &&& mb.ppu.oam_addr == a.bus.ppu.oam_addr
                &&& #[trigger] cpu_step_spec(&a.cpu, &mb, &b.cpu, &b.bus)
            }
        // With a transfer pending: the alignment wait, then the transfer.
        &&& dma && a.bus.dma.wait_start ==> b.bus.dma == (Dma {
            wait_start: !(a.clock.counter % 2 == 1),
            ..a.bus.dma
        })
        &&& dma && !a.bus.dma.wait_start ==> {
            let d = a.bus.dma;
            &&& d.cycles % 2 == 0 ==> {
                &&& b.bus.dma == (Dma { data: b.bus.dma.data, cycles: (d.cycles + 1) as u16, ..d })
                &&& quiet((d.page.0 + d.addr.0) as u16) ==> b.bus.dma.data == a.bus.peek(
                    (d.page.0 + d.addr.0) as u16,
                )
                &&& b.bus.ppu.oam.mem@ == a.bus.ppu.oam.mem@
            }
            &&& d.cycles % 2 == 1 ==> {
                &&& b.bus.ppu.oam.mem@ == a.bus.ppu.oam.mem@.update((a.bus.ppu.oam_addr.0 + d.addr.0) % 256, d.data)
                &&& d.addr.0 < 255 ==> b.bus.dma == (Dma {
                    addr: Addr((d.addr.0 + 1) as u16),
                    cycles: (d.cycles + 1) as u16,
                    ..d
                })
                &&& d.addr.0 == 255 ==> b.bus.dma.is_idle()
            }
        }
    }
}

/// `e` with the PPU's frame-ready latch set to `r`.
pub open spec fn with_ready(e: Emu, r: bool) -> Emu {
    Emu {
        bus: CpuBus {
            ppu: Ppu { screen: Screen { ready: r, ..e.bus.ppu.screen }, ..e.bus.ppu },
            ..e.bus
        },
        ..e
    }
}

/// `t` is one frame run from `start`: the latch is cleared, then ticks follow
/// one another until the tick that starts on the frame's last dot.
pub open spec fn frame_trace(t: Seq<Emu>, start: Emu) -> bool {
    &&& t.len() >= 2
    &&& t[0] == with_ready(start, false)
    &&& forall|i: int| 0 <= i < t.len() - 1 ==> #[trigger] tick_spec(&t[i], &t[i + 1])
    &&& forall|i: int| 0 <= i < t.len() - 2 ==> !#[trigger] at_frame_end(&t[i])
    &&& at_frame_end(&t[t.len() - 2])
}

/// Distance, in dots, to the last dot of the frame.
pub open spec fn dots_to_frame_end(e: &Emu) -> int {
    (260 - e.bus.ppu.scanline) * 341 + (340 - e.bus.ppu.cycle)
}

pub struct Emu {
    pub clock: Clock,
    pub cpu: Cpu,
    pub bus: CpuBus,
}

impl Emu {
    pub open spec fn wf(&self) -> bool {
        self.bus.wf()
    }

    pub fn new() -> (r: Emu)
        ensures
            r.wf(),
            r.bus.cart.mapper is None,
            r.clock.counter == 0,
    {
        Emu {
            clock: Clock::new(),
            cpu: Cpu::new(),
            bus: CpuBus::new(
                Cartridge::new(),
                Ram::new(),
                Ppu::new(),
                Dma::new(),
                Joypad::new(),
                Joypad::new(),
            ),
        }
    }

    /// CPU reset through its vector, PPU state zeroed, clock cleared.
    pub fn reset(&mut self)
        requires
            old(self).wf(),
        ensures
            final(self).wf(),
            final(self).bus.cart == old(self).bus.cart,
            final(self).bus.ram == old(self).bus.ram,
            final(self).cpu.regs.sp.0 == 0xFD,
            final(self).cpu.regs.status.0 == 0x24,
            final(self).cpu.regs.pc.0 == old(self).bus.peek(0xFFFD).0 * 256 + old(self).bus.peek(
                0xFFFC,
            ).0,
            final(self).clock.counter == 0,
            final(self).cpu.cycles == 8,
            final(self).cpu.regs.a.0 == 0 && final(self).cpu.regs.x.0 == 0
                && final(self).cpu.regs.y.0 == 0,
            final(self).bus.ppu.scanline == 0 && final(self).bus.ppu.cycle == 0,
            final(self).bus.ppu.fine_x == 0,
            !final(self).bus.ppu.addr_latch,
            !final(self).bus.ppu.odd_frame,
            final(self).bus.ppu.ppu_data_buf == Byte(0),
    {
        self.cpu.reset(&mut self.bus);
        self.bus.ppu.reset();
        self.clock.reset();
    }

    pub fn screen(&self) -> (r: &Screen)
        ensures
            *r == self.bus.ppu.screen,
    {
        self.bus.ppu.screen()
    }

    /// Inserts the cartridge held by an iNES image and resets the console.
    pub fn load(&mut self, image: &[u8]) -> (r: Result<(), Error>)
        requires
            old(self).wf(),
        ensures
            final(self).wf(),
            ines_error(image@) is Some <==> r is Err,
            r is Err ==> r == Err::<(), Error>(ines_error(image@)->0),
            r is Ok ==> {
                &&& final(self).bus.cart.holds_image(image@)
                &&& final(self).cpu.regs.sp.0 == 0xFD
                &&& final(self).cpu.regs.status.0 == 0x24
                &&& final(self).cpu.regs.pc.0 == final(self).bus.peek(0xFFFD).0 * 256 + final(self).bus.peek(0xFFFC).0
            },
    {
        match self.bus.cart.load(image) {
            Ok(()) => {
                self.reset();
                Ok(())
            },
            Err(e) => Err(e),
        }
    }

    /// The host's button states for both controllers.
    pub fn update_joypads(&mut self, joy_1_state: u8, joy_2_state: u8)
        requires
            old(self).wf(),
        ensures
            final(self).wf(),
            final(self).bus.joy_1.state.0 == joy_1_state,
            final(self).bus.joy_2.state.0 == joy_2_state,
    {
        self.bus.joy_1.update(JoypadState(joy_1_state));
        self.bus.joy_2.update(JoypadState(joy_2_state));
    }

    /// The work of a CPU cycle: the DMA engine's when a transfer is pending;
    /// else, at an instruction boundary, a raised NMI or an unmasked IRQ;
    /// else one CPU step.
    #[verifier::rlimit(100)]
    fn cpu_cycle(&mut self)
        requires
            old(self).wf(),
        ensures
            final(self).wf(),
            final(self).clock == old(self).clock,
            final(self).bus.ppu.scanline == old(self).bus.ppu.scanline,
            final(self).bus.ppu.cycle == old(self).bus.ppu.cycle,
            final(self).bus.ppu.odd_frame == old(self).bus.ppu.odd_frame,
            final(self).bus.ppu.screen.ready == old(self).bus.ppu.screen.ready,
            cpu_cycle_spec(old(self), final(self)),
    {
        let ghost o = *self;
        if self.bus.dma.has_request() {
            if self.bus.dma.wait_start() {
                // Wait for an odd tick, so that the transfer begins on an even
                // CPU cycle.
                if self.clock.need_start_dma() {
                    self.bus.dma.start();
                }
            } else {
                // Even cycles read the source byte over the CPU bus.
                let data = if self.bus.dma.need_read() {
                    let src = self.bus.dma.source();
                    self.bus.read(src)
                } else {
                    Byte(0)
                };
                let oam_addr = self.bus.ppu.oam_addr;
                self.bus.dma.step(data, &mut self.bus.ppu.oam, oam_addr);
            }
        } else if self.cpu.cycles == 0 && self.bus.ppu.has_nmi() {
            self.bus.ppu.clear_nmi();
            self.cpu.nmi(&mut self.bus);
        } else if self.cpu.cycles == 0 && self.bus.cart.has_irq() && !self.cpu.regs.interrupt() {
            self.bus.cart.clear_irq();
            self.cpu.irq(&mut self.bus);
        } else {
            let ghost mb = self.bus;
            self.cpu.step(&mut self.bus);
            proof {
                assert(cpu_step_spec(&o.cpu, &mb, &self.cpu, &self.bus));
            }
        }
    }

    /// One master tick: the PPU dot first, then on every third tick a CPU
    /// cycle. Interrupts reach the CPU at instruction boundaries; while a
    /// transfer is pending the CPU does not run.
    #[verifier::rlimit(100)]
    pub fn tick(&mut self)
        requires
            old(self).wf(),
        ensures
            tick_spec(old(self), final(self)),
    {
        let ghost a = *self;
        if self.clock.need_step_ppu() {
            self.bus.ppu.step(&mut self.bus.cart);
        }
        let ghost mid = *self;
        proof {
            assert(mid.cpu == a.cpu);
            assert(mid.clock == a.clock);
            assert(mid.bus.ram == a.bus.ram);
            assert(mid.bus.cart == a.bus.cart);
            assert(mid.bus.dma == a.bus.dma);
            assert(mid.bus.ppu.oam == a.bus.ppu.oam);
            assert(mid.bus.ppu.oam_addr == a.bus.ppu.oam_addr);
            assert(mid.bus.ppu.nmi == nmi_due(&a));
            assert(cart_irq(&mid) == cart_irq(&a));
        }
        if self.clock.need_step_cpu() {
            self.cpu_cycle();
        }
        let ghost f = *self;
        self.clock.update();
        proof {
            if a.clock.counter % 3 == 0 {
                assert(cpu_cycle_spec(&mid, &f));
                let dma = a.bus.dma.has_request;
                let nmi_now = !dma && a.cpu.cycles == 0 && nmi_due(&a);
                let irq_now = !dma && a.cpu.cycles == 0 && !nmi_due(&a) && cart_irq(&a)
                    && !a.cpu.regs.flag(INTERRUPT_BIT);
                if !dma && !nmi_now && !irq_now {
                    let mb = choose|mb: CpuBus|
                        {
                            &&& mb.ram == mid.bus.ram
                            &&& mb.cart == mid.bus.cart
                            &&& mb.dma == mid.bus.dma
                            &&& mb.ppu.oam_addr == mid.bus.ppu.oam_addr
                            &&& #[trigger] cpu_step_spec(&mid.cpu, &mb, &f.cpu, &f.bus)
                        };
                    assert(cpu_step_spec(&a.cpu, &mb, &self.cpu, &self.bus));
                }
            }
        }
    }

    /// Runs one frame: clears the frame-ready latch, ticks until the PPU has
    /// drawn the frame's last dot, then clears the latch again.
    pub fn step(&mut self)
        requires
            old(self).wf(),
        ensures
            final(self).wf(),
            !final(self).bus.ppu.screen.ready,
            final(self).bus.ppu.scanline == -1 && final(self).bus.ppu.cycle == 0,
            exists|t: Seq<Emu>|
                {
                    &&& frame_trace(t, *old(self))
                    &&& t.len() - 1 <= TICKS_PER_FRAME
                    &&& *final(self) == with_ready(t.last(), false)
                },
    {
        self.bus.ppu.screen.ready = false;
        let ghost start = *old(self);
        let ghost mut trace: Seq<Emu> = seq![*self];
        assert(trace[0] == with_ready(start, false));
        loop
            invariant_except_break
                !self.bus.ppu.screen.ready,
                trace.len() - 1 + dots_to_frame_end(self) <= TICKS_PER_FRAME - 1,
                forall|i: int| 0 <= i < trace.len() - 1 ==> !#[trigger] at_frame_end(&trace[i]),
            invariant
                self.wf(),
                trace.len() >= 1,
                trace[0] == with_ready(start, false),
                trace.last() == *self,
                forall|i: int| 0 <= i < trace.len() - 1 ==> #[trigger] tick_spec(&trace[i], &trace[i + 1]),
            ensures
                self.bus.ppu.screen.ready,
                frame_trace(trace, start),
                trace.len() - 1 <= TICKS_PER_FRAME,
                self.bus.ppu.scanline == -1 && self.bus.ppu.cycle == 0,
            decreases dots_to_frame_end(self),
        {
            let ghost prev = *self;
            self.tick();
            proof {
                trace = trace.push(*self);
                assert(trace[trace.len() - 2] == prev);
            }
            if self.bus.ppu.screen.ready {
                break;
            }
        }
        proof {
            assert(*self == with_ready(trace.last(), true));
        }
        self.bus.ppu.screen.ready = false;
    }
}

} // verus!

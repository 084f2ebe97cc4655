use crate::bits::{bit8, set_bit8};
use crate::cpu::addressing::{
    fetch_instruction_code, fetch_operand, operand_quiet, operand_spec, past_operand,
    AddressingMode,
};
use crate::cpu::bus::{quiet, CpuBus};
use crate::cpu::instruction::{
    alu_spec, branch_taken, is_rmw, pushed_status, reads_operand, rmw_flags, rmw_result,
    stack_written, exec_instruction, interrupt_status, is_alu, is_branch,
    lemma_pushed_status, operand_readable, push, push_pc, read_vector, stack_index, value_of,
    Instruction,
};
use crate::cpu::opcode::{lookup, opcode_table};
use crate::cpu::registers::{
    Registers, StatusRegister, BREAK_BIT, CARRY_BIT, INTERRUPT_BIT, RESERVED_BIT,
};
use crate::types::Byte;
use vstd::prelude::*;

verus! {

/// Every table entry costs at least two cycles and at most eight.
pub proof fn lemma_base_cycles(code: u8)
    ensures
        2 <= opcode_table(code).cycle <= 8,
{
}

impl Registers {
    /// Power-on state: A = X = Y = 0, S = 0xFD, P = 0x24, PC from the reset
    /// vector at 0xFFFC.
    pub fn reset(&mut self, cpu_bus: &mut CpuBus)
        requires
            old(cpu_bus).wf(),
        ensures
            final(cpu_bus).ppu_clock_same(old(cpu_bus)),
            *final(cpu_bus) == *old(cpu_bus),
            final(self).a.0 == 0 && final(self).x.0 == 0 && final(self).y.0 == 0,
            final(self).sp.0 == 0xFD,
            final(self).status.0 == 0x24,
            final(self).pc.0 == old(cpu_bus).peek(0xFFFD).0 * 256 + old(cpu_bus).peek(0xFFFC).0,
    {
        let pc = read_vector(cpu_bus, 0xFFFC);
        self.a = Byte(0);
        self.x = Byte(0);
        self.y = Byte(0);
        self.sp = Byte(0xFD);
        self.status = StatusRegister(0x24);
        self.pc = pc;
    }
}

/// What one CPU cycle does, from `a` on bus `ab` to `b` on bus `bb`: count
/// down the current instruction, or fetch and execute the next one and charge
/// its cost.
pub open spec fn cpu_step_spec(a: &Cpu, ab: &CpuBus, b: &Cpu, bb: &CpuBus) -> bool {
    &&& a.cycles > 0 ==> *bb == *ab && b.regs == a.regs
        && b.cycles == a.cycles - 1
    &&& a.cycles == 0 ==> b.regs.flag(RESERVED_BIT)
    &&& a.cycles == 0 ==> 2 <= b.cycles + 1 <= 10
    &&& a.cycles == 0 && quiet(a.regs.pc.0) ==> {
        let base = opcode_table(ab.peek(a.regs.pc.0).0).cycle;
        base <= b.cycles + 1 <= base + 2
    }
    &&& a.cycles == 0 && quiet(a.regs.pc.0) ==> {
        let op = opcode_table(ab.peek(a.regs.pc.0).0);
        let r1 = past_operand(a.regs, AddressingMode::IMM).with_flag(
            RESERVED_BIT,
            true,
        );
        let operand = operand_spec(ab, r1, op.mode).0;
        is_alu(op.inst) && operand_quiet(ab, r1, op.mode) && operand_readable(operand)
            ==> {
            &&& b.regs == alu_spec(
                op.inst,
                past_operand(r1, op.mode),
                value_of(ab, operand),
            ).with_flag(RESERVED_BIT, true)
            &&& *bb == *ab
            &&& b.cycles + 1 == op.cycle + if operand_spec(ab, r1, op.mode).1
                && reads_operand(op.inst) && (op.inst != Instruction::NOP || op.mode
                == AddressingMode::ABX) {
                1int
            } else {
                0int
            }
        }
    }
    &&& a.cycles == 0 && quiet(a.regs.pc.0) ==> {
        let op = opcode_table(ab.peek(a.regs.pc.0).0);
        let r1 = past_operand(a.regs, AddressingMode::IMM).with_flag(
            RESERVED_BIT,
            true,
        );
        let r2 = past_operand(r1, op.mode);
        let s = a.regs.sp.0;
        op.inst == Instruction::BRK && operand_quiet(ab, r1, op.mode) ==> {
            &&& b.regs.sp.0 == (s + 253) % 256
            &&& b.regs.flag(INTERRUPT_BIT)
            &&& b.regs.pc.0 == ab.peek(0xFFFF).0 * 256 + ab.peek(
                0xFFFE,
            ).0
            &&& r2.pc.0 == (a.regs.pc.0 + 2) % 0x10000
            &&& bb.ram.mem@[stack_index(s)].0 == r2.pc.0 / 256
            &&& bb.ram.mem@[stack_index(((s + 255) % 256) as u8)].0 == r2.pc.0 % 256
            &&& bit8(bb.ram.mem@[stack_index(((s + 254) % 256) as u8)].0, RESERVED_BIT)
            &&& bit8(bb.ram.mem@[stack_index(((s + 254) % 256) as u8)].0, BREAK_BIT)
            &&& b.cycles + 1 == op.cycle
        }
    }
    &&& a.cycles == 0 && quiet(a.regs.pc.0) ==> {
        let op = opcode_table(ab.peek(a.regs.pc.0).0);
        let r1 = past_operand(a.regs, AddressingMode::IMM).with_flag(
            RESERVED_BIT,
            true,
        );
        let r2 = past_operand(r1, op.mode);
        let operand = operand_spec(ab, r1, op.mode).0;
        operand_quiet(ab, r1, op.mode) && operand is Addr ==> {
            &&& op.inst == Instruction::JMP ==> b.regs == (Registers {
                pc: operand->Addr_0,
                ..r2
            }).with_flag(RESERVED_BIT, true) && b.cycles + 1 == op.cycle
            &&& is_branch(op.inst) && branch_taken(op.inst, r2) ==> b.regs == (
            Registers { pc: operand->Addr_0, ..r2 }).with_flag(RESERVED_BIT, true)
                && b.cycles + 1 == op.cycle + if operand->Addr_0.0 / 256 == r2.pc.0
                / 256 {
                1int
            } else {
                2int
            }
            &&& is_branch(op.inst) && !branch_taken(op.inst, r2) ==> b.regs
                == r2.with_flag(RESERVED_BIT, true) && b.cycles + 1 == op.cycle
        }
    }
    &&& a.cycles == 0 && quiet(a.regs.pc.0) ==> {
        let op = opcode_table(ab.peek(a.regs.pc.0).0);
        let r1 = past_operand(a.regs, AddressingMode::IMM).with_flag(RESERVED_BIT, true);
        let r2 = past_operand(r1, op.mode);
        let operand = operand_spec(ab, r1, op.mode).0;
        let s = a.regs.sp.0;
        &&& !is_branch(op.inst) && !reads_operand(op.inst) ==> b.cycles + 1 == op.cycle
        &&& operand_quiet(ab, r1, op.mode) && operand is Addr && quiet(operand->Addr_0.0) ==> {
            let addr = operand->Addr_0.0;
            let m = ab.peek(addr).0;
            &&& op.inst == Instruction::STA ==> ab.written_to(bb, addr, a.regs.a) && b.regs
                == r2.with_flag(RESERVED_BIT, true)
            &&& op.inst == Instruction::STX ==> ab.written_to(bb, addr, a.regs.x) && b.regs
                == r2.with_flag(RESERVED_BIT, true)
            &&& op.inst == Instruction::STY ==> ab.written_to(bb, addr, a.regs.y) && b.regs
                == r2.with_flag(RESERVED_BIT, true)
            &&& is_rmw(op.inst) ==> ab.written_to(
                bb,
                addr,
                Byte(rmw_result(op.inst, m, r2.flag(CARRY_BIT))),
            ) && b.regs == rmw_flags(op.inst, r2, m).with_flag(RESERVED_BIT, true)
        }
        &&& op.inst == Instruction::PHA ==> stack_written(ab, bb, s, a.regs.a) && b.regs == (
        Registers { sp: Byte(((s + 255) % 256) as u8), ..r2 }).with_flag(RESERVED_BIT, true)
        &&& op.inst == Instruction::PHP ==> stack_written(
            ab,
            bb,
            s,
            Byte(pushed_status(r2.status.0)),
        ) && b.regs == (Registers { sp: Byte(((s + 255) % 256) as u8), ..r2 }).with_flag(
            RESERVED_BIT,
            true,
        )
    }
}

/// The 6502: registers and the cycles left of the current instruction.
pub struct Cpu {
    pub regs: Registers,
    pub cycles: u8,
}

impl Cpu {
    pub fn new() -> (r: Cpu)
        ensures
            r.cycles == 0,
            r.regs.sp.0 == 0xFD,
            r.regs.status.0 == 0x24,
    {
        Cpu { regs: Registers::new(), cycles: 0 }
    }

    /// Loads PC from 0xFFFC/0xFFFD, sets S = 0xFD and P = 0x24, and waits
    /// eight cycles.
    pub fn reset(&mut self, bus: &mut CpuBus)
        requires
            old(bus).wf(),
        ensures
            final(bus).ppu_clock_same(old(bus)),
            *final(bus) == *old(bus),
            final(self).regs.a.0 == 0 && final(self).regs.x.0 == 0 && final(self).regs.y.0 == 0,
            final(self).regs.sp.0 == 0xFD,
            final(self).regs.status.0 == 0x24,
            final(self).regs.pc.0 == old(bus).peek(0xFFFD).0 * 256 + old(bus).peek(0xFFFC).0,
            final(self).cycles == 8,
    {
        self.regs.reset(bus);
        self.cycles = 8;
    }

    /// Pushes PC and P (break clear, reserved set), sets interrupt-disable and
    /// jumps through `vector`.
    fn interrupt(&mut self, bus: &mut CpuBus, vector: u16)
        requires
            old(bus).wf(),
            vector == 0xFFFA || vector == 0xFFFE,
        ensures
            final(bus).ppu_clock_same(old(bus)),
            final(bus).wf(),
            final(bus).cart == old(bus).cart,
            final(bus).ppu == old(bus).ppu,
            final(bus).dma == old(bus).dma,
            final(bus).ram.mem@ == old(bus).ram.mem@.update(
                stack_index(old(self).regs.sp.0),
                Byte((old(self).regs.pc.0 / 256) as u8),
            ).update(
                stack_index(((old(self).regs.sp.0 + 255) % 256) as u8),
                Byte((old(self).regs.pc.0 % 256) as u8),
            ).update(
                stack_index(((old(self).regs.sp.0 + 254) % 256) as u8),
                Byte(interrupt_status(old(self).regs.status.0)),
            ),
            final(self).regs.sp.0 == (old(self).regs.sp.0 + 253) % 256,
            final(self).regs.flag(INTERRUPT_BIT),
            final(self).regs.pc.0 == old(bus).peek((vector + 1) as u16).0 * 256 + old(bus).peek(
                vector,
            ).0,
            final(self).cycles == old(self).cycles,
    {
        push_pc(&mut self.regs, bus);
        let p = set_bit8(set_bit8(self.regs.status.0, BREAK_BIT, false), RESERVED_BIT, true);
        push(&mut self.regs, bus, Byte(p));
        self.regs.set_interrupt(true);
        let pc = read_vector(bus, vector);
        self.regs.set_pc(pc);
    }

    /// A maskable interrupt: taken only when interrupt-disable is clear,
    /// through 0xFFFE, in seven cycles.
    pub fn irq(&mut self, bus: &mut CpuBus)
        requires
            old(bus).wf(),
        ensures
            final(bus).ppu_clock_same(old(bus)),
            final(bus).wf(),
            old(self).regs.flag(INTERRUPT_BIT) ==> *final(self) == *old(self) && *final(bus) == *old(
                bus),
            !old(self).regs.flag(INTERRUPT_BIT) ==> {
                &&& final(bus).cart == old(bus).cart
                &&& final(bus).ppu == old(bus).ppu
                &&& final(bus).dma == old(bus).dma
                &&& final(bus).ram.mem@ == old(bus).ram.mem@.update(
                    stack_index(old(self).regs.sp.0),
                    Byte((old(self).regs.pc.0 / 256) as u8),
                ).update(
                    stack_index(((old(self).regs.sp.0 + 255) % 256) as u8),
                    Byte((old(self).regs.pc.0 % 256) as u8),
                ).update(
                    stack_index(((old(self).regs.sp.0 + 254) % 256) as u8),
                    Byte(interrupt_status(old(self).regs.status.0)),
                )
                &&& final(self).cycles == 7
                &&& final(self).regs.flag(INTERRUPT_BIT)
                &&& final(self).regs.sp.0 == (old(self).regs.sp.0 + 253) % 256
                &&& final(self).regs.pc.0 == old(bus).peek(0xFFFF).0 * 256 + old(bus).peek(
                    0xFFFE,
                ).0
                &&& final(bus).ram.mem@[stack_index(((old(self).regs.sp.0 + 254) % 256) as u8)].0
                    == interrupt_status(old(self).regs.status.0)
                &&& bit8(
                    final(bus).ram.mem@[stack_index(((old(self).regs.sp.0 + 254) % 256) as u8)].0,
                    RESERVED_BIT,
                )
                &&& !bit8(
                    final(bus).ram.mem@[stack_index(((old(self).regs.sp.0 + 254) % 256) as u8)].0,
                    BREAK_BIT,
                )
            },
    {
        if !self.regs.interrupt() {
            proof {
                lemma_pushed_status(self.regs.status.0);
            }
            self.interrupt(bus, 0xFFFE);
            self.cycles = 7;
        }
    }

    /// The non-maskable interrupt: through 0xFFFA, in eight cycles.
    pub fn nmi(&mut self, bus: &mut CpuBus)
        requires
            old(bus).wf(),
        ensures
            final(bus).ppu_clock_same(old(bus)),
            final(bus).wf(),
            final(bus).cart == old(bus).cart,
            final(bus).ppu == old(bus).ppu,
            final(bus).dma == old(bus).dma,
            final(bus).ram.mem@ == old(bus).ram.mem@.update(
                stack_index(old(self).regs.sp.0),
                Byte((old(self).regs.pc.0 / 256) as u8),
            ).update(
                stack_index(((old(self).regs.sp.0 + 255) % 256) as u8),
                Byte((old(self).regs.pc.0 % 256) as u8),
            ).update(
                stack_index(((old(self).regs.sp.0 + 254) % 256) as u8),
                Byte(interrupt_status(old(self).regs.status.0)),
            ),
            final(self).cycles == 8,
            final(self).regs.flag(INTERRUPT_BIT),
            final(self).regs.sp.0 == (old(self).regs.sp.0 + 253) % 256,
            final(self).regs.pc.0 == old(bus).peek(0xFFFB).0 * 256 + old(bus).peek(0xFFFA).0,
            final(bus).ram.mem@[stack_index(old(self).regs.sp.0)].0 == old(self).regs.pc.0 / 256,
            final(bus).ram.mem@[stack_index(((old(self).regs.sp.0 + 255) % 256) as u8)].0 == old(
                self).regs.pc.0 % 256,
            final(bus).ram.mem@[stack_index(((old(self).regs.sp.0 + 254) % 256) as u8)].0
                == interrupt_status(old(self).regs.status.0),
            bit8(
                final(bus).ram.mem@[stack_index(((old(self).regs.sp.0 + 254) % 256) as u8)].0,
                RESERVED_BIT,
            ),
            !bit8(
                final(bus).ram.mem@[stack_index(((old(self).regs.sp.0 + 254) % 256) as u8)].0,
                BREAK_BIT,
            ),
    {
        proof {
            lemma_pushed_status(self.regs.status.0);
        }
        self.interrupt(bus, 0xFFFA);
        self.cycles = 8;
    }

    /// One CPU cycle. When the previous instruction's cycles are used up,
    /// the next one is fetched and executed at once, and its cost (base
    /// cycles, plus at most two for page crossings and taken branches) is
    /// counted down over the following cycles.
    #[verifier::rlimit(100)]
    pub fn step(&mut self, bus: &mut CpuBus)
        requires
            old(bus).wf(),
        ensures
            final(bus).ppu_clock_same(old(bus)),
            final(bus).wf(),
            cpu_step_spec(old(self), old(bus), final(self), final(bus)),
    {
        if self.cycles == 0 {
            let code = fetch_instruction_code(&mut self.regs, bus);
            self.regs.set_reserved(true);
            let opcode = lookup(code.0);
            proof {
                lemma_base_cycles(code.0);
            }
            let mut cycles = opcode.cycle;
            let (operand, addr_need_add) = fetch_operand(&opcode, &mut self.regs, bus);
            let (additional_cycle, inst_need_add) = exec_instruction(
                &opcode,
                &mut self.regs,
                bus,
                operand,
            );
            cycles = cycles + additional_cycle;
            // The addressing mode and the instruction together decide on the
            // page-cross cycle.
            if addr_need_add && inst_need_add {
                cycles = cycles + 1;
            }
            self.regs.set_reserved(true);
            self.cycles = cycles;
        }
        self.cycles = self.cycles - 1;
    }
}

} // verus!

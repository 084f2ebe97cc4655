//! The instruction set and its execution.
use crate::bits::{bit8, set_bit8, with_bit8};
use crate::cpu::addressing::AddressingMode;
use crate::cpu::bus::{quiet, CpuBus};
use crate::cpu::opcode::OpCode;
use crate::cpu::operand::Operand;
use crate::cpu::registers::{
    Registers, StatusRegister, BREAK_BIT, CARRY_BIT, DECIMAL_BIT, INTERRUPT_BIT, NEGATIVE_BIT,
    OVERFLOW_BIT, RESERVED_BIT, ZERO_BIT,
};
use crate::types::{Addr, Byte};
use vstd::prelude::*;

verus! {

pub type NumOfCycles = u8;

#[derive(Clone, Copy, Debug, PartialEq, Eq, Structural)]
pub enum Instruction {
    XXX,
    ADC,
    AND,
    ASL,
    BCC,
    BCS,
    BEQ,
    BIT,
    BMI,
    BNE,
    BPL,
    BRK,
    BVC,
    BVS,
    CLC,
    CLD,
    CLI,
    CLV,
    CMP,
    CPX,
    CPY,
    DEC,
    DEX,
    DEY,
    EOR,
    INC,
    INX,
    INY,
    JMP,
    JSR,
    LDA,
    LDX,
    LDY,
    LSR,
    NOP,
    ORA,
    PHA,
    PHP,
    PLA,
    PLP,
    ROL,
    ROR,
    RTI,
    RTS,
    SBC,
    SEC,
    SED,
    SEI,
    STA,
    STX,
    STY,
    TAX,
    TAY,
    TSX,
    TXA,
    TXS,
    TYA,
}

/// Where the stack byte for stack pointer `sp` lives: always in page 0x01.
pub open spec fn stack_index(sp: u8) -> int {
    0x0100 + sp
}

/// The stack never leaves 0x0100-0x01FF.
pub proof fn lemma_stack_in_page(sp: u8)
    ensures
        0x0100 <= stack_index(sp) <= 0x01FF,
{
}

/// The byte an operand stands for, reading through the bus when it is an address.
pub open spec fn value_of(bus: &CpuBus, operand: Operand) -> u8 {
    match operand {
        Operand::Byte(b) => b.0,
        Operand::Addr(a) => bus.peek(a.0).0,
        Operand::Empty => 0,
    }
}

/// Reading the operand has no side effect.
pub open spec fn operand_readable(operand: Operand) -> bool {
    match operand {
        Operand::Addr(a) => quiet(a.0),
        _ => true,
    }
}

/// The status byte as PHP and BRK push it: break and reserved set.
pub open spec fn pushed_status(p: u8) -> u8 {
    with_bit8(with_bit8(p, BREAK_BIT, true), RESERVED_BIT, true)
}

/// The status byte as an interrupt pushes it: break clear, reserved set.
pub open spec fn interrupt_status(p: u8) -> u8 {
    with_bit8(with_bit8(p, BREAK_BIT, false), RESERVED_BIT, true)
}

/// Loads `v` into the accumulator and sets N and Z from it.
pub open spec fn load_a(r: Registers, v: u8) -> Registers {
    Registers { a: Byte(v), ..r }.with_nz(v)
}

pub open spec fn load_x(r: Registers, v: u8) -> Registers {
    Registers { x: Byte(v), ..r }.with_nz(v)
}

pub open spec fn load_y(r: Registers, v: u8) -> Registers {
    Registers { y: Byte(v), ..r }.with_nz(v)
}

/// A + M + C: carry out of bit 7, overflow when both inputs have one sign
/// and the result the other. Decimal mode has no effect.
pub open spec fn adc_spec(r: Registers, m: u8) -> Registers {
    let sum = r.a.0 + m + if r.flag(CARRY_BIT) {
        1int
    } else {
        0int
    };
    let res = (sum % 256) as u8;
    let overflow = ((r.a.0 < 128) == (m < 128)) && ((res < 128) != (r.a.0 < 128));
    load_a(r.with_flag(CARRY_BIT, sum > 255).with_flag(OVERFLOW_BIT, overflow), res)
}

/// A - M - (1 - C), which is A + !M + C.
pub open spec fn sbc_spec(r: Registers, m: u8) -> Registers {
    adc_spec(r, (255 - m) as u8)
}

/// Compares `reg` with `m`: carry when reg >= m, N and Z from the difference.
pub open spec fn compare_spec(r: Registers, reg: u8, m: u8) -> Registers {
    r.with_flag(CARRY_BIT, reg >= m).with_nz(((reg + 256 - m) % 256) as u8)
}

/// Instructions that only read their operand and change registers.
pub open spec fn is_alu(inst: Instruction) -> bool {
    match inst {
        Instruction::ADC | Instruction::AND | Instruction::BIT | Instruction::CLC
        | Instruction::CLD | Instruction::CLI | Instruction::CLV | Instruction::CMP
        | Instruction::CPX | Instruction::CPY | Instruction::DEX | Instruction::DEY
        | Instruction::EOR | Instruction::INX | Instruction::INY | Instruction::LDA
        | Instruction::LDX | Instruction::LDY | Instruction::NOP | Instruction::ORA
        | Instruction::SBC | Instruction::SEC | Instruction::SED | Instruction::SEI
        | Instruction::TAX | Instruction::TAY | Instruction::TSX | Instruction::TXA
        | Instruction::TXS | Instruction::TYA | Instruction::XXX => true,
        _ => false,
    }
}

/// The registers after an ALU instruction with operand value `m`.
pub open spec fn alu_spec(inst: Instruction, r: Registers, m: u8) -> Registers {
    match inst {
        Instruction::ADC => adc_spec(r, m),
        Instruction::SBC => sbc_spec(r, m),
        Instruction::AND => load_a(r, r.a.0 & m),
        Instruction::ORA => load_a(r, r.a.0 | m),
        Instruction::EOR => load_a(r, r.a.0 ^ m),
        Instruction::BIT => r.with_flag(NEGATIVE_BIT, m >= 0x80).with_flag(
            ZERO_BIT,
            r.a.0 & m == 0,
        ).with_flag(OVERFLOW_BIT, (m / 64) % 2 == 1),
        Instruction::CMP => compare_spec(r, r.a.0, m),
        Instruction::CPX => compare_spec(r, r.x.0, m),
        Instruction::CPY => compare_spec(r, r.y.0, m),
        Instruction::LDA => load_a(r, m),
        Instruction::LDX => load_x(r, m),
        Instruction::LDY => load_y(r, m),
        Instruction::CLC => r.with_flag(CARRY_BIT, false),
        Instruction::SEC => r.with_flag(CARRY_BIT, true),
        Instruction::CLD => r.with_flag(DECIMAL_BIT, false),
        Instruction::SED => r.with_flag(DECIMAL_BIT, true),
        Instruction::CLI => r.with_flag(INTERRUPT_BIT, false),
        Instruction::SEI => r.with_flag(INTERRUPT_BIT, true),
        Instruction::CLV => r.with_flag(OVERFLOW_BIT, false),
        Instruction::INX => load_x(r, ((r.x.0 + 1) % 256) as u8),
        Instruction::INY => load_y(r, ((r.y.0 + 1) % 256) as u8),
        Instruction::DEX => load_x(r, ((r.x.0 + 255) % 256) as u8),
        Instruction::DEY => load_y(r, ((r.y.0 + 255) % 256) as u8),
        Instruction::TAX => load_x(r, r.a.0),
        Instruction::TAY => load_y(r, r.a.0),
        Instruction::TSX => load_x(r, r.sp.0),
        Instruction::TXA => load_a(r, r.x.0),
        Instruction::TYA => load_a(r, r.y.0),
        Instruction::TXS => Registers { sp: r.x, ..r },
        _ => r,
    }
}

/// Instructions that take the page-cross cycle of their addressing mode.
pub open spec fn reads_operand(inst: Instruction) -> bool {
    match inst {
        Instruction::ADC | Instruction::AND | Instruction::CMP | Instruction::CPX
        | Instruction::CPY | Instruction::EOR | Instruction::LDA | Instruction::LDX
        | Instruction::LDY | Instruction::ORA | Instruction::SBC | Instruction::NOP => true,
        _ => false,
    }
}

pub open spec fn is_branch(inst: Instruction) -> bool {
    match inst {
        Instruction::BCC | Instruction::BCS | Instruction::BEQ | Instruction::BMI
        | Instruction::BNE | Instruction::BPL | Instruction::BVC | Instruction::BVS => true,
        _ => false,
    }
}

/// Whether a branch instruction is taken.
pub open spec fn branch_taken(inst: Instruction, r: Registers) -> bool {
    match inst {
        Instruction::BCC => !r.flag(CARRY_BIT),
        Instruction::BCS => r.flag(CARRY_BIT),
        Instruction::BEQ => r.flag(ZERO_BIT),
        Instruction::BNE => !r.flag(ZERO_BIT),
        Instruction::BMI => r.flag(NEGATIVE_BIT),
        Instruction::BPL => !r.flag(NEGATIVE_BIT),
        Instruction::BVS => r.flag(OVERFLOW_BIT),
        Instruction::BVC => !r.flag(OVERFLOW_BIT),
        _ => false,
    }
}

/// The bus after a write to the stack: RAM changes in one cell.
pub open spec fn stack_written(before: &CpuBus, after: &CpuBus, sp: u8, v: Byte) -> bool {
    &&& after.wf()
    &&& after.ram.mem@ == before.ram.mem@.update(stack_index(sp), v)
    &&& after.cart == before.cart
    &&& after.ppu == before.ppu
    &&& after.dma == before.dma
    &&& after.joy_1 == before.joy_1
    &&& after.joy_2 == before.joy_2
}

/// Writes `v` at 0x0100+S, then decrements S.
pub fn push(registers: &mut Registers, bus: &mut CpuBus, v: Byte)
    requires
        old(bus).wf(),
    ensures
        final(bus).ppu_clock_same(old(bus)),
        stack_written(old(bus), final(bus), old(registers).sp.0, v),
        *final(registers) == (Registers {
            sp: Byte(((old(registers).sp.0 + 255) % 256) as u8),
            ..*old(registers)
        }),
{
    let addr = Addr(0x0100 + registers.sp.0 as u16);
    bus.write(addr, v);
    registers.dec_sp();
}

/// Increments S, then reads 0x0100+S.
pub fn pop(registers: &mut Registers, bus: &mut CpuBus) -> (r: Byte)
    requires
        old(bus).wf(),
    ensures
        final(bus).ppu_clock_same(old(bus)),
        final(bus).wf(),
        *final(bus) == *old(bus),
        *final(registers) == (Registers {
            sp: Byte(((old(registers).sp.0 + 1) % 256) as u8),
            ..*old(registers)
        }),
        r == old(bus).ram.mem@[stack_index(final(registers).sp.0)],
{
    registers.inc_sp();
    let addr = Addr(0x0100 + registers.sp.0 as u16);
    bus.read(addr)
}

/// Pushes PC, high byte first.
pub fn push_pc(registers: &mut Registers, bus: &mut CpuBus)
    requires
        old(bus).wf(),
    ensures
        final(bus).ppu_clock_same(old(bus)),
        final(bus).wf(),
        final(bus).ram.mem@ == old(bus).ram.mem@.update(
            stack_index(old(registers).sp.0),
            Byte((old(registers).pc.0 / 256) as u8),
        ).update(
            stack_index(((old(registers).sp.0 + 255) % 256) as u8),
            Byte((old(registers).pc.0 % 256) as u8),
        ),
        final(bus).cart == old(bus).cart,
        final(bus).ppu == old(bus).ppu,
        final(bus).dma == old(bus).dma,
        *final(registers) == (Registers {
            sp: Byte(((old(registers).sp.0 + 254) % 256) as u8),
            ..*old(registers)
        }),
{
    let pc = registers.pc;
    push(registers, bus, pc.hi());
    push(registers, bus, pc.lo());
}

/// Pops PC, low byte first.
pub fn pop_pc(registers: &mut Registers, bus: &mut CpuBus)
    requires
        old(bus).wf(),
    ensures
        final(bus).ppu_clock_same(old(bus)),
        final(bus).wf(),
        *final(bus) == *old(bus),
        *final(registers) == (Registers {
            sp: Byte(((old(registers).sp.0 + 2) % 256) as u8),
            pc: Addr(
                (old(bus).ram.mem@[stack_index(((old(registers).sp.0 + 2) % 256) as u8)].0 * 256
                    + old(bus).ram.mem@[stack_index(((old(registers).sp.0 + 1) % 256) as u8)].0) as u16,
            ),
            ..*old(registers)
        }),
{
    let lo = pop(registers, bus);
    let hi = pop(registers, bus);
    registers.set_pc(Addr::from_bytes(lo, hi));
}

/// Pops P; the break flag reads back clear and the reserved one set.
pub fn pop_status(registers: &mut Registers, bus: &mut CpuBus)
    requires
        old(bus).wf(),
    ensures
        final(bus).ppu_clock_same(old(bus)),
        final(bus).wf(),
        *final(bus) == *old(bus),
        *final(registers) == (Registers {
            sp: Byte(((old(registers).sp.0 + 1) % 256) as u8),
            status: StatusRegister(
                with_bit8(
                    with_bit8(
                        old(bus).ram.mem@[stack_index(((old(registers).sp.0 + 1) % 256) as u8)].0,
                        BREAK_BIT,
                        false,
                    ),
                    RESERVED_BIT,
                    true,
                ),
            ),
            ..*old(registers)
        }),
        final(registers).flag(RESERVED_BIT),
        !final(registers).flag(BREAK_BIT),
{
    let status = pop(registers, bus);
    let p = set_bit8(set_bit8(status.0, BREAK_BIT, false), RESERVED_BIT, true);
    registers.set_status(Byte(p));
}

/// Sets PC.
pub fn jump_to(registers: &mut Registers, addr: Addr)
    ensures
        *final(registers) == (Registers { pc: addr, ..*old(registers) }),
{
    registers.set_pc(addr);
}

/// Whether two addresses share their high byte.
pub fn is_same_page(left: Addr, right: Addr) -> (r: bool)
    ensures
        r == (left.0 / 256 == right.0 / 256),
{
    left.hi() == right.hi()
}

/// The byte an operand stands for.
fn unwrap_operand(bus: &mut CpuBus, operand: Operand) -> (r: Byte)
    requires
        old(bus).wf(),
    ensures
        final(bus).ppu_clock_same(old(bus)),
        final(bus).wf(),
        final(bus).ram == old(bus).ram,
        final(bus).dma == old(bus).dma,
        operand_readable(operand) ==> r.0 == value_of(old(bus), operand) && *final(bus) == *old(
            bus),
{
    match operand {
        Operand::Empty => Byte(0),
        Operand::Byte(v) => v,
        Operand::Addr(a) => bus.read(a),
    }
}

/// Loads the accumulator and sets N and Z.
fn set_a_nz(registers: &mut Registers, v: Byte)
    ensures
        *final(registers) == load_a(*old(registers), v.0),
{
    registers.set_a(v);
    registers.update_nz(v);
}

fn set_x_nz(registers: &mut Registers, v: Byte)
    ensures
        *final(registers) == load_x(*old(registers), v.0),
{
    registers.set_x(v);
    registers.update_nz(v);
}

fn set_y_nz(registers: &mut Registers, v: Byte)
    ensures
        *final(registers) == load_y(*old(registers), v.0),
{
    registers.set_y(v);
    registers.update_nz(v);
}

/// ADC: A = A + M + C.
pub fn adc(registers: &mut Registers, m: Byte)
    ensures
        *final(registers) == adc_spec(*old(registers), m.0),
{
    let a = registers.a.0;
    let c: u16 = if registers.carry() {
        1
    } else {
        0
    };
    let sum: u16 = a as u16 + m.0 as u16 + c;
    let res = (sum % 256) as u8;
    let overflow = ((a < 128) == (m.0 < 128)) && ((res < 128) != (a < 128));
    registers.set_carry(sum > 255);
    registers.set_overflow(overflow);
    set_a_nz(registers, Byte(res));
}

/// SBC: A = A - M - (1 - C).
pub fn sbc(registers: &mut Registers, m: Byte)
    ensures
        *final(registers) == sbc_spec(*old(registers), m.0),
{
    adc(registers, Byte(255 - m.0));
}

/// CMP, CPX and CPY.
fn compare(registers: &mut Registers, reg: Byte, m: Byte)
    ensures
        *final(registers) == compare_spec(*old(registers), reg.0, m.0),
{
    registers.set_carry(reg.0 >= m.0);
    registers.update_nz(Byte(((reg.0 as u16 + 256 - m.0 as u16) % 256) as u8));
}

/// Executes an instruction that only reads its operand value `m`.
pub fn exec_alu(inst: Instruction, registers: &mut Registers, m: Byte)
    requires
        is_alu(inst),
    ensures
        *final(registers) == alu_spec(inst, *old(registers), m.0),
{
    match inst {
        Instruction::ADC => adc(registers, m),
        Instruction::SBC => sbc(registers, m),
        Instruction::AND => {
            let v = registers.a.0 & m.0;
            set_a_nz(registers, Byte(v));
        },
        Instruction::ORA => {
            let v = registers.a.0 | m.0;
            set_a_nz(registers, Byte(v));
        },
        Instruction::EOR => {
            let v = registers.a.0 ^ m.0;
            set_a_nz(registers, Byte(v));
        },
        Instruction::BIT => {
            let t = registers.a.0 & m.0;
            registers.set_negative(m.0 >= 0x80);
            registers.set_zero(t == 0);
            registers.set_overflow((m.0 / 64) % 2 == 1);
        },
        Instruction::CMP => {
            let a = registers.a;
            compare(registers, a, m);
        },
        Instruction::CPX => {
            let x = registers.x;
            compare(registers, x, m);
        },
        Instruction::CPY => {
            let y = registers.y;
            compare(registers, y, m);
        },
        Instruction::LDA => set_a_nz(registers, m),
        Instruction::LDX => set_x_nz(registers, m),
        Instruction::LDY => set_y_nz(registers, m),
        Instruction::CLC => registers.set_carry(false),
        Instruction::SEC => registers.set_carry(true),
        Instruction::CLD => registers.set_decimal_mode(false),
        Instruction::SED => registers.set_decimal_mode(true),
        Instruction::CLI => registers.set_interrupt(false),
        Instruction::SEI => registers.set_interrupt(true),
        Instruction::CLV => registers.set_overflow(false),
        Instruction::INX => {
            let mut x = registers.x;
            x.inc();
            set_x_nz(registers, x);
        },
        Instruction::INY => {
            let mut y = registers.y;
            y.inc();
            set_y_nz(registers, y);
        },
        Instruction::DEX => {
            let mut x = registers.x;
            x.dec();
            set_x_nz(registers, x);
        },
        Instruction::DEY => {
            let mut y = registers.y;
            y.dec();
            set_y_nz(registers, y);
        },
        Instruction::TAX => {
            let a = registers.a;
            set_x_nz(registers, a);
        },
        Instruction::TAY => {
            let a = registers.a;
            set_y_nz(registers, a);
        },
        Instruction::TSX => {
            let sp = registers.sp;
            set_x_nz(registers, sp);
        },
        Instruction::TXA => {
            let x = registers.x;
            set_a_nz(registers, x);
        },
        Instruction::TYA => {
            let y = registers.y;
            set_a_nz(registers, y);
        },
        Instruction::TXS => {
            let x = registers.x;
            registers.set_sp(x);
        },
        _ => {},
    }
}

/// Pushed status bytes: PHP and BRK set break and reserved; interrupts set
/// reserved and clear break. Whatever P held before, bit 5 reads 1.
pub proof fn lemma_pushed_status(p: u8)
    ensures
        bit8(pushed_status(p), RESERVED_BIT),
        bit8(pushed_status(p), BREAK_BIT),
        bit8(interrupt_status(p), RESERVED_BIT),
        !bit8(interrupt_status(p), BREAK_BIT),
{
    crate::bits::lemma_with_bit8(p, BREAK_BIT, true);
    crate::bits::lemma_with_bit8(with_bit8(p, BREAK_BIT, true), RESERVED_BIT, true);
    crate::bits::lemma_with_bit8(p, BREAK_BIT, false);
    crate::bits::lemma_with_bit8(with_bit8(p, BREAK_BIT, false), RESERVED_BIT, true);
}

/// The shifts, rotates, increments and decrements.
pub open spec fn is_rmw(inst: Instruction) -> bool {
    match inst {
        Instruction::ASL | Instruction::LSR | Instruction::ROL | Instruction::ROR
        | Instruction::INC | Instruction::DEC => true,
        _ => false,
    }
}

/// The value a read-modify-write instruction writes back, with carry `c` in.
pub open spec fn rmw_result(inst: Instruction, m: u8, c: bool) -> u8 {
    let ci: int = if c {
        1
    } else {
        0
    };
    match inst {
        Instruction::ASL => ((m * 2) % 256) as u8,
        Instruction::LSR => m / 2,
        Instruction::ROL => ((m * 2 + ci) % 256) as u8,
        Instruction::ROR => (m / 2 + ci * 128) as u8,
        Instruction::INC => ((m + 1) % 256) as u8,
        _ => ((m + 255) % 256) as u8,
    }
}

/// The flags a read-modify-write instruction leaves: the carry takes the bit
/// shifted out, then N and Z follow the result.
pub open spec fn rmw_flags(inst: Instruction, r: Registers, m: u8) -> Registers {
    let res = rmw_result(inst, m, r.flag(CARRY_BIT));
    match inst {
        Instruction::ASL | Instruction::ROL => r.with_flag(CARRY_BIT, m >= 128).with_nz(res),
        Instruction::LSR | Instruction::ROR => r.with_flag(CARRY_BIT, m % 2 == 1).with_nz(res),
        _ => r.with_nz(res),
    }
}

fn rmw_value(inst: Instruction, m: u8, c: bool) -> (r: u8)
    requires
        is_rmw(inst),
    ensures
        r == rmw_result(inst, m, c),
{
    let ci: u16 = if c {
        1
    } else {
        0
    };
    match inst {
        Instruction::ASL => ((m as u16 * 2) % 256) as u8,
        Instruction::LSR => m / 2,
        Instruction::ROL => ((m as u16 * 2 + ci) % 256) as u8,
        Instruction::ROR => (m as u16 / 2 + ci * 128) as u8,
        Instruction::INC => ((m as u16 + 1) % 256) as u8,
        _ => ((m as u16 + 255) % 256) as u8,
    }
}

fn rmw_set_flags(inst: Instruction, registers: &mut Registers, m: u8)
    requires
        is_rmw(inst),
    ensures
        *final(registers) == rmw_flags(inst, *old(registers), m),
{
    let res = rmw_value(inst, m, registers.carry());
    match inst {
        Instruction::ASL | Instruction::ROL => registers.set_carry(m >= 128),
        Instruction::LSR | Instruction::ROR => registers.set_carry(m % 2 == 1),
        _ => {},
    }
    registers.update_nz(Byte(res));
}

/// ASL, LSR, ROL, ROR, INC and DEC: on the accumulator when the operand is
/// its value, else on memory at the operand's address.
pub fn read_modify_write(inst: Instruction, registers: &mut Registers, bus: &mut CpuBus, operand: Operand)
    requires
        is_rmw(inst),
        old(bus).wf(),
    ensures
        final(bus).ppu_clock_same(old(bus)),
        final(bus).wf(),
        operand is Byte ==> {
            let m = old(registers).a.0;
            &&& *final(bus) == *old(bus)
            &&& *final(registers) == (Registers {
                a: Byte(rmw_result(inst, m, old(registers).flag(CARRY_BIT))),
                ..rmw_flags(inst, *old(registers), m)
            })
        },
        operand is Addr && quiet(operand->Addr_0.0) ==> {
            let a = operand->Addr_0.0;
            let m = old(bus).peek(a).0;
            &&& old(bus).written_to(final(bus), a, Byte(rmw_result(inst, m, old(registers).flag(CARRY_BIT))))
            &&& *final(registers) == rmw_flags(inst, *old(registers), m)
        },
        operand is Empty ==> *final(bus) == *old(bus) && *final(registers) == *old(registers),
{
    match operand {
        Operand::Byte(_) => {
            let m = registers.a.0;
            let res = rmw_value(inst, m, registers.carry());
            rmw_set_flags(inst, registers, m);
            registers.set_a(Byte(res));
        },
        Operand::Addr(a) => {
            let m = bus.read(a).0;
            let res = rmw_value(inst, m, registers.carry());
            rmw_set_flags(inst, registers, m);
            bus.write(a, Byte(res));
        },
        Operand::Empty => {},
    }
}

/// STA, STX and STY.
pub fn store(registers: &Registers, bus: &mut CpuBus, operand: Operand, v: Byte)
    requires
        old(bus).wf(),
    ensures
        final(bus).ppu_clock_same(old(bus)),
        final(bus).wf(),
        operand is Addr && quiet(operand->Addr_0.0) ==> old(bus).written_to(
            final(bus),
            operand->Addr_0.0,
            v,
        ),
        !(operand is Addr) ==> *final(bus) == *old(bus),
{
    match operand {
        Operand::Addr(a) => bus.write(a, v),
        _ => {},
    }
}

/// PHP: pushes P with break and reserved set; the register keeps its value.
pub fn php(registers: &mut Registers, bus: &mut CpuBus)
    requires
        old(bus).wf(),
    ensures
        final(bus).ppu_clock_same(old(bus)),
        stack_written(old(bus), final(bus), old(registers).sp.0, Byte(pushed_status(old(registers).status.0))),
        bit8(final(bus).ram.mem@[stack_index(old(registers).sp.0)].0, RESERVED_BIT),
        bit8(final(bus).ram.mem@[stack_index(old(registers).sp.0)].0, BREAK_BIT),
        *final(registers) == (Registers {
            sp: Byte(((old(registers).sp.0 + 255) % 256) as u8),
            ..*old(registers)
        }),
{
    proof {
        lemma_pushed_status(registers.status.0);
    }
    let p = set_bit8(set_bit8(registers.status.0, BREAK_BIT, true), RESERVED_BIT, true);
    push(registers, bus, Byte(p));
}

/// PLA: pops the accumulator and sets N and Z.
pub fn pla(registers: &mut Registers, bus: &mut CpuBus)
    requires
        old(bus).wf(),
    ensures
        final(bus).ppu_clock_same(old(bus)),
        final(bus).wf(),
        *final(bus) == *old(bus),
        *final(registers) == load_a(
            Registers { sp: Byte(((old(registers).sp.0 + 1) % 256) as u8), ..*old(registers) },
            old(bus).ram.mem@[stack_index(((old(registers).sp.0 + 1) % 256) as u8)].0,
        ),
{
    let v = pop(registers, bus);
    set_a_nz(registers, v);
}

/// JSR: pushes the address of the operand's last byte, then jumps.
pub fn jsr(registers: &mut Registers, bus: &mut CpuBus, addr: Addr)
    requires
        old(bus).wf(),
    ensures
        final(bus).ppu_clock_same(old(bus)),
        final(bus).wf(),
        final(bus).ram.mem@ == old(bus).ram.mem@.update(
            stack_index(old(registers).sp.0),
            Byte((((old(registers).pc.0 + 0xFFFF) % 0x10000) / 256) as u8),
        ).update(
            stack_index(((old(registers).sp.0 + 255) % 256) as u8),
            Byte((((old(registers).pc.0 + 0xFFFF) % 0x10000) % 256) as u8),
        ),
        *final(registers) == (Registers {
            sp: Byte(((old(registers).sp.0 + 254) % 256) as u8),
            pc: addr,
            ..*old(registers)
        }),
{
    registers.dec_pc();
    push_pc(registers, bus);
    registers.set_pc(addr);
}

/// RTS: pops the return address and steps past it.
pub fn rts(registers: &mut Registers, bus: &mut CpuBus)
    requires
        old(bus).wf(),
    ensures
        final(bus).ppu_clock_same(old(bus)),
        final(bus).wf(),
        *final(bus) == *old(bus),
        final(registers).sp.0 == (old(registers).sp.0 + 2) % 256,
        final(registers).pc.0 == (old(bus).ram.mem@[stack_index(((old(registers).sp.0 + 2) % 256) as u8)].0
            * 256 + old(bus).ram.mem@[stack_index(((old(registers).sp.0 + 1) % 256) as u8)].0 + 1)
            % 0x10000,
{
    pop_pc(registers, bus);
    registers.inc_pc();
}

/// RTI: pops P (break clear, reserved set), then PC.
pub fn rti(registers: &mut Registers, bus: &mut CpuBus)
    requires
        old(bus).wf(),
    ensures
        final(bus).ppu_clock_same(old(bus)),
        final(bus).wf(),
        *final(bus) == *old(bus),
        final(registers).sp.0 == (old(registers).sp.0 + 3) % 256,
        final(registers).flag(RESERVED_BIT),
        !final(registers).flag(BREAK_BIT),
        final(registers).pc.0 == old(bus).ram.mem@[stack_index(((old(registers).sp.0 + 3) % 256) as u8)].0
            * 256 + old(bus).ram.mem@[stack_index(((old(registers).sp.0 + 2) % 256) as u8)].0,
{
    pop_status(registers, bus);
    pop_pc(registers, bus);
}

/// Reads the little-endian vector at `addr` and `addr + 1`.
pub fn read_vector(bus: &mut CpuBus, addr: u16) -> (r: Addr)
    requires
        old(bus).wf(),
        addr >= 0x4020,
        addr < 0xFFFF,
    ensures
        final(bus).ppu_clock_same(old(bus)),
        *final(bus) == *old(bus),
        r.0 == old(bus).peek((addr + 1) as u16).0 * 256 + old(bus).peek(addr).0,
{
    let lo = bus.read(Addr(addr));
    let hi = bus.read(Addr(addr + 1));
    Addr::from_bytes(lo, hi)
}

/// BRK: pushes PC, which has already skipped the padding byte after the
/// opcode, and P (break and reserved set), sets interrupt-disable and jumps
/// through 0xFFFE.
pub fn brk(registers: &mut Registers, bus: &mut CpuBus)
    requires
        old(bus).wf(),
    ensures
        final(bus).ppu_clock_same(old(bus)),
        final(bus).wf(),
        final(registers).sp.0 == (old(registers).sp.0 + 253) % 256,
        final(registers).flag(INTERRUPT_BIT),
        final(registers).pc.0 == old(bus).peek(0xFFFF).0 * 256 + old(bus).peek(0xFFFE).0,
        bit8(final(bus).ram.mem@[stack_index(((old(registers).sp.0 + 254) % 256) as u8)].0, RESERVED_BIT),
        bit8(final(bus).ram.mem@[stack_index(((old(registers).sp.0 + 254) % 256) as u8)].0, BREAK_BIT),
        final(bus).ram.mem@[stack_index(old(registers).sp.0)].0 == old(registers).pc.0 / 256,
        final(bus).ram.mem@[stack_index(((old(registers).sp.0 + 255) % 256) as u8)].0 == old(
            registers).pc.0 % 256,
        final(bus).cart == old(bus).cart,
{
    push_pc(registers, bus);
    php(registers, bus);
    registers.set_interrupt(true);
    let pc = read_vector(bus, 0xFFFE);
    registers.set_pc(pc);
}

/// A conditional branch to `addr`: one more cycle when taken, another when
/// the target is on a different page.
pub fn branch(inst: Instruction, registers: &mut Registers, addr: Addr) -> (r: NumOfCycles)
    requires
        is_branch(inst),
    ensures
        branch_taken(inst, *old(registers)) ==> *final(registers) == (Registers { pc: addr, ..*old(registers) })
            && r == if addr.0 / 256 == old(registers).pc.0 / 256 {
            1u8
        } else {
            2u8
        },
        !branch_taken(inst, *old(registers)) ==> *final(registers) == *old(registers) && r == 0,
{
    let taken = match inst {
        Instruction::BCC => !registers.carry(),
        Instruction::BCS => registers.carry(),
        Instruction::BEQ => registers.zero(),
        Instruction::BNE => !registers.zero(),
        Instruction::BMI => registers.negative(),
        Instruction::BPL => !registers.negative(),
        Instruction::BVS => registers.overflow(),
        _ => !registers.overflow(),
    };
    if taken {
        let mut additional_cycles: NumOfCycles = 1;
        if !is_same_page(addr, registers.pc) {
            additional_cycles = 2;
        }
        jump_to(registers, addr);
        additional_cycles
    } else {
        0
    }
}

/// Executes one decoded instruction on its operand. Returns the cycles the
/// instruction adds (branches) and whether it takes the addressing mode's
/// page-cross cycle.
#[verifier::rlimit(100)]
pub fn exec_instruction(opcode: &OpCode, registers: &mut Registers, bus: &mut CpuBus, operand: Operand) -> (r: (
    NumOfCycles,
    bool,
))
    requires
        old(bus).wf(),
    ensures
        final(bus).ppu_clock_same(old(bus)),
        final(bus).wf(),
        r.0 <= 2,
        r.0 > 0 ==> is_branch(opcode.inst),
        r.1 ==> reads_operand(opcode.inst) && r.0 == 0,
        reads_operand(opcode.inst) && opcode.inst != Instruction::NOP ==> r.1,
        is_alu(opcode.inst) && operand_readable(operand) ==> {
            &&& *final(registers) == alu_spec(opcode.inst, *old(registers), value_of(old(bus), operand))
            &&& *final(bus) == *old(bus)
        },
        is_branch(opcode.inst) && operand is Addr ==> {
            let addr = operand->Addr_0;
            &&& *final(bus) == *old(bus)
            &&& branch_taken(opcode.inst, *old(registers)) ==> *final(registers) == (Registers {
                pc: addr,
                ..*old(registers)
            }) && r.0 == if addr.0 / 256 == old(registers).pc.0 / 256 {
                1u8
            } else {
                2u8
            }
            &&& !branch_taken(opcode.inst, *old(registers)) ==> *final(registers) == *old(registers) && r.0 == 0
        },
        opcode.inst == Instruction::JMP && operand is Addr ==> *final(registers) == (Registers {
            pc: operand->Addr_0,
            ..*old(registers)
        }) && *final(bus) == *old(bus),
        is_rmw(opcode.inst) && operand is Addr && quiet(operand->Addr_0.0) ==> {
            let a = operand->Addr_0.0;
            let m = old(bus).peek(a).0;
            &&& old(bus).written_to(final(bus), a, Byte(rmw_result(opcode.inst, m, old(registers).flag(CARRY_BIT))))
            &&& *final(registers) == rmw_flags(opcode.inst, *old(registers), m)
        },
        opcode.inst == Instruction::STA && operand is Addr && quiet(operand->Addr_0.0) ==> old(
            bus).written_to(final(bus), operand->Addr_0.0, old(registers).a) && *final(registers) == *old(registers),
        opcode.inst == Instruction::STX && operand is Addr && quiet(operand->Addr_0.0) ==> old(
            bus).written_to(final(bus), operand->Addr_0.0, old(registers).x) && *final(registers) == *old(registers),
        opcode.inst == Instruction::STY && operand is Addr && quiet(operand->Addr_0.0) ==> old(
            bus).written_to(final(bus), operand->Addr_0.0, old(registers).y) && *final(registers) == *old(registers),
        opcode.inst == Instruction::PHP ==> bit8(final(bus).ram.mem@[stack_index(old(registers).sp.0)].0, RESERVED_BIT),
        opcode.inst == Instruction::PHP ==> stack_written(
            old(bus),
            final(bus),
            old(registers).sp.0,
            Byte(pushed_status(old(registers).status.0)),
        ) && *final(registers) == (Registers {
            sp: Byte(((old(registers).sp.0 + 255) % 256) as u8),
            ..*old(registers)
        }),
        opcode.inst == Instruction::PHA ==> stack_written(old(bus), final(bus), old(registers).sp.0, old(registers).a)
            && *final(registers) == (Registers {
            sp: Byte(((old(registers).sp.0 + 255) % 256) as u8),
            ..*old(registers)
        }),
        opcode.inst == Instruction::PLA ==> *final(bus) == *old(bus) && *final(registers) == load_a(
            Registers { sp: Byte(((old(registers).sp.0 + 1) % 256) as u8), ..*old(registers) },
            old(bus).ram.mem@[stack_index(((old(registers).sp.0 + 1) % 256) as u8)].0,
        ),
        opcode.inst == Instruction::PLP ==> *final(bus) == *old(bus) && *final(registers) == (Registers {
            sp: Byte(((old(registers).sp.0 + 1) % 256) as u8),
            status: StatusRegister(
                with_bit8(
                    with_bit8(
                        old(bus).ram.mem@[stack_index(((old(registers).sp.0 + 1) % 256) as u8)].0,
                        BREAK_BIT,
                        false,
                    ),
                    RESERVED_BIT,
                    true,
                ),
            ),
            ..*old(registers)
        }),
        opcode.inst == Instruction::JSR && operand is Addr ==> {
            &&& final(bus).ram.mem@ == old(bus).ram.mem@.update(
                stack_index(old(registers).sp.0),
                Byte((((old(registers).pc.0 + 0xFFFF) % 0x10000) / 256) as u8),
            ).update(
                stack_index(((old(registers).sp.0 + 255) % 256) as u8),
                Byte((((old(registers).pc.0 + 0xFFFF) % 0x10000) % 256) as u8),
            )
            &&& *final(registers) == (Registers {
                sp: Byte(((old(registers).sp.0 + 254) % 256) as u8),
                pc: operand->Addr_0,
                ..*old(registers)
            })
        },
        opcode.inst == Instruction::RTS ==> {
            &&& *final(bus) == *old(bus)
            &&& final(registers).sp.0 == (old(registers).sp.0 + 2) % 256
            &&& final(registers).pc.0 == (old(bus).ram.mem@[stack_index(((old(registers).sp.0 + 2) % 256) as u8)].0
                * 256 + old(bus).ram.mem@[stack_index(((old(registers).sp.0 + 1) % 256) as u8)].0 + 1)
                % 0x10000
        },
        opcode.inst == Instruction::RTI ==> {
            &&& *final(bus) == *old(bus)
            &&& final(registers).sp.0 == (old(registers).sp.0 + 3) % 256
            &&& final(registers).flag(RESERVED_BIT)
            &&& !final(registers).flag(BREAK_BIT)
            &&& final(registers).pc.0 == old(bus).ram.mem@[stack_index(((old(registers).sp.0 + 3) % 256) as u8)].0
                * 256 + old(bus).ram.mem@[stack_index(((old(registers).sp.0 + 2) % 256) as u8)].0
        },
        is_rmw(opcode.inst) && operand is Byte ==> {
            let m = old(registers).a.0;
            &&& *final(bus) == *old(bus)
            &&& *final(registers) == (Registers {
                a: Byte(rmw_result(opcode.inst, m, old(registers).flag(CARRY_BIT))),
                ..rmw_flags(opcode.inst, *old(registers), m)
            })
        },
        opcode.inst == Instruction::NOP ==> r.1 == (opcode.mode == AddressingMode::ABX),
        is_branch(opcode.inst) && !(operand is Addr) ==> r.0 == 0 && *final(registers) == *old(
            registers),
        is_alu(opcode.inst) ==> r.0 == 0,
        opcode.inst == Instruction::BRK ==> {
            &&& final(registers).sp.0 == (old(registers).sp.0 + 253) % 256
            &&& final(registers).flag(INTERRUPT_BIT)
            &&& final(registers).pc.0 == old(bus).peek(0xFFFF).0 * 256 + old(bus).peek(0xFFFE).0
            &&& bit8(final(bus).ram.mem@[stack_index(((old(registers).sp.0 + 254) % 256) as u8)].0, RESERVED_BIT)
            &&& bit8(final(bus).ram.mem@[stack_index(((old(registers).sp.0 + 254) % 256) as u8)].0, BREAK_BIT)
            &&& final(bus).ram.mem@[stack_index(old(registers).sp.0)].0 == old(registers).pc.0 / 256
            &&& final(bus).ram.mem@[stack_index(((old(registers).sp.0 + 255) % 256) as u8)].0
                == old(registers).pc.0 % 256
        },
{
    let inst = opcode.inst;
    match inst {
        Instruction::ADC | Instruction::AND | Instruction::BIT | Instruction::CLC
        | Instruction::CLD | Instruction::CLI | Instruction::CLV | Instruction::CMP
        | Instruction::CPX | Instruction::CPY | Instruction::DEX | Instruction::DEY
        | Instruction::EOR | Instruction::INX | Instruction::INY | Instruction::LDA
        | Instruction::LDX | Instruction::LDY | Instruction::NOP | Instruction::ORA
        | Instruction::SBC | Instruction::SEC | Instruction::SED | Instruction::SEI
        | Instruction::TAX | Instruction::TAY | Instruction::TSX | Instruction::TXA
        | Instruction::TXS | Instruction::TYA | Instruction::XXX => {
            let needs_value = match inst {
                Instruction::ADC | Instruction::AND | Instruction::BIT | Instruction::CMP
                | Instruction::CPX | Instruction::CPY | Instruction::EOR | Instruction::LDA
                | Instruction::LDX | Instruction::LDY | Instruction::ORA | Instruction::SBC => true,
                _ => false,
            };
            let m = if needs_value {
                unwrap_operand(bus, operand)
            } else {
                Byte(0)
            };
            exec_alu(inst, registers, m);
            let page = match inst {
                Instruction::ADC | Instruction::AND | Instruction::CMP | Instruction::CPX
                | Instruction::CPY | Instruction::EOR | Instruction::LDA | Instruction::LDX
                | Instruction::LDY | Instruction::ORA | Instruction::SBC => true,
                Instruction::NOP => opcode.mode == AddressingMode::ABX,
                _ => false,
            };
            (0, page)
        },
        Instruction::ASL | Instruction::LSR | Instruction::ROL | Instruction::ROR
        | Instruction::INC | Instruction::DEC => {
            read_modify_write(inst, registers, bus, operand);
            (0, false)
        },
        Instruction::BCC | Instruction::BCS | Instruction::BEQ | Instruction::BMI
        | Instruction::BNE | Instruction::BPL | Instruction::BVC | Instruction::BVS => {
            match operand {
                Operand::Addr(addr) => (branch(inst, registers, addr), false),
                _ => (0, false),
            }
        },
        Instruction::JMP => {
            match operand {
                Operand::Addr(addr) => jump_to(registers, addr),
                _ => {},
            }
            (0, false)
        },
        Instruction::JSR => {
            match operand {
                Operand::Addr(addr) => jsr(registers, bus, addr),
                _ => {},
            }
            (0, false)
        },
        Instruction::STA => {
            let v = registers.a;
            store(registers, bus, operand, v);
            (0, false)
        },
        Instruction::STX => {
            let v = registers.x;
            store(registers, bus, operand, v);
            (0, false)
        },
        Instruction::STY => {
            let v = registers.y;
            store(registers, bus, operand, v);
            (0, false)
        },
        Instruction::PHA => {
            let v = registers.a;
            push(registers, bus, v);
            (0, false)
        },
        Instruction::PHP => {
            php(registers, bus);
            (0, false)
        },
        Instruction::PLA => {
            pla(registers, bus);
            (0, false)
        },
        Instruction::PLP => {
            pop_status(registers, bus);
            (0, false)
        },
        Instruction::RTI => {
            rti(registers, bus);
            (0, false)
        },
        Instruction::RTS => {
            rts(registers, bus);
            (0, false)
        },
        Instruction::BRK => {
            brk(registers, bus);
            (0, false)
        },
    }
}

} // verus!

//! Addressing modes: how an instruction finds its operand.
use crate::cpu::bus::{quiet, CpuBus};
use crate::cpu::opcode::OpCode;
use crate::cpu::operand::Operand;
use crate::cpu::registers::Registers;
use crate::types::{Addr, Byte, Word};
use vstd::prelude::*;

verus! {

#[derive(Clone, Copy, Debug, PartialEq, Eq, Structural)]
pub enum AddressingMode {
    XXX,
    ACC,
    ABS,
    ABX,
    ABY,
    IMP,
    IMM,
    IND,
    IZX,
    IZY,
    REL,
    ZP0,
    ZPX,
    ZPY,
}

/// The byte at `a`, taken modulo the 16-bit address space.
pub open spec fn rd(bus: &CpuBus, a: int) -> int {
    bus.peek((a % 0x10000) as u16).0 as int
}

/// `k` bytes past the program counter.
pub open spec fn pc_plus(regs: Registers, k: int) -> int {
    (regs.pc.0 + k) % 0x10000
}

/// Operand bytes that follow the opcode.
pub open spec fn operand_len(mode: AddressingMode) -> int {
    match mode {
        AddressingMode::IMM | AddressingMode::ZP0 | AddressingMode::ZPX | AddressingMode::ZPY
        | AddressingMode::IZX | AddressingMode::IZY | AddressingMode::REL => 1,
        AddressingMode::ABS | AddressingMode::ABX | AddressingMode::ABY | AddressingMode::IND => 2,
        _ => 0,
    }
}

/// The 16-bit operand that follows the opcode.
pub open spec fn operand_word(bus: &CpuBus, regs: Registers) -> int {
    rd(bus, pc_plus(regs, 1)) * 256 + rd(bus, pc_plus(regs, 0))
}

/// Where the indirect jump reads the high byte of its target: on the same
/// page as the pointer, which is the 6502's page-wrap bug.
pub open spec fn indirect_hi_addr(ptr: int) -> int {
    if ptr % 256 == 0xFF {
        ptr - 0xFF
    } else {
        ptr + 1
    }
}

/// Every byte the mode reads lies in RAM or the cartridge. (Zero-page
/// pointers always do.)
pub open spec fn operand_quiet(bus: &CpuBus, regs: Registers, mode: AddressingMode) -> bool {
    &&& forall|k: int| 0 <= k < operand_len(mode) ==> quiet(#[trigger] pc_plus(regs, k) as u16)
    &&& mode == AddressingMode::IND ==> quiet(operand_word(bus, regs) as u16) && quiet(
        indirect_hi_addr(operand_word(bus, regs)) as u16,
    )
}

/// The operand a mode yields, and whether indexing crossed a page.
pub open spec fn operand_spec(bus: &CpuBus, regs: Registers, mode: AddressingMode) -> (Operand, bool) {
    let b1 = rd(bus, pc_plus(regs, 0));
    let w = operand_word(bus, regs);
    match mode {
        AddressingMode::IMP | AddressingMode::ACC => (Operand::Byte(regs.a), false),
        AddressingMode::IMM => (Operand::Byte(Byte(b1 as u8)), false),
        AddressingMode::ZP0 => (Operand::Addr(Addr(b1 as u16)), false),
        AddressingMode::ZPX => (Operand::Addr(Addr(((b1 + regs.x.0) % 256) as u16)), false),
        AddressingMode::ZPY => (Operand::Addr(Addr(((b1 + regs.y.0) % 256) as u16)), false),
        AddressingMode::ABS => (Operand::Addr(Addr(w as u16)), false),
        AddressingMode::ABX => {
            let e = (w + regs.x.0) % 0x10000;
            (Operand::Addr(Addr(e as u16)), w / 256 != e / 256)
        },
        AddressingMode::ABY => {
            let e = (w + regs.y.0) % 0x10000;
            (Operand::Addr(Addr(e as u16)), w / 256 != e / 256)
        },
        AddressingMode::IND => {
            let lo = rd(bus, w);
            let hi = rd(bus, indirect_hi_addr(w));
            (Operand::Addr(Addr((hi * 256 + lo) as u16)), false)
        },
        AddressingMode::IZX => {
            let z = (b1 + regs.x.0) % 256;
            let lo = rd(bus, z);
            let hi = rd(bus, (z + 1) % 256);
            (Operand::Addr(Addr((hi * 256 + lo) as u16)), false)
        },
        AddressingMode::IZY => {
            let lo = rd(bus, b1);
            let hi = rd(bus, (b1 + 1) % 256);
            let e = (hi * 256 + lo + regs.y.0) % 0x10000;
            (Operand::Addr(Addr(e as u16)), e / 256 != hi)
        },
        AddressingMode::REL => {
            let next = pc_plus(regs, 1);
            let e = if b1 >= 128 {
                (next + b1 + 0x10000 - 256) % 0x10000
            } else {
                (next + b1) % 0x10000
            };
            (Operand::Addr(Addr(e as u16)), false)
        },
        AddressingMode::XXX => (Operand::Empty, false),
    }
}

/// The registers after the opcode's operand bytes are consumed.
pub open spec fn past_operand(regs: Registers, mode: AddressingMode) -> Registers {
    Registers { pc: Addr(pc_plus(regs, operand_len(mode)) as u16), ..regs }
}

/// Reads the byte at PC and moves PC on.
#[verifier::rlimit(80)]
fn fetch_byte(registers: &mut Registers, bus: &mut CpuBus) -> (r: Byte)
    requires
        old(bus).wf(),
    ensures
        final(bus).ppu_clock_same(old(bus)),
        final(bus).wf(),
        final(bus).ram == old(bus).ram,
        final(bus).dma == old(bus).dma,
        *final(registers) == past_operand(*old(registers), AddressingMode::IMM),
        quiet(old(registers).pc.0) ==> r == old(bus).peek(old(registers).pc.0) && *final(bus) == *old(bus),
{
    let b = bus.read(registers.pc);
    registers.inc_pc();
    b
}

/// Reads a little-endian word at PC and moves PC past it.
#[verifier::rlimit(80)]
fn fetch_word(registers: &mut Registers, bus: &mut CpuBus) -> (r: Word)
    requires
        old(bus).wf(),
    ensures
        final(bus).ppu_clock_same(old(bus)),
        final(bus).wf(),
        final(bus).ram == old(bus).ram,
        final(bus).dma == old(bus).dma,
        *final(registers) == past_operand(*old(registers), AddressingMode::ABS),
        quiet(pc_plus(*old(registers), 0) as u16) && quiet(pc_plus(*old(registers), 1) as u16) ==> r.0
            == operand_word(old(bus), *old(registers)) && *final(bus) == *old(bus),
{
    let lo = fetch_byte(registers, bus);
    let hi = fetch_byte(registers, bus);
    Word::from_bytes(lo, hi)
}

/// Reads the two bytes of a pointer.
fn read_pointer(bus: &mut CpuBus, lo_addr: u16, hi_addr: u16) -> (r: (Byte, Byte))
    requires
        old(bus).wf(),
    ensures
        final(bus).ppu_clock_same(old(bus)),
        final(bus).wf(),
        final(bus).ram == old(bus).ram,
        final(bus).dma == old(bus).dma,
        quiet(lo_addr) && quiet(hi_addr) ==> r == (old(bus).peek(lo_addr), old(bus).peek(hi_addr))
            && *final(bus) == *old(bus),
{
    let lo = bus.read(Addr(lo_addr));
    let hi = bus.read(Addr(hi_addr));
    (lo, hi)
}

/// The pointer `hi:lo` plus `y`, and whether that crosses a page.
fn index_pointer(lo: Byte, hi: Byte, y: Byte) -> (r: (Operand, bool))
    ensures
        ({
            let e = (hi.0 * 256 + lo.0 + y.0) % 0x10000;
            r == (Operand::Addr(Addr(e as u16)), e / 256 != hi.0)
        }),
{
    let base = Addr::from_bytes(lo, hi);
    let addr = Addr(((base.0 as u32 + y.0 as u32) % 0x10000) as u16);
    (Operand::Addr(addr), addr.hi() != hi)
}

/// Fetches the opcode byte.
pub fn fetch_instruction_code(registers: &mut Registers, bus: &mut CpuBus) -> (r: Byte)
    requires
        old(bus).wf(),
    ensures
        final(bus).ppu_clock_same(old(bus)),
        final(bus).wf(),
        final(bus).ram == old(bus).ram,
        final(bus).dma == old(bus).dma,
        *final(registers) == past_operand(*old(registers), AddressingMode::IMM),
        quiet(old(registers).pc.0) ==> r == old(bus).peek(old(registers).pc.0) && *final(bus) == *old(bus),
{
    fetch_byte(registers, bus)
}

#[verifier::rlimit(80)]
fn fetch_accumulator(registers: &mut Registers, bus: &mut CpuBus) -> (r: (Operand, bool))
    requires
        old(bus).wf(),
    ensures
        final(bus).ppu_clock_same(old(bus)),
        final(bus).wf(),
        final(bus).ram == old(bus).ram,
        final(bus).dma == old(bus).dma,
        *final(registers) == past_operand(*old(registers), AddressingMode::ACC),
        operand_quiet(old(bus), *old(registers), AddressingMode::ACC) ==> r == operand_spec(
            old(bus),
            *old(registers),
            AddressingMode::ACC,
        ) && *final(bus) == *old(bus),
{
    (Operand::Byte(registers.a), false)
}

#[verifier::rlimit(80)]
fn fetch_implied(registers: &mut Registers, bus: &mut CpuBus) -> (r: (Operand, bool))
    requires
        old(bus).wf(),
    ensures
        final(bus).ppu_clock_same(old(bus)),
        final(bus).wf(),
        final(bus).ram == old(bus).ram,
        final(bus).dma == old(bus).dma,
        *final(registers) == past_operand(*old(registers), AddressingMode::IMP),
        operand_quiet(old(bus), *old(registers), AddressingMode::IMP) ==> r == operand_spec(
            old(bus),
            *old(registers),
            AddressingMode::IMP,
        ) && *final(bus) == *old(bus),
{
    (Operand::Byte(registers.a), false)
}

#[verifier::rlimit(80)]
fn fetch_immediate(registers: &mut Registers, bus: &mut CpuBus) -> (r: (Operand, bool))
    requires
        old(bus).wf(),
    ensures
        final(bus).ppu_clock_same(old(bus)),
        final(bus).wf(),
        final(bus).ram == old(bus).ram,
        final(bus).dma == old(bus).dma,
        *final(registers) == past_operand(*old(registers), AddressingMode::IMM),
        operand_quiet(old(bus), *old(registers), AddressingMode::IMM) ==> r == operand_spec(
            old(bus),
            *old(registers),
            AddressingMode::IMM,
        ) && *final(bus) == *old(bus),
{
    let b = fetch_byte(registers, bus);
    (Operand::Byte(b), false)
}

#[verifier::rlimit(80)]
fn fetch_zero_page(registers: &mut Registers, bus: &mut CpuBus) -> (r: (Operand, bool))
    requires
        old(bus).wf(),
    ensures
        final(bus).ppu_clock_same(old(bus)),
        final(bus).wf(),
        final(bus).ram == old(bus).ram,
        final(bus).dma == old(bus).dma,
        *final(registers) == past_operand(*old(registers), AddressingMode::ZP0),
        operand_quiet(old(bus), *old(registers), AddressingMode::ZP0) ==> r == operand_spec(
            old(bus),
            *old(registers),
            AddressingMode::ZP0,
        ) && *final(bus) == *old(bus),
{
    let b = fetch_byte(registers, bus);
    (Operand::Addr(b.as_lo_addr()), false)
}

#[verifier::rlimit(80)]
fn fetch_zero_page_x(registers: &mut Registers, bus: &mut CpuBus) -> (r: (Operand, bool))
    requires
        old(bus).wf(),
    ensures
        final(bus).ppu_clock_same(old(bus)),
        final(bus).wf(),
        final(bus).ram == old(bus).ram,
        final(bus).dma == old(bus).dma,
        *final(registers) == past_operand(*old(registers), AddressingMode::ZPX),
        operand_quiet(old(bus), *old(registers), AddressingMode::ZPX) ==> r == operand_spec(
            old(bus),
            *old(registers),
            AddressingMode::ZPX,
        ) && *final(bus) == *old(bus),
{
    let b = fetch_byte(registers, bus);
    // Zero-page indexing wraps within the zero page.
    (Operand::Addr(Addr(((b.0 as u16 + registers.x.0 as u16) % 256))), false)
}

#[verifier::rlimit(80)]
fn fetch_zero_page_y(registers: &mut Registers, bus: &mut CpuBus) -> (r: (Operand, bool))
    requires
        old(bus).wf(),
    ensures
        final(bus).ppu_clock_same(old(bus)),
        final(bus).wf(),
        final(bus).ram == old(bus).ram,
        final(bus).dma == old(bus).dma,
        *final(registers) == past_operand(*old(registers), AddressingMode::ZPY),
        operand_quiet(old(bus), *old(registers), AddressingMode::ZPY) ==> r == operand_spec(
            old(bus),
            *old(registers),
            AddressingMode::ZPY,
        ) && *final(bus) == *old(bus),
{
    let b = fetch_byte(registers, bus);
    (Operand::Addr(Addr(((b.0 as u16 + registers.y.0 as u16) % 256))), false)
}

#[verifier::rlimit(80)]
fn fetch_absolute(registers: &mut Registers, bus: &mut CpuBus) -> (r: (Operand, bool))
    requires
        old(bus).wf(),
    ensures
        final(bus).ppu_clock_same(old(bus)),
        final(bus).wf(),
        final(bus).ram == old(bus).ram,
        final(bus).dma == old(bus).dma,
        *final(registers) == past_operand(*old(registers), AddressingMode::ABS),
        operand_quiet(old(bus), *old(registers), AddressingMode::ABS) ==> r == operand_spec(
            old(bus),
            *old(registers),
            AddressingMode::ABS,
        ) && *final(bus) == *old(bus),
{
    let word = fetch_word(registers, bus);
    (Operand::Addr(Addr(word.0)), false)
}

#[verifier::rlimit(80)]
fn fetch_absolute_x(registers: &mut Registers, bus: &mut CpuBus) -> (r: (Operand, bool))
    requires
        old(bus).wf(),
    ensures
        final(bus).ppu_clock_same(old(bus)),
        final(bus).wf(),
        final(bus).ram == old(bus).ram,
        final(bus).dma == old(bus).dma,
        *final(registers) == past_operand(*old(registers), AddressingMode::ABX),
        operand_quiet(old(bus), *old(registers), AddressingMode::ABX) ==> r == operand_spec(
            old(bus),
            *old(registers),
            AddressingMode::ABX,
        ) && *final(bus) == *old(bus),
{
    let word = fetch_word(registers, bus);
    let addr = Addr(((word.0 as u32 + registers.x.0 as u32) % 0x10000) as u16);
    (Operand::Addr(addr), word.hi() != addr.hi())
}

#[verifier::rlimit(80)]
fn fetch_absolute_y(registers: &mut Registers, bus: &mut CpuBus) -> (r: (Operand, bool))
    requires
        old(bus).wf(),
    ensures
        final(bus).ppu_clock_same(old(bus)),
        final(bus).wf(),
        final(bus).ram == old(bus).ram,
        final(bus).dma == old(bus).dma,
        *final(registers) == past_operand(*old(registers), AddressingMode::ABY),
        operand_quiet(old(bus), *old(registers), AddressingMode::ABY) ==> r == operand_spec(
            old(bus),
            *old(registers),
            AddressingMode::ABY,
        ) && *final(bus) == *old(bus),
{
    let word = fetch_word(registers, bus);
    let addr = Addr(((word.0 as u32 + registers.y.0 as u32) % 0x10000) as u16);
    (Operand::Addr(addr), word.hi() != addr.hi())
}

#[verifier::rlimit(100)]
fn fetch_indirect(registers: &mut Registers, bus: &mut CpuBus) -> (r: (Operand, bool))
    requires
        old(bus).wf(),
    ensures
        final(bus).ppu_clock_same(old(bus)),
        final(bus).wf(),
        final(bus).ram == old(bus).ram,
        final(bus).dma == old(bus).dma,
        *final(registers) == past_operand(*old(registers), AddressingMode::IND),
        operand_quiet(old(bus), *old(registers), AddressingMode::IND) ==> r == operand_spec(
            old(bus),
            *old(registers),
            AddressingMode::IND,
        ) && *final(bus) == *old(bus),
{
    let word = fetch_word(registers, bus);
    let lo = bus.read(Addr(word.0));
    let hi = if word.lo().is_set() {
        // The high byte comes from the start of the same page.
        bus.read(Addr(word.0 - 0xFF))
    } else {
        bus.read(Addr(word.0 + 1))
    };
    (Operand::Addr(Addr::from_bytes(lo, hi)), false)
}

#[verifier::rlimit(80)]
fn fetch_indirect_x(registers: &mut Registers, bus: &mut CpuBus) -> (r: (Operand, bool))
    requires
        old(bus).wf(),
    ensures
        final(bus).ppu_clock_same(old(bus)),
        final(bus).wf(),
        final(bus).ram == old(bus).ram,
        final(bus).dma == old(bus).dma,
        *final(registers) == past_operand(*old(registers), AddressingMode::IZX),
        operand_quiet(old(bus), *old(registers), AddressingMode::IZX) ==> r == operand_spec(
            old(bus),
            *old(registers),
            AddressingMode::IZX,
        ) && *final(bus) == *old(bus),
{
    let b = fetch_byte(registers, bus);
    let z = (b.0 as u16 + registers.x.0 as u16) % 256;
    let (lo, hi) = read_pointer(bus, z, (z + 1) % 256);
    (Operand::Addr(Addr::from_bytes(lo, hi)), false)
}

#[verifier::rlimit(100)]
fn fetch_indirect_y(registers: &mut Registers, bus: &mut CpuBus) -> (r: (Operand, bool))
    requires
        old(bus).wf(),
    ensures
        final(bus).ppu_clock_same(old(bus)),
        final(bus).wf(),
        final(bus).ram == old(bus).ram,
        final(bus).dma == old(bus).dma,
        *final(registers) == past_operand(*old(registers), AddressingMode::IZY),
        operand_quiet(old(bus), *old(registers), AddressingMode::IZY) ==> r == operand_spec(
            old(bus),
            *old(registers),
            AddressingMode::IZY,
        ) && *final(bus) == *old(bus),
{
    let b = fetch_byte(registers, bus);
    let (lo, hi) = read_pointer(bus, b.0 as u16, (b.0 as u16 + 1) % 256);
    index_pointer(lo, hi, registers.y)
}

#[verifier::rlimit(80)]
fn fetch_relative(registers: &mut Registers, bus: &mut CpuBus) -> (r: (Operand, bool))
    requires
        old(bus).wf(),
    ensures
        final(bus).ppu_clock_same(old(bus)),
        final(bus).wf(),
        final(bus).ram == old(bus).ram,
        final(bus).dma == old(bus).dma,
        *final(registers) == past_operand(*old(registers), AddressingMode::REL),
        operand_quiet(old(bus), *old(registers), AddressingMode::REL) ==> r == operand_spec(
            old(bus),
            *old(registers),
            AddressingMode::REL,
        ) && *final(bus) == *old(bus),
{
    let b = fetch_byte(registers, bus);
    let next = registers.pc.0 as u32;
    let target = if b.is_neg() {
        (next + b.0 as u32 + 0x10000 - 256) % 0x10000
    } else {
        (next + b.0 as u32) % 0x10000
    };
    (Operand::Addr(Addr(target as u16)), false)
}

/// Fetches the operand of `opcode`: PC moves past its bytes; the flag tells
/// whether indexing crossed a page.
#[verifier::rlimit(80)]
pub fn fetch_operand(opcode: &OpCode, registers: &mut Registers, bus: &mut CpuBus) -> (r: (
    Operand,
    bool,
))
    requires
        old(bus).wf(),
    ensures
        final(bus).ppu_clock_same(old(bus)),
        final(bus).wf(),
        final(bus).ram == old(bus).ram,
        final(bus).dma == old(bus).dma,
        *final(registers) == past_operand(*old(registers), opcode.mode),
        operand_quiet(old(bus), *old(registers), opcode.mode) ==> r == operand_spec(
            old(bus),
            *old(registers),
            opcode.mode,
        ) && *final(bus) == *old(bus),
{
    match opcode.mode {
        AddressingMode::XXX => (Operand::Empty, false),
        AddressingMode::ACC => fetch_accumulator(registers, bus),
        AddressingMode::IMP => fetch_implied(registers, bus),
        AddressingMode::IMM => fetch_immediate(registers, bus),
        AddressingMode::ZP0 => fetch_zero_page(registers, bus),
        AddressingMode::ZPX => fetch_zero_page_x(registers, bus),
        AddressingMode::ZPY => fetch_zero_page_y(registers, bus),
        AddressingMode::ABS => fetch_absolute(registers, bus),
        AddressingMode::ABX => fetch_absolute_x(registers, bus),
        AddressingMode::ABY => fetch_absolute_y(registers, bus),
        AddressingMode::IND => fetch_indirect(registers, bus),
        AddressingMode::IZX => fetch_indirect_x(registers, bus),
        AddressingMode::IZY => fetch_indirect_y(registers, bus),
        AddressingMode::REL => fetch_relative(registers, bus),
    }
}

} // verus!

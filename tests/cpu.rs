use nep::cartridge::Cartridge;
use nep::cpu::addressing::AddressingMode;
use nep::cpu::bus::CpuBus;
use nep::cpu::instruction::Instruction;
use nep::cpu::opcode::lookup;
use nep::cpu::Cpu;
use nep::dma::Dma;
use nep::joypad::Joypad;
use nep::ppu::Ppu;
use nep::ram::Ram;
use nep::types::{Addr, Byte};

fn bus() -> CpuBus {
    CpuBus::new(Cartridge::new(), Ram::new(), Ppu::new(), Dma::new(), Joypad::new(), Joypad::new())
}

/// A CPU at `pc` with the bytes of `program` stored from `pc` on.
fn with_program(pc: u16, program: &[u8]) -> (Cpu, CpuBus) {
    let mut b = bus();
    for (i, v) in program.iter().enumerate() {
        b.write(Addr(pc + i as u16), Byte(*v));
    }
    let mut cpu = Cpu::new();
    cpu.regs.pc = Addr(pc);
    (cpu, b)
}

#[test]
fn adc_overflow() {
    let (mut cpu, mut b) = with_program(0x0000, &[0x69, 0x50]);
    cpu.regs.a = Byte(0x50);
    cpu.regs.set_carry(false);
    cpu.step(&mut b);
    assert_eq!(cpu.regs.a, Byte(0xA0));
    assert!(cpu.regs.negative());
    assert!(cpu.regs.overflow());
    assert!(!cpu.regs.zero());
    assert!(!cpu.regs.carry());
    assert_eq!(cpu.regs.pc, Addr(0x0002));
    assert_eq!(cpu.cycles + 1, 2);
}

#[test]
fn adc_carry_out() {
    let (mut cpu, mut b) = with_program(0x0000, &[0x69, 0xD0]);
    cpu.regs.a = Byte(0x50);
    cpu.regs.set_carry(true);
    cpu.step(&mut b);
    assert_eq!(cpu.regs.a, Byte(0x21));
    assert!(cpu.regs.carry());
    assert!(!cpu.regs.overflow());
}

#[test]
fn sbc_borrow_and_overflow() {
    // 0x50 - 0xB0 with carry set: 0xA0, overflow, borrow.
    let (mut cpu, mut b) = with_program(0x0000, &[0xE9, 0xB0]);
    cpu.regs.a = Byte(0x50);
    cpu.regs.set_carry(true);
    cpu.step(&mut b);
    assert_eq!(cpu.regs.a, Byte(0xA0));
    assert!(cpu.regs.overflow());
    assert!(!cpu.regs.carry());
    assert!(cpu.regs.negative());
}

#[test]
fn page_cross_cycle() {
    let (mut cpu, mut b) = with_program(0x0010, &[0xBD, 0xFF, 0x00]);
    b.write(Addr(0x0100), Byte(0x77));
    cpu.regs.x = Byte(0x01);
    assert_eq!(lookup(0xBD).cycle, 4);
    cpu.step(&mut b);
    assert_eq!(cpu.regs.a, Byte(0x77));
    // Five cycles in all; the first has just been spent.
    assert_eq!(cpu.cycles + 1, 5);
}

#[test]
fn same_page_costs_base_cycles() {
    let (mut cpu, mut b) = with_program(0x0010, &[0xBD, 0x00, 0x01]);
    cpu.regs.x = Byte(0x01);
    cpu.step(&mut b);
    assert_eq!(cpu.cycles + 1, 4);
}

#[test]
fn store_ignores_page_cross() {
    let (mut cpu, mut b) = with_program(0x0010, &[0x9D, 0xFF, 0x00]);
    cpu.regs.x = Byte(0x01);
    cpu.regs.a = Byte(0x5A);
    cpu.step(&mut b);
    assert_eq!(b.read(Addr(0x0100)), Byte(0x5A));
    assert_eq!(cpu.cycles + 1, 5);
}

#[test]
fn indirect_jmp_bug() {
    let (mut cpu, mut b) = with_program(0x0000, &[0x6C, 0xFF, 0x02]);
    b.write(Addr(0x02FF), Byte(0x34));
    b.write(Addr(0x0200), Byte(0x12));
    b.write(Addr(0x0300), Byte(0x56));
    cpu.step(&mut b);
    assert_eq!(cpu.regs.pc, Addr(0x1234));
}

#[test]
fn taken_branch_across_page_costs_two_more() {
    // BNE +0x10 at 0x00F0: the target 0x0102 is on the next page.
    let (mut cpu, mut b) = with_program(0x00F0, &[0xD0, 0x10]);
    cpu.regs.set_zero(false);
    cpu.step(&mut b);
    assert_eq!(cpu.regs.pc, Addr(0x0102));
    assert_eq!(cpu.cycles + 1, 4);
}

#[test]
fn untaken_branch_costs_base() {
    let (mut cpu, mut b) = with_program(0x0000, &[0xF0, 0x10]);
    cpu.regs.set_zero(false);
    cpu.step(&mut b);
    assert_eq!(cpu.regs.pc, Addr(0x0002));
    assert_eq!(cpu.cycles + 1, 2);
}

#[test]
fn backward_branch() {
    let (mut cpu, mut b) = with_program(0x0010, &[0x10, 0xFC]);
    cpu.regs.set_negative(false);
    cpu.step(&mut b);
    assert_eq!(cpu.regs.pc, Addr(0x000E));
    assert_eq!(cpu.cycles + 1, 3);
}

#[test]
fn stack_stays_in_page_one() {
    // PHA with S = 0x00 writes 0x0100 and wraps S to 0xFF.
    let (mut cpu, mut b) = with_program(0x0000, &[0x48, 0x68]);
    cpu.regs.sp = Byte(0x00);
    cpu.regs.a = Byte(0x3C);
    cpu.step(&mut b);
    assert_eq!(b.read(Addr(0x0100)), Byte(0x3C));
    assert_eq!(cpu.regs.sp, Byte(0xFF));
    cpu.cycles = 0;
    cpu.regs.a = Byte(0);
    cpu.step(&mut b);
    assert_eq!(cpu.regs.a, Byte(0x3C));
    assert_eq!(cpu.regs.sp, Byte(0x00));
}

#[test]
fn php_pushes_break_and_reserved() {
    let (mut cpu, mut b) = with_program(0x0000, &[0x08]);
    cpu.regs.status.0 = 0x00;
    cpu.regs.sp = Byte(0xFD);
    cpu.step(&mut b);
    assert_eq!(b.read(Addr(0x01FD)).0 & 0x30, 0x30);
}

#[test]
fn plp_forces_break_clear_and_reserved_set() {
    let (mut cpu, mut b) = with_program(0x0000, &[0x28]);
    b.write(Addr(0x01FE), Byte(0xDF));
    cpu.regs.sp = Byte(0xFD);
    cpu.step(&mut b);
    assert_eq!(cpu.regs.status.0, 0xEF);
}

#[test]
fn jsr_and_rts_round_trip() {
    let (mut cpu, mut b) = with_program(0x0200, &[0x20, 0x00, 0x03]);
    b.write(Addr(0x0300), Byte(0x60));
    cpu.regs.sp = Byte(0xFD);
    cpu.step(&mut b);
    assert_eq!(cpu.regs.pc, Addr(0x0300));
    assert_eq!(b.read(Addr(0x01FD)), Byte(0x02));
    assert_eq!(b.read(Addr(0x01FC)), Byte(0x02));
    cpu.cycles = 0;
    cpu.step(&mut b);
    assert_eq!(cpu.regs.pc, Addr(0x0203));
    assert_eq!(cpu.regs.sp, Byte(0xFD));
}

#[test]
fn rotate_accumulator_through_carry() {
    let (mut cpu, mut b) = with_program(0x0000, &[0x6A, 0x2A, 0x0A, 0x4A]);
    cpu.regs.a = Byte(0x01);
    cpu.regs.set_carry(true);
    cpu.step(&mut b); // ROR A
    assert_eq!(cpu.regs.a, Byte(0x80));
    assert!(cpu.regs.carry());
    cpu.cycles = 0;
    cpu.step(&mut b); // ROL A
    assert_eq!(cpu.regs.a, Byte(0x01));
    assert!(cpu.regs.carry());
    cpu.cycles = 0;
    cpu.step(&mut b); // ASL A
    assert_eq!(cpu.regs.a, Byte(0x02));
    assert!(!cpu.regs.carry());
    cpu.cycles = 0;
    cpu.step(&mut b); // LSR A
    assert_eq!(cpu.regs.a, Byte(0x01));
}

#[test]
fn inc_memory_wraps() {
    let (mut cpu, mut b) = with_program(0x0000, &[0xE6, 0x40]);
    b.write(Addr(0x0040), Byte(0xFF));
    cpu.step(&mut b);
    assert_eq!(b.read(Addr(0x0040)), Byte(0x00));
    assert!(cpu.regs.zero());
}

#[test]
fn compare_sets_carry_and_zero() {
    let (mut cpu, mut b) = with_program(0x0000, &[0xC9, 0x10]);
    cpu.regs.a = Byte(0x10);
    cpu.step(&mut b);
    assert!(cpu.regs.carry());
    assert!(cpu.regs.zero());
    assert!(!cpu.regs.negative());
}

#[test]
fn zero_page_x_wraps_in_page_zero() {
    let (mut cpu, mut b) = with_program(0x0010, &[0xB5, 0xFF]);
    b.write(Addr(0x0001), Byte(0x99));
    cpu.regs.x = Byte(0x02);
    cpu.step(&mut b);
    assert_eq!(cpu.regs.a, Byte(0x99));
}

#[test]
fn brk_pushes_pc_plus_two_and_status() {
    let (mut cpu, mut b) = with_program(0x0400, &[0x00, 0xFF]);
    cpu.regs.sp = Byte(0xFD);
    cpu.regs.status.0 = 0x20;
    cpu.step(&mut b);
    assert_eq!(b.read(Addr(0x01FD)), Byte(0x04));
    assert_eq!(b.read(Addr(0x01FC)), Byte(0x02));
    assert_eq!(b.read(Addr(0x01FB)).0 & 0x30, 0x30);
    assert!(cpu.regs.interrupt());
}

#[test]
fn illegal_opcode_is_a_nop() {
    let (mut cpu, mut b) = with_program(0x0000, &[0x02]);
    let before = cpu.regs;
    cpu.step(&mut b);
    assert_eq!(cpu.regs.a, before.a);
    assert_eq!(cpu.regs.pc, Addr(0x0001));
    assert_eq!(cpu.cycles + 1, 2);
}

#[test]
fn documented_cycle_counts_are_in_range() {
    for code in 0..=255u8 {
        let op = lookup(code);
        if op.inst != Instruction::XXX {
            assert!(op.cycle >= 2 && op.cycle <= 7, "opcode {:#04x}", code);
        }
    }
    assert_eq!(lookup(0x6C).mode, AddressingMode::IND);
    assert_eq!(lookup(0x6C).inst, Instruction::JMP);
}

#[test]
fn irq_respects_interrupt_disable() {
    let mut b = bus();
    let mut cpu = Cpu::new();
    cpu.regs.status.0 = 0x24;
    let before = cpu.regs;
    cpu.irq(&mut b);
    assert_eq!(cpu.regs, before);
    cpu.regs.status.0 = 0x20;
    cpu.regs.pc = Addr(0x1234);
    cpu.irq(&mut b);
    assert_eq!(cpu.cycles, 7);
    assert!(cpu.regs.interrupt());
    assert_eq!(b.read(Addr(0x01FD)), Byte(0x12));
    assert_eq!(b.read(Addr(0x01FC)), Byte(0x34));
    assert_eq!(b.read(Addr(0x01FB)).0 & 0x30, 0x20);
}

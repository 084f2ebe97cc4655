use nep::ram::Ram;
use nep::types::{Addr, Byte};
use nep::Emu;

/// A 16 KiB NROM image full of NOPs; the last six bytes of program memory
/// are the NMI, reset and IRQ vectors.
fn nop_image(nmi: u16, reset: u16, irq: u16) -> Vec<u8> {
    let mut v = vec![0x4E, 0x45, 0x53, 0x1A, 1, 1, 0, 0, 0, 0, 0, 0, 0, 0, 0, 0];
    let mut prg = vec![0xEAu8; 16384];
    let n = prg.len();
    prg[n - 6] = (nmi & 0xFF) as u8;
    prg[n - 5] = (nmi >> 8) as u8;
    prg[n - 4] = (reset & 0xFF) as u8;
    prg[n - 3] = (reset >> 8) as u8;
    prg[n - 2] = (irq & 0xFF) as u8;
    prg[n - 1] = (irq >> 8) as u8;
    v.extend(prg);
    v.extend(vec![0u8; 8192]);
    v
}

#[test]
fn reset_vector() {
    let mut emu = Emu::new();
    let img = nop_image(0x0000, 0x8000, 0x8000);
    assert_eq!(&img[16 + 16380..16 + 16384], &[0x00, 0x80, 0x00, 0x80]);
    assert!(emu.load(&img).is_ok());
    assert_eq!(emu.cpu.regs.pc, Addr(0x8000));
    assert_eq!(emu.cpu.regs.sp, Byte(0xFD));
    assert_eq!(emu.cpu.regs.status.0, 0x24);
}

#[test]
fn bad_image_leaves_console_unloaded() {
    let mut emu = Emu::new();
    assert!(emu.load(&[1, 2, 3]).is_err());
    assert!(emu.bus.cart.mapper.is_none());
}

#[test]
fn nmi_entry() {
    let mut emu = Emu::new();
    emu.load(&nop_image(0x9000, 0x8000, 0x8000)).unwrap();
    emu.cpu.regs.status.0 = 0x20;
    emu.bus.write(Addr(0x2000), Byte(0x80));
    let mut guard = 0u32;
    while !(emu.bus.ppu.scanline == 241 && emu.bus.ppu.cycle == 1) {
        emu.tick();
        guard += 1;
        assert!(guard < 400_000);
    }
    let sp = emu.cpu.regs.sp.0;
    let pc = emu.cpu.regs.pc.0;
    let mut cpu_cycles = 0u32;
    while emu.cpu.regs.pc.0 != 0x9000 {
        if emu.clock.need_step_cpu() {
            cpu_cycles += 1;
        }
        emu.tick();
        assert!(cpu_cycles <= 7);
    }
    assert_eq!(emu.cpu.regs.sp.0, sp.wrapping_sub(3));
    let hi = emu.bus.ram.read(Addr(0x0100 + sp as u16));
    let lo = emu.bus.ram.read(Addr(0x0100 + sp.wrapping_sub(1) as u16));
    let p = emu.bus.ram.read(Addr(0x0100 + sp.wrapping_sub(2) as u16));
    let pushed_pc = (hi.0 as u16) << 8 | lo.0 as u16;
    assert!(pushed_pc >= pc && pushed_pc <= pc.wrapping_add(3));
    assert_eq!(p.0 & 0x10, 0);
    assert_eq!(p.0 & 0x20, 0x20);
    assert!(emu.cpu.regs.interrupt());
}

#[test]
fn oam_dma_stall() {
    let mut emu = Emu::new();
    emu.load(&nop_image(0x9000, 0x8000, 0x8000)).unwrap();
    for i in 0..256u16 {
        emu.bus.write(Addr(0x0200 + i), Byte(i as u8 ^ 0x5A));
    }
    emu.bus.ppu.oam_addr = Byte(0x10);
    // The write happens during CPU cycle 1000; the next CPU cycle is 1001.
    emu.clock.counter = 3000;
    emu.bus.write(Addr(0x4014), Byte(0x02));
    emu.clock.counter = 3003;
    let pc = emu.cpu.regs.pc;
    let cycles = emu.cpu.cycles;
    loop {
        let cpu_cycle = emu.clock.counter / 3;
        let due = emu.clock.need_step_cpu();
        emu.tick();
        if due && cpu_cycle <= 1513 {
            assert_eq!(emu.cpu.regs.pc, pc, "an instruction ran at cycle {}", cpu_cycle);
            assert_eq!(emu.cpu.cycles, cycles);
        }
        if cpu_cycle > 1513 {
            break;
        }
    }
    assert!(!emu.bus.dma.has_request());
    for i in 0..256usize {
        assert_eq!(emu.bus.ppu.oam.mem[(0x10 + i) % 256], Byte(i as u8 ^ 0x5A));
    }
}

#[test]
fn frame_step_clears_ready() {
    let mut emu = Emu::new();
    emu.load(&nop_image(0x9000, 0x8000, 0x8000)).unwrap();
    emu.step();
    assert!(!emu.screen().ready);
    assert_eq!(emu.screen().width(), 256);
    assert_eq!(emu.screen().height(), 240);
}

#[test]
fn joypad_shifts_latched_buttons() {
    let mut emu = Emu::new();
    emu.update_joypads(0b1000_0001, 0);
    emu.bus.write(Addr(0x4016), Byte(1));
    assert_eq!(emu.bus.read(Addr(0x4016)), Byte(1));
    for _ in 0..6 {
        assert_eq!(emu.bus.read(Addr(0x4016)), Byte(0));
    }
    assert_eq!(emu.bus.read(Addr(0x4016)), Byte(1));
}

#[test]
fn ram_round_trip_through_mirrors() {
    let mut ram = Ram::new();
    for a in (0u16..0x2000).step_by(0x0123) {
        ram.write(Addr(a), Byte(a as u8));
        assert_eq!(ram.read(Addr(a)), Byte(a as u8));
        assert_eq!(ram.read(Addr(a % 0x0800)), Byte(a as u8));
        assert_eq!(ram.read(Addr(a % 0x0800 + 0x1800)), Byte(a as u8));
    }
    assert_eq!(ram.size(), 2048);
}

#[test]
fn program_counts_vertical_blanks() {
    let mut img = nop_image(0x9000, 0x8000, 0x8000);
    let program = [
        0xA9, 0x80, // LDA #$80
        0x8D, 0x00, 0x20, // STA $2000: NMI on vertical blank
        0xA2, 0x00, // LDX #0
        0xE8, // loop: INX
        0x86, 0x10, // STX $10
        0x4C, 0x07, 0x80, // JMP loop
    ];
    img[16..16 + program.len()].copy_from_slice(&program);
    let handler = [0xE6, 0x20, 0x40]; // INC $20; RTI
    img[16 + 0x1000..16 + 0x1003].copy_from_slice(&handler);
    let mut emu = Emu::new();
    emu.load(&img).unwrap();
    emu.step();
    emu.step();
    emu.step();
    let count = emu.bus.ram.read(Addr(0x0020)).0;
    assert!(count >= 2 && count <= 3, "vertical blanks counted: {}", count);
    let pc = emu.cpu.regs.pc.0;
    assert!((0x8007..0x800D).contains(&pc) || (0x9000..0x9003).contains(&pc), "pc = {:#06x}", pc);
}

#[test]
fn oam_dma_reads_cartridge_page() {
    let mut img = nop_image(0x9000, 0x8000, 0x8000);
    // Page 0x81 of program memory holds 0, 1, 2, ...
    for i in 0..256usize {
        img[16 + 0x0100 + i] = i as u8;
    }
    let mut emu = Emu::new();
    emu.load(&img).unwrap();
    emu.bus.write(Addr(0x4014), Byte(0x81));
    let mut guard = 0u32;
    while emu.bus.dma.has_request() {
        emu.tick();
        guard += 1;
        assert!(guard < 2000 * 3);
    }
    for i in 0..256usize {
        assert_eq!(emu.bus.ppu.oam.mem[i], Byte(i as u8));
    }
}

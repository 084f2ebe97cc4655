use nep::cartridge::Cartridge;
use nep::ppu::oam::{Oam, OamEntry};
use nep::ppu::palette_ram::PaletteRam;
use nep::ppu::ppu::{compose, flip_byte};
use nep::ppu::Ppu;
use nep::types::{Addr, Byte};

fn cart_with_chr_ram() -> Cartridge {
    let mut v = vec![0x4E, 0x45, 0x53, 0x1A, 1, 0, 0x01, 0, 0, 0, 0, 0, 0, 0, 0, 0];
    v.extend(std::iter::repeat(0u8).take(16384));
    Cartridge::from_file(&v).unwrap()
}

#[test]
fn status_read_clears_vblank_and_toggle_only() {
    let mut cart = Cartridge::new();
    let mut ppu = Ppu::new();
    ppu.status.0 = 0xE0;
    ppu.addr_latch = true;
    let r = ppu.read(&mut cart, Addr(0x2002));
    assert_eq!(r, Byte(0xE0));
    assert!(!ppu.status.vertical_blank());
    assert!(ppu.status.sprite_zero_hit());
    assert!(ppu.status.sprite_overflow());
    assert!(!ppu.addr_latch);
}

#[test]
fn ppudata_increment_is_one_or_thirty_two() {
    let mut cart = cart_with_chr_ram();
    let mut ppu = Ppu::new();
    ppu.write(&mut cart, Addr(0x2006), Byte(0x21));
    ppu.write(&mut cart, Addr(0x2006), Byte(0x00));
    assert_eq!(ppu.vram_addr.0, 0x2100);
    ppu.write(&mut cart, Addr(0x2007), Byte(0x11));
    assert_eq!(ppu.vram_addr.0, 0x2101);
    ppu.write(&mut cart, Addr(0x2000), Byte(0x04));
    ppu.read(&mut cart, Addr(0x2007));
    assert_eq!(ppu.vram_addr.0, 0x2121);
}

#[test]
fn ppudata_reads_are_buffered_below_palette() {
    let mut cart = cart_with_chr_ram();
    let mut ppu = Ppu::new();
    ppu.write(&mut cart, Addr(0x2006), Byte(0x20));
    ppu.write(&mut cart, Addr(0x2006), Byte(0x05));
    ppu.write(&mut cart, Addr(0x2007), Byte(0xAB));
    ppu.write(&mut cart, Addr(0x2006), Byte(0x20));
    ppu.write(&mut cart, Addr(0x2006), Byte(0x05));
    let first = ppu.read(&mut cart, Addr(0x2007));
    let second = ppu.read(&mut cart, Addr(0x2007));
    assert_eq!(first, Byte(0x00));
    assert_eq!(second, Byte(0xAB));
}

#[test]
fn palette_reads_are_immediate_and_refill_buffer_from_nametable() {
    let mut cart = cart_with_chr_ram();
    let mut ppu = Ppu::new();
    // Nametable byte under 0x3F01 is 0x2F01.
    ppu.write_chr(&mut cart, Addr(0x2F01), Byte(0x5C));
    ppu.write_chr(&mut cart, Addr(0x3F01), Byte(0x2A));
    ppu.write(&mut cart, Addr(0x2006), Byte(0x3F));
    ppu.write(&mut cart, Addr(0x2006), Byte(0x01));
    assert_eq!(ppu.read(&mut cart, Addr(0x2007)), Byte(0x2A));
    assert_eq!(ppu.ppu_data_buf, Byte(0x5C));
}

#[test]
fn palette_mirrors_backdrop_entries() {
    let mut cart = Cartridge::new();
    let mut ppu = Ppu::new();
    for k in 0..4u16 {
        ppu.write_chr(&mut cart, Addr(0x3F10 + 4 * k), Byte(0x10 + k as u8));
        assert_eq!(ppu.read_chr(&mut cart, Addr(0x3F00 + 4 * k)), Byte(0x10 + k as u8));
        ppu.write_chr(&mut cart, Addr(0x3F00 + 4 * k), Byte(0x20 + k as u8));
        assert_eq!(ppu.read_chr(&mut cart, Addr(0x3F10 + 4 * k)), Byte(0x20 + k as u8));
    }
    // 0x3F20-0x3FFF repeat the first 32 bytes.
    assert_eq!(ppu.read_chr(&mut cart, Addr(0x3F24)), Byte(0x21));
}

#[test]
fn palette_keeps_low_six_bits() {
    let mut cart = Cartridge::new();
    let mut ppu = Ppu::new();
    ppu.write_chr(&mut cart, Addr(0x3F05), Byte(0xFF));
    assert_eq!(ppu.read_chr(&mut cart, Addr(0x3F05)), Byte(0x3F));
}

#[test]
fn palette_ram_normalizes() {
    assert_eq!(PaletteRam::normalize_addr(Addr(0x3F1C)), Addr(0x0C));
    assert_eq!(PaletteRam::normalize_addr(Addr(0x3F11)), Addr(0x11));
    let mut p = PaletteRam::new();
    p.write(Addr(0x3F18), Byte(7));
    assert_eq!(p.read(Addr(0x3F08)), Byte(7));
}

#[test]
fn oam_entry_round_trip() {
    let mut oam = Oam::new();
    for i in 0..64u16 {
        let e = OamEntry::from_bytes((Byte(i as u8), Byte(1), Byte(2), Byte(3)));
        oam.write_entry(Addr(i), e);
    }
    for i in 0..64u16 {
        let e = oam.read_entry(Addr(i));
        assert_eq!(e.into_bytes(), (Byte(i as u8), Byte(1), Byte(2), Byte(3)));
    }
    assert_eq!(oam.read(Addr(4 * 63)), Byte(63));
}

#[test]
fn nametables_follow_mirroring() {
    let mut cart = cart_with_chr_ram();
    let mut ppu = Ppu::new();
    // Vertical mirroring: 0x2000 and 0x2800 share a table.
    ppu.write_chr(&mut cart, Addr(0x2005), Byte(0x66));
    assert_eq!(ppu.read_chr(&mut cart, Addr(0x2805)), Byte(0x66));
    assert_eq!(ppu.read_chr(&mut cart, Addr(0x2405)), Byte(0x00));
    assert_eq!(ppu.read_chr(&mut cart, Addr(0x3005)), Byte(0x66));
}

#[test]
fn scroll_writes_share_the_toggle() {
    let mut cart = Cartridge::new();
    let mut ppu = Ppu::new();
    ppu.write(&mut cart, Addr(0x2005), Byte(0x7D));
    assert_eq!(ppu.fine_x, 5);
    assert_eq!(ppu.tram_addr.coarse_x(), Addr(0x0F));
    assert!(ppu.addr_latch);
    ppu.write(&mut cart, Addr(0x2005), Byte(0x5E));
    assert_eq!(ppu.tram_addr.fine_y(), Addr(6));
    assert_eq!(ppu.tram_addr.coarse_y(), Addr(0x0B));
    assert!(!ppu.addr_latch);
}

#[test]
fn vblank_starts_at_241_and_clears_at_prerender() {
    let mut cart = Cartridge::new();
    let mut ppu = Ppu::new();
    ppu.write(&mut cart, Addr(0x2000), Byte(0x80));
    ppu.scanline = 241;
    ppu.cycle = 1;
    ppu.step(&mut cart);
    assert!(ppu.status.vertical_blank());
    assert!(ppu.has_nmi());
    ppu.clear_nmi();
    assert!(!ppu.has_nmi());
    ppu.status.set_sprite_zero_hit(true);
    ppu.status.set_sprite_overflow(true);
    ppu.scanline = -1;
    ppu.cycle = 1;
    ppu.step(&mut cart);
    assert!(!ppu.status.vertical_blank());
    assert!(!ppu.status.sprite_zero_hit());
    assert!(!ppu.status.sprite_overflow());
}

#[test]
fn frame_is_341_by_262_dots() {
    let mut cart = Cartridge::new();
    let mut ppu = Ppu::new();
    ppu.scanline = -1;
    ppu.cycle = 0;
    let mut dots = 0u32;
    loop {
        ppu.step(&mut cart);
        dots += 1;
        if ppu.screen.ready {
            break;
        }
    }
    assert_eq!(dots, 341 * 262);
    assert_eq!(ppu.scanline, -1);
    assert_eq!(ppu.cycle, 0);
}

#[test]
fn sprite_overflow_on_ninth_sprite() {
    let mut cart = Cartridge::new();
    let mut ppu = Ppu::new();
    for i in 0..9u16 {
        ppu.oam.write_entry(Addr(i), OamEntry::from_bytes((Byte(10), Byte(0), Byte(0), Byte(0))));
    }
    for i in 9..64u16 {
        ppu.oam.write_entry(Addr(i), OamEntry::from_bytes((Byte(0xF0), Byte(0), Byte(0), Byte(0))));
    }
    ppu.scanline = 12;
    ppu.cycle = 257;
    ppu.step(&mut cart);
    assert!(ppu.status.sprite_overflow());
    assert_eq!(ppu.sprite_count, 8);
    assert!(ppu.sprite_zero_hit_possible);
}

#[test]
fn eight_sprites_do_not_overflow() {
    let mut cart = Cartridge::new();
    let mut ppu = Ppu::new();
    for i in 0..64u16 {
        let y = if i < 8 { 10 } else { 0xF0 };
        ppu.oam.write_entry(Addr(i), OamEntry::from_bytes((Byte(y), Byte(0), Byte(0), Byte(0))));
    }
    ppu.scanline = 12;
    ppu.cycle = 257;
    ppu.step(&mut cart);
    assert!(!ppu.status.sprite_overflow());
    assert_eq!(ppu.sprite_count, 8);
}

#[test]
fn composition_rules() {
    assert_eq!(compose(0, 1, 0, 5, true), (0, 0));
    assert_eq!(compose(0, 1, 2, 5, false), (2, 5));
    assert_eq!(compose(3, 1, 0, 5, true), (3, 1));
    assert_eq!(compose(3, 1, 2, 5, true), (2, 5));
    assert_eq!(compose(3, 1, 2, 5, false), (3, 1));
}

#[test]
fn flip_byte_mirrors_bits() {
    assert_eq!(flip_byte(0b1110_0000), 0b0000_0111);
    assert_eq!(flip_byte(0b1000_0001), 0b1000_0001);
    assert_eq!(flip_byte(0x01), 0x80);
}

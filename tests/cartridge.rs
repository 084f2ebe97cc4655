use nep::cartridge::{Cartridge, Error, Mirror};
use nep::types::{Addr, Byte};

/// An iNES image: header, optional trainer, program banks filled with
/// `prg_fill`, character banks filled with `chr_fill`.
fn image(prg_banks: u8, chr_banks: u8, flags_6: u8, prg_fill: u8, chr_fill: u8) -> Vec<u8> {
    let mut v = vec![0x4E, 0x45, 0x53, 0x1A, prg_banks, chr_banks, flags_6, 0, 0, 0, 0, 0, 0, 0, 0, 0];
    if flags_6 & 0x04 != 0 {
        v.extend(std::iter::repeat(0xEE).take(512));
    }
    v.extend(std::iter::repeat(prg_fill).take(prg_banks as usize * 16384));
    v.extend(std::iter::repeat(chr_fill).take(chr_banks as usize * 8192));
    v
}

#[test]
fn loads_from_file() {
    let img = image(1, 1, 0x01, 0xEA, 0x55);
    let cartridge = Cartridge::from_file(&img);
    assert!(cartridge.is_ok());
}

#[test]
fn short_header_is_rejected() {
    let r = Cartridge::from_file(&[0x4E, 0x45, 0x53]);
    assert_eq!(r.err(), Some(Error::ShortHeader { size: 3 }));
}

#[test]
fn bad_magic_is_rejected() {
    let mut img = image(1, 1, 0, 0, 0);
    img[3] = 0x00;
    assert_eq!(Cartridge::from_file(&img).err(), Some(Error::BadMagic));
}

#[test]
fn unknown_mapper_is_rejected() {
    let mut img = image(1, 1, 0x10, 0, 0);
    img[7] = 0x20;
    assert_eq!(Cartridge::from_file(&img).err(), Some(Error::UnsupportedMapper { id: 0x21 }));
}

#[test]
fn zero_program_banks_are_rejected() {
    let img = image(0, 1, 0, 0, 0);
    assert_eq!(Cartridge::from_file(&img).err(), Some(Error::NoProgramBanks));
}

#[test]
fn truncated_character_memory_is_rejected() {
    let mut img = image(1, 1, 0, 0, 0);
    img.truncate(16 + 16384 + 100);
    assert_eq!(
        Cartridge::from_file(&img).err(),
        Some(Error::Truncated { expected: 16 + 16384 + 8192, actual: 16 + 16384 + 100 })
    );
}

#[test]
fn sixteen_kib_program_is_mirrored() {
    let mut img = image(1, 1, 0, 0, 0);
    img[16 + 0x0123] = 0x42;
    let mut cart = Cartridge::from_file(&img).unwrap();
    assert_eq!(cart.read(Addr(0x8123)), Byte(0x42));
    assert_eq!(cart.read(Addr(0xC123)), Byte(0x42));
    assert_eq!(cart.read(Addr(0x6000)), Byte(0));
    assert_eq!(cart.mirror(), Mirror::Horizontal);
}

#[test]
fn thirty_two_kib_program_is_not_mirrored() {
    let mut img = image(2, 1, 0x01, 0, 0);
    img[16 + 0x4123] = 0x24;
    let mut cart = Cartridge::from_file(&img).unwrap();
    assert_eq!(cart.read(Addr(0xC123)), Byte(0x24));
    assert_eq!(cart.read(Addr(0x8123)), Byte(0));
    assert_eq!(cart.mirror(), Mirror::Vertical);
}

#[test]
fn trainer_is_skipped() {
    let mut img = image(1, 1, 0x04, 0x11, 0);
    img[16 + 512] = 0x99;
    let mut cart = Cartridge::from_file(&img).unwrap();
    assert_eq!(cart.read(Addr(0x8000)), Byte(0x99));
    assert_eq!(cart.read(Addr(0x8001)), Byte(0x11));
}

#[test]
fn character_rom_ignores_writes() {
    let img = image(1, 1, 0, 0, 0x55);
    let mut cart = Cartridge::from_file(&img).unwrap();
    cart.write_chr(Addr(0x0010), Byte(0x01));
    assert_eq!(cart.read_chr(Addr(0x0010)), Byte(0x55));
}

#[test]
fn character_ram_takes_writes() {
    let img = image(1, 0, 0, 0, 0);
    let mut cart = Cartridge::from_file(&img).unwrap();
    assert_eq!(cart.chr_mem.len(), 8192);
    assert_eq!(cart.read_chr(Addr(0x1FFF)), Byte(0));
    cart.write_chr(Addr(0x1FFF), Byte(0x77));
    assert_eq!(cart.read_chr(Addr(0x1FFF)), Byte(0x77));
}

#[test]
fn empty_slot_reads_zero() {
    let mut cart = Cartridge::new();
    assert_eq!(cart.read(Addr(0x8000)), Byte(0));
    assert_eq!(cart.mirror(), Mirror::Hardware);
}

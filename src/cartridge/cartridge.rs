use crate::cartridge::mapper::{Mapper, HANDLED};
use crate::cartridge::mapper_000::Mapper000;
use crate::types::{Addr, Byte, ExtAddr};
use vstd::prelude::*;

verus! {

/// How the two physical nametables fill the four logical slots.
#[derive(Clone, Copy, Debug, PartialEq, Eq, Structural)]
pub enum Mirror {
    Horizontal,
    Vertical,
    Hardware,
}

/// Why an image could not be loaded.
#[derive(Clone, Copy, Debug, PartialEq, Eq, Structural)]
pub enum Error {
    /// The image is shorter than the 16-byte header.
    ShortHeader { size: usize },
    /// The header does not start with `N`, `E`, `S`, 0x1A.
    BadMagic,
    /// The header names a mapper this library does not implement.
    UnsupportedMapper { id: u8 },
    /// The header announces no program memory.
    NoProgramBanks,
    /// The image ends before the memory that its header announces.
    Truncated { expected: usize, actual: usize },
}

/// Size of one program-memory bank.
pub const PROGRAM_ROM_SIZE: usize = 16384;

/// Size of one character-memory bank.
pub const CHARACTER_ROM_SIZE: usize = 8192;

/// Size of the character RAM of a board without character ROM.
pub const CHARACTER_RAM_SIZE: usize = 8192;

/// Size of the iNES header.
pub const HEADER_SIZE: usize = 16;

/// Size of the optional trainer that follows the header.
pub const TRAINER_SIZE: usize = 512;

/// The header starts with "NES" and an MS-DOS end-of-file byte.
pub open spec fn ines_magic(img: Seq<u8>) -> bool {
    img[0] == 0x4E && img[1] == 0x45 && img[2] == 0x53 && img[3] == 0x1A
}

/// Bits 2-3 of flags 7 equal 0b10: the header is in NES 2.0 format.
pub open spec fn ines_is_nes2(img: Seq<u8>) -> bool {
    (img[7] / 4) % 4 == 2
}

/// High nibble from flags 7, low nibble from the high nibble of flags 6.
pub open spec fn ines_mapper_id(img: Seq<u8>) -> int {
    (img[7] / 16) * 16 + img[6] / 16
}

/// Number of 16 KiB program banks.
pub open spec fn ines_prg_banks(img: Seq<u8>) -> int {
    if ines_is_nes2(img) {
        (img[8] % 8) * 256 + img[4]
    } else {
        img[4] as int
    }
}

/// Number of 8 KiB character-ROM banks; zero means character RAM.
pub open spec fn ines_chr_banks(img: Seq<u8>) -> int {
    if ines_is_nes2(img) {
        ((img[8] / 8) % 8) * 256 + img[5]
    } else {
        img[5] as int
    }
}

/// Bit 0 of flags 6: 0 horizontal, 1 vertical.
pub open spec fn ines_mirror(img: Seq<u8>) -> Mirror {
    if img[6] % 2 == 1 {
        Mirror::Vertical
    } else {
        Mirror::Horizontal
    }
}

/// Where program memory starts: after the header and the trainer, if any.
pub open spec fn ines_prg_start(img: Seq<u8>) -> int {
    if (img[6] / 4) % 2 == 1 {
        HEADER_SIZE + TRAINER_SIZE
    } else {
        HEADER_SIZE as int
    }
}

/// Where character memory starts.
pub open spec fn ines_chr_start(img: Seq<u8>) -> int {
    ines_prg_start(img) + ines_prg_banks(img) * PROGRAM_ROM_SIZE
}

/// Where the memory that the header announces ends.
pub open spec fn ines_end(img: Seq<u8>) -> int {
    ines_chr_start(img) + ines_chr_banks(img) * CHARACTER_ROM_SIZE
}

/// The outcome of loading an image: which error, if any.
pub open spec fn ines_error(img: Seq<u8>) -> Option<Error> {
    if img.len() < HEADER_SIZE {
        Some(Error::ShortHeader { size: img.len() as usize })
    } else if !ines_magic(img) {
        Some(Error::BadMagic)
    } else if ines_mapper_id(img) != 0 {
        Some(Error::UnsupportedMapper { id: ines_mapper_id(img) as u8 })
    } else if ines_prg_banks(img) == 0 {
        Some(Error::NoProgramBanks)
    } else if img.len() < ines_end(img) {
        Some(Error::Truncated { expected: ines_end(img) as usize, actual: img.len() as usize })
    } else {
        None
    }
}

/// `mem` holds `img[start..start + mem.len()]`.
pub open spec fn holds_bytes(mem: Seq<Byte>, img: Seq<u8>, start: int) -> bool {
    forall|i: int| 0 <= i < mem.len() ==> #[trigger] mem[i].0 == img[start + i]
}

/// Program memory, character memory, mirroring and the board's mapper.
pub struct Cartridge {
    pub prg_mem: Vec<Byte>,
    pub chr_mem: Vec<Byte>,
    pub mirror: Mirror,
    pub mapper: Option<Mapper000>,
}

/// Copies `len` bytes of `img` from `start` on.
fn copy_bytes(img: &[u8], start: usize, len: usize) -> (r: Vec<Byte>)
    requires
        start + len <= img@.len(),
    ensures
        r@.len() == len,
        holds_bytes(r@, img@, start as int),
{
    let n = img.len();
    let mut r: Vec<Byte> = Vec::with_capacity(len);
    let mut i: usize = 0;
    while i < len
        invariant
            n == img@.len(),
            i <= len,
            start + len <= img@.len(),
            r@.len() == i,
            holds_bytes(r@, img@, start as int),
        decreases len - i,
    {
        r.push(Byte(img[start + i]));
        i = i + 1;
    }
    r
}

impl Cartridge {
    /// Sizes agree with the mapper: every offset it produces is in range.
    pub open spec fn wf(&self) -> bool {
        match self.mapper {
            None => true,
            Some(m) => {
                &&& m.prg_banks >= 1
                &&& self.prg_mem@.len() == m.prg_banks * PROGRAM_ROM_SIZE
                &&& self.chr_mem@.len() >= CHARACTER_RAM_SIZE
                &&& m.chr_banks == 0 ==> self.chr_mem@.len() == CHARACTER_RAM_SIZE
                &&& m.chr_banks > 0 ==> self.chr_mem@.len() == m.chr_banks * CHARACTER_ROM_SIZE
            },
        }
    }

    /// What a CPU read of `addr` returns.
    pub open spec fn spec_read(&self, addr: u16) -> Byte {
        match self.mapper {
            Some(m) => match m.cpu_read_map(addr) {
                Some(o) => self.prg_mem@[o as int],
                None => Byte(0),
            },
            None => Byte(0),
        }
    }

    /// Program memory after a CPU write of `v` to `addr`.
    pub open spec fn spec_write(&self, addr: u16, v: Byte) -> Seq<Byte> {
        match self.mapper {
            Some(m) => match m.cpu_write_map(addr) {
                Some(o) => self.prg_mem@.update(o as int, v),
                None => self.prg_mem@,
            },
            None => self.prg_mem@,
        }
    }

    /// What a PPU read of `addr` in pattern space returns.
    pub open spec fn spec_read_chr(&self, addr: u16) -> Byte {
        match self.mapper {
            Some(m) => match m.ppu_read_map(addr) {
                Some(o) => self.chr_mem@[o as int],
                None => Byte(0),
            },
            None => Byte(0),
        }
    }

    /// Character memory after a PPU write of `v` to `addr`.
    pub open spec fn spec_write_chr(&self, addr: u16, v: Byte) -> Seq<Byte> {
        match self.mapper {
            Some(m) => match m.ppu_write_map(addr) {
                Some(o) => self.chr_mem@.update(o as int, v),
                None => self.chr_mem@,
            },
            None => self.chr_mem@,
        }
    }

    /// The mirroring in effect: the board's, unless it leaves it to the header.
    pub open spec fn spec_mirror(&self) -> Mirror {
        match self.mapper {
            Some(m) => if m.mirror_spec() == Mirror::Hardware {
                self.mirror
            } else {
                m.mirror_spec()
            },
            None => self.mirror,
        }
    }

    /// An empty slot: no memory, no mapper.
    pub fn new() -> (r: Cartridge)
        ensures
            r.wf(),
            r.mapper is None,
            r.prg_mem@.len() == 0,
            r.chr_mem@.len() == 0,
            r.mirror == Mirror::Hardware,
    {
        Cartridge {
            prg_mem: Vec::new(),
            chr_mem: Vec::new(),
            mirror: Mirror::Hardware,
            mapper: None,
        }
    }

    /// Builds a cartridge from the bytes of an iNES file.
    pub fn from_file(image: &[u8]) -> (r: Result<Cartridge, Error>)
        ensures
            ines_error(image@) is Some <==> r is Err,
            r is Err ==> r == Err::<Cartridge, Error>(ines_error(image@)->0),
            r is Ok ==> r->Ok_0.wf() && r->Ok_0.holds_image(image@),
    {
        let mut s = Self::new();
        match s.load(image) {
            Ok(()) => Ok(s),
            Err(e) => Err(e),
        }
    }

    /// The cartridge holds what a well-formed image describes.
    pub open spec fn holds_image(&self, img: Seq<u8>) -> bool {
        &&& self.mapper == Some(
            Mapper000 {
                prg_banks: ines_prg_banks(img) as usize,
                chr_banks: ines_chr_banks(img) as usize,
            },
        )
        &&& self.mirror == ines_mirror(img)
        &&& self.prg_mem@.len() == ines_prg_banks(img) * PROGRAM_ROM_SIZE
        &&& holds_bytes(self.prg_mem@, img, ines_prg_start(img))
        &&& ines_chr_banks(img) > 0 ==> {
            &&& self.chr_mem@.len() == ines_chr_banks(img) * CHARACTER_ROM_SIZE
            &&& holds_bytes(self.chr_mem@, img, ines_chr_start(img))
        }
        &&& ines_chr_banks(img) == 0 ==> {
            &&& self.chr_mem@.len() == CHARACTER_RAM_SIZE
            &&& forall|i: int| 0 <= i < CHARACTER_RAM_SIZE ==> self.chr_mem@[i] == Byte(0)
        }
    }

    /// Loads an iNES v1 image (NES 2.0 bank counts honoured). On error the
    /// cartridge is left as it was.
    pub fn load(&mut self, image: &[u8]) -> (r: Result<(), Error>)
        requires
            old(self).wf(),
        ensures
            ines_error(image@) is Some <==> r is Err,
            r is Err ==> r == Err::<(), Error>(ines_error(image@)->0) && *final(self) == *old(self),
            r is Ok ==> final(self).wf() && final(self).holds_image(image@),
    {
        let len = image.len();
        if len < HEADER_SIZE {
            return Err(Error::ShortHeader { size: len });
        }
        if !(image[0] == 0x4E && image[1] == 0x45 && image[2] == 0x53 && image[3] == 0x1A) {
            return Err(Error::BadMagic);
        }
        let prg_rom_banks = image[4];
        let chr_rom_banks = image[5];
        let flags_6 = image[6];
        let flags_7 = image[7];
        let flags_8 = image[8];

        let mapper_id: u8 = (flags_7 / 16) * 16 + flags_6 / 16;
        if mapper_id != 0 {
            return Err(Error::UnsupportedMapper { id: mapper_id });
        }
        let nes_2_0 = (flags_7 / 4) % 4 == 2;
        let prg_banks: usize = if nes_2_0 {
            (flags_8 % 8) as usize * 256 + prg_rom_banks as usize
        } else {
            prg_rom_banks as usize
        };
        let chr_banks: usize = if nes_2_0 {
            ((flags_8 / 8) % 8) as usize * 256 + chr_rom_banks as usize
        } else {
            chr_rom_banks as usize
        };
        if prg_banks == 0 {
            return Err(Error::NoProgramBanks);
        }
        // A trainer, if present, sits between the header and program memory.
        let prg_start: usize = if (flags_6 / 4) % 2 == 1 {
            HEADER_SIZE + TRAINER_SIZE
        } else {
            HEADER_SIZE
        };
        let prg_len = prg_banks * PROGRAM_ROM_SIZE;
        let chr_start = prg_start + prg_len;
        let chr_len = chr_banks * CHARACTER_ROM_SIZE;
        let end = chr_start + chr_len;
        if len < end {
            return Err(Error::Truncated { expected: end, actual: len });
        }
        let mirror = if flags_6 % 2 == 1 {
            Mirror::Vertical
        } else {
            Mirror::Horizontal
        };
        let prg_mem = copy_bytes(image, prg_start, prg_len);
        let chr_mem = if chr_banks == 0 {
            crate::types::filled(CHARACTER_RAM_SIZE, Byte(0))
        } else {
            copy_bytes(image, chr_start, chr_len)
        };
        self.prg_mem = prg_mem;
        self.chr_mem = chr_mem;
        self.mirror = mirror;
        self.mapper = Some(Mapper000::new(prg_banks, chr_banks));
        Ok(())
    }

    pub fn read(&mut self, addr: Addr) -> (r: Byte)
        requires
            old(self).wf(),
        ensures
            *final(self) == *old(self),
            r == old(self).spec_read(addr.0),
    {
        let mut mapped_addr = ExtAddr(HANDLED);
        let mut value = Byte(0);
        match &mut self.mapper {
            Some(m) => {
                if m.map_read(addr, &mut mapped_addr, &mut value) {
                    if mapped_addr.0 != HANDLED {
                        // The mapper produced an offset into program memory.
                        value = self.prg_mem[mapped_addr.as_usize()];
                    }
                }
            },
            None => {},
        }
        value
    }

    pub fn write(&mut self, addr: Addr, v: Byte)
        requires
            old(self).wf(),
        ensures
            final(self).wf(),
            final(self).prg_mem@ == old(self).spec_write(addr.0, v),
            final(self).chr_mem@ == old(self).chr_mem@,
            final(self).mirror == old(self).mirror,
            final(self).mapper == old(self).mapper,
    {
        let mut mapped_addr = ExtAddr(HANDLED);
        match &mut self.mapper {
            Some(m) => {
                if m.map_write(addr, &mut mapped_addr, v) {
                    if mapped_addr.0 != HANDLED {
                        self.prg_mem.set(mapped_addr.as_usize(), v);
                    }
                }
            },
            None => {},
        }
    }

    pub fn read_chr(&mut self, addr: Addr) -> (r: Byte)
        requires
            old(self).wf(),
        ensures
            *final(self) == *old(self),
            r == old(self).spec_read_chr(addr.0),
    {
        let mut mapped_addr = ExtAddr(HANDLED);
        let mut value = Byte(0);
        match &mut self.mapper {
            Some(m) => {
                if m.map_read_chr(addr, &mut mapped_addr) {
                    value = self.chr_mem[mapped_addr.as_usize()];
                }
            },
            None => {},
        }
        value
    }

    pub fn write_chr(&mut self, addr: Addr, v: Byte)
        requires
            old(self).wf(),
        ensures
            final(self).wf(),
            final(self).chr_mem@ == old(self).spec_write_chr(addr.0, v),
            final(self).prg_mem@ == old(self).prg_mem@,
            final(self).mirror == old(self).mirror,
            final(self).mapper == old(self).mapper,
    {
        let mut mapped_addr = ExtAddr(HANDLED);
        match &mut self.mapper {
            Some(m) => {
                if m.map_write_chr(addr, &mut mapped_addr) {
                    self.chr_mem.set(mapped_addr.as_usize(), v);
                }
            },
            None => {},
        }
    }

    pub fn mirror(&self) -> (r: Mirror)
        ensures
            r == self.spec_mirror(),
    {
        let mapper_mirror = match &self.mapper {
            Some(m) => m.mirror(),
            None => Mirror::Hardware,
        };
        match mapper_mirror {
            Mirror::Hardware => self.mirror,
            _ => mapper_mirror,
        }
    }

    /// Whether the board requests an interrupt.
    pub fn has_irq(&self) -> (r: bool)
        ensures
            r == match self.mapper {
                Some(m) => m.irq_spec(),
                None => false,
            },
    {
        match &self.mapper {
            Some(m) => m.has_irq(),
            None => false,
        }
    }

    /// Passes the end of a rendered scanline on to the board.
    pub fn scanline(&mut self)
        requires
            old(self).wf(),
        ensures
            *final(self) == *old(self),
    {
        match &mut self.mapper {
            Some(m) => m.scanline(),
            None => {},
        }
    }

    /// Acknowledges the board's interrupt request.
    pub fn clear_irq(&mut self)
        requires
            old(self).wf(),
        ensures
            final(self).wf(),
            final(self).prg_mem@ == old(self).prg_mem@,
            final(self).chr_mem@ == old(self).chr_mem@,
            final(self).mirror == old(self).mirror,
            final(self).mapper is Some <==> old(self).mapper is Some,
    {
        match &mut self.mapper {
            Some(m) => m.clear_irq(),
            None => {},
        }
    }
}

} // verus!

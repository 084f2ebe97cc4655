use crate::bits::bit8;
use crate::cartridge::Cartridge;
use crate::ppu::name_table::NameTable;
use crate::ppu::oam::{entry_at, Oam, OamEntry};
use crate::ppu::palette_ram::{palette_index, PaletteRam};
use crate::ppu::pixel::Pixel;
use crate::ppu::registers::addrreg::{
    coarse_x_of, coarse_y_of, fine_y_of, nametable_x_of, nametable_y_of,
};
use crate::ppu::registers::{AddrReg, PpuCtrl, PpuMask, PpuStatus};
use crate::ppu::screen::Screen;
use crate::types::{Addr, Byte, Word};
use vstd::prelude::*;

verus! {

/// Visible width of a frame.
pub const SCREEN_WIDTH: usize = 256;

/// Visible height of a frame.
pub const SCREEN_HEIGHT: usize = 240;

/// Dots per scanline.
pub const DOTS_PER_LINE: i16 = 341;

/// Sprites the PPU can draw on one scanline.
pub const SPRITES_PER_LINE: usize = 8;

/// The 14-bit PPU address an access reaches.
pub open spec fn vram_addr_of(addr: u16) -> u16 {
    (addr as int % 0x4000) as u16
}

/// The step PPUDATA takes after each access: 32 in vertical mode, else 1.
pub open spec fn vram_increment(control: PpuCtrl) -> int {
    if bit8(control.0, 2) {
        32
    } else {
        1
    }
}

/// The dot after (scanline, cycle): 341 dots a line, lines -1 to 260.
pub open spec fn next_dot(scanline: i16, cycle: i16) -> (i16, i16) {
    if cycle + 1 >= 341 {
        if scanline + 1 >= 261 {
            (-1i16, 0i16)
        } else {
            ((scanline + 1) as i16, 0i16)
        }
    } else {
        (scanline, (cycle + 1) as i16)
    }
}

/// The winner of one background and one sprite pixel, each with its palette.
pub open spec fn compose_spec(
    bg_pixel: u8,
    bg_palette: u8,
    fg_pixel: u8,
    fg_palette: u8,
    fg_priority: bool,
) -> (u8, u8) {
    if bg_pixel == 0 && fg_pixel == 0 {
        (0, 0)
    } else if bg_pixel == 0 {
        (fg_pixel, fg_palette)
    } else if fg_pixel == 0 {
        (bg_pixel, bg_palette)
    } else if fg_priority {
        (fg_pixel, fg_palette)
    } else {
        (bg_pixel, bg_palette)
    }
}

/// The last `n` bits of `x` pushed, lowest first, onto `acc`.
pub open spec fn reverse_bits_spec(x: nat, acc: nat, n: nat) -> nat
    decreases n,
{
    if n == 0 {
        acc
    } else {
        reverse_bits_spec(x / 2, acc * 2 + x % 2, (n - 1) as nat)
    }
}

proof fn lemma_reverse_bits_bound(x: nat, acc: nat, n: nat)
    requires
        acc < vstd::arithmetic::power2::pow2((8 - n) as nat),
        n <= 8,
    ensures
        reverse_bits_spec(x, acc, n) < 256,
    decreases n,
{
    vstd::arithmetic::power2::lemma2_to64();
    if n > 0 {
        assert(acc * 2 + x % 2 < vstd::arithmetic::power2::pow2((8 - (n - 1)) as nat)) by {
            vstd::arithmetic::power2::lemma_pow2_unfold((8 - (n - 1)) as nat);
        }
        lemma_reverse_bits_bound(x / 2, acc * 2 + x % 2, (n - 1) as nat);
    }
}

/// Mirrors a byte left to right: bit 0 becomes bit 7.
pub fn flip_byte(b: u8) -> (r: u8)
    ensures
        r == reverse_bits_spec(b as nat, 0, 8),
{
    let mut r: u8 = 0;
    let mut x: u8 = b;
    let mut i: u8 = 0;
    proof {
        vstd::arithmetic::power2::lemma2_to64();
    }
    while i < 8
        invariant
            i <= 8,
            (r as nat) < vstd::arithmetic::power2::pow2(i as nat),
            reverse_bits_spec(x as nat, r as nat, (8 - i) as nat) == reverse_bits_spec(
                b as nat,
                0,
                8,
            ),
        decreases 8 - i,
    {
        proof {
            vstd::arithmetic::power2::lemma2_to64();
            vstd::arithmetic::power2::lemma_pow2_unfold((i + 1) as nat);
        }
        r = r * 2 + x % 2;
        x = x / 2;
        i = i + 1;
    }
    r
}

/// Picks the pixel to show from the background and the first opaque sprite.
pub fn compose(bg_pixel: u8, bg_palette: u8, fg_pixel: u8, fg_palette: u8, fg_priority: bool) -> (r: (
    u8,
    u8,
))
    ensures
        r == compose_spec(bg_pixel, bg_palette, fg_pixel, fg_palette, fg_priority),
{
    if bg_pixel == 0 && fg_pixel == 0 {
        // Both transparent: the universal background colour.
        (0, 0)
    } else if bg_pixel == 0 {
        (fg_pixel, fg_palette)
    } else if fg_pixel == 0 {
        (bg_pixel, bg_palette)
    } else if fg_priority {
        (fg_pixel, fg_palette)
    } else {
        (bg_pixel, bg_palette)
    }
}

/// Coarse X moved one tile right; past 31 it wraps and flips the
/// horizontal nametable.
pub open spec fn x_scrolled(v0: u16, v1: u16) -> bool {
    &&& coarse_x_of(v0) == 31 ==> coarse_x_of(v1) == 0 && nametable_x_of(v1) == !nametable_x_of(v0)
    &&& coarse_x_of(v0) < 31 ==> coarse_x_of(v1) == coarse_x_of(v0) + 1 && nametable_x_of(v1)
        == nametable_x_of(v0)
}

/// Coarse X and the horizontal nametable are kept.
pub open spec fn x_kept(v0: u16, v1: u16) -> bool {
    coarse_x_of(v1) == coarse_x_of(v0) && nametable_x_of(v1) == nametable_x_of(v0)
}

/// One pixel row down: fine Y, then coarse Y, which wraps at 29 into the
/// other vertical nametable and at 31 within the same one.
pub open spec fn y_scrolled(v0: u16, v1: u16) -> bool {
    &&& fine_y_of(v0) < 7 ==> fine_y_of(v1) == fine_y_of(v0) + 1 && coarse_y_of(v1) == coarse_y_of(v0)
        && nametable_y_of(v1) == nametable_y_of(v0)
    &&& fine_y_of(v0) == 7 ==> fine_y_of(v1) == 0
    &&& fine_y_of(v0) == 7 && coarse_y_of(v0) == 29 ==> coarse_y_of(v1) == 0 && nametable_y_of(v1)
        == !nametable_y_of(v0)
    &&& fine_y_of(v0) == 7 && coarse_y_of(v0) == 31 ==> coarse_y_of(v1) == 0 && nametable_y_of(v1)
        == nametable_y_of(v0)
    &&& fine_y_of(v0) == 7 && coarse_y_of(v0) != 29 && coarse_y_of(v0) != 31 ==> coarse_y_of(v1)
        == coarse_y_of(v0) + 1 && nametable_y_of(v1) == nametable_y_of(v0)
}

/// Fine Y, coarse Y and the vertical nametable are kept.
pub open spec fn y_kept(v0: u16, v1: u16) -> bool {
    &&& fine_y_of(v1) == fine_y_of(v0)
    &&& coarse_y_of(v1) == coarse_y_of(v0)
    &&& nametable_y_of(v1) == nametable_y_of(v0)
}

/// Coarse X and the horizontal nametable come from `t`.
pub open spec fn x_from(t: u16, v1: u16) -> bool {
    coarse_x_of(v1) == coarse_x_of(t) && nametable_x_of(v1) == nametable_x_of(t)
}

/// Fine Y, coarse Y and the vertical nametable come from `t`.
pub open spec fn y_from(t: u16, v1: u16) -> bool {
    &&& fine_y_of(v1) == fine_y_of(t)
    &&& coarse_y_of(v1) == coarse_y_of(t)
    &&& nametable_y_of(v1) == nametable_y_of(t)
}

/// Sprite height: 16 rows in 8x16 mode, else 8.
pub open spec fn sprite_height(control: PpuCtrl) -> int {
    if bit8(control.0, 5) {
        16
    } else {
        8
    }
}

/// OAM entry `i` covers the line after `scanline`.
pub open spec fn is_candidate(oam: Seq<Byte>, i: int, scanline: i16, h: int) -> bool {
    0 <= scanline - oam[4 * i].0 < h
}

/// How many of the entries before `k` are candidates.
pub open spec fn candidates_before(oam: Seq<Byte>, k: int, scanline: i16, h: int) -> int
    decreases k,
{
    if k <= 0 {
        0
    } else {
        candidates_before(oam, k - 1, scanline, h) + if is_candidate(oam, k - 1, scanline, h) {
            1int
        } else {
            0int
        }
    }
}

proof fn lemma_candidates_monotonic(oam: Seq<Byte>, j: int, k: int, scanline: i16, h: int)
    requires
        0 <= j <= k,
    ensures
        candidates_before(oam, j, scanline, h) <= candidates_before(oam, k, scanline, h),
    decreases k - j,
{
    if j < k {
        lemma_candidates_monotonic(oam, j, k - 1, scanline, h);
    }
}

/// The outcome of sprite evaluation for the line after `scanline`: the first
/// eight candidates in OAM order, the sprite-zero flag, and overflow raised
/// when a ninth exists.
pub open spec fn sprites_evaluated(before: &Ppu, after: &Ppu) -> bool {
    let oam = before.oam.mem@;
    let s = before.scanline;
    let h = sprite_height(before.control);
    let n = candidates_before(oam, 64, s, h);
    &&& after.sprite_count == if n > 8 {
        8
    } else {
        n
    }
    &&& forall|i: int|
        0 <= i < 64 && is_candidate(oam, i, s, h) && #[trigger] candidates_before(oam, i, s, h) < 8
            ==> after.sprite_scan_line@[candidates_before(oam, i, s, h)] == entry_at(oam, i)
    &&& after.sprite_zero_hit_possible == is_candidate(oam, 0, s, h)
    &&& n > 8 ==> bit8(after.status.0, 5)
    &&& n <= 8 ==> bit8(after.status.0, 5) == bit8(before.status.0, 5)
}

/// A background shifter after the dot's shift, when shifting is on.
pub open spec fn shifted16(x: u16, on: bool) -> u16 {
    if on {
        ((x % 0x8000) * 2) as u16
    } else {
        x
    }
}

/// A background shifter after its low byte is reloaded with `v`, when on.
pub open spec fn loaded16(x: u16, v: int, on: bool) -> u16 {
    if on {
        (x - x % 256 + v) as u16
    } else {
        x
    }
}

/// The bit under the fine-X tap.
pub open spec fn bg_tap(x: u16, fine_x: u8) -> int {
    ((x >> (15 - fine_x) as u16) % 2) as int
}

/// The background pixel and palette the shifters show on dot `cycle`.
pub open spec fn bg_pixel_of(
    mask: PpuMask,
    cycle: i16,
    fine_x: u8,
    lo: u16,
    hi: u16,
    alo: u16,
    ahi: u16,
) -> (u8, u8) {
    if bit8(mask.0, 3) && (bit8(mask.0, 1) || cycle >= 9) {
        (
            (bg_tap(hi, fine_x) * 2 + bg_tap(lo, fine_x)) as u8,
            (bg_tap(ahi, fine_x) * 2 + bg_tap(alo, fine_x)) as u8,
        )
    } else {
        (0, 0)
    }
}

/// A chosen sprite after the dot: its X counts down until it is reached.
pub open spec fn sprite_entry_shifted(e: OamEntry, on: bool) -> OamEntry {
    if on && e.x.0 > 0 {
        OamEntry { x: Byte((e.x.0 - 1) as u8), ..e }
    } else {
        e
    }
}

/// A sprite pattern shifter after the dot: it shifts once the sprite is reached.
pub open spec fn sprite_pattern_shifted(e: OamEntry, b: u8, on: bool) -> u8 {
    if on && e.x.0 == 0 {
        ((b % 128) * 2) as u8
    } else {
        b
    }
}

/// The first opaque pixel among the chosen sprites from `i` on, with its
/// palette and whether it is in front of the background.
pub open spec fn first_sprite_pixel(
    es: Seq<OamEntry>,
    lo: Seq<u8>,
    hi: Seq<u8>,
    count: int,
    i: int,
) -> (u8, u8, bool)
    decreases count - i,
{
    if i < 0 || i >= count {
        (0, 0, false)
    } else {
        let px = ((hi[i] / 128) * 2 + lo[i] / 128) as u8;
        if es[i].x.0 == 0 && px != 0 {
            (px, (es[i].attr.0 % 4 + 4) as u8, (es[i].attr.0 / 32) % 2 == 0)
        } else {
            first_sprite_pixel(es, lo, hi, count, i + 1)
        }
    }
}

/// The sprite pixel the compositor sees.
pub open spec fn fg_pixel_of(
    mask: PpuMask,
    cycle: i16,
    es: Seq<OamEntry>,
    lo: Seq<u8>,
    hi: Seq<u8>,
    count: int,
) -> (u8, u8, bool) {
    if bit8(mask.0, 4) && (bit8(mask.0, 2) || cycle >= 9) {
        first_sprite_pixel(es, lo, hi, count, 0)
    } else {
        (0, 0, false)
    }
}

/// The chosen sprites after the dot's shift.
pub open spec fn sprites_shifted(p: &Ppu, on: bool) -> (Seq<OamEntry>, Seq<u8>, Seq<u8>) {
    let es = p.sprite_scan_line@;
    (
        Seq::new(8, |j: int| if j < p.sprite_count { sprite_entry_shifted(es[j], on) } else { es[j] }),
        Seq::new(
            8,
            |j: int|
                if j < p.sprite_count {
                    sprite_pattern_shifted(es[j], p.sprite_shifter_pattern_lo@[j], on)
                } else {
                    p.sprite_shifter_pattern_lo@[j]
                },
        ),
        Seq::new(
            8,
            |j: int|
                if j < p.sprite_count {
                    sprite_pattern_shifted(es[j], p.sprite_shifter_pattern_hi@[j], on)
                } else {
                    p.sprite_shifter_pattern_hi@[j]
                },
        ),
    )
}

/// The pixel and palette index drawn on a visible dot of `p`, from the
/// shifters as they stand after the dot's shift and reload.
pub open spec fn pixel_at_dot(p: &Ppu) -> (u8, u8) {
    let c = p.cycle;
    let shift_bg = bit8(p.mask.0, 3) && c >= 2;
    let load = c >= 2 && (c - 1) % 8 == 0;
    let attr = p.bg_next_tile_attr.0;
    let lo = loaded16(shifted16(p.bg_shifter_pattern_lo.0, shift_bg), p.bg_next_tile_lsb.0 as int, load);
    let hi = loaded16(shifted16(p.bg_shifter_pattern_hi.0, shift_bg), p.bg_next_tile_msb.0 as int, load);
    let alo = loaded16(
        shifted16(p.bg_shifter_attr_lo.0, shift_bg),
        if attr % 2 == 1 { 0xFFint } else { 0int },
        load,
    );
    let ahi = loaded16(
        shifted16(p.bg_shifter_attr_hi.0, shift_bg),
        if (attr / 2) % 2 == 1 { 0xFFint } else { 0int },
        load,
    );
    let (bg, bgp) = bg_pixel_of(p.mask, c, p.fine_x, lo, hi, alo, ahi);
    let sp = sprites_shifted(p, bit8(p.mask.0, 4) && c >= 2);
    let fg = fg_pixel_of(p.mask, c, sp.0, sp.1, sp.2, p.sprite_count as int);
    compose_spec(bg, bgp, fg.0, fg.1, fg.2)
}

pub struct Ppu {
    pub name_table: NameTable,
    pub palette: PaletteRam,
    pub oam: Oam,
    pub screen: Screen,
    pub status: PpuStatus,
    pub mask: PpuMask,
    pub control: PpuCtrl,
    /// `v`: the current VRAM address.
    pub vram_addr: AddrReg,
    /// `t`: the address the next frame or scanline starts from.
    pub tram_addr: AddrReg,
    pub fine_x: u8,
    /// `w`: the write toggle shared by PPUSCROLL and PPUADDR.
    pub addr_latch: bool,
    pub ppu_data_buf: Byte,
    pub scanline: i16,
    pub cycle: i16,
    pub odd_frame: bool,
    pub bg_next_tile_id: Byte,
    pub bg_next_tile_attr: Byte,
    pub bg_next_tile_lsb: Byte,
    pub bg_next_tile_msb: Byte,
    pub bg_shifter_pattern_lo: Word,
    pub bg_shifter_pattern_hi: Word,
    pub bg_shifter_attr_lo: Word,
    pub bg_shifter_attr_hi: Word,
    pub oam_addr: Byte,
    pub sprite_scan_line: Vec<OamEntry>,
    pub sprite_count: usize,
    pub sprite_shifter_pattern_lo: Vec<u8>,
    pub sprite_shifter_pattern_hi: Vec<u8>,
    pub sprite_zero_hit_possible: bool,
    pub sprite_zero_being_rendered: bool,
    pub nmi: bool,
}

impl Ppu {
    pub open spec fn wf(&self) -> bool {
        &&& self.name_table.wf()
        &&& self.palette.wf()
        &&& self.oam.wf()
        &&& self.screen.wf()
        &&& self.screen.width == SCREEN_WIDTH
        &&& self.screen.height == SCREEN_HEIGHT
        &&& self.vram_addr.wf()
        &&& self.tram_addr.wf()
        &&& self.fine_x < 8
        &&& self.sprite_scan_line@.len() == SPRITES_PER_LINE
        &&& self.sprite_shifter_pattern_lo@.len() == SPRITES_PER_LINE
        &&& self.sprite_shifter_pattern_hi@.len() == SPRITES_PER_LINE
        &&& self.sprite_count <= SPRITES_PER_LINE
        &&& -1 <= self.scanline <= 260
        &&& 0 <= self.cycle <= 340
    }

    /// Whether either layer is being drawn.
    pub open spec fn rendering(&self) -> bool {
        bit8(self.mask.0, 3) || bit8(self.mask.0, 4)
    }

    /// What the PPU bus holds at `addr`: pattern space from the cartridge,
    /// nametables under the cartridge's mirroring, then palette memory,
    /// whose top two bits read as zero (grayscale keeps only the top nibble).
    pub open spec fn spec_read_chr(&self, cart: &Cartridge, addr: u16) -> Byte {
        let a = vram_addr_of(addr);
        if a < 0x2000 {
            cart.spec_read_chr(a)
        } else if a < 0x3F00 {
            self.name_table.spec_read(a, cart.spec_mirror())
        } else {
            Byte(
                self.palette.mem@[palette_index(a)].0 & if bit8(self.mask.0, 0) {
                    0x30u8
                } else {
                    0x3Fu8
                },
            )
        }
    }

    pub fn new() -> (r: Ppu)
        ensures
            r.wf(),
            !r.nmi,
            r.status.0 == 0,
            r.control.0 == 0,
            r.mask.0 == 0,
            r.scanline == 0,
            r.cycle == 0,
            !r.screen.ready,
            forall|i: int|
                0 <= i < 1024 ==> #[trigger] r.name_table.mem_0@[i] == Byte(0)
                    && r.name_table.mem_1@[i] == Byte(0),
            forall|i: int| 0 <= i < 32 ==> #[trigger] r.palette.mem@[i] == Byte(0),
            forall|i: int| 0 <= i < 256 ==> #[trigger] r.oam.mem@[i] == Byte(0),
            r.oam_addr == Byte(0),
            r.vram_addr.0 == 0 && r.tram_addr.0 == 0,
    {
        Ppu {
            name_table: NameTable::new(),
            palette: PaletteRam::new(),
            oam: Oam::new(),
            screen: Screen::with_size(SCREEN_WIDTH, SCREEN_HEIGHT),
            status: PpuStatus::new(),
            mask: PpuMask::new(),
            control: PpuCtrl::new(),
            vram_addr: AddrReg::new(),
            tram_addr: AddrReg::new(),
            fine_x: 0,
            addr_latch: false,
            ppu_data_buf: Byte(0),
            scanline: 0,
            cycle: 0,
            odd_frame: false,
            bg_next_tile_id: Byte(0),
            bg_next_tile_attr: Byte(0),
            bg_next_tile_lsb: Byte(0),
            bg_next_tile_msb: Byte(0),
            bg_shifter_pattern_lo: Word(0),
            bg_shifter_pattern_hi: Word(0),
            bg_shifter_attr_lo: Word(0),
            bg_shifter_attr_hi: Word(0),
            oam_addr: Byte(0),
            sprite_scan_line: vec![
                OamEntry::new(),
                OamEntry::new(),
                OamEntry::new(),
                OamEntry::new(),
                OamEntry::new(),
                OamEntry::new(),
                OamEntry::new(),
                OamEntry::new(),
            ],
            sprite_count: 0,
            sprite_shifter_pattern_lo: vec![0, 0, 0, 0, 0, 0, 0, 0],
            sprite_shifter_pattern_hi: vec![0, 0, 0, 0, 0, 0, 0, 0],
            sprite_zero_hit_possible: false,
            sprite_zero_being_rendered: false,
            nmi: false,
        }
    }

    /// Zeroes the internal position, latches and background pipeline.
    pub fn reset(&mut self)
        requires
            old(self).wf(),
        ensures
            final(self).wf(),
            final(self).fine_x == 0,
            !final(self).addr_latch,
            final(self).ppu_data_buf == Byte(0),
            final(self).scanline == 0,
            final(self).cycle == 0,
            !final(self).odd_frame,
            final(self).status == old(self).status,
            final(self).control == old(self).control,
            final(self).mask == old(self).mask,
    {
        self.fine_x = 0;
        self.addr_latch = false;
        self.ppu_data_buf = Byte(0);
        self.scanline = 0;
        self.cycle = 0;
        self.odd_frame = false;
        self.bg_next_tile_id = Byte(0);
        self.bg_next_tile_attr = Byte(0);
        self.bg_next_tile_lsb = Byte(0);
        self.bg_next_tile_msb = Byte(0);
        self.bg_shifter_pattern_lo = Word(0);
        self.bg_shifter_pattern_hi = Word(0);
        self.bg_shifter_attr_lo = Word(0);
        self.bg_shifter_attr_hi = Word(0);
    }

    pub fn has_nmi(&self) -> (r: bool)
        ensures
            r == self.nmi,
    {
        self.nmi
    }

    pub fn clear_nmi(&mut self)
        ensures
            *final(self) == (Ppu { nmi: false, ..*old(self) }),
    {
        self.nmi = false;
    }

    pub fn oam_mut(&mut self) -> (r: &mut Oam)
        ensures
            *r == old(self).oam,
            *final(self) == (Ppu { oam: *final(r), ..*old(self) }),
    {
        &mut self.oam
    }

    pub fn screen(&self) -> (r: &Screen)
        ensures
            *r == self.screen,
    {
        &self.screen
    }

    /// A read of the PPU bus.
    pub fn read_chr(&self, cart: &mut Cartridge, addr: Addr) -> (r: Byte)
        requires
            self.wf(),
            old(cart).wf(),
        ensures
            *final(cart) == *old(cart),
            r == self.spec_read_chr(old(cart), addr.0),
    {
        let a = Addr(addr.0 % 0x4000);
        if a.0 < 0x2000 {
            cart.read_chr(a)
        } else if a.0 < 0x3F00 {
            let mirror = cart.mirror();
            self.name_table.read(a, mirror)
        } else {
            let v = self.palette.read(a);
            Byte(
                v.0 & if self.mask.grayscale() {
                    0x30u8
                } else {
                    0x3Fu8
                },
            )
        }
    }

    /// A write to the PPU bus.
    pub fn write_chr(&mut self, cart: &mut Cartridge, addr: Addr, v: Byte)
        requires
            old(self).wf(),
            old(cart).wf(),
        ensures
            final(self).wf(),
            final(cart).wf(),
            vram_addr_of(addr.0) < 0x2000 ==> {
                &&& *final(self) == *old(self)
                &&& final(cart).chr_mem@ == old(cart).spec_write_chr(vram_addr_of(addr.0), v)
                &&& final(cart).prg_mem@ == old(cart).prg_mem@
                &&& final(cart).mirror == old(cart).mirror
                &&& final(cart).mapper == old(cart).mapper
            },
            0x2000 <= vram_addr_of(addr.0) < 0x3F00 ==> {
                &&& *final(cart) == *old(cart)
                &&& *final(self) == (Ppu { name_table: final(self).name_table, ..*old(self) })
                &&& old(self).name_table.written_to(
                    &final(self).name_table,
                    vram_addr_of(addr.0),
                    v,
                    old(cart).spec_mirror(),
                )
            },
            0x3F00 <= vram_addr_of(addr.0) ==> {
                &&& *final(cart) == *old(cart)
                &&& *final(self) == (Ppu { palette: final(self).palette, ..*old(self) })
                &&& final(self).palette.mem@ == old(self).palette.mem@.update(
                    palette_index(vram_addr_of(addr.0)),
                    v,
                )
            },
    {
        let a = Addr(addr.0 % 0x4000);
        if a.0 < 0x2000 {
            cart.write_chr(a, v);
        } else if a.0 < 0x3F00 {
            let mirror = cart.mirror();
            self.name_table.write(a, v, mirror);
        } else {
            self.palette.write(a, v);
        }
    }

    /// The step PPUDATA takes after an access.
    fn increment(&self) -> (r: u16)
        ensures
            r == vram_increment(self.control),
    {
        if self.control.increment_mode() {
            32
        } else {
            1
        }
    }

    /// Moves `v` on by `inc`, within its 15 bits.
    fn advance_vram_addr(&mut self, inc: u16)
        requires
            old(self).vram_addr.wf(),
            inc <= 32,
        ensures
            final(self).vram_addr.wf(),
            *final(self) == (Ppu {
                vram_addr: AddrReg(((old(self).vram_addr.0 + inc) % 0x8000) as u16),
                ..*old(self)
            }),
    {
        self.vram_addr = AddrReg((self.vram_addr.0 + inc) % 0x8000);
    }

    /// A CPU read of register `addr & 7`. PPUSTATUS returns the flags, then
    /// clears vertical blank and the write toggle; OAMDATA returns the byte
    /// at OAMADDR; PPUDATA returns the read buffer (the palette byte itself in
    /// palette space) and moves `v` on by 1 or 32. The write-only registers
    /// read as 0.
    pub fn read(&mut self, cart: &mut Cartridge, addr: Addr) -> (r: Byte)
        requires
            old(self).wf(),
            old(cart).wf(),
        ensures
            final(self).wf(),
            *final(cart) == *old(cart),
            addr.0 % 8 == 2 ==> {
                &&& r.0 == old(self).status.0
                &&& !bit8(final(self).status.0, 7)
                &&& bit8(final(self).status.0, 6) == bit8(old(self).status.0, 6)
                &&& bit8(final(self).status.0, 5) == bit8(old(self).status.0, 5)
                &&& *final(self) == (Ppu {
                    status: final(self).status,
                    addr_latch: false,
                    ..*old(self)
                })
            },
            addr.0 % 8 == 4 ==> r == old(self).oam.mem@[old(self).oam_addr.0 as int] && *final(self) == *old(self),
            addr.0 % 8 == 7 ==> {
                let a = vram_addr_of(old(self).vram_addr.0);
                &&& a < 0x3F00 ==> r == old(self).ppu_data_buf
                &&& a < 0x3F00 ==> final(self).ppu_data_buf == old(self).spec_read_chr(old(cart), a)
                &&& a >= 0x3F00 ==> r == old(self).spec_read_chr(old(cart), a)
                &&& a >= 0x3F00 ==> final(self).ppu_data_buf == old(self).spec_read_chr(
                    old(cart),
                    (a - 0x1000) as u16,
                )
                &&& final(self).vram_addr.0 == (old(self).vram_addr.0 + vram_increment(
                    old(self).control,
                )) % 0x8000
                &&& *final(self) == (Ppu {
                    vram_addr: final(self).vram_addr,
                    ppu_data_buf: final(self).ppu_data_buf,
                    ..*old(self)
                })
            },
            addr.0 % 8 != 2 && addr.0 % 8 != 4 && addr.0 % 8 != 7 ==> r == Byte(0) && *final(self)
                == *old(self),
    {
        let reg = addr.0 % 8;
        if reg == 2 {
            let res = self.status.to_byte();
            self.status.set_vertical_blank(false);
            self.addr_latch = false;
            res
        } else if reg == 4 {
            self.oam.read(self.oam_addr.as_lo_addr())
        } else if reg == 7 {
            let a = Addr(self.vram_addr.0 % 0x4000);
            let res;
            if a.0 < 0x3F00 {
                // Reads below the palette come one access late, through the buffer.
                res = self.ppu_data_buf;
                self.ppu_data_buf = self.read_chr(cart, a);
            } else {
                // Palette reads are immediate; the buffer takes the nametable
                // byte underneath.
                res = self.read_chr(cart, a);
                self.ppu_data_buf = self.read_chr(cart, Addr(a.0 - 0x1000));
            }
            let inc = self.increment();
            self.advance_vram_addr(inc);
            res
        } else {
            Byte(0)
        }
    }

    /// A CPU write of register `addr & 7`.
    #[verifier::rlimit(50)]
    pub fn write(&mut self, cart: &mut Cartridge, addr: Addr, v: Byte)
        requires
            old(self).wf(),
            old(cart).wf(),
        ensures
            final(self).wf(),
            final(cart).wf(),
            addr.0 % 8 != 7 ==> *final(cart) == *old(cart),
            addr.0 % 8 == 7 && 0x2000 <= vram_addr_of(old(self).vram_addr.0) ==> *final(cart) == *old(
                cart),
            addr.0 % 8 == 7 && vram_addr_of(old(self).vram_addr.0) < 0x2000 ==> {
                &&& final(cart).prg_mem@ == old(cart).prg_mem@
                &&& final(cart).mirror == old(cart).mirror
                &&& final(cart).mapper == old(cart).mapper
            },
            addr.0 % 8 == 0 ==> {
                &&& final(self).control.0 == v.0
                &&& nametable_x_of(final(self).tram_addr.0) == bit8(v.0, 0)
                &&& nametable_y_of(final(self).tram_addr.0) == bit8(v.0, 1)
                &&& coarse_x_of(final(self).tram_addr.0) == coarse_x_of(old(self).tram_addr.0)
                &&& coarse_y_of(final(self).tram_addr.0) == coarse_y_of(old(self).tram_addr.0)
                &&& fine_y_of(final(self).tram_addr.0) == fine_y_of(old(self).tram_addr.0)
                &&& *final(self) == (Ppu {
                    control: final(self).control,
                    tram_addr: final(self).tram_addr,
                    ..*old(self)
                })
            },
            addr.0 % 8 == 1 ==> *final(self) == (Ppu { mask: PpuMask(v.0), ..*old(self) }),
            addr.0 % 8 == 2 ==> *final(self) == *old(self),
            addr.0 % 8 == 3 ==> *final(self) == (Ppu { oam_addr: v, ..*old(self) }),
            addr.0 % 8 == 4 ==> {
                &&& final(self).oam.mem@ == old(self).oam.mem@.update(
                    old(self).oam_addr.0 as int,
                    v,
                )
                &&& final(self).oam_addr.0 == (old(self).oam_addr.0 + 1) % 256
                &&& *final(self) == (Ppu {
                    oam: final(self).oam,
                    oam_addr: final(self).oam_addr,
                    ..*old(self)
                })
            },
            addr.0 % 8 == 5 && !old(self).addr_latch ==> {
                &&& final(self).fine_x == v.0 % 8
                &&& coarse_x_of(final(self).tram_addr.0) == v.0 / 8
                &&& coarse_y_of(final(self).tram_addr.0) == coarse_y_of(old(self).tram_addr.0)
                &&& fine_y_of(final(self).tram_addr.0) == fine_y_of(old(self).tram_addr.0)
                &&& nametable_x_of(final(self).tram_addr.0) == nametable_x_of(old(self).tram_addr.0)
                &&& nametable_y_of(final(self).tram_addr.0) == nametable_y_of(old(self).tram_addr.0)
                &&& *final(self) == (Ppu {
                    fine_x: final(self).fine_x,
                    tram_addr: final(self).tram_addr,
                    addr_latch: true,
                    ..*old(self)
                })
            },
            addr.0 % 8 == 5 && old(self).addr_latch ==> {
                &&& fine_y_of(final(self).tram_addr.0) == v.0 % 8
                &&& coarse_y_of(final(self).tram_addr.0) == v.0 / 8
                &&& coarse_x_of(final(self).tram_addr.0) == coarse_x_of(old(self).tram_addr.0)
                &&& nametable_x_of(final(self).tram_addr.0) == nametable_x_of(old(self).tram_addr.0)
                &&& nametable_y_of(final(self).tram_addr.0) == nametable_y_of(old(self).tram_addr.0)
                &&& *final(self) == (Ppu {
                    tram_addr: final(self).tram_addr,
                    addr_latch: false,
                    ..*old(self)
                })
            },
            addr.0 % 8 == 6 && !old(self).addr_latch ==> *final(self) == (Ppu {
                tram_addr: AddrReg(((v.0 % 64) * 256 + old(self).tram_addr.0 % 256) as u16),
                addr_latch: true,
                ..*old(self)
            }),
            addr.0 % 8 == 6 && old(self).addr_latch ==> {
                let t = AddrReg((old(self).tram_addr.0 - old(self).tram_addr.0 % 256 + v.0) as u16);
                *final(self) == (Ppu {
                    tram_addr: t,
                    vram_addr: t,
                    addr_latch: false,
                    ..*old(self)
                })
            },
            addr.0 % 8 == 7 ==> {
                &&& final(self).vram_addr.0 == (old(self).vram_addr.0 + vram_increment(
                    old(self).control,
                )) % 0x8000
                &&& vram_addr_of(old(self).vram_addr.0) < 0x2000 ==> final(cart).chr_mem@ == old(cart).spec_write_chr(vram_addr_of(old(self).vram_addr.0), v)
                &&& 0x3F00 <= vram_addr_of(old(self).vram_addr.0) ==> final(self).palette.mem@
                    == old(self).palette.mem@.update(
                    palette_index(vram_addr_of(old(self).vram_addr.0)),
                    v,
                )
                &&& 0x2000 <= vram_addr_of(old(self).vram_addr.0) < 0x3F00 ==> old(self).name_table.written_to(
                    &final(self).name_table,
                    vram_addr_of(old(self).vram_addr.0),
                    v,
                    old(cart).spec_mirror(),
                )
                &&& *final(self) == (Ppu {
                    vram_addr: final(self).vram_addr,
                    name_table: final(self).name_table,
                    palette: final(self).palette,
                    ..*old(self)
                })
            },
    {
        let reg = addr.0 % 8;
        if reg == 0 {
            self.control = PpuCtrl::from_byte(v);
            let nx = self.control.nametable_x();
            let ny = self.control.nametable_y();
            self.tram_addr.set_nametable_x(nx);
            self.tram_addr.set_nametable_y(ny);
        } else if reg == 1 {
            self.mask = PpuMask::from_byte(v);
        } else if reg == 3 {
            self.oam_addr = v;
        } else if reg == 4 {
            self.oam.write(self.oam_addr.as_lo_addr(), v);
            self.oam_addr.inc();
        } else if reg == 5 {
            if !self.addr_latch {
                // First write: X scroll, split into coarse and fine parts.
                self.fine_x = v.0 % 8;
                self.tram_addr.set_coarse_x(Addr((v.0 / 8) as u16));
                self.addr_latch = true;
            } else {
                // Second write: Y scroll.
                self.tram_addr.set_fine_y(Addr((v.0 % 8) as u16));
                self.tram_addr.set_coarse_y(Addr((v.0 / 8) as u16));
                self.addr_latch = false;
            }
        } else if reg == 6 {
            if !self.addr_latch {
                // First write: the high six bits of the address.
                self.tram_addr = AddrReg((v.0 % 64) as u16 * 256 + self.tram_addr.0 % 256);
                self.addr_latch = true;
            } else {
                // Second write: the low byte; the whole address goes live.
                self.tram_addr = AddrReg(self.tram_addr.0 - self.tram_addr.0 % 256 + v.0 as u16);
                self.vram_addr = self.tram_addr;
                self.addr_latch = false;
            }
        } else if reg == 7 {
            let a = Addr(self.vram_addr.0);
            self.write_chr(cart, a, v);
            let inc = self.increment();
            self.advance_vram_addr(inc);
        }
    }

    /// Everything the CPU can observe through the registers and memories,
    /// apart from the status flags, `v` and the NMI line, is equal.
    pub open spec fn same_io(&self, o: &Ppu) -> bool {
        &&& self.control == o.control
        &&& self.mask == o.mask
        &&& self.tram_addr == o.tram_addr
        &&& self.oam == o.oam
        &&& self.oam_addr == o.oam_addr
        &&& self.palette == o.palette
        &&& self.name_table == o.name_table
        &&& self.addr_latch == o.addr_latch
        &&& self.ppu_data_buf == o.ppu_data_buf
        &&& self.fine_x == o.fine_x
    }

    /// The shifters and the chosen sprites are equal.
    pub open spec fn same_render(&self, o: &Ppu) -> bool {
        &&& self.bg_shifter_pattern_lo == o.bg_shifter_pattern_lo
        &&& self.bg_shifter_pattern_hi == o.bg_shifter_pattern_hi
        &&& self.bg_shifter_attr_lo == o.bg_shifter_attr_lo
        &&& self.bg_shifter_attr_hi == o.bg_shifter_attr_hi
        &&& self.sprite_scan_line@ == o.sprite_scan_line@
        &&& self.sprite_shifter_pattern_lo@ == o.sprite_shifter_pattern_lo@
        &&& self.sprite_shifter_pattern_hi@ == o.sprite_shifter_pattern_hi@
        &&& self.sprite_count == o.sprite_count
    }

    /// Step for the background pipeline and the sprite evaluation: changes
    /// neither the flags, nor the NMI line, nor the dot position.
    pub open spec fn pipeline_step(&self, o: &Ppu) -> bool {
        &&& self.wf()
        &&& self.same_io(o)
        &&& self.status == o.status
        &&& self.nmi == o.nmi
        &&& self.scanline == o.scanline
        &&& self.cycle == o.cycle
        &&& self.odd_frame == o.odd_frame
        &&& self.screen == o.screen
    }

    fn rendering_enabled(&self) -> (r: bool)
        ensures
            r == self.rendering(),
    {
        self.mask.render_background() || self.mask.render_sprites()
    }

    /// Moves `v` one tile right; past coarse X 31 it wraps and flips the
    /// horizontal nametable.
    fn increment_scroll_x(&mut self)
        requires
            old(self).wf(),
        ensures
            final(self).same_render(old(self)),
            final(self).pipeline_step(old(self)),
            !old(self).rendering() ==> final(self).vram_addr == old(self).vram_addr,
            old(self).rendering() ==> {
                let (v0, v1) = (old(self).vram_addr.0, final(self).vram_addr.0);
                &&& coarse_x_of(v0) == 31 ==> coarse_x_of(v1) == 0 && nametable_x_of(v1)
                    == !nametable_x_of(v0)
                &&& coarse_x_of(v0) < 31 ==> coarse_x_of(v1) == coarse_x_of(v0) + 1
                    && nametable_x_of(v1) == nametable_x_of(v0)
                &&& coarse_y_of(v1) == coarse_y_of(v0)
                &&& fine_y_of(v1) == fine_y_of(v0)
                &&& nametable_y_of(v1) == nametable_y_of(v0)
            },
    {
        if self.rendering_enabled() {
            if self.vram_addr.coarse_x().0 == 31 {
                self.vram_addr.set_coarse_x(Addr(0));
                let nx = self.vram_addr.nametable_x();
                self.vram_addr.set_nametable_x(!nx);
            } else {
                self.vram_addr.inc_coarse_x();
            }
        }
    }

    /// Moves `v` one pixel row down: fine Y first, then coarse Y, which wraps
    /// at 29 into the other vertical nametable and at 31 within the same one.
    fn increment_scroll_y(&mut self)
        requires
            old(self).wf(),
        ensures
            final(self).same_render(old(self)),
            final(self).pipeline_step(old(self)),
            !old(self).rendering() ==> final(self).vram_addr == old(self).vram_addr,
            old(self).rendering() ==> {
                let (v0, v1) = (old(self).vram_addr.0, final(self).vram_addr.0);
                &&& coarse_x_of(v1) == coarse_x_of(v0)
                &&& nametable_x_of(v1) == nametable_x_of(v0)
                &&& fine_y_of(v0) < 7 ==> fine_y_of(v1) == fine_y_of(v0) + 1 && coarse_y_of(v1)
                    == coarse_y_of(v0) && nametable_y_of(v1) == nametable_y_of(v0)
                &&& fine_y_of(v0) == 7 ==> fine_y_of(v1) == 0
                &&& fine_y_of(v0) == 7 && coarse_y_of(v0) == 29 ==> coarse_y_of(v1) == 0
                    && nametable_y_of(v1) == !nametable_y_of(v0)
                &&& fine_y_of(v0) == 7 && coarse_y_of(v0) == 31 ==> coarse_y_of(v1) == 0
                    && nametable_y_of(v1) == nametable_y_of(v0)
                &&& fine_y_of(v0) == 7 && coarse_y_of(v0) != 29 && coarse_y_of(v0) != 31
                    ==> coarse_y_of(v1) == coarse_y_of(v0) + 1 && nametable_y_of(v1)
                    == nametable_y_of(v0)
            },
    {
        if self.rendering_enabled() {
            if self.vram_addr.fine_y().0 < 7 {
                self.vram_addr.inc_fine_y();
            } else {
                self.vram_addr.set_fine_y(Addr(0));
                let y = self.vram_addr.coarse_y().0;
                if y == 29 {
                    self.vram_addr.set_coarse_y(Addr(0));
                    let ny = self.vram_addr.nametable_y();
                    self.vram_addr.set_nametable_y(!ny);
                } else if y == 31 {
                    // Coarse Y in attribute memory wraps without a flip.
                    self.vram_addr.set_coarse_y(Addr(0));
                } else {
                    self.vram_addr.inc_coarse_y();
                }
            }
        }
    }

    /// Copies coarse X and the horizontal nametable from `t` into `v`.
    fn transfer_address_x(&mut self)
        requires
            old(self).wf(),
        ensures
            final(self).same_render(old(self)),
            final(self).pipeline_step(old(self)),
            !old(self).rendering() ==> final(self).vram_addr == old(self).vram_addr,
            old(self).rendering() ==> {
                let (v0, v1, t) = (
                    old(self).vram_addr.0,
                    final(self).vram_addr.0,
                    old(self).tram_addr.0,
                );
                &&& coarse_x_of(v1) == coarse_x_of(t)
                &&& nametable_x_of(v1) == nametable_x_of(t)
                &&& coarse_y_of(v1) == coarse_y_of(v0)
                &&& nametable_y_of(v1) == nametable_y_of(v0)
                &&& fine_y_of(v1) == fine_y_of(v0)
            },
    {
        if self.rendering_enabled() {
            let nx = self.tram_addr.nametable_x();
            let cx = self.tram_addr.coarse_x();
            self.vram_addr.set_nametable_x(nx);
            self.vram_addr.set_coarse_x(cx);
        }
    }

    /// Copies fine Y, coarse Y and the vertical nametable from `t` into `v`.
    fn transfer_address_y(&mut self)
        requires
            old(self).wf(),
        ensures
            final(self).same_render(old(self)),
            final(self).pipeline_step(old(self)),
            !old(self).rendering() ==> final(self).vram_addr == old(self).vram_addr,
            old(self).rendering() ==> {
                let (v0, v1, t) = (
                    old(self).vram_addr.0,
                    final(self).vram_addr.0,
                    old(self).tram_addr.0,
                );
                &&& coarse_x_of(v1) == coarse_x_of(v0)
                &&& nametable_x_of(v1) == nametable_x_of(v0)
                &&& coarse_y_of(v1) == coarse_y_of(t)
                &&& nametable_y_of(v1) == nametable_y_of(t)
                &&& fine_y_of(v1) == fine_y_of(t)
            },
    {
        if self.rendering_enabled() {
            let fy = self.tram_addr.fine_y();
            let ny = self.tram_addr.nametable_y();
            let cy = self.tram_addr.coarse_y();
            self.vram_addr.set_fine_y(fy);
            self.vram_addr.set_nametable_y(ny);
            self.vram_addr.set_coarse_y(cy);
        }
    }

    /// Puts the fetched tile into the low halves of the shifters; the
    /// attribute bits are spread over all eight pixels.
    fn load_background_shifters(&mut self)
        requires
            old(self).wf(),
        ensures
            final(self).sprite_scan_line@ == old(self).sprite_scan_line@,
            final(self).sprite_shifter_pattern_lo@ == old(self).sprite_shifter_pattern_lo@,
            final(self).sprite_shifter_pattern_hi@ == old(self).sprite_shifter_pattern_hi@,
            final(self).sprite_count == old(self).sprite_count,
            final(self).pipeline_step(old(self)),
            final(self).vram_addr == old(self).vram_addr,
            final(self).bg_shifter_pattern_lo.0 == old(self).bg_shifter_pattern_lo.0 - old(
                self).bg_shifter_pattern_lo.0 % 256 + old(self).bg_next_tile_lsb.0,
            final(self).bg_shifter_pattern_hi.0 == old(self).bg_shifter_pattern_hi.0 - old(
                self).bg_shifter_pattern_hi.0 % 256 + old(self).bg_next_tile_msb.0,
            final(self).bg_shifter_attr_lo.0 == old(self).bg_shifter_attr_lo.0 - old(
                self).bg_shifter_attr_lo.0 % 256 + if old(self).bg_next_tile_attr.0 % 2 == 1 {
                0xFFint
            } else {
                0int
            },
            final(self).bg_shifter_attr_hi.0 == old(self).bg_shifter_attr_hi.0 - old(
                self).bg_shifter_attr_hi.0 % 256 + if (old(self).bg_next_tile_attr.0 / 2) % 2
                == 1 {
                0xFFint
            } else {
                0int
            },
    {
        let lo = self.bg_shifter_pattern_lo.0;
        self.bg_shifter_pattern_lo = Word(lo - lo % 256 + self.bg_next_tile_lsb.0 as u16);
        let hi = self.bg_shifter_pattern_hi.0;
        self.bg_shifter_pattern_hi = Word(hi - hi % 256 + self.bg_next_tile_msb.0 as u16);
        let attr = self.bg_next_tile_attr.0;
        let alo = self.bg_shifter_attr_lo.0;
        self.bg_shifter_attr_lo = Word(
            alo - alo % 256 + if attr % 2 == 1 {
                0xFFu16
            } else {
                0u16
            },
        );
        let ahi = self.bg_shifter_attr_hi.0;
        self.bg_shifter_attr_hi = Word(
            ahi - ahi % 256 + if (attr / 2) % 2 == 1 {
                0xFFu16
            } else {
                0u16
            },
        );
    }

    /// Every dot the shifters move one pixel on; a sprite counts its X down
    /// until it is reached, then its pattern shifts.
    fn update_shifters(&mut self)
        requires
            old(self).wf(),
        ensures
            final(self).pipeline_step(old(self)),
            final(self).vram_addr == old(self).vram_addr,
            final(self).bg_shifter_pattern_lo.0 == shifted16(old(self).bg_shifter_pattern_lo.0, bit8(old(self).mask.0, 3)),
            final(self).bg_shifter_pattern_hi.0 == shifted16(old(self).bg_shifter_pattern_hi.0, bit8(old(self).mask.0, 3)),
            final(self).bg_shifter_attr_lo.0 == shifted16(old(self).bg_shifter_attr_lo.0, bit8(old(self).mask.0, 3)),
            final(self).bg_shifter_attr_hi.0 == shifted16(old(self).bg_shifter_attr_hi.0, bit8(old(self).mask.0, 3)),
            final(self).sprite_count == old(self).sprite_count,
            ({
                let sp = sprites_shifted(
                    old(self),
                    bit8(old(self).mask.0, 4) && 1 <= old(self).cycle < 258,
                );
                &&& final(self).sprite_scan_line@ =~= sp.0
                &&& final(self).sprite_shifter_pattern_lo@ =~= sp.1
                &&& final(self).sprite_shifter_pattern_hi@ =~= sp.2
            }),
            final(self).bg_next_tile_id == old(self).bg_next_tile_id,
            final(self).bg_next_tile_attr == old(self).bg_next_tile_attr,
            final(self).bg_next_tile_lsb == old(self).bg_next_tile_lsb,
            final(self).bg_next_tile_msb == old(self).bg_next_tile_msb,
    {
        if self.mask.render_background() {
            self.bg_shifter_pattern_lo = Word((self.bg_shifter_pattern_lo.0 % 0x8000) * 2);
            self.bg_shifter_pattern_hi = Word((self.bg_shifter_pattern_hi.0 % 0x8000) * 2);
            self.bg_shifter_attr_lo = Word((self.bg_shifter_attr_lo.0 % 0x8000) * 2);
            self.bg_shifter_attr_hi = Word((self.bg_shifter_attr_hi.0 % 0x8000) * 2);
        }
        if self.mask.render_sprites() && self.cycle >= 1 && self.cycle < 258 {
            let mut i: usize = 0;
            while i < self.sprite_count
                invariant
                    self.pipeline_step(old(self)),
                    self.vram_addr == old(self).vram_addr,
                    self.sprite_count == old(self).sprite_count,
                    i <= self.sprite_count,
                    bit8(old(self).mask.0, 4) && 1 <= old(self).cycle < 258,
                    self.bg_shifter_pattern_lo.0 == shifted16(old(self).bg_shifter_pattern_lo.0, bit8(old(self).mask.0, 3)),
                    self.bg_shifter_pattern_hi.0 == shifted16(old(self).bg_shifter_pattern_hi.0, bit8(old(self).mask.0, 3)),
                    self.bg_shifter_attr_lo.0 == shifted16(old(self).bg_shifter_attr_lo.0, bit8(old(self).mask.0, 3)),
                    self.bg_shifter_attr_hi.0 == shifted16(old(self).bg_shifter_attr_hi.0, bit8(old(self).mask.0, 3)),
                    self.bg_next_tile_id == old(self).bg_next_tile_id,
                    self.bg_next_tile_attr == old(self).bg_next_tile_attr,
                    self.bg_next_tile_lsb == old(self).bg_next_tile_lsb,
                    self.bg_next_tile_msb == old(self).bg_next_tile_msb,
                    forall|j: int| 0 <= j < 8 ==> #[trigger] self.sprite_scan_line@[j] == if j < i {
                        sprite_entry_shifted(old(self).sprite_scan_line@[j], true)
                    } else {
                        old(self).sprite_scan_line@[j]
                    },
                    forall|j: int| 0 <= j < 8 ==> #[trigger] self.sprite_shifter_pattern_lo@[j] == if j < i {
                        sprite_pattern_shifted(old(self).sprite_scan_line@[j], old(self).sprite_shifter_pattern_lo@[j], true)
                    } else {
                        old(self).sprite_shifter_pattern_lo@[j]
                    },
                    forall|j: int| 0 <= j < 8 ==> #[trigger] self.sprite_shifter_pattern_hi@[j] == if j < i {
                        sprite_pattern_shifted(old(self).sprite_scan_line@[j], old(self).sprite_shifter_pattern_hi@[j], true)
                    } else {
                        old(self).sprite_shifter_pattern_hi@[j]
                    },
                decreases self.sprite_count - i,
            {
                let e = self.sprite_scan_line[i];
                if e.x.0 > 0 {
                    self.sprite_scan_line.set(i, OamEntry { x: Byte(e.x.0 - 1), ..e });
                } else {
                    let lo = self.sprite_shifter_pattern_lo[i];
                    let hi = self.sprite_shifter_pattern_hi[i];
                    self.sprite_shifter_pattern_lo.set(i, (lo % 128) * 2);
                    self.sprite_shifter_pattern_hi.set(i, (hi % 128) * 2);
                }
                i = i + 1;
            }
        }
    }

    /// The background fetch that falls on this dot of the eight-dot beat.
    fn fetch_background(&mut self, cart: &mut Cartridge)
        requires
            old(self).wf(),
            old(cart).wf(),
            old(self).cycle >= 1,
        ensures
            final(self).pipeline_step(old(self)),
            *final(cart) == *old(cart),
            !((old(self).cycle - 1) % 8 == 7 && old(self).rendering()) ==> final(self).vram_addr
                == old(self).vram_addr,
            (old(self).cycle - 1) % 8 == 7 && old(self).rendering() ==> x_scrolled(
                old(self).vram_addr.0,
                final(self).vram_addr.0,
            ) && y_kept(old(self).vram_addr.0, final(self).vram_addr.0),
            (old(self).cycle - 1) % 8 != 0 ==> final(self).same_render(old(self)),
            (old(self).cycle - 1) % 8 == 0 ==> {
                let attr = old(self).bg_next_tile_attr.0;
                &&& final(self).bg_shifter_pattern_lo.0 == loaded16(old(self).bg_shifter_pattern_lo.0, old(self).bg_next_tile_lsb.0 as int, true)
                &&& final(self).bg_shifter_pattern_hi.0 == loaded16(old(self).bg_shifter_pattern_hi.0, old(self).bg_next_tile_msb.0 as int, true)
                &&& final(self).bg_shifter_attr_lo.0 == loaded16(old(self).bg_shifter_attr_lo.0, if attr % 2 == 1 { 0xFFint } else { 0int }, true)
                &&& final(self).bg_shifter_attr_hi.0 == loaded16(old(self).bg_shifter_attr_hi.0, if (attr / 2) % 2 == 1 { 0xFFint } else { 0int }, true)
                &&& final(self).sprite_scan_line@ == old(self).sprite_scan_line@
                &&& final(self).sprite_shifter_pattern_lo@ == old(self).sprite_shifter_pattern_lo@
                &&& final(self).sprite_shifter_pattern_hi@ == old(self).sprite_shifter_pattern_hi@
                &&& final(self).sprite_count == old(self).sprite_count
            },
    {
        let beat = (self.cycle - 1) % 8;
        if beat == 0 {
            self.load_background_shifters();
            // Nametable byte: the low 12 bits of `v` index the four tables.
            let a = Addr(0x2000 + self.vram_addr.0 % 0x1000);
            self.bg_next_tile_id = self.read_chr(cart, a);
        } else if beat == 2 {
            // Attribute byte of the 4x4-tile zone, then the 2x2 quadrant.
            let nt = (self.vram_addr.0 / 1024) % 4;
            let cy = self.vram_addr.coarse_y().0;
            let cx = self.vram_addr.coarse_x().0;
            let a = Addr(0x23C0 + nt * 1024 + (cy / 4) * 8 + cx / 4);
            let mut attr = self.read_chr(cart, a).0;
            if (cy / 2) % 2 == 1 {
                attr = attr / 16;
            }
            if (cx / 2) % 2 == 1 {
                attr = attr / 4;
            }
            self.bg_next_tile_attr = Byte(attr % 4);
        } else if beat == 4 {
            let a = self.pattern_addr();
            self.bg_next_tile_lsb = self.read_chr(cart, Addr(a));
        } else if beat == 6 {
            let a = self.pattern_addr();
            self.bg_next_tile_msb = self.read_chr(cart, Addr(a + 8));
        } else if beat == 7 {
            self.increment_scroll_x();
        }
    }

    /// The low bit plane of the next background tile's current row.
    fn pattern_addr(&self) -> (r: u16)
        requires
            self.wf(),
        ensures
            r < 0x2000 - 8,
    {
        let table: u16 = if self.control.pattern_background() {
            0x1000
        } else {
            0
        };
        table + self.bg_next_tile_id.0 as u16 * 16 + self.vram_addr.fine_y().0
    }

    /// Chooses up to eight sprites, in OAM order, whose rows cover the next
    /// scanline. Finding a ninth raises the sprite-overflow flag.
    fn evaluate_sprites(&mut self)
        requires
            old(self).wf(),
            0 <= old(self).scanline < 240,
        ensures
            final(self).wf(),
            final(self).same_io(old(self)),
            final(self).vram_addr == old(self).vram_addr,
            final(self).nmi == old(self).nmi,
            final(self).scanline == old(self).scanline,
            final(self).cycle == old(self).cycle,
            final(self).odd_frame == old(self).odd_frame,
            final(self).screen == old(self).screen,
            bit8(old(self).status.0, 5) ==> bit8(final(self).status.0, 5),
            bit8(final(self).status.0, 6) == bit8(old(self).status.0, 6),
            bit8(final(self).status.0, 7) == bit8(old(self).status.0, 7),
            sprites_evaluated(old(self), final(self)),
    {
        let ghost oam = self.oam.mem@;
        let ghost h = sprite_height(self.control);
        let ghost s = self.scanline;
        let mut k: usize = 0;
        while k < SPRITES_PER_LINE
            invariant
                self.pipeline_step(old(self)),
                self.vram_addr == old(self).vram_addr,
            decreases SPRITES_PER_LINE - k,
        {
            self.sprite_scan_line.set(k, OamEntry::new());
            self.sprite_shifter_pattern_lo.set(k, 0);
            self.sprite_shifter_pattern_hi.set(k, 0);
            k = k + 1;
        }
        self.sprite_count = 0;
        self.sprite_zero_hit_possible = false;
        let height: i16 = if self.control.sprite_size() {
            16
        } else {
            8
        };
        let mut found: usize = 0;
        let mut entry: u16 = 0;
        while entry < 64 && found < 9
            invariant
                self.pipeline_step(old(self)),
                self.vram_addr == old(self).vram_addr,
                entry <= 64,
                found <= 9,
                self.sprite_count == if found > 8 {
                    8
                } else {
                    found
                },
                0 <= self.scanline < 240,
                oam == self.oam.mem@,
                s == self.scanline,
                h == sprite_height(self.control),
                h == height as int,
                found == candidates_before(oam, entry as int, s, h),
                self.sprite_zero_hit_possible == (entry > 0 && is_candidate(oam, 0, s, h)),
                forall|i: int|
                    0 <= i < entry && is_candidate(oam, i, s, h) && #[trigger] candidates_before(
                        oam,
                        i,
                        s,
                        h,
                    ) < 8 ==> self.sprite_scan_line@[candidates_before(oam, i, s, h)]
                        == entry_at(oam, i),
            decreases 64 - entry,
        {
            let e = self.oam.read_entry(Addr(entry));
            let ghost prev_line = self.sprite_scan_line@;
            let ghost prev_found = found;
            proof {
                assert forall|i: int|
                    0 <= i < entry && is_candidate(oam, i, s, h) implies #[trigger] candidates_before(
                    oam,
                    i,
                    s,
                    h,
                ) < found by {
                    lemma_candidates_monotonic(oam, i + 1, entry as int, s, h);
                }
            }
            let diff: i16 = self.scanline - e.y.0 as i16;
            if diff >= 0 && diff < height {
                if found < 8 {
                    if entry == 0 {
                        self.sprite_zero_hit_possible = true;
                    }
                    self.sprite_scan_line.set(found, e);
                    self.sprite_count = found + 1;
                }
                found = found + 1;
            }
            proof {
                assert(e == entry_at(oam, entry as int));
                assert(is_candidate(oam, entry as int, s, h) == (diff >= 0 && diff < height));
                assert(candidates_before(oam, entry as int + 1, s, h) == candidates_before(
                    oam,
                    entry as int,
                    s,
                    h,
                ) + if is_candidate(oam, entry as int, s, h) {
                    1int
                } else {
                    0int
                });
                if is_candidate(oam, entry as int, s, h) && prev_found < 8 {
                    assert(self.sprite_scan_line@ == prev_line.update(prev_found as int, e));
                } else {
                    assert(self.sprite_scan_line@ == prev_line);
                }
                assert forall|i: int|
                    0 <= i < entry + 1 && is_candidate(oam, i, s, h) && #[trigger] candidates_before(
                        oam,
                        i,
                        s,
                        h,
                    ) < 8 implies self.sprite_scan_line@[candidates_before(oam, i, s, h)]
                    == entry_at(oam, i) by {
                    lemma_candidates_monotonic(oam, 0, i, s, h);
                    if i < entry {
                        assert(candidates_before(oam, i, s, h) < prev_found);
                        assert(self.sprite_scan_line@[candidates_before(oam, i, s, h)]
                            == prev_line[candidates_before(oam, i, s, h)]);
                        assert(prev_line[candidates_before(oam, i, s, h)] == entry_at(oam, i));
                    } else {
                        assert(candidates_before(oam, i, s, h) == prev_found);
                    }
                }
            }
            entry = entry + 1;
        }
        proof {
            lemma_candidates_monotonic(oam, entry as int, 64, s, h);
            assert forall|i: int|
                0 <= i < 64 && is_candidate(oam, i, s, h) && #[trigger] candidates_before(
                    oam,
                    i,
                    s,
                    h,
                ) < 8 implies self.sprite_scan_line@[candidates_before(oam, i, s, h)]
                == entry_at(oam, i) by {
                if i >= entry {
                    lemma_candidates_monotonic(oam, entry as int, i, s, h);
                }
            }
        }
        if found > 8 {
            self.status.set_sprite_overflow(true);
        }
    }

    /// The pattern address of row `row` of a chosen sprite.
    fn sprite_pattern_addr(&self, e: OamEntry, row: i16) -> (r: u16)
        requires
            self.wf(),
            0 <= row < 16,
        ensures
            r < 0x2000 - 8,
    {
        let flip_v = e.attr.0 / 128 == 1;
        if !self.control.sprite_size() {
            // 8x8: the control register picks the pattern table.
            let table: u16 = if self.control.pattern_sprite() {
                0x1000
            } else {
                0
            };
            let r8: u16 = (row % 8) as u16;
            let line: u16 = if flip_v {
                7 - r8
            } else {
                r8
            };
            table + e.id.0 as u16 * 16 + line
        } else {
            // 8x16: bit 0 of the tile id picks the table, the top and bottom
            // halves are consecutive tiles.
            let table: u16 = (e.id.0 % 2) as u16 * 0x1000;
            let top: u16 = (e.id.0 - e.id.0 % 2) as u16;
            let lower_half = row >= 8;
            let tile: u16 = if lower_half != flip_v {
                top + 1
            } else {
                top
            };
            let r8: u16 = (row % 8) as u16;
            let line: u16 = if flip_v {
                7 - r8
            } else {
                r8
            };
            table + tile * 16 + line
        }
    }

    /// Fetches both bit planes of each chosen sprite for the next scanline,
    /// mirrored when the sprite is flipped horizontally.
    fn load_sprite_patterns(&mut self, cart: &mut Cartridge)
        requires
            old(self).wf(),
            old(cart).wf(),
        ensures
            final(self).pipeline_step(old(self)),
            final(self).vram_addr == old(self).vram_addr,
            *final(cart) == *old(cart),
    {
        let mut i: usize = 0;
        while i < self.sprite_count
            invariant
                self.pipeline_step(old(self)),
                self.vram_addr == old(self).vram_addr,
                cart.wf(),
                *cart == *old(cart),
            decreases self.sprite_count - i,
        {
            let e = self.sprite_scan_line[i];
            let diff: i16 = self.scanline - e.y.0 as i16;
            let row: i16 = if diff >= 0 && diff < 16 {
                diff
            } else {
                0
            };
            let a = self.sprite_pattern_addr(e, row);
            let mut lo = self.read_chr(cart, Addr(a)).0;
            let mut hi = self.read_chr(cart, Addr(a + 8)).0;
            if (e.attr.0 / 64) % 2 == 1 {
                lo = flip_byte(lo);
                hi = flip_byte(hi);
            }
            self.sprite_shifter_pattern_lo.set(i, lo);
            self.sprite_shifter_pattern_hi.set(i, hi);
            i = i + 1;
        }
    }

    /// The background pixel and palette under the fine-X tap.
    fn background_pixel(&self) -> (r: (u8, u8))
        requires
            self.wf(),
        ensures
            r.0 < 4 && r.1 < 4,
            r == bg_pixel_of(
                self.mask,
                self.cycle,
                self.fine_x,
                self.bg_shifter_pattern_lo.0,
                self.bg_shifter_pattern_hi.0,
                self.bg_shifter_attr_lo.0,
                self.bg_shifter_attr_hi.0,
            ),
    {
        if self.mask.render_background() && (self.mask.render_background_left() || self.cycle
            >= 9) {
            let shift = 15 - self.fine_x as u16;
            let p0 = (self.bg_shifter_pattern_lo.0 >> shift) % 2;
            let p1 = (self.bg_shifter_pattern_hi.0 >> shift) % 2;
            let a0 = (self.bg_shifter_attr_lo.0 >> shift) % 2;
            let a1 = (self.bg_shifter_attr_hi.0 >> shift) % 2;
            ((p1 * 2 + p0) as u8, (a1 * 2 + a0) as u8)
        } else {
            (0, 0)
        }
    }

    /// The first opaque sprite pixel in priority order: its pixel, palette
    /// and whether it is drawn in front of the background. Records whether
    /// it belongs to sprite zero.
    fn foreground_pixel(&mut self) -> (r: (u8, u8, bool))
        requires
            old(self).wf(),
        ensures
            final(self).pipeline_step(old(self)),
            final(self).vram_addr == old(self).vram_addr,
            r.0 < 4 && r.1 < 8,
            final(self).sprite_scan_line == old(self).sprite_scan_line,
            final(self).sprite_count == old(self).sprite_count,
            final(self).sprite_zero_hit_possible == old(self).sprite_zero_hit_possible,
            ({
                let f = fg_pixel_of(
                    old(self).mask,
                    old(self).cycle,
                    old(self).sprite_scan_line@,
                    old(self).sprite_shifter_pattern_lo@,
                    old(self).sprite_shifter_pattern_hi@,
                    old(self).sprite_count as int,
                );
                r.0 == f.0 && (r.0 != 0 ==> r == f)
            }),
    {
        let mut fg_pixel: u8 = 0;
        let mut fg_palette: u8 = 0;
        let mut fg_priority = false;
        if self.mask.render_sprites() && (self.mask.render_sprites_left() || self.cycle >= 9) {
            self.sprite_zero_being_rendered = false;
            let mut i: usize = 0;
            let mut done = false;
            while i < self.sprite_count && !done
                invariant
                    self.pipeline_step(old(self)),
                    self.vram_addr == old(self).vram_addr,
                    fg_pixel < 4,
                    fg_palette < 8,
                    self.sprite_scan_line == old(self).sprite_scan_line,
                    self.sprite_count == old(self).sprite_count,
                    self.sprite_zero_hit_possible == old(self).sprite_zero_hit_possible,
                    self.sprite_shifter_pattern_lo == old(self).sprite_shifter_pattern_lo,
                    self.sprite_shifter_pattern_hi == old(self).sprite_shifter_pattern_hi,
                    i <= self.sprite_count,
                    done ==> fg_pixel != 0 && (fg_pixel, fg_palette, fg_priority) == first_sprite_pixel(
                        self.sprite_scan_line@,
                        self.sprite_shifter_pattern_lo@,
                        self.sprite_shifter_pattern_hi@,
                        self.sprite_count as int,
                        0,
                    ),
                    !done ==> fg_pixel == 0 && first_sprite_pixel(
                        self.sprite_scan_line@,
                        self.sprite_shifter_pattern_lo@,
                        self.sprite_shifter_pattern_hi@,
                        self.sprite_count as int,
                        0,
                    ) == first_sprite_pixel(
                        self.sprite_scan_line@,
                        self.sprite_shifter_pattern_lo@,
                        self.sprite_shifter_pattern_hi@,
                        self.sprite_count as int,
                        i as int,
                    ),
                decreases self.sprite_count - i,
            {
                let e = self.sprite_scan_line[i];
                if e.x.0 == 0 {
                    let lo = self.sprite_shifter_pattern_lo[i] / 128;
                    let hi = self.sprite_shifter_pattern_hi[i] / 128;
                    fg_pixel = hi * 2 + lo;
                    fg_palette = e.attr.0 % 4 + 4;
                    fg_priority = (e.attr.0 / 32) % 2 == 0;
                    if fg_pixel != 0 {
                        if i == 0 {
                            self.sprite_zero_being_rendered = true;
                        }
                        done = true;
                    }
                }
                i = i + 1;
            }
        }
        (fg_pixel, fg_palette, fg_priority)
    }

    /// The background and sprite pipeline work of one dot of lines -1 to 239.
    fn pipeline_dot(&mut self, cart: &mut Cartridge)
        requires
            old(self).wf(),
            old(cart).wf(),
            -1 <= old(self).scanline < 240,
        ensures
            final(self).wf(),
            *final(cart) == *old(cart),
            final(self).same_io(old(self)),
            final(self).nmi == old(self).nmi,
            final(self).scanline == old(self).scanline,
            final(self).cycle == old(self).cycle,
            final(self).odd_frame == old(self).odd_frame,
            final(self).screen == old(self).screen,
            old(self).scanline == -1 && old(self).cycle == 1 ==> {
                &&& !bit8(final(self).status.0, 7)
                &&& !bit8(final(self).status.0, 6)
                &&& !bit8(final(self).status.0, 5)
            },
            !(old(self).scanline == -1 && old(self).cycle == 1) ==> {
                &&& bit8(final(self).status.0, 7) == bit8(old(self).status.0, 7)
                &&& bit8(final(self).status.0, 6) == bit8(old(self).status.0, 6)
                &&& bit8(old(self).status.0, 5) ==> bit8(final(self).status.0, 5)
            },
            !old(self).rendering() ==> final(self).vram_addr == old(self).vram_addr,
            old(self).rendering() && old(self).cycle == 256 ==> x_scrolled(
                old(self).vram_addr.0,
                final(self).vram_addr.0,
            ) && y_scrolled(old(self).vram_addr.0, final(self).vram_addr.0),
            old(self).rendering() && old(self).cycle == 257 ==> x_from(
                old(self).tram_addr.0,
                final(self).vram_addr.0,
            ) && y_kept(old(self).vram_addr.0, final(self).vram_addr.0),
            old(self).rendering() && old(self).scanline == -1 && 280 <= old(self).cycle <= 304
                ==> x_kept(old(self).vram_addr.0, final(self).vram_addr.0) && y_from(
                old(self).tram_addr.0,
                final(self).vram_addr.0,
            ),
            0 <= old(self).scanline && old(self).cycle == 257 ==> sprites_evaluated(
                old(self),
                final(self),
            ),
            0 <= old(self).scanline < 240 && 1 <= old(self).cycle <= 256 ==> {
                let p = old(self);
                let c = p.cycle;
                let shift_bg = bit8(p.mask.0, 3) && c >= 2;
                let load = c >= 2 && (c - 1) % 8 == 0;
                let attr = p.bg_next_tile_attr.0;
                let sp = sprites_shifted(p, bit8(p.mask.0, 4) && c >= 2);
                &&& final(self).bg_shifter_pattern_lo.0 == loaded16(shifted16(p.bg_shifter_pattern_lo.0, shift_bg), p.bg_next_tile_lsb.0 as int, load)
                &&& final(self).bg_shifter_pattern_hi.0 == loaded16(shifted16(p.bg_shifter_pattern_hi.0, shift_bg), p.bg_next_tile_msb.0 as int, load)
                &&& final(self).bg_shifter_attr_lo.0 == loaded16(shifted16(p.bg_shifter_attr_lo.0, shift_bg), if attr % 2 == 1 { 0xFFint } else { 0int }, load)
                &&& final(self).bg_shifter_attr_hi.0 == loaded16(shifted16(p.bg_shifter_attr_hi.0, shift_bg), if (attr / 2) % 2 == 1 { 0xFFint } else { 0int }, load)
                &&& final(self).sprite_scan_line@ =~= sp.0
                &&& final(self).sprite_shifter_pattern_lo@ =~= sp.1
                &&& final(self).sprite_shifter_pattern_hi@ =~= sp.2
                &&& final(self).sprite_count == p.sprite_count
            },
    {
        let ghost s0 = *self;
        if self.scanline == -1 && self.cycle == 1 {
            // A new frame: clear vertical blank and the sprite flags.
            self.status.set_vertical_blank(false);
            self.status.set_sprite_overflow(false);
            self.status.set_sprite_zero_hit(false);
            let mut k: usize = 0;
            while k < SPRITES_PER_LINE
                invariant
                    self.wf(),
                    self.same_io(&s0),
                    self.vram_addr == s0.vram_addr,
                    self.nmi == s0.nmi,
                    self.scanline == -1 && self.cycle == 1,
                    self.odd_frame == s0.odd_frame,
                    self.screen == s0.screen,
                    !bit8(self.status.0, 7) && !bit8(self.status.0, 6) && !bit8(
                        self.status.0,
                        5,
                    ),
                decreases SPRITES_PER_LINE - k,
            {
                self.sprite_shifter_pattern_lo.set(k, 0);
                self.sprite_shifter_pattern_hi.set(k, 0);
                k = k + 1;
            }
        }
        if (self.cycle >= 2 && self.cycle < 258) || (self.cycle >= 321 && self.cycle < 338) {
            self.update_shifters();
            self.fetch_background(cart);
        }
        if self.cycle == 256 {
            self.increment_scroll_y();
        }
        if self.cycle == 257 {
            self.load_background_shifters();
            self.transfer_address_x();
        }
        if self.cycle == 338 || self.cycle == 340 {
            // The end-of-line nametable fetches.
            let a = Addr(0x2000 + self.vram_addr.0 % 0x1000);
            self.bg_next_tile_id = self.read_chr(cart, a);
        }
        if self.scanline == -1 && self.cycle >= 280 && self.cycle < 305 {
            self.transfer_address_y();
        }
        if self.cycle == 257 && self.scanline >= 0 {
            self.evaluate_sprites();
        }
        if self.cycle == 340 {
            self.load_sprite_patterns(cart);
        }
        }

    /// Composes and emits the pixel of this dot, and detects sprite-zero hits.
    fn draw_dot(&mut self, cart: &mut Cartridge)
        requires
            old(self).wf(),
            old(cart).wf(),
        ensures
            final(self).wf(),
            *final(cart) == *old(cart),
            final(self).same_io(old(self)),
            final(self).nmi == old(self).nmi,
            final(self).scanline == old(self).scanline,
            final(self).cycle == old(self).cycle,
            final(self).odd_frame == old(self).odd_frame,
            final(self).screen.ready == old(self).screen.ready,
            bit8(final(self).status.0, 7) == bit8(old(self).status.0, 7),
            bit8(final(self).status.0, 5) == bit8(old(self).status.0, 5),
            bit8(old(self).status.0, 6) ==> bit8(final(self).status.0, 6),
            !(0 <= old(self).scanline < 240) ==> final(self).status == old(self).status,
            final(self).vram_addr == old(self).vram_addr,
            final(self).sprite_scan_line == old(self).sprite_scan_line,
            final(self).sprite_count == old(self).sprite_count,
            final(self).sprite_zero_hit_possible == old(self).sprite_zero_hit_possible,
            0 <= old(self).scanline < 240 && 1 <= old(self).cycle <= 256 ==> {
                let p = old(self);
                let bg = bg_pixel_of(
                    p.mask,
                    p.cycle,
                    p.fine_x,
                    p.bg_shifter_pattern_lo.0,
                    p.bg_shifter_pattern_hi.0,
                    p.bg_shifter_attr_lo.0,
                    p.bg_shifter_attr_hi.0,
                );
                let fg = fg_pixel_of(
                    p.mask,
                    p.cycle,
                    p.sprite_scan_line@,
                    p.sprite_shifter_pattern_lo@,
                    p.sprite_shifter_pattern_hi@,
                    p.sprite_count as int,
                );
                let (pixel, palette) = compose_spec(bg.0, bg.1, fg.0, fg.1, fg.2);
                let x = p.cycle - 1;
                let y = p.scanline;
                final(self).screen.mem@[y * 256 + x] == Pixel {
                    color: (p.spec_read_chr(old(cart), (0x3F00 + palette * 4 + pixel) as u16).0 % 64) as u8,
                    x: x as usize,
                    y: y as usize,
                }
            },
    {
        let (bg_pixel, bg_palette) = self.background_pixel();
        let (fg_pixel, fg_palette, fg_priority) = self.foreground_pixel();
        let (pixel, palette) = compose(bg_pixel, bg_palette, fg_pixel, fg_palette, fg_priority);
        if self.scanline >= 0 && self.scanline < 240 && bg_pixel != 0 && fg_pixel != 0
            && self.sprite_zero_hit_possible
            && self.sprite_zero_being_rendered && self.mask.render_background()
            && self.mask.render_sprites() {
            // Sprite-zero hit: never on the masked left column, nor on dot 255.
            let first: i16 = if self.mask.render_background_left()
                && self.mask.render_sprites_left() {
                1
            } else {
                9
            };
            if self.cycle >= first && self.cycle < 258 && self.cycle != 255 {
                self.status.set_sprite_zero_hit(true);
            }
        }
        if self.scanline >= 0 && self.scanline < 240 && self.cycle >= 1 && self.cycle <= 256 {
            let colour = self.read_chr(cart, Addr(0x3F00 + palette as u16 * 4 + pixel as u16));
            let x = (self.cycle - 1) as usize;
            let y = self.scanline as usize;
            self.screen.set_pixel(x, y, Pixel::new(colour.0 % 64, x, y));
        }
    }

    /// Advances one dot. Scanline 241 dot 1 raises vertical blank (and the
    /// NMI line when PPUCTRL enables it); the pre-render line's dot 1 clears
    /// vertical blank, sprite-zero hit and sprite overflow. Dots 1-256 of
    /// lines 0-239 emit a pixel. On odd frames with rendering on, dot 0 of
    /// line 0 is skipped.
    pub fn step(&mut self, cart: &mut Cartridge)
        requires
            old(self).wf(),
            old(cart).wf(),
        ensures
            final(self).wf(),
            *final(cart) == *old(cart),
            final(self).same_io(old(self)),
            ({
                let skip = old(self).scanline == 0 && old(self).cycle == 0 && old(self).odd_frame
                    && old(self).rendering();
                let c = if skip {
                    1i16
                } else {
                    old(self).cycle
                };
                (final(self).scanline, final(self).cycle) == next_dot(old(self).scanline, c)
            }),
            final(self).odd_frame == (old(self).odd_frame != (old(self).scanline == 260
                && old(self).cycle == 340)),
            old(self).scanline == 260 && old(self).cycle == 340 ==> final(self).screen.ready,
            !(old(self).scanline == 260 && old(self).cycle == 340) ==> final(self).screen.ready == old(
                self).screen.ready,
            old(self).scanline == 241 && old(self).cycle == 1 ==> bit8(final(self).status.0, 7),
            final(self).nmi == (old(self).nmi || (old(self).scanline == 241 && old(self).cycle == 1
                && bit8(old(self).control.0, 7))),
            old(self).scanline == -1 && old(self).cycle == 1 ==> {
                &&& !bit8(final(self).status.0, 7)
                &&& !bit8(final(self).status.0, 6)
                &&& !bit8(final(self).status.0, 5)
            },
            !(old(self).scanline == -1 && old(self).cycle == 1) ==> {
                &&& bit8(old(self).status.0, 6) ==> bit8(final(self).status.0, 6)
                &&& bit8(old(self).status.0, 5) ==> bit8(final(self).status.0, 5)
            },
            !(old(self).scanline == -1 && old(self).cycle == 1) && !(old(self).scanline == 241
                && old(self).cycle == 1) ==> bit8(final(self).status.0, 7) == bit8(
                old(self).status.0,
                7,
            ),
            !old(self).rendering() ==> final(self).vram_addr == old(self).vram_addr,
            -1 <= old(self).scanline < 240 && old(self).rendering() ==> {
                let (v0, v1, t) = (
                    old(self).vram_addr.0,
                    final(self).vram_addr.0,
                    old(self).tram_addr.0,
                );
                &&& old(self).cycle == 256 ==> x_scrolled(v0, v1) && y_scrolled(v0, v1)
                &&& old(self).cycle == 257 ==> x_from(t, v1) && y_kept(v0, v1)
                &&& old(self).scanline == -1 && 280 <= old(self).cycle <= 304 ==> x_kept(v0, v1)
                    && y_from(t, v1)
            },
            0 <= old(self).scanline < 240 && old(self).cycle == 257 ==> sprites_evaluated(
                old(self),
                final(self),
            ),
            0 <= old(self).scanline < 240 && 1 <= old(self).cycle <= 256 ==> {
                let (pixel, palette) = pixel_at_dot(old(self));
                let x = old(self).cycle - 1;
                let y = old(self).scanline;
                final(self).screen.mem@[y * 256 + x] == Pixel {
                    color: (old(self).spec_read_chr(old(cart), (0x3F00 + palette * 4 + pixel) as u16).0
                        % 64) as u8,
                    x: x as usize,
                    y: y as usize,
                }
            },
    {
        if self.scanline == 0 && self.cycle == 0 && self.odd_frame && self.rendering_enabled() {
            // Odd-frame cycle skip.
            self.cycle = 1;
        }
        if self.scanline >= -1 && self.scanline < 240 {
            self.pipeline_dot(cart);
        }
        if self.scanline == 241 && self.cycle == 1 {
            // Vertical blank begins.
            self.status.set_vertical_blank(true);
            if self.control.enable_nmi() {
                self.nmi = true;
            }
        }
        self.draw_dot(cart);
        self.cycle = self.cycle + 1;
        if self.rendering_enabled() && self.cycle == 260 && self.scanline < 240 {
            cart.scanline();
        }
        if self.cycle >= DOTS_PER_LINE {
            self.cycle = 0;
            self.scanline = self.scanline + 1;
            if self.scanline >= 261 {
                self.scanline = -1;
                self.odd_frame = !self.odd_frame;
                self.screen.ready = true;
            }
        }
    }
}

/// Palette round trip: after a byte is written to palette space, reading the
/// same address returns its low six bits (grayscale off).
pub proof fn lemma_palette_write_read(before: Ppu, after: Ppu, cart: Cartridge, a: u16, v: Byte)
    requires
        before.wf(),
        0x3F00 <= vram_addr_of(a),
        after.palette.mem@ == before.palette.mem@.update(palette_index(vram_addr_of(a)), v),
        after.mask == before.mask,
        !bit8(before.mask.0, 0),
    ensures
        after.spec_read_chr(&cart, a) == Byte(v.0 & 0x3F),
{
}

/// The backdrop mirrors: a byte written at 0x3F10/14/18/1C reads back at
/// 0x3F00/04/08/0C, and a byte written at 0x3F00/04/08/0C at 0x3F10/14/18/1C.
pub proof fn lemma_palette_mirror(before: Ppu, after: Ppu, cart: Cartridge, k: u16, upper: bool, v: Byte)
    requires
        before.wf(),
        k < 4,
        after.palette.mem@ == before.palette.mem@.update(
            palette_index(if upper {
                (0x3F10 + 4 * k) as u16
            } else {
                (0x3F00 + 4 * k) as u16
            }),
            v,
        ),
        after.mask == before.mask,
        !bit8(before.mask.0, 0),
    ensures
        after.spec_read_chr(&cart, (0x3F00 + 4 * k) as u16) == Byte(v.0 & 0x3F),
        after.spec_read_chr(&cart, (0x3F10 + 4 * k) as u16) == Byte(v.0 & 0x3F),
{
}

} // verus!

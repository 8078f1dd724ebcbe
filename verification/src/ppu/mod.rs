//! # PPU
//! The Picture Processing Unit: renders the 256 x 240 picture from pattern
//! tables, nametables, palettes and sprites, and exposes its registers at
//! $2000-$2007 to the CPU.
pub mod frame;
pub mod loopy;
pub mod oam;
pub mod ppu;
pub mod registers;
pub mod clock;
pub mod render;

use vstd::prelude::*;
use crate::bits::{lemma_byte_masks, lemma_word_masks};
use crate::cartridge::{Cartridge, MirrorMode};
use oam::{Oam, oam_byte, oam_with_byte};
use registers::{VtReg, has_flag, MASK_ENABLE_BACKGROUND, MASK_ENABLE_SPRITES, CTRL_VRAM_INCREMENT, MASK_GREYSCALE,
    CTRL_BACKGROUND_PATTERN_TABLE, STATUS_VBLANK, with_coarse_x, with_coarse_y, with_fine_y, pack, fine_y_of,
    coarse_y_of, coarse_x_of, top_bit_of, nametable_y_of, nametable_x_of, lemma_pack_fields, lemma_fields_of};

verus! {

/// The system palette: the RGB colour of each of the 64 NES colour indices.
#[verifier::opaque]
pub open spec fn system_palette_spec() -> Seq<(u8, u8, u8)> {
    seq![
        (117u8, 117u8, 117u8),
        (39u8, 27u8, 143u8),
        (0u8, 0u8, 171u8),
        (71u8, 0u8, 159u8),
        (143u8, 0u8, 119u8),
        (171u8, 0u8, 19u8),
        (167u8, 0u8, 0u8),
        (127u8, 11u8, 0u8),
        (67u8, 47u8, 0u8),
        (0u8, 71u8, 0u8),
        (0u8, 81u8, 0u8),
        (0u8, 63u8, 23u8),
        (27u8, 63u8, 95u8),
        (0u8, 0u8, 0u8),
        (0u8, 0u8, 0u8),
        (0u8, 0u8, 0u8),
        (188u8, 188u8, 188u8),
        (0u8, 115u8, 239u8),
        (35u8, 59u8, 239u8),
        (131u8, 0u8, 243u8),
        (191u8, 0u8, 191u8),
        (231u8, 0u8, 91u8),
        (219u8, 43u8, 0u8),
        (203u8, 79u8, 15u8),
        (139u8, 115u8, 0u8),
        (0u8, 151u8, 0u8),
        (0u8, 171u8, 0u8),
        (0u8, 147u8, 59u8),
        (0u8, 131u8, 139u8),
        (0u8, 0u8, 0u8),
        (0u8, 0u8, 0u8),
        (0u8, 0u8, 0u8),
        (255u8, 255u8, 255u8),
        (63u8, 191u8, 255u8),
        (95u8, 151u8, 255u8),
        (167u8, 139u8, 253u8),
        (247u8, 123u8, 255u8),
        (255u8, 119u8, 183u8),
        (255u8, 119u8, 99u8),
        (255u8, 155u8, 59u8),
        (243u8, 191u8, 63u8),
        (131u8, 211u8, 19u8),
        (79u8, 223u8, 75u8),
        (88u8, 248u8, 152u8),
        (0u8, 235u8, 219u8),
        (0u8, 0u8, 0u8),
        (0u8, 0u8, 0u8),
        (0u8, 0u8, 0u8),
        (255u8, 255u8, 255u8),
        (171u8, 231u8, 255u8),
        (199u8, 215u8, 255u8),
        (215u8, 203u8, 255u8),
        (255u8, 199u8, 255u8),
        (255u8, 199u8, 219u8),
        (255u8, 191u8, 179u8),
        (255u8, 219u8, 171u8),
        (255u8, 231u8, 163u8),
        (227u8, 255u8, 163u8),
        (171u8, 243u8, 191u8),
        (179u8, 255u8, 207u8),
        (159u8, 255u8, 243u8),
        (0u8, 0u8, 0u8),
        (0u8, 0u8, 0u8),
        (0u8, 0u8, 0u8),
    ]
}

/// The PPU's state, as the contracts see it.
#[verifier::ext_equal]
pub struct PpuView {
    pub ctrl: u8,
    pub mask: u8,
    pub status: u8,
    pub oamaddr: u8,
    pub v: u16,
    pub t: u16,
    pub w: u8,
    pub x: u8,
    pub vram: Seq<u8>,
    pub buffer: u8,
    pub nmi: bool,
    pub palette: Seq<u8>,
    pub system_palette: Seq<(u8, u8, u8)>,
    pub palette_num: u8,
    pub cycle: u16,
    pub scanline: i16,
    pub total_cycles: usize,
    pub frame: Seq<Seq<u8>>,
    pub oam: Seq<(u16, u8, u8, u8)>,
    pub pattern_lo: u16,
    pub pattern_hi: u16,
    pub attribute_lo: u16,
    pub attribute_hi: u16,
    pub next_pattern_lo: u16,
    pub next_pattern_hi: u16,
    pub next_attribute_lo: u16,
    pub next_attribute_hi: u16,
    pub next_nametable_tile: u16,
    pub next_attribute_tile: u16,
    pub sprite0_x: u16,
    pub sprite0_y: u16,
    pub sprite0_possible: bool,
    pub odd_frame: bool,
}

impl PpuView {
    /// The PPU's invariant: its memories have their sizes and the fetched
    /// tile bytes fit in a byte.
    pub open spec fn wf(self) -> bool {
        &&& self.vram.len() == 2048
        &&& self.palette.len() == 32
        &&& self.system_palette == system_palette_spec()
        &&& self.system_palette.len() == 64
        &&& self.oam.len() == 64
        &&& forall|i: int| 0 <= i < 64 ==> (#[trigger] self.oam[i]).0 < 256
        &&& self.frame.len() == 256
        &&& forall|i: int| 0 <= i < 256 ==> (#[trigger] self.frame[i]).len() == 240
        &&& self.next_pattern_lo < 256
        &&& self.next_pattern_hi < 256
        &&& self.next_attribute_lo < 256
        &&& self.next_attribute_hi < 256
        &&& self.next_nametable_tile < 256
        &&& self.next_attribute_tile < 256
        &&& self.w < 2
        &&& self.x < 8
        &&& self.cycle <= 340
        &&& -1 <= self.scanline <= 260
        &&& self.palette_num < 16
    }

    /// Whether background or sprite rendering is on.
    pub open spec fn rendering(self) -> bool {
        has_flag(self.mask, MASK_ENABLE_BACKGROUND) || has_flag(self.mask, MASK_ENABLE_SPRITES)
    }

    /// The VRAM address step after a $2007 access: 32 or 1.
    pub open spec fn increment(self) -> u16 {
        if has_flag(self.ctrl, CTRL_VRAM_INCREMENT) {
            32
        } else {
            1
        }
    }
}

/// The index in the 2 KiB of nametable RAM that nametable address `a`
/// ($2000-$2FFF) reaches under mirroring `mode`.
pub open spec fn nametable_index(mode: MirrorMode, a: u16) -> int {
    let offset = a as int % 0x400;
    let table = (a as int - 0x2000) / 0x400;
    match mode {
        MirrorMode::Vertical => (table % 2) * 0x400 + offset,
        MirrorMode::Horizontal => (table / 2) * 0x400 + offset,
        MirrorMode::OneScreenLo => offset,
        MirrorMode::OneScreenHi => 0x400 + offset,
    }
}

/// The index in the 32 bytes of palette RAM that palette address `a`
/// reaches: the background colour entries of the sprite palettes ($3F10,
/// $3F14, $3F18, $3F1C) mirror those of the background palettes.
pub open spec fn palette_index(a: u16) -> int {
    let i = a as int % 32;
    if i == 0x10 || i == 0x14 || i == 0x18 || i == 0x1C {
        i - 0x10
    } else {
        i
    }
}

/// The byte that a PPU-bus read of `address` gives.
pub open spec fn ppu_read_spec(p: PpuView, cart: Cartridge, address: u16) -> u8 {
    if address <= 0x1FFF {
        cart.ppu_read_value(address, 0)
    } else if address <= 0x2FFF {
        p.vram[nametable_index(cart.mapper().mirror(), address)]
    } else if address <= 0x3EFF {
        p.vram[nametable_index(cart.mapper().mirror(), (address - 0x1000) as u16)]
    } else if address <= 0x3FFF {
        p.palette[palette_index(address)]
    } else {
        0
    }
}

/// The PPU memories after a PPU-bus write of `data` to `address`
/// ($3000-$3EFF and above $3FFF are not written).
pub open spec fn ppu_write_spec(p: PpuView, mode: MirrorMode, address: u16, data: u8) -> PpuView {
    if 0x2000 <= address <= 0x2FFF {
        PpuView { vram: p.vram.update(nametable_index(mode, address), data), ..p }
    } else if 0x3F00 <= address <= 0x3FFF {
        PpuView { palette: p.palette.update(palette_index(address), data), ..p }
    } else {
        p
    }
}

/// The palette RAM address of colour `index` of background palette `num`
/// (the universal background colour for index 0; greyscale folds the
/// address into the first 16 entries).
pub open spec fn bg_palette_address(mask: u8, num: u8, index: u8) -> u16 {
    let addr: int = if index == 0 {
        0x3F00
    } else {
        0x3F00 + (num as int % 8) * 4 + index as int
    };
    if has_flag(mask, MASK_GREYSCALE) {
        (0x3F00 + addr % 16) as u16
    } else {
        addr as u16
    }
}

/// The palette RAM address of colour `index` of sprite palette `num`.
pub open spec fn fg_palette_address(num: u8, index: u8) -> u16 {
    if index == 0 {
        0x3F00
    } else {
        (0x3F10 + (num as int % 8) * 4 + index as int) as u16
    }
}

/// The colour that palette RAM address `addr` selects.
pub open spec fn palette_color(p: PpuView, cart: Cartridge, addr: u16) -> (u8, u8, u8) {
    system_palette_spec()[ppu_read_spec(p, cart, addr) as int % 64]
}

/// What a CPU read of PPU register `address % 8` returns.
pub open spec fn cpu_read_value(p: PpuView, cart: Cartridge, address: u16) -> u8 {
    let reg = address % 8;
    if reg == 2 {
        p.status
    } else if reg == 4 {
        oam_byte(p.oam[p.oamaddr as int / 4], p.oamaddr)
    } else if reg == 7 {
        if 0x3F00 <= address <= 0x3FFF {
            ppu_read_spec(p, cart, p.v)
        } else {
            p.buffer
        }
    } else {
        0
    }
}

/// The PPU after a CPU read of register `address % 8`: reading the status
/// clears the vblank flag and the write toggle; reading data refills the
/// read buffer from the PPU bus and, unless `rdonly`, steps the address.
pub open spec fn cpu_read_next(p: PpuView, cart: Cartridge, address: u16, rdonly: bool) -> PpuView {
    let reg = address % 8;
    if reg == 2 {
        PpuView { status: p.status & !STATUS_VBLANK, w: 0, ..p }
    } else if reg == 7 {
        PpuView {
            buffer: ppu_read_spec(p, cart, p.v),
            v: if rdonly {
                p.v
            } else {
                ((p.v + p.increment()) % 0x4000) as u16
            },
            ..p
        }
    } else {
        p
    }
}

/// The PPU after a CPU write of `data` to register `address % 8` (the
/// PPU-bus effect of a $2007 write is in `ppu_write_spec`, applied first).
pub open spec fn cpu_write_next(p: PpuView, mode: MirrorMode, address: u16, data: u8) -> PpuView {
    let reg = address % 8;
    if reg == 0 {
        PpuView {
            ctrl: data,
            t: pack(0, fine_y_of(p.t), (data as int % 4) / 2, data as int % 2, coarse_y_of(p.t), coarse_x_of(p.t)) as u16,
            ..p
        }
    } else if reg == 1 {
        PpuView { mask: data, ..p }
    } else if reg == 3 {
        PpuView { oamaddr: data, ..p }
    } else if reg == 4 {
        PpuView {
            oam: p.oam.update(p.oamaddr as int / 4, oam_with_byte(p.oam[p.oamaddr as int / 4], p.oamaddr, data)),
            ..p
        }
    } else if reg == 5 {
        if p.w == 0 {
            PpuView { t: with_coarse_x(p.t, data as int / 8), x: (data % 8) as u8, w: 1, ..p }
        } else {
            PpuView {
                t: pack(top_bit_of(p.t), data as int % 8, nametable_y_of(p.t), nametable_x_of(p.t), data as int / 8, coarse_x_of(p.t)) as u16,
                w: 0,
                ..p
            }
        }
    } else if reg == 6 {
        if p.w == 0 {
            PpuView { t: ((p.t as int % 256 + data as int * 256) % 0x8000) as u16, w: 1, ..p }
        } else {
            let t = (p.t as int - p.t as int % 256 + data as int) % 0x8000;
            PpuView { t: t as u16, v: t as u16, w: 0, ..p }
        }
    } else if reg == 7 {
        let q = ppu_write_spec(p, mode, p.v, data);
        PpuView { v: ((p.v + p.increment()) % 0x4000) as u16, ..q }
    } else {
        p
    }
}

/// What a CPU write of `data` to PPU register `address % 8` does to the
/// cartridge `a`, giving `b`: a data write to a pattern address that the
/// board maps inside CHR memory stores the byte there; anything else
/// leaves the cartridge the same.
pub open spec fn cart_after_register_write(p: PpuView, a: Cartridge, b: Cartridge, address: u16, data: u8) -> bool {
    if address % 8 == 7 && p.v <= 0x1FFF && a.ppu_write_in_bounds(p.v) {
        &&& a.mapper().unchanged(b.mapper())
        &&& b.prg() == a.prg()
        &&& b.header() == a.header()
        &&& b.chr() == if a.mapper().ppu_write_map(p.v).0 {
            a.chr().update(a.mapper().ppu_write_map(p.v).1 as int, data)
        } else {
            a.chr()
        }
    } else {
        a.same(&b)
    }
}

/// The Picture Processing Unit.
pub struct Ppu {
    ppuctrl: u8,
    ppumask: u8,
    ppustatus: u8,
    oamaddr: u8,
    v: VtReg,
    t: VtReg,
    w: u8,
    x: u8,
    vram: Vec<u8>,
    internal_buffer: u8,
    nmi: bool,
    palette_memory: Vec<u8>,
    system_palette: Vec<(u8, u8, u8)>,
    palette_num: u8,
    cycle_counter: u16,
    scanline_counter: i16,
    total_cycles: usize,
    frame_array: Vec<Vec<u8>>,
    oam_table: Vec<Oam>,
    pattern_lo_shift_register: u16,
    pattern_hi_shift_register: u16,
    attribute_lo_shift_register: u16,
    attribute_hi_shift_register: u16,
    next_pattern_lo: u16,
    next_pattern_hi: u16,
    next_attribute_lo: u16,
    next_attribute_hi: u16,
    next_nametable_tile: u16,
    next_attribute_tile: u16,
    sprite0xcoord: u16,
    sprite0ycoord: u16,
    sprite0poss: bool,
    odd_frame: bool,
}

impl View for Ppu {
    type V = PpuView;

    closed spec fn view(&self) -> PpuView {
        PpuView {
            ctrl: self.ppuctrl,
            mask: self.ppumask,
            status: self.ppustatus,
            oamaddr: self.oamaddr,
            v: self.v@,
            t: self.t@,
            w: self.w,
            x: self.x,
            vram: self.vram@,
            buffer: self.internal_buffer,
            nmi: self.nmi,
            palette: self.palette_memory@,
            system_palette: self.system_palette@,
            palette_num: self.palette_num,
            cycle: self.cycle_counter,
            scanline: self.scanline_counter,
            total_cycles: self.total_cycles,
            frame: self.frame_array@.map_values(|r: Vec<u8>| r@),
            oam: self.oam_table@.map_values(|o: Oam| o@),
            pattern_lo: self.pattern_lo_shift_register,
            pattern_hi: self.pattern_hi_shift_register,
            attribute_lo: self.attribute_lo_shift_register,
            attribute_hi: self.attribute_hi_shift_register,
            next_pattern_lo: self.next_pattern_lo,
            next_pattern_hi: self.next_pattern_hi,
            next_attribute_lo: self.next_attribute_lo,
            next_attribute_hi: self.next_attribute_hi,
            next_nametable_tile: self.next_nametable_tile,
            next_attribute_tile: self.next_attribute_tile,
            sprite0_x: self.sprite0xcoord,
            sprite0_y: self.sprite0ycoord,
            sprite0_possible: self.sprite0poss,
            odd_frame: self.odd_frame,
        }
    }
}

impl Ppu {
    /// The system palette as a vector of (r, g, b) colours.
    #[verifier::rlimit(100)]
    fn initialize_system_palette() -> (r: Vec<(u8, u8, u8)>)
        ensures
            r@ == system_palette_spec(),
            r@.len() == 64,
    {
        let mut toreturn: Vec<(u8, u8, u8)> = Vec::new();
        toreturn.push((117, 117, 117));
        toreturn.push((39, 27, 143));
        toreturn.push((0, 0, 171));
        toreturn.push((71, 0, 159));
        toreturn.push((143, 0, 119));
        toreturn.push((171, 0, 19));
        toreturn.push((167, 0, 0));
        toreturn.push((127, 11, 0));
        toreturn.push((67, 47, 0));
        toreturn.push((0, 71, 0));
        toreturn.push((0, 81, 0));
        toreturn.push((0, 63, 23));
        toreturn.push((27, 63, 95));
        toreturn.push((0, 0, 0));
        toreturn.push((0, 0, 0));
        toreturn.push((0, 0, 0));
        toreturn.push((188, 188, 188));
        toreturn.push((0, 115, 239));
        toreturn.push((35, 59, 239));
        toreturn.push((131, 0, 243));
        toreturn.push((191, 0, 191));
        toreturn.push((231, 0, 91));
        toreturn.push((219, 43, 0));
        toreturn.push((203, 79, 15));
        toreturn.push((139, 115, 0));
        toreturn.push((0, 151, 0));
        toreturn.push((0, 171, 0));
        toreturn.push((0, 147, 59));
        toreturn.push((0, 131, 139));
        toreturn.push((0, 0, 0));
        toreturn.push((0, 0, 0));
        toreturn.push((0, 0, 0));
        toreturn.push((255, 255, 255));
        toreturn.push((63, 191, 255));
        toreturn.push((95, 151, 255));
        toreturn.push((167, 139, 253));
        toreturn.push((247, 123, 255));
        toreturn.push((255, 119, 183));
        toreturn.push((255, 119, 99));
        toreturn.push((255, 155, 59));
        toreturn.push((243, 191, 63));
        toreturn.push((131, 211, 19));
        toreturn.push((79, 223, 75));
        toreturn.push((88, 248, 152));
        toreturn.push((0, 235, 219));
        toreturn.push((0, 0, 0));
        toreturn.push((0, 0, 0));
        toreturn.push((0, 0, 0));
        toreturn.push((255, 255, 255));
        toreturn.push((171, 231, 255));
        toreturn.push((199, 215, 255));
        toreturn.push((215, 203, 255));
        toreturn.push((255, 199, 255));
        toreturn.push((255, 199, 219));
        toreturn.push((255, 191, 179));
        toreturn.push((255, 219, 171));
        toreturn.push((255, 231, 163));
        toreturn.push((227, 255, 163));
        toreturn.push((171, 243, 191));
        toreturn.push((179, 255, 207));
        toreturn.push((159, 255, 243));
        toreturn.push((0, 0, 0));
        toreturn.push((0, 0, 0));
        toreturn.push((0, 0, 0));
        proof {
            reveal(system_palette_spec);
        }
        assert(toreturn@ =~= system_palette_spec());
        toreturn
    }

    /// Takes the pending NMI: returns whether one was raised and clears it.
    pub fn get_nmi(&mut self) -> (r: bool)
        ensures
            r == old(self)@.nmi,
            final(self)@ == (PpuView { nmi: false, ..old(self)@ }),
    {
        let data = self.nmi;
        if data {
            self.nmi = false;
        }
        data
    }

    /// A PPU in its power-on state: registers, shift registers, fetch
    /// latches and the sprite-0 record clear, memories zero, at cycle 0 of
    /// scanline 0 of an even frame.
    pub fn new() -> (r: Self)
        ensures
            r@.wf(),
            r@.ctrl == 0,
            r@.mask == 0,
            r@.status == 0,
            r@.oamaddr == 0,
            r@.v == 0,
            r@.t == 0,
            r@.w == 0,
            r@.x == 0,
            r@.vram == Seq::new(2048, |i: int| 0u8),
            r@.buffer == 0,
            !r@.nmi,
            r@.palette == Seq::new(32, |i: int| 0u8),
            r@.palette_num == 0,
            r@.cycle == 0,
            r@.scanline == 0,
            r@.total_cycles == 0,
            r@.oam == Seq::new(64, |i: int| (0u16, 0u8, 0u8, 0u8)),
            r@.frame == Seq::new(256, |i: int| Seq::new(240, |j: int| 0u8)),
            r@.pattern_lo == 0 && r@.pattern_hi == 0 && r@.attribute_lo == 0 && r@.attribute_hi == 0,
            r@.next_pattern_lo == 0 && r@.next_pattern_hi == 0,
            r@.next_attribute_lo == 0 && r@.next_attribute_hi == 0,
            r@.next_nametable_tile == 0 && r@.next_attribute_tile == 0,
            r@.sprite0_x == 0 && r@.sprite0_y == 0,
            !r@.sprite0_possible,
            !r@.odd_frame,
    {
        let pal: Vec<u8> = vec![0; 0x20];
        let vram: Vec<u8> = vec![0; 2048];
        let mut oam_table: Vec<Oam> = Vec::new();
        let mut i: usize = 0;
        while i < 64
            invariant
                i <= 64,
                oam_table.len() == i,
                forall|k: int| 0 <= k < i ==> (#[trigger] oam_table@[k])@ == (0u16, 0u8, 0u8, 0u8),
            decreases 64 - i,
        {
            oam_table.push(Oam::new());
            i = i + 1;
        }
        let mut frame_array: Vec<Vec<u8>> = Vec::new();
        let mut j: usize = 0;
        while j < 256
            invariant
                j <= 256,
                frame_array.len() == j,
                forall|k: int| 0 <= k < j ==> (#[trigger] frame_array@[k])@ == Seq::new(240, |q: int| 0u8),
            decreases 256 - j,
        {
            let row: Vec<u8> = vec![0; 240];
            assert(row@ =~= Seq::new(240, |q: int| 0u8));
            frame_array.push(row);
            j = j + 1;
        }
        let r = Self {
            ppuctrl: 0,
            ppumask: 0,
            ppustatus: 0,
            oamaddr: 0,
            v: VtReg::new(),
            t: VtReg::new(),
            w: 0,
            x: 0,
            vram: vram,
            internal_buffer: 0,
            nmi: false,
            palette_memory: pal,
            system_palette: Ppu::initialize_system_palette(),
            palette_num: 0,
            cycle_counter: 0,
            scanline_counter: 0,
            total_cycles: 0,
            oam_table,
            pattern_lo_shift_register: 0,
            pattern_hi_shift_register: 0,
            attribute_lo_shift_register: 0,
            attribute_hi_shift_register: 0,
            frame_array,
            next_pattern_lo: 0,
            next_pattern_hi: 0,
            next_attribute_lo: 0,
            next_attribute_hi: 0,
            next_nametable_tile: 0,
            next_attribute_tile: 0,
            sprite0xcoord: 0,
            sprite0ycoord: 0,
            sprite0poss: false,
            odd_frame: false,
        };
        proof {
            assert(r@.vram =~= Seq::new(2048, |i: int| 0u8));
            assert(r@.palette =~= Seq::new(32, |i: int| 0u8));
            assert(r@.oam =~= Seq::new(64, |i: int| (0u16, 0u8, 0u8, 0u8)));
            assert(r@.frame =~= Seq::new(256, |i: int| Seq::new(240, |j: int| 0u8)));
        }
        r
    }

    /// Steps the palette shown for the pattern-table debug view (0-15).
    pub fn set_bg_palette_num(&mut self)
        requires
            old(self)@.wf(),
        ensures
            final(self)@ == (PpuView { palette_num: ((old(self)@.palette_num + 1) % 16) as u8, ..old(self)@ }),
            final(self)@.wf(),
    {
        proof {
            lemma_byte_masks((self.palette_num + 1) as u8);
        }
        self.palette_num = (self.palette_num + 1) & 0xF;
    }

    /// One byte of an OAM DMA transfer: byte `address % 4` of sprite `address / 4`.
    pub fn oam_dma_write(&mut self, address: u8, data: u8)
        requires
            old(self)@.wf(),
        ensures
            final(self)@ == (PpuView {
                oam: old(self)@.oam.update(
                    address as int / 4,
                    oam_with_byte(old(self)@.oam[address as int / 4], address % 4, data),
                ),
                ..old(self)@
            }),
    {
        let sprite_index = (address / 4) as usize;
        let sprite_offset = address % 4;
        let mut entry = self.oam_table[sprite_index];
        entry.set_byte(sprite_offset, data);
        self.oam_table.set(sprite_index, entry);
        proof {
            assert(self@.oam =~= old(self)@.oam.update(
                address as int / 4,
                oam_with_byte(old(self)@.oam[address as int / 4], address % 4, data),
            ));
            assert(self@.frame =~= old(self)@.frame);
            assert(self@ =~= (PpuView {
                oam: old(self)@.oam.update(
                    address as int / 4,
                    oam_with_byte(old(self)@.oam[address as int / 4], address % 4, data),
                ),
                ..old(self)@
            }));
        }
    }

    /// A read of the PPU bus: pattern tables from the cartridge, nametables
    /// (mirrored as the cartridge selects, and again at $3000-$3EFF),
    /// palettes (32 bytes, mirrored), 0 elsewhere.
    fn ppu_read(&self, cart: &mut Cartridge, address: u16) -> (r: u8)
        requires
            self@.wf(),
            old(cart).wf(),
        ensures
            r == ppu_read_spec(self@, *old(cart), address),
            old(cart).same(final(cart)),
        decreases address,
    {
        let mut byte: u8 = 0;
        proof {
            lemma_word_masks(address);
        }
        if address <= 0x1FFF {
            cart.ppu_read(address, &mut byte);
        } else if address >= 0x2000 && address <= 0x2FFF {
            let nametable = cart.get_nametable();
            let index: u16 = match nametable {
                MirrorMode::Vertical => {
                    if address <= 0x23FF {
                        address & 0x3FF
                    } else if address >= 0x2800 && address <= 0x2BFF {
                        address & 0x3FF
                    } else {
                        0x400 + (address & 0x3FF)
                    }
                },
                MirrorMode::Horizontal => {
                    if address <= 0x27FF {
                        address & 0x3FF
                    } else {
                        0x400 + (address & 0x3FF)
                    }
                },
                MirrorMode::OneScreenLo => address & 0x3FF,
                MirrorMode::OneScreenHi => {
                    let index = address & 0x3FF;
                    index + 0x400
                },
            };
            byte = self.vram[index as usize];
        } else if address >= 0x3000 && address <= 0x3EFF {
            byte = self.ppu_read(cart, address - 0x1000);
        } else if address >= 0x3F00 && address <= 0x3FFF {
            let mut addr = address & 0x001F;
            if addr == 0x0010 {
                addr = 0x0000;
            }
            if addr == 0x0014 {
                addr = 0x0004;
            }
            if addr == 0x0018 {
                addr = 0x0008;
            }
            if addr == 0x001C {
                addr = 0x000C;
            }
            byte = self.palette_memory[addr as usize];
        } else {
            byte = 0;
        }
        byte
    }

    /// A write to the PPU bus: pattern memory (when the cartridge maps it
    /// inside its CHR memory), nametables, palettes; writes elsewhere are
    /// dropped.
    fn ppu_write(&mut self, cart: &mut Cartridge, address: u16, data: u8)
        requires
            old(self)@.wf(),
            old(cart).wf(),
        ensures
            final(self)@ == ppu_write_spec(old(self)@, old(cart).mapper().mirror(), address, data),
            final(cart).wf(),
            address > 0x1FFF || !old(cart).ppu_write_in_bounds(address) ==> old(cart).same(final(cart)),
            address <= 0x1FFF && old(cart).ppu_write_in_bounds(address) ==> {
                &&& old(cart).mapper().unchanged(final(cart).mapper())
                &&& final(cart).prg() == old(cart).prg()
                &&& final(cart).header() == old(cart).header()
                &&& final(cart).chr() == if old(cart).mapper().ppu_write_map(address).0 {
                    old(cart).chr().update(old(cart).mapper().ppu_write_map(address).1 as int, data)
                } else {
                    old(cart).chr()
                }
            },
    {
        proof {
            lemma_word_masks(address);
        }
        if address <= 0x1FFF {
            if cart.can_ppu_write(address) {
                cart.ppu_write(address, data);
            }
        } else if address >= 0x2000 && address <= 0x2FFF {
            let nametable = cart.get_nametable();
            let index: u16 = match nametable {
                MirrorMode::Vertical => {
                    if address <= 0x23FF {
                        address & 0x3FF
                    } else if address >= 0x2800 && address <= 0x2BFF {
                        address & 0x3FF
                    } else {
                        0x400 + (address & 0x3FF)
                    }
                },
                MirrorMode::Horizontal => {
                    if address <= 0x27FF {
                        address & 0x3FF
                    } else {
                        0x400 + (address & 0x3FF)
                    }
                },
                MirrorMode::OneScreenLo => address & 0x3FF,
                MirrorMode::OneScreenHi => {
                    let index = address & 0x3FF;
                    index + 0x400
                },
            };
            self.vram.set(index as usize, data);
        } else if address >= 0x3F00 && address <= 0x3FFF {
            let mut addr = address & 0x001F;
            if addr == 0x0010 {
                addr = 0x0000;
            }
            if addr == 0x0014 {
                addr = 0x0004;
            }
            if addr == 0x0018 {
                addr = 0x0008;
            }
            if addr == 0x001C {
                addr = 0x000C;
            }
            self.palette_memory.set(addr as usize, data);
        }
        proof {
            assert(self@ =~= ppu_write_spec(old(self)@, old(cart).mapper().mirror(), address, data));
        }
    }

    /// The colour of entry `paletteindex` of background palette `palettenum`.
    pub fn get_bgpalette(&mut self, cart: &mut Cartridge, palettenum: u8, paletteindex: u8) -> (r: (u8, u8, u8))
        requires
            old(self)@.wf(),
            old(cart).wf(),
        ensures
            r == palette_color(old(self)@, *old(cart), bg_palette_address(old(self)@.mask, palettenum, paletteindex)),
            final(self)@ == old(self)@,
            old(cart).same(final(cart)),
    {
        proof {
            lemma_byte_masks(palettenum);
            lemma_byte_masks(self.ppumask);
        }
        let palettenum = palettenum & 0x07;
        let palette_addr: u16 = if paletteindex == 0 {
            0x3F00
        } else {
            0x3F00 + ((palettenum as u16) * 4) + (paletteindex as u16)
        };
        proof {
            lemma_word_masks(palette_addr);
        }
        let palette_addr = if self.ppumask & MASK_GREYSCALE != 0 {
            0x3F00 + (palette_addr & 0xF)
        } else {
            palette_addr
        };
        let color_index = self.ppu_read(cart, palette_addr);
        proof {
            lemma_byte_masks(color_index);
        }
        let safe_index = (color_index & 0x3F) as usize;
        self.system_palette[safe_index]
    }

    /// The colour of entry `paletteindex` of sprite palette `palettenum`.
    pub fn get_fgpalette(&mut self, cart: &mut Cartridge, palettenum: u8, paletteindex: u8) -> (r: (u8, u8, u8))
        requires
            old(self)@.wf(),
            old(cart).wf(),
        ensures
            r == palette_color(old(self)@, *old(cart), fg_palette_address(palettenum, paletteindex)),
            final(self)@ == old(self)@,
            old(cart).same(final(cart)),
    {
        proof {
            lemma_byte_masks(palettenum);
        }
        let palettenum = palettenum & 0x07;
        let palette_addr: u16 = if paletteindex == 0 {
            0x3F00
        } else {
            0x3F10 + ((palettenum as u16) * 4) + (paletteindex as u16)
        };
        let color_index = self.ppu_read(cart, palette_addr);
        proof {
            lemma_byte_masks(color_index);
        }
        let safe_index = (color_index & 0x3F) as usize;
        self.system_palette[safe_index]
    }

    /// A CPU read of PPU register `address % 8`: status ($2002), OAM data
    /// ($2004) or data ($2007, through the read buffer); the others read 0.
    pub fn cpu_read(&mut self, cart: &mut Cartridge, address: u16, rdonly: bool) -> (r: u8)
        requires
            old(self)@.wf(),
            old(cart).wf(),
        ensures
            r == cpu_read_value(old(self)@, *old(cart), address),
            final(self)@ == cpu_read_next(old(self)@, *old(cart), address, rdonly),
            old(cart).same(final(cart)),
    {
        let masked_address = address % 8;
        let mut data: u8 = 0;
        if masked_address == 2 {
            data = self.ppustatus;
            self.ppustatus = self.ppustatus & !STATUS_VBLANK;
            self.w = 0;
        } else if masked_address == 4 {
            proof {
                lemma_byte_masks(self.oamaddr);
            }
            let mut entry = self.oam_table[(self.oamaddr >> 2) as usize];
            data = entry.get_byte(self.oamaddr);
        } else if masked_address == 7 {
            data = self.internal_buffer;
            let vaddr = self.v.get_data();
            self.internal_buffer = self.ppu_read(cart, vaddr);
            if address >= 0x3F00 && address <= 0x3FFF {
                data = self.internal_buffer;
            }
            if !rdonly {
                let inc_addr = self.v.get_data();
                let inc_factor: u16 = if self.ppuctrl & CTRL_VRAM_INCREMENT != 0 {
                    32
                } else {
                    1
                };
                let stepped = inc_addr.wrapping_add(inc_factor);
                proof {
                    lemma_word_masks(stepped);
                }
                let inc_addr = stepped & 0x3FFF;
                self.v.set_data(inc_addr);
            }
        }
        proof {
            assert(self@ =~= cpu_read_next(old(self)@, *old(cart), address, rdonly));
        }
        data
    }

    /// A CPU write to PPU register `address % 8`: control ($2000, which
    /// also sets the nametable bits of `t`), mask ($2001), OAM address and
    /// data ($2003/$2004), scroll ($2005, two writes), address ($2006, two
    /// writes, the second copying `t` to `v`) and data ($2007, written at
    /// `v`, which then steps by 1 or 32).
    #[verifier::rlimit(60)]
    #[verifier::spinoff_prover]
    pub fn cpu_write(&mut self, cart: &mut Cartridge, address: u16, data: u8)
        requires
            old(self)@.wf(),
            old(cart).wf(),
        ensures
            final(self)@.wf(),
            final(self)@ == cpu_write_next(old(self)@, old(cart).mapper().mirror(), address, data),
            final(cart).wf(),
            cart_after_register_write(old(self)@, *old(cart), *final(cart), address, data),
    {
        proof {
            lemma_byte_masks(data);
        }
        let masked_address = address % 8;
        if masked_address == 0 {
            self.ppuctrl = data;
            self.t.set_nametable(data & 3);
            proof {
                assert(self@.frame =~= old(self)@.frame);
                assert(self@ =~= cpu_write_next(old(self)@, old(cart).mapper().mirror(), address, data));
            }
        } else if masked_address == 1 {
            self.ppumask = data;
            proof {
                assert(self@.frame =~= old(self)@.frame);
                assert(self@ =~= cpu_write_next(old(self)@, old(cart).mapper().mirror(), address, data));
            }
        } else if masked_address == 3 {
            self.oamaddr = data;
            proof {
                assert(self@.frame =~= old(self)@.frame);
                assert(self@ =~= cpu_write_next(old(self)@, old(cart).mapper().mirror(), address, data));
            }
        } else if masked_address == 4 {
            self.write_oam_data(data);
        } else if masked_address == 5 {
            self.write_scroll(data);
        } else if masked_address == 6 {
            self.write_address(data);
        } else if masked_address == 7 {
            self.write_data(cart, data);
        }
    }

    /// $2004: writes byte `oamaddr % 4` of sprite `oamaddr / 4`.
    fn write_oam_data(&mut self, data: u8)
        requires
            old(self)@.wf(),
        ensures
            final(self)@ == cpu_write_next(old(self)@, MirrorMode::Horizontal, 4, data),
    {
        proof {
            lemma_byte_masks(self.oamaddr);
        }
        let idx = (self.oamaddr >> 2) as usize;
        let mut entry = self.oam_table[idx];
        entry.set_byte(self.oamaddr, data);
        self.oam_table.set(idx, entry);
        proof {
            assert(self@.oam =~= cpu_write_next(old(self)@, MirrorMode::Horizontal, 4, data).oam);
            assert(self@.frame =~= old(self)@.frame);
            assert(self@ =~= cpu_write_next(old(self)@, MirrorMode::Horizontal, 4, data));
        }
    }

    /// $2005: the first write sets coarse and fine X, the second fine and
    /// coarse Y, in `t`.
    fn write_scroll(&mut self, data: u8)
        requires
            old(self)@.wf(),
        ensures
            final(self)@ == cpu_write_next(old(self)@, MirrorMode::Horizontal, 5, data),
    {
        if self.w == 0 {
            self.scroll_x(data);
        } else {
            self.scroll_y(data);
        }
    }

    #[verifier::rlimit(40)]
    fn scroll_x(&mut self, data: u8)
        ensures
            final(self)@ == (PpuView {
                t: with_coarse_x(old(self)@.t, data as int / 8),
                x: (data % 8) as u8,
                w: 1,
                ..old(self)@
            }),
    {
        proof {
            lemma_byte_masks(data);
        }
        let temp_val = data >> 3;
        self.t.set_coarse_xscroll(temp_val);
        self.x = data & 7;
        self.w = 1;
        proof {
            assert(self@.frame =~= old(self)@.frame);
        }
    }

    fn scroll_y(&mut self, data: u8)
        ensures
            final(self)@ == (PpuView {
                t: pack(top_bit_of(old(self)@.t), data as int % 8, nametable_y_of(old(self)@.t), nametable_x_of(old(self)@.t), data as int / 8, coarse_x_of(old(self)@.t)) as u16,
                w: 0,
                ..old(self)@
            }),
    {
        self.t.set_scroll_y(data);
        self.w = 0;
    }

    /// $2006: the first write sets the high byte of `t`, the second the low
    /// byte, and copies `t` into `v`.
    fn write_address(&mut self, data: u8)
        requires
            old(self)@.wf(),
        ensures
            final(self)@ == cpu_write_next(old(self)@, MirrorMode::Horizontal, 6, data),
    {
        if self.w == 0 {
            self.t.set_high_byte(data);
            self.w = 1;
        } else {
            self.t.set_low_byte(data);
            let tv = self.t.get_data();
            self.v.set_data(tv);
            self.w = 0;
        }
    }

    /// $2007: writes `data` at `v` on the PPU bus, then steps `v`.
    #[verifier::rlimit(50)]
    fn write_data(&mut self, cart: &mut Cartridge, data: u8)
        requires
            old(self)@.wf(),
            old(cart).wf(),
        ensures
            final(self)@ == cpu_write_next(old(self)@, old(cart).mapper().mirror(), 7, data),
            final(cart).wf(),
            !(old(self)@.v <= 0x1FFF && old(cart).ppu_write_in_bounds(old(self)@.v)) ==> old(cart).same(final(cart)),
            old(self)@.v <= 0x1FFF && old(cart).ppu_write_in_bounds(old(self)@.v) ==> {
                &&& old(cart).mapper().unchanged(final(cart).mapper())
                &&& final(cart).prg() == old(cart).prg()
                &&& final(cart).header() == old(cart).header()
                &&& final(cart).chr() == if old(cart).mapper().ppu_write_map(old(self)@.v).0 {
                    old(cart).chr().update(old(cart).mapper().ppu_write_map(old(self)@.v).1 as int, data)
                } else {
                    old(cart).chr()
                }
            },
    {
        let increment_factor: u16 = if self.ppuctrl & CTRL_VRAM_INCREMENT != 0 {
            32
        } else {
            1
        };
        let vaddr = self.v.get_data();
        self.ppu_write(cart, vaddr, data);
        let stepped = vaddr.wrapping_add(increment_factor);
        proof {
            lemma_word_masks(stepped);
        }
        let vaddr = stepped & 0x3FFF;
        self.v.set_data(vaddr);
        proof {
            assert(self@ =~= cpu_write_next(old(self)@, old(cart).mapper().mirror(), 7, data));
        }
    }

    /// The cycle within the scanline becomes `value`.
    fn set_cycle(&mut self, value: u16)
        ensures
            final(self)@ == (PpuView { cycle: value, ..old(self)@ }),
    {
        self.cycle_counter = value;
        proof {
            assert(self@ =~= (PpuView { cycle: value, ..old(self)@ }));
        }
    }

    /// The scanline becomes `value`.
    fn set_scanline(&mut self, value: i16)
        ensures
            final(self)@ == (PpuView { scanline: value, ..old(self)@ }),
    {
        self.scanline_counter = value;
        proof {
            assert(self@ =~= (PpuView { scanline: value, ..old(self)@ }));
        }
    }

    /// The cycle count becomes `value`.
    fn set_total_cycles(&mut self, value: usize)
        ensures
            final(self)@ == (PpuView { total_cycles: value, ..old(self)@ }),
    {
        self.total_cycles = value;
        proof {
            assert(self@ =~= (PpuView { total_cycles: value, ..old(self)@ }));
        }
    }

    /// The status register becomes `value`.
    fn set_status(&mut self, value: u8)
        ensures
            final(self)@ == (PpuView { status: value, ..old(self)@ }),
    {
        self.ppustatus = value;
        proof {
            assert(self@ =~= (PpuView { status: value, ..old(self)@ }));
        }
    }

    /// The pending NMI becomes `value`.
    fn set_nmi(&mut self, value: bool)
        ensures
            final(self)@ == (PpuView { nmi: value, ..old(self)@ }),
    {
        self.nmi = value;
        proof {
            assert(self@ =~= (PpuView { nmi: value, ..old(self)@ }));
        }
    }

    /// The fetched tile number becomes `value`.
    fn set_next_nametable_tile(&mut self, value: u16)
        ensures
            final(self)@ == (PpuView { next_nametable_tile: value, ..old(self)@ }),
    {
        self.next_nametable_tile = value;
        proof {
            assert(self@ =~= (PpuView { next_nametable_tile: value, ..old(self)@ }));
        }
    }

    /// The fetched attribute bits become `value`.
    fn set_next_attribute_tile(&mut self, value: u16)
        ensures
            final(self)@ == (PpuView { next_attribute_tile: value, ..old(self)@ }),
    {
        self.next_attribute_tile = value;
        proof {
            assert(self@ =~= (PpuView { next_attribute_tile: value, ..old(self)@ }));
        }
    }

    /// The fetched low pattern byte and its attribute bits become `pattern`
    /// and `attribute`.
    fn set_next_low(&mut self, pattern: u16, attribute: u16)
        ensures
            final(self)@ == (PpuView { next_pattern_lo: pattern, next_attribute_lo: attribute, ..old(self)@ }),
    {
        self.next_pattern_lo = pattern;
        self.next_attribute_lo = attribute;
        proof {
            assert(self@ =~= (PpuView { next_pattern_lo: pattern, next_attribute_lo: attribute, ..old(self)@ }));
        }
    }

    /// The fetched high pattern byte and its attribute bits become `pattern`
    /// and `attribute`.
    fn set_next_high(&mut self, pattern: u16, attribute: u16)
        ensures
            final(self)@ == (PpuView { next_pattern_hi: pattern, next_attribute_hi: attribute, ..old(self)@ }),
    {
        self.next_pattern_hi = pattern;
        self.next_attribute_hi = attribute;
        proof {
            assert(self@ =~= (PpuView { next_pattern_hi: pattern, next_attribute_hi: attribute, ..old(self)@ }));
        }
    }

    /// Whether the frame being drawn is an odd one.
    fn odd_frame(&self) -> (r: bool)
        ensures
            r == self@.odd_frame,
    {
        self.odd_frame
    }

    /// The frame parity becomes `value`.
    fn set_odd_frame(&mut self, value: bool)
        ensures
            final(self)@ == (PpuView { odd_frame: value, ..old(self)@ }),
    {
        self.odd_frame = value;
        proof {
            assert(self@ =~= (PpuView { odd_frame: value, ..old(self)@ }));
        }
    }

    /// The scanline.
    fn scanline(&self) -> (r: i16)
        ensures
            r == self@.scanline,
    {
        self.scanline_counter
    }

    /// The status register.
    fn status(&self) -> (r: u8)
        ensures
            r == self@.status,
    {
        self.ppustatus
    }

    /// The fine X scroll.
    fn fine_x(&self) -> (r: u8)
        ensures
            r == self@.x,
    {
        self.x
    }

    /// The four background shift registers: pattern low and high,
    /// attribute low and high.
    fn shift_registers(&self) -> (r: (u16, u16, u16, u16))
        ensures
            r == (self@.pattern_lo, self@.pattern_hi, self@.attribute_lo, self@.attribute_hi),
    {
        (self.pattern_lo_shift_register, self.pattern_hi_shift_register, self.attribute_lo_shift_register,
            self.attribute_hi_shift_register)
    }

    /// The fetched attribute bits.
    fn next_attribute(&self) -> (r: u16)
        ensures
            r == self@.next_attribute_tile,
    {
        self.next_attribute_tile
    }

    /// Where sprite 0 first shows, and whether it does.
    fn sprite0(&self) -> (r: (u16, u16, bool))
        ensures
            r == (self@.sprite0_x, self@.sprite0_y, self@.sprite0_possible),
    {
        (self.sprite0xcoord, self.sprite0ycoord, self.sprite0poss)
    }

    /// The cycle count.
    fn cycles(&self) -> (r: usize)
        ensures
            r == self@.total_cycles,
    {
        self.total_cycles
    }

    /// The current VRAM address register.
    fn vreg(&self) -> (r: &VtReg)
        ensures
            r@ == self@.v,
    {
        &self.v
    }

    /// Sprite `i` of the OAM.
    fn sprite(&self, i: usize) -> (r: Oam)
        requires
            self@.wf(),
            i < 64,
        ensures
            r@ == self@.oam[i as int],
    {
        self.oam_table[i]
    }

    /// The control register.
    fn ctrl(&self) -> (r: u8)
        ensures
            r == self@.ctrl,
    {
        self.ppuctrl
    }

    /// The mask register.
    fn mask(&self) -> (r: u8)
        ensures
            r == self@.mask,
    {
        self.ppumask
    }

    /// The cycle within the scanline.
    fn cycle(&self) -> (r: u16)
        ensures
            r == self@.cycle,
    {
        self.cycle_counter
    }

    /// The background palette selected for the pattern-table view.
    fn palette_number(&self) -> (r: u8)
        ensures
            r == self@.palette_num,
    {
        self.palette_num
    }

    /// Records where sprite 0 first shows, and whether it does.
    fn set_sprite0(&mut self, x: u16, y: u16, possible: bool)
        ensures
            final(self)@ == (PpuView { sprite0_x: x, sprite0_y: y, sprite0_possible: possible, ..old(self)@ }),
    {
        self.sprite0xcoord = x;
        self.sprite0ycoord = y;
        self.sprite0poss = possible;
        proof {
            assert(self@ =~= (PpuView { sprite0_x: x, sprite0_y: y, sprite0_possible: possible, ..old(self)@ }));
        }
    }

    /// The colour number last drawn at (`x`, `y`).
    fn frame_at(&self, x: u16, y: u16) -> (r: u8)
        requires
            self@.wf(),
            x < 256,
            y < 240,
        ensures
            r == self@.frame[x as int][y as int],
    {
        proof {
            assert(self@.frame[x as int].len() == 240);
            assert(self@.frame[x as int] == self.frame_array@[x as int]@);
        }
        self.frame_array[x as usize][y as usize]
    }

    /// Records colour number `value` as drawn at (`x`, `y`).
    fn set_frame_at(&mut self, x: u16, y: u16, value: u8)
        requires
            old(self)@.wf(),
            x < 256,
            y < 240,
        ensures
            final(self)@ == (PpuView {
                frame: old(self)@.frame.update(x as int, old(self)@.frame[x as int].update(y as int, value)),
                ..old(self)@
            }),
            final(self)@.wf(),
    {
        let mut column: Vec<u8> = Vec::new();
        std::mem::swap(&mut column, &mut self.frame_array[x as usize]);
        column.set(y as usize, value);
        self.frame_array.set(x as usize, column);
        proof {
            assert(self@.frame =~= old(self)@.frame.update(x as int, old(self)@.frame[x as int].update(y as int, value)));
            assert(self@ =~= (PpuView {
                frame: old(self)@.frame.update(x as int, old(self)@.frame[x as int].update(y as int, value)),
                ..old(self)@
            }));
        }
    }

    /// The pattern-table address of the background tile row being fetched:
    /// table select, tile number and fine Y.
    fn get_pattern_address(&self) -> (r: u16)
        requires
            self@.wf(),
        ensures
            r as int == (if has_flag(self@.ctrl, CTRL_BACKGROUND_PATTERN_TABLE) { 0x1000int } else { 0 })
                + self@.next_nametable_tile as int * 16 + fine_y_of(self@.v),
    {
        let toreturn: u16 = if self.ppuctrl & CTRL_BACKGROUND_PATTERN_TABLE != 0 {
            0x1000
        } else {
            0x0000
        };
        let finey = self.v.get_fine_y() as u16;
        proof {
            lemma_pattern_or(toreturn, self.next_nametable_tile, finey);
        }
        let toreturn = toreturn | (self.next_nametable_tile << 4) | finey;
        toreturn
    }
}

proof fn lemma_pattern_or(base: u16, tile: u16, fine: u16)
    by (bit_vector)
    requires
        base == 0 || base == 0x1000,
        tile < 256,
        fine < 8,
    ensures
        base | (tile << 4u16) | fine == base + tile * 16 + fine,
{
}

/// A read of the PPU bus after a write of `data` to nametable or palette
/// address `a` gives `data` back.
pub proof fn law_ppu_read_after_write(p: PpuView, cart: Cartridge, a: u16, data: u8)
    requires
        p.wf(),
        0x2000 <= a <= 0x2FFF || 0x3F00 <= a <= 0x3FFF,
    ensures
        ppu_read_spec(ppu_write_spec(p, cart.mapper().mirror(), a, data), cart, a) == data,
{
}

/// Nametable addresses that mirroring maps to the same RAM byte read the
/// same, and $3000-$3EFF reads mirror $2000-$2EFF.
pub proof fn law_nametable_mirrors(p: PpuView, cart: Cartridge, a: u16, b: u16)
    requires
        0x2000 <= a <= 0x2FFF,
        0x2000 <= b <= 0x2FFF,
        nametable_index(cart.mapper().mirror(), a) == nametable_index(cart.mapper().mirror(), b),
    ensures
        ppu_read_spec(p, cart, a) == ppu_read_spec(p, cart, b),
        a <= 0x2EFF ==> ppu_read_spec(p, cart, (a + 0x1000) as u16) == ppu_read_spec(p, cart, a),
{
}

/// Under vertical mirroring $2000 and $2800 share a table, as do $2400 and
/// $2C00; under horizontal mirroring $2000 shares with $2400, and $2800
/// with $2C00.
pub proof fn law_mirroring_pairs(a: u16)
    requires
        0x2000 <= a <= 0x27FF,
    ensures
        nametable_index(MirrorMode::Vertical, a) == nametable_index(MirrorMode::Vertical, (a + 0x800) as u16),
        a <= 0x23FF ==> nametable_index(MirrorMode::Horizontal, a) == nametable_index(MirrorMode::Horizontal, (a + 0x400) as u16),
        a <= 0x23FF ==> nametable_index(MirrorMode::Horizontal, (a + 0x800) as u16) == nametable_index(MirrorMode::Horizontal, (a + 0xC00) as u16),
{
}

/// Two writes to $2006 (high byte first, kept to the register's 15 bits)
/// load `t` and `v` with the address and leave the write toggle clear.
pub proof fn law_address_writes(p: PpuView, mode: MirrorMode, hi: u8, lo: u8)
    requires
        p.w == 0,
    ensures
        ({
            let q = cpu_write_next(cpu_write_next(p, mode, 0x2006, hi), mode, 0x2006, lo);
            &&& q.v as int == (hi as int % 128) * 256 + lo as int
            &&& q.t == q.v
            &&& q.w == 0
        }),
{
    let t0 = p.t as int;
    let h = hi as int;
    let l = lo as int;
    let t1 = (t0 % 256 + h * 256) % 0x8000;
    assert(t1 == t0 % 256 + (h % 128) * 256 && t1 % 256 == t0 % 256) by (nonlinear_arith)
        requires
            t1 == (t0 % 256 + h * 256) % 0x8000,
            0 <= t0,
            0 <= h < 256,
    ;
    assert((t1 - t1 % 256 + l) % 0x8000 == (h % 128) * 256 + l) by (nonlinear_arith)
        requires
            t1 % 256 == t0 % 256,
            t1 == t0 % 256 + (h % 128) * 256,
            0 <= t0,
            0 <= h < 256,
            0 <= l < 256,
    ;
    let q1 = cpu_write_next(p, mode, 0x2006, hi);
    assert(q1.w == 1 && q1.t as int == t1);
}

/// A write to $2007 advances `v` by 1, or by 32 with PPUCTRL bit 2 set
/// (mod $4000).
pub proof fn law_data_write_advances(p: PpuView, mode: MirrorMode, data: u8)
    ensures
        cpu_write_next(p, mode, 0x2007, data).v as int == (p.v as int + if p.ctrl & 0x04 != 0 { 32int } else { 1 })
            % 0x4000,
{
}

/// Two writes to $2005 put the X scroll's upper five bits in coarse X of
/// `t` and its lower three in fine X, and the Y scroll's upper five bits
/// in coarse Y of `t` and its lower three in fine Y; the toggle is clear
/// again.
#[verifier::rlimit(60)]
#[verifier::spinoff_prover]
pub proof fn law_scroll_writes(p: PpuView, mode: MirrorMode, sx: u8, sy: u8)
    requires
        p.w == 0,
    ensures
        ({
            let q = cpu_write_next(cpu_write_next(p, mode, 0x2005, sx), mode, 0x2005, sy);
            &&& q.t as int % 32 == sx as int / 8
            &&& q.x == sx % 8
            &&& (q.t as int / 32) % 32 == sy as int / 8
            &&& (q.t as int / 4096) % 8 == sy as int % 8
            &&& q.w == 0
        }),
{
    let q1 = cpu_write_next(p, mode, 0x2005, sx);
    assert(q1.t == with_coarse_x(p.t, sx as int / 8));
    let t1 = q1.t;
    lemma_pack_fields(top_bit_of(p.t), fine_y_of(p.t), nametable_y_of(p.t), nametable_x_of(p.t), coarse_y_of(p.t), sx as int / 8);
    lemma_fields_of(t1, top_bit_of(p.t), fine_y_of(p.t), nametable_y_of(p.t), nametable_x_of(p.t), coarse_y_of(p.t), sx as int / 8);
    lemma_pack_fields(top_bit_of(t1), sy as int % 8, nametable_y_of(t1), nametable_x_of(t1), sy as int / 8, coarse_x_of(t1));
}

/// Palette memory is 32 bytes mirrored through $3F00-$3FFF, and the
/// first entry of each sprite palette ($3F10, $3F14, $3F18, $3F1C) is the
/// first entry of the matching background palette: a write there reads
/// back at $3F00, $3F04, $3F08 or $3F0C. Other sprite palette entries
/// are their own.
pub proof fn law_palette_mirrors(p: PpuView, cart: Cartridge, a: u16, k: u16, j: u16, data: u8)
    requires
        p.wf(),
        0x3F00 <= a <= 0x3FFF,
        k < 4,
        j < 16,
        j % 4 != 0,
    ensures
        ppu_read_spec(p, cart, a) == ppu_read_spec(p, cart, (0x3F00 + a as int % 32) as u16),
        ppu_read_spec(ppu_write_spec(p, cart.mapper().mirror(), (0x3F10 + 4 * k) as u16, data), cart, (0x3F00 + 4 * k) as u16)
            == data,
        ppu_read_spec(ppu_write_spec(p, cart.mapper().mirror(), (0x3F10 + j) as u16, data), cart, (0x3F00 + j) as u16)
            == ppu_read_spec(p, cart, (0x3F00 + j) as u16),
{
}

} // verus!

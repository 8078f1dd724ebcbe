//! The register-level PPU: pattern, nametable and palette memory, the
//! CPU-facing registers, and a view of the pattern tables.
use vstd::prelude::*;
use crate::bits::{lemma_byte_masks, lemma_word_masks, lemma_word_fields};
use crate::cartridge::cartridge::{Cartridge, Mirror, BoardMap};
use crate::frame::{Frame, pixel_base};
use super::palette_index;

verus! {

/// The system palette of the register-level PPU: the RGB colour of each
/// of the 64 NES colour indices.
#[verifier::opaque]
pub open spec fn simple_system_palette() -> Seq<(u8, u8, u8)> {
    seq![
        (0x80u8, 0x80u8, 0x80u8),
        (0x00u8, 0x3Du8, 0xA6u8),
        (0x00u8, 0x12u8, 0xB0u8),
        (0x44u8, 0x00u8, 0x96u8),
        (0xA1u8, 0x00u8, 0x5Eu8),
        (0xC7u8, 0x00u8, 0x28u8),
        (0xBAu8, 0x06u8, 0x00u8),
        (0x8Cu8, 0x17u8, 0x00u8),
        (0x5Cu8, 0x2Fu8, 0x00u8),
        (0x10u8, 0x45u8, 0x00u8),
        (0x05u8, 0x4Au8, 0x00u8),
        (0x00u8, 0x47u8, 0x2Eu8),
        (0x00u8, 0x41u8, 0x66u8),
        (0x00u8, 0x00u8, 0x00u8),
        (0x05u8, 0x05u8, 0x05u8),
        (0x05u8, 0x05u8, 0x05u8),
        (0xC7u8, 0xC7u8, 0xC7u8),
        (0x00u8, 0x77u8, 0xFFu8),
        (0x21u8, 0x55u8, 0xFFu8),
        (0x82u8, 0x37u8, 0xFAu8),
        (0xEBu8, 0x2Fu8, 0xB5u8),
        (0xFFu8, 0x29u8, 0x50u8),
        (0xFFu8, 0x22u8, 0x00u8),
        (0xD6u8, 0x32u8, 0x00u8),
        (0xC4u8, 0x62u8, 0x00u8),
        (0x35u8, 0x80u8, 0x00u8),
        (0x05u8, 0x8Fu8, 0x00u8),
        (0x00u8, 0x8Au8, 0x55u8),
        (0x00u8, 0x99u8, 0xCCu8),
        (0x21u8, 0x21u8, 0x21u8),
        (0x09u8, 0x09u8, 0x09u8),
        (0x09u8, 0x09u8, 0x09u8),
        (0xFFu8, 0xFFu8, 0xFFu8),
        (0x0Fu8, 0xD7u8, 0xFFu8),
        (0x69u8, 0xA2u8, 0xFFu8),
        (0xD4u8, 0x80u8, 0xFFu8),
        (0xFFu8, 0x45u8, 0xF3u8),
        (0xFFu8, 0x61u8, 0x8Bu8),
        (0xFFu8, 0x88u8, 0x33u8),
        (0xFFu8, 0x9Cu8, 0x12u8),
        (0xFAu8, 0xBCu8, 0x20u8),
        (0x9Fu8, 0xE3u8, 0x0Eu8),
        (0x2Bu8, 0xF0u8, 0x35u8),
        (0x0Cu8, 0xF0u8, 0xA4u8),
        (0x05u8, 0xFBu8, 0xFFu8),
        (0x5Eu8, 0x5Eu8, 0x5Eu8),
        (0x0Du8, 0x0Du8, 0x0Du8),
        (0x0Du8, 0x0Du8, 0x0Du8),
        (0xFFu8, 0xFFu8, 0xFFu8),
        (0xA6u8, 0xFCu8, 0xFFu8),
        (0xB3u8, 0xECu8, 0xFFu8),
        (0xDAu8, 0xABu8, 0xEBu8),
        (0xFFu8, 0xA8u8, 0xF9u8),
        (0xFFu8, 0xABu8, 0xB3u8),
        (0xFFu8, 0xD2u8, 0xB0u8),
        (0xFFu8, 0xEFu8, 0xA6u8),
        (0xFFu8, 0xF7u8, 0x9Cu8),
        (0xD7u8, 0xE8u8, 0x95u8),
        (0xA6u8, 0xEDu8, 0xAFu8),
        (0xA2u8, 0xF2u8, 0xDAu8),
        (0x99u8, 0xFFu8, 0xFCu8),
        (0xDDu8, 0xDDu8, 0xDDu8),
        (0x11u8, 0x11u8, 0x11u8),
        (0x11u8, 0x11u8, 0x11u8),
    ]
}

/// The PPU's state, as the contracts see it.
pub struct SimplePpuView {
    pub ctrl: u8,
    pub mask: u8,
    pub status: u8,
    pub oamaddr: u8,
    pub oamdata: u8,
    pub ppuscroll: u8,
    pub ppuaddr: u8,
    pub ppudata: u8,
    pub oamdma: u8,
    pub buffer: u8,
    pub latch: u8,
    pub vram_addr: u16,
    pub tram_addr: u16,
    pub fine_x: u8,
    pub pattern: Seq<Seq<u8>>,
    pub name: Seq<Seq<u8>>,
    pub palette: Seq<u8>,
    pub system_palette: Seq<(u8, u8, u8)>,
}

impl SimplePpuView {
    /// The memories have their sizes and the system palette its colours.
    pub open spec fn wf(self) -> bool {
        &&& self.pattern.len() == 2
        &&& self.pattern[0].len() == 4096
        &&& self.pattern[1].len() == 4096
        &&& self.name.len() == 2
        &&& self.name[0].len() == 1024
        &&& self.name[1].len() == 1024
        &&& self.palette.len() == 32
        &&& self.system_palette == simple_system_palette()
        &&& self.system_palette.len() == 64
    }

    /// The VRAM address step after a data access: 32 or 1.
    pub open spec fn increment(self) -> u16 {
        if self.ctrl & 0x04u8 != 0 { 32 } else { 1 }
    }
}

/// The byte a PPU-bus read of `address` gives: CHR memory where the
/// board maps it, else the PPU's own pattern memory; nametable addresses
/// read 0 (their mirroring checks compare the unmasked address); palette
/// entries masked to the grey column in greyscale mode.
pub open spec fn simple_read(p: SimplePpuView, cart: Cartridge, address: u16) -> u8 {
    if cart.board().ppu_read_mapping(address) {
        cart.chr()[address as int]
    } else if address <= 0x1FFF {
        p.pattern[address as int / 4096][address as int % 4096]
    } else if 0x2000 <= address <= 0x3EFF {
        0
    } else if 0x3F00 <= address <= 0x3FFF {
        p.palette[palette_index(address)] & (if p.mask & 1u8 != 0 { 0x30u8 } else { 0x3Fu8 })
    } else {
        0
    }
}

/// Which nametable page a nametable offset `n` (0-$FFF) reaches under
/// `mirror`.
pub open spec fn name_page(mirror: Mirror, n: int) -> int {
    match mirror {
        Mirror::VERTICAL => (n / 0x400) % 2,
        Mirror::HORIZONTAL => n / 0x800,
    }
}

/// The PPU's memories after a PPU-bus write of `data` to `address`
/// (taken modulo $4000), when the board does not take it.
pub open spec fn simple_written(p: SimplePpuView, mirror: Mirror, address: u16, data: u8) -> SimplePpuView {
    let a = address as int % 0x4000;
    if a <= 0x1FFF {
        SimplePpuView { pattern: p.pattern.update(a / 4096, p.pattern[a / 4096].update(a % 4096, data)), ..p }
    } else if a <= 0x3EFF {
        let n = a % 0x1000;
        let page = name_page(mirror, n);
        SimplePpuView { name: p.name.update(page, p.name[page].update(n % 0x400, data)), ..p }
    } else {
        SimplePpuView { palette: p.palette.update(palette_index(a as u16), data), ..p }
    }
}

/// A PPU-bus write of `address` stays inside the cartridge's CHR memory
/// when the board takes it.
pub open spec fn write_fits(cart: Cartridge, address: u16) -> bool {
    cart.ppu_write_in_bounds((address as int % 0x4000) as u16)
}

/// The PPU after a CPU write of `data` to register `address` (0 control,
/// 1 mask, 5 scroll, 6 address, 7 data; the PPU-bus effect of a data
/// write is in `simple_written`, applied first).
pub open spec fn simple_register_written(p: SimplePpuView, address: u16, data: u8) -> SimplePpuView {
    let t = p.tram_addr;
    if address == 0 {
        let t1 = if data & 1u8 != 0 { t | 0x0400u16 } else { t & !0x0400u16 };
        let t2 = if data & 2u8 != 0 { t1 | 0x0800u16 } else { t1 & !0x0800u16 };
        SimplePpuView { ctrl: data, tram_addr: t2, ..p }
    } else if address == 1 {
        SimplePpuView { mask: data, ..p }
    } else if address == 5 {
        if p.latch == 0 {
            SimplePpuView {
                fine_x: data & 0x07u8,
                tram_addr: (t & !0x1Fu16) | ((data >> 3u8) as u16 & 0x1Fu16),
                latch: 1,
                ..p
            }
        } else {
            let t1 = (t & !0x7000u16) | ((data as u16 & 0x07u16) << 12u16);
            let t2 = (t1 & !0x03E0u16) | (((data as u16 >> 3u16) & 0x1Fu16) << 5u16);
            SimplePpuView { tram_addr: t2, latch: 0, ..p }
        }
    } else if address == 6 {
        if p.latch == 0 {
            SimplePpuView { tram_addr: ((data as u16 & 0x3Fu16) << 8u16) | (t & 0xFFu16), latch: 1, ..p }
        } else {
            let t1 = (t & 0xFFu16) | data as u16;
            SimplePpuView { tram_addr: t1, vram_addr: t1, latch: 0, ..p }
        }
    } else {
        SimplePpuView { vram_addr: (p.vram_addr + p.increment()) as u16, ..p }
    }
}

/// What a CPU read of register `address` returns; a read-only read shows
/// control, mask and status, a plain one status (with the buffer's low
/// bits) and data (through the read buffer, directly for $3FF0 and up).
pub open spec fn simple_register_value(p: SimplePpuView, cart: Cartridge, address: u16, readonly: bool) -> u8 {
    if readonly {
        if address == 0 {
            p.ctrl
        } else if address == 1 {
            p.mask
        } else if address == 2 {
            p.status
        } else {
            0
        }
    } else if address == 2 {
        (p.status & 0xE0u8) | (p.buffer & 0x1Fu8)
    } else if address == 7 {
        if p.vram_addr >= 0x3FF0 {
            simple_read(p, cart, p.vram_addr)
        } else {
            p.buffer
        }
    } else {
        0
    }
}

/// The PPU after a CPU read of register `address`: a plain status read
/// clears vertical blank and the write latch; a plain data read refills
/// the buffer and steps the address.
pub open spec fn simple_register_read(p: SimplePpuView, cart: Cartridge, address: u16, readonly: bool) -> SimplePpuView {
    if readonly {
        p
    } else if address == 2 {
        SimplePpuView { status: p.status & 0x7Fu8, latch: 0, ..p }
    } else if address == 7 {
        SimplePpuView {
            buffer: simple_read(p, cart, p.vram_addr),
            vram_addr: (p.vram_addr + p.increment()) as u16,
            ..p
        }
    } else {
        p
    }
}

/// Step `k` of drawing the pattern-table image of table `index` in
/// palette `palette`: tile row `k / 1024`, tile column `(k / 64) % 16`,
/// pixel row `(k / 8) % 8`, bit `k % 8` of the row (from the right); the
/// x position it is drawn at (the tile column masked by `15 - bit`, as
/// the drawing code computes it) and its colour.
pub open spec fn pallet_draw(p: SimplePpuView, cart: Cartridge, index: u8, palette: u8, k: int) -> (usize, (u8, u8, u8)) {
    let y = k / 1024;
    let x = (k / 64) % 16;
    let row = (k / 8) % 8;
    let col = k % 8;
    let base = index as int * 0x1000 + x * 16 + y * 256 + row;
    let lsb = simple_read(p, cart, base as u16);
    let msb = simple_read(p, cart, (base + 8) as u16);
    let pixel = ((lsb >> (col as u8)) & 1u8) as int + ((msb >> (col as u8)) & 1u8) as int * 2;
    let color = p.system_palette[simple_read(p, cart, (0x3F00 + palette as int * 4 + pixel) as u16) as int];
    ((x as usize) & ((15 - col) as usize), color)
}

/// The frame bytes (`xsize` pixels to a row) after the first `n` steps
/// of drawing the pattern-table image.
pub open spec fn pallet_bytes(
    p: SimplePpuView,
    cart: Cartridge,
    index: u8,
    palette: u8,
    bytes: Seq<u8>,
    xsize: int,
    n: int,
) -> Seq<u8>
    decreases n,
{
    if n <= 0 {
        bytes
    } else {
        let prev = pallet_bytes(p, cart, index, palette, bytes, xsize, n - 1);
        let (x, color) = pallet_draw(p, cart, index, palette, n - 1);
        let base = pixel_base(x as int, xsize);
        if base + 2 < prev.len() {
            prev.update(base, color.0).update(base + 1, color.1).update(base + 2, color.2)
        } else {
            prev
        }
    }
}

proof fn lemma_pallet_step(y: int, x: int, row: int, col: int)
    requires
        0 <= y < 16,
        0 <= x < 16,
        0 <= row < 8,
        0 <= col < 8,
    ensures
        ({
            let k = y * 1024 + x * 64 + row * 8 + col;
            &&& k / 1024 == y
            &&& (k / 64) % 16 == x
            &&& (k / 8) % 8 == row
            &&& k % 8 == col
        }),
{
    let k = y * 1024 + x * 64 + row * 8 + col;
    assert(k / 1024 == y && (k / 64) % 16 == x && (k / 8) % 8 == row && k % 8 == col) by (nonlinear_arith)
        requires
            k == y * 1024 + x * 64 + row * 8 + col,
            0 <= y < 16,
            0 <= x < 16,
            0 <= row < 8,
            0 <= col < 8,
    ;
}

/// The register-level PPU.
pub struct Ppu {
    ppuctrl: u8,
    ppumask: u8,
    ppustatus: u8,
    oamaddr: u8,
    oamdata: u8,
    ppuscroll: u8,
    ppuaddr: u8,
    ppudata: u8,
    oamdma: u8,
    ppu_buffer: u8,
    address_latch: u8,
    vram_addr: u16,
    tram_addr: u16,
    fine_x: u8,
    tbl_pattern: Vec<Vec<u8>>,
    tbl_name: Vec<Vec<u8>>,
    tbl_palette: Vec<u8>,
    system_palette: Vec<(u8, u8, u8)>,
}

impl View for Ppu {
    type V = SimplePpuView;

    closed spec fn view(&self) -> SimplePpuView {
        SimplePpuView {
            ctrl: self.ppuctrl,
            mask: self.ppumask,
            status: self.ppustatus,
            oamaddr: self.oamaddr,
            oamdata: self.oamdata,
            ppuscroll: self.ppuscroll,
            ppuaddr: self.ppuaddr,
            ppudata: self.ppudata,
            oamdma: self.oamdma,
            buffer: self.ppu_buffer,
            latch: self.address_latch,
            vram_addr: self.vram_addr,
            tram_addr: self.tram_addr,
            fine_x: self.fine_x,
            pattern: self.tbl_pattern@.map_values(|t: Vec<u8>| t@),
            name: self.tbl_name@.map_values(|t: Vec<u8>| t@),
            palette: self.tbl_palette@,
            system_palette: self.system_palette@,
        }
    }
}

impl Ppu {
    /// The system palette as a vector of (r, g, b) colours.
    #[verifier::rlimit(100)]
    fn get_sys_palette() -> (r: Vec<(u8, u8, u8)>)
        ensures
            r@ == simple_system_palette(),
            r@.len() == 64,
    {
        let toreturn: Vec<(u8, u8, u8)> = vec![
            (0x80, 0x80, 0x80),
            (0x00, 0x3D, 0xA6),
            (0x00, 0x12, 0xB0),
            (0x44, 0x00, 0x96),
            (0xA1, 0x00, 0x5E),
            (0xC7, 0x00, 0x28),
            (0xBA, 0x06, 0x00),
            (0x8C, 0x17, 0x00),
            (0x5C, 0x2F, 0x00),
            (0x10, 0x45, 0x00),
            (0x05, 0x4A, 0x00),
            (0x00, 0x47, 0x2E),
            (0x00, 0x41, 0x66),
            (0x00, 0x00, 0x00),
            (0x05, 0x05, 0x05),
            (0x05, 0x05, 0x05),
            (0xC7, 0xC7, 0xC7),
            (0x00, 0x77, 0xFF),
            (0x21, 0x55, 0xFF),
            (0x82, 0x37, 0xFA),
            (0xEB, 0x2F, 0xB5),
            (0xFF, 0x29, 0x50),
            (0xFF, 0x22, 0x00),
            (0xD6, 0x32, 0x00),
            (0xC4, 0x62, 0x00),
            (0x35, 0x80, 0x00),
            (0x05, 0x8F, 0x00),
            (0x00, 0x8A, 0x55),
            (0x00, 0x99, 0xCC),
            (0x21, 0x21, 0x21),
            (0x09, 0x09, 0x09),
            (0x09, 0x09, 0x09),
            (0xFF, 0xFF, 0xFF),
            (0x0F, 0xD7, 0xFF),
            (0x69, 0xA2, 0xFF),
            (0xD4, 0x80, 0xFF),
            (0xFF, 0x45, 0xF3),
            (0xFF, 0x61, 0x8B),
            (0xFF, 0x88, 0x33),
            (0xFF, 0x9C, 0x12),
            (0xFA, 0xBC, 0x20),
            (0x9F, 0xE3, 0x0E),
            (0x2B, 0xF0, 0x35),
            (0x0C, 0xF0, 0xA4),
            (0x05, 0xFB, 0xFF),
            (0x5E, 0x5E, 0x5E),
            (0x0D, 0x0D, 0x0D),
            (0x0D, 0x0D, 0x0D),
            (0xFF, 0xFF, 0xFF),
            (0xA6, 0xFC, 0xFF),
            (0xB3, 0xEC, 0xFF),
            (0xDA, 0xAB, 0xEB),
            (0xFF, 0xA8, 0xF9),
            (0xFF, 0xAB, 0xB3),
            (0xFF, 0xD2, 0xB0),
            (0xFF, 0xEF, 0xA6),
            (0xFF, 0xF7, 0x9C),
            (0xD7, 0xE8, 0x95),
            (0xA6, 0xED, 0xAF),
            (0xA2, 0xF2, 0xDA),
            (0x99, 0xFF, 0xFC),
            (0xDD, 0xDD, 0xDD),
            (0x11, 0x11, 0x11),
            (0x11, 0x11, 0x11),
        ];
        proof {
            reveal(simple_system_palette);
            assert(toreturn@ =~= simple_system_palette());
        }
        toreturn
    }

    /// A PPU with every register and memory cleared.
    pub fn new() -> (r: Self)
        ensures
            r@.wf(),
            r@.ctrl == 0 && r@.mask == 0 && r@.status == 0 && r@.oamaddr == 0,
            r@.buffer == 0 && r@.latch == 0 && r@.vram_addr == 0 && r@.tram_addr == 0 && r@.fine_x == 0,
            r@.pattern == seq![Seq::new(4096, |i: int| 0u8), Seq::new(4096, |i: int| 0u8)],
            r@.name == seq![Seq::new(1024, |i: int| 0u8), Seq::new(1024, |i: int| 0u8)],
            r@.palette == Seq::new(32, |i: int| 0u8),
    {
        let p0: Vec<u8> = vec![0; 4096];
        let p1: Vec<u8> = vec![0; 4096];
        let n0: Vec<u8> = vec![0; 1024];
        let n1: Vec<u8> = vec![0; 1024];
        let tbl_palette: Vec<u8> = vec![0; 32];
        assert(p0@ =~= Seq::new(4096, |i: int| 0u8));
        assert(p1@ =~= Seq::new(4096, |i: int| 0u8));
        assert(n0@ =~= Seq::new(1024, |i: int| 0u8));
        assert(n1@ =~= Seq::new(1024, |i: int| 0u8));
        let mut tbl_pattern: Vec<Vec<u8>> = Vec::new();
        tbl_pattern.push(p0);
        tbl_pattern.push(p1);
        let mut tbl_name: Vec<Vec<u8>> = Vec::new();
        tbl_name.push(n0);
        tbl_name.push(n1);
        let r = Self {
            ppuctrl: 0,
            ppumask: 0,
            ppustatus: 0,
            oamaddr: 0,
            oamdata: 0,
            ppuscroll: 0,
            ppuaddr: 0,
            ppudata: 0,
            oamdma: 0,
            ppu_buffer: 0,
            address_latch: 0,
            vram_addr: 0,
            tram_addr: 0,
            fine_x: 0,
            tbl_pattern,
            tbl_name,
            tbl_palette,
            system_palette: Ppu::get_sys_palette(),
        };
        proof {
            assert(r@.pattern[0] == Seq::new(4096, |i: int| 0u8));
            assert(r@.pattern[1] == Seq::new(4096, |i: int| 0u8));
            assert(r@.name[0] == Seq::new(1024, |i: int| 0u8));
            assert(r@.name[1] == Seq::new(1024, |i: int| 0u8));
            assert(r@.pattern =~= seq![Seq::new(4096, |i: int| 0u8), Seq::new(4096, |i: int| 0u8)]);
            assert(r@.name =~= seq![Seq::new(1024, |i: int| 0u8), Seq::new(1024, |i: int| 0u8)]);
            assert(r@.palette =~= Seq::new(32, |i: int| 0u8));
        }
        r
    }

    /// A PPU-bus read (see `simple_read`).
    pub fn ppu_read(&self, cart: &Cartridge, address: u16, readonly: bool) -> (r: u8)
        requires
            self@.wf(),
            cart.ppu_read_in_bounds(address),
        ensures
            r == simple_read(self@, *cart, address),
    {
        let mut data: u8 = 0;
        let success = cart.ppu_read(address, &mut data);
        proof {
            lemma_word_masks(address);
            lemma_word_fields(address);
        }
        if success {
        } else if address <= 0x1FFF {
            proof {
                assert(self@.pattern[address as int / 4096] == self.tbl_pattern@[address as int / 4096]@);
            }
            data = self.tbl_pattern[((address & 0x1000) >> 12) as usize][(address & 0xFFF) as usize];
        } else if address >= 0x2000 && address <= 0x3EFF {
            let mirror = cart.get_mirror();
            match mirror {
                Mirror::VERTICAL => {
                    if address <= 0x3FF {
                        data = self.tbl_name[0][(address & 0x3FF) as usize];
                    } else if address >= 0x400 && address <= 0x7FF {
                        data = self.tbl_name[1][(address & 0x3FF) as usize];
                    } else if address >= 0x800 && address <= 0xBFF {
                        data = self.tbl_name[0][(address & 0x3FF) as usize];
                    } else if address >= 0xC00 && address <= 0xFFF {
                        data = self.tbl_name[1][(address & 0x3FF) as usize];
                    }
                },
                Mirror::HORIZONTAL => {
                    if address <= 0x3FF {
                        data = self.tbl_name[0][(address & 0x3FF) as usize];
                    } else if address >= 0x400 && address <= 0x7FF {
                        data = self.tbl_name[0][(address & 0x3FF) as usize];
                    } else if address >= 0x800 && address <= 0xBFF {
                        data = self.tbl_name[1][(address & 0x3FF) as usize];
                    } else if address >= 0xC00 && address <= 0xFFF {
                        data = self.tbl_name[1][(address & 0x3FF) as usize];
                    }
                },
            };
        } else if address >= 0x3F00 && address <= 0x3FFF {
            let address = address & 0x1F;
            let address = match address {
                0x10 => 0x0,
                0x14 => 0x4,
                0x18 => 0x8,
                0x1C => 0xC,
                _ => address,
            };
            let temp = self.tbl_palette[address as usize];
            let and_mask: u8 = if self.ppumask & 1 != 0 {
                0x30
            } else {
                0x3F
            };
            data = temp & and_mask;
        }
        data
    }

    /// A PPU-bus write of `data` to `address` modulo $4000: to CHR memory
    /// where the board takes it, else to pattern, nametable (mirrored as
    /// the cartridge says) or palette memory.
    #[verifier::rlimit(40)]
    pub fn ppu_write(&mut self, cart: &mut Cartridge, address: u16, data: u8)
        requires
            old(self)@.wf(),
            write_fits(*old(cart), address),
        ensures
            ({
                let a = (address as int % 0x4000) as u16;
                let taken = old(cart).board().ppu_write_mapping(a);
                &&& final(self)@ == if taken { old(self)@ } else { simple_written(old(self)@, old(cart).mirror(), address, data) }
                &&& final(cart).chr() == if taken { old(cart).chr().update(a as int, data) } else { old(cart).chr() }
            }),
            final(self)@.wf(),
            final(cart).prg() == old(cart).prg(),
            final(cart).mirror() == old(cart).mirror(),
            final(cart).board() == old(cart).board(),
    {
        proof {
            lemma_word_masks(address);
        }
        let address = address & 0x3FFF;
        proof {
            lemma_word_masks(address);
            lemma_word_fields(address);
        }
        let success = cart.ppu_write(address, data);
        if success {
        } else if address <= 0x1FFF {
            let page = ((address & 0x1000) >> 12) as usize;
            let mut table: Vec<u8> = Vec::new();
            std::mem::swap(&mut table, &mut self.tbl_pattern[page]);
            table.set((address & 0xFFF) as usize, data);
            self.tbl_pattern.set(page, table);
        } else if address >= 0x2000 && address <= 0x3EFF {
            let address = address & 0xFFF;
            proof {
                lemma_word_masks(address);
            }
            let page: usize = match cart.get_mirror() {
                Mirror::VERTICAL => {
                    if address <= 0x3FF {
                        0
                    } else if address >= 0x400 && address <= 0x7FF {
                        1
                    } else if address >= 0x800 && address <= 0xBFF {
                        0
                    } else {
                        1
                    }
                },
                Mirror::HORIZONTAL => {
                    if address <= 0x3FF {
                        0
                    } else if address >= 0x400 && address <= 0x7FF {
                        0
                    } else if address >= 0x800 && address <= 0xBFF {
                        1
                    } else {
                        1
                    }
                },
            };
            let mut table: Vec<u8> = Vec::new();
            std::mem::swap(&mut table, &mut self.tbl_name[page]);
            table.set((address & 0x3FF) as usize, data);
            self.tbl_name.set(page, table);
        } else if address >= 0x3F00 && address <= 0x3FFF {
            let address = address & 0x1F;
            let address = match address {
                0x10 => 0x0,
                0x14 => 0x4,
                0x18 => 0x8,
                0x1C => 0xC,
                _ => address,
            };
            self.tbl_palette.set(address as usize, data);
        }
        proof {
            assert(self@.pattern =~= (if old(cart).board().ppu_write_mapping(address) { old(self)@ } else {
                simple_written(old(self)@, old(cart).mirror(), address, data)
            }).pattern);
            assert(self@.name =~= (if old(cart).board().ppu_write_mapping(address) { old(self)@ } else {
                simple_written(old(self)@, old(cart).mirror(), address, data)
            }).name);
        }
    }

    /// A CPU write of `data` to register `address` (see
    /// `simple_register_written`); a data write goes to the PPU bus first.
    pub fn cpu_write(&mut self, cart: &mut Cartridge, address: u16, data: u8)
        requires
            old(self)@.wf(),
            address == 0 || address == 1 || address == 5 || address == 6 || address == 7,
            address == 7 ==> old(self)@.vram_addr + old(self)@.increment() <= 0xFFFF,
            address == 7 ==> write_fits(*old(cart), old(self)@.vram_addr),
        ensures
            final(self)@.wf(),
            address != 7 ==> final(self)@ == simple_register_written(old(self)@, address, data) && *final(cart)
                == *old(cart),
            address == 7 ==> {
                let v = old(self)@.vram_addr;
                let a = (v as int % 0x4000) as u16;
                let taken = old(cart).board().ppu_write_mapping(a);
                let q = if taken { old(self)@ } else { simple_written(old(self)@, old(cart).mirror(), v, data) };
                &&& final(self)@ == simple_register_written(q, 7, data)
                &&& final(cart).chr() == if taken { old(cart).chr().update(a as int, data) } else { old(cart).chr() }
                &&& final(cart).prg() == old(cart).prg()
                &&& final(cart).mirror() == old(cart).mirror()
                &&& final(cart).board() == old(cart).board()
            },
    {
        if address == 0 {
            self.ppuctrl = data;
            if self.ppuctrl & 0x1 != 0 {
                self.tram_addr = self.tram_addr | 0x0400;
            } else {
                self.tram_addr = self.tram_addr & !0x0400;
            }
            if self.ppuctrl & 0x2 != 0 {
                self.tram_addr = self.tram_addr | 0x0800;
            } else {
                self.tram_addr = self.tram_addr & !0x0800;
            }
        } else if address == 1 {
            self.ppumask = data;
        } else if address == 5 {
            if self.address_latch == 0 {
                self.fine_x = data & 0x07;
                let temp = data >> 3;
                let temp = temp as u16 & 0x1F;
                self.tram_addr = self.tram_addr & !0x1F;
                self.tram_addr = self.tram_addr | temp;
                self.address_latch = 1;
            } else {
                let temp = data as u16 & 0x07;
                let temp = temp << 12;
                self.tram_addr = self.tram_addr & !0x7000;
                self.tram_addr = self.tram_addr | temp;
                let temp = data as u16 >> 3;
                let temp = temp & 0x1F;
                let temp = temp << 5;
                self.tram_addr = self.tram_addr & !0x03E0;
                self.tram_addr = self.tram_addr | temp;
                self.address_latch = 0;
            }
        } else if address == 6 {
            if self.address_latch == 0 {
                self.tram_addr = ((data as u16 & 0x3F) << 8) | (self.tram_addr & 0xFF);
                self.address_latch = 1;
            } else {
                self.tram_addr = (self.tram_addr & 0xFF) | data as u16;
                self.vram_addr = self.tram_addr;
                self.address_latch = 0;
            }
        } else {
            let v = self.vram_addr;
            self.ppu_write(cart, v, data);
            let step: u16 = if self.ppuctrl & 0x4 != 0 {
                32
            } else {
                1
            };
            self.vram_addr = self.vram_addr + step;
        }
    }

    /// A CPU read of register `address` (see `simple_register_value` and
    /// `simple_register_read`).
    pub fn cpu_read(&mut self, cart: &Cartridge, address: u16, readonly: bool) -> (r: u8)
        requires
            old(self)@.wf(),
            !readonly && address == 7 ==> old(self)@.vram_addr + old(self)@.increment() <= 0xFFFF,
            !readonly && address == 7 ==> cart.ppu_read_in_bounds(old(self)@.vram_addr),
        ensures
            r == simple_register_value(old(self)@, *cart, address, readonly),
            final(self)@ == simple_register_read(old(self)@, *cart, address, readonly),
            final(self)@.wf(),
    {
        if readonly {
            if address == 0 {
                self.ppuctrl
            } else if address == 1 {
                self.ppumask
            } else if address == 2 {
                self.ppustatus
            } else {
                0
            }
        } else if address == 2 {
            let temp = (self.ppustatus & 0xE0) | (self.ppu_buffer & 0x1F);
            self.ppustatus = self.ppustatus & 0x7F;
            self.address_latch = 0;
            temp
        } else if address == 7 {
            let temp = self.ppu_buffer;
            self.ppu_buffer = self.ppu_read(cart, self.vram_addr, true);
            let temp = if self.vram_addr >= 0x3FF0 {
                self.ppu_buffer
            } else {
                temp
            };
            let step: u16 = if self.ppuctrl & 0x04 != 0 {
                32
            } else {
                1
            };
            self.vram_addr = self.vram_addr + step;
            temp
        } else {
            0
        }
    }

    /// Draws pattern table `index` in palette `palette` into a new 128 x
    /// 128 frame (see `pallet_draw`; the frame places a pixel by its x
    /// position alone).
    #[verifier::rlimit(60)]
    pub fn make_pallet_table(&mut self, cart: &Cartridge, index: u8, palette: u8) -> (r: Frame)
        requires
            old(self)@.wf(),
            index < 16,
            forall|a: u16| cart.ppu_read_in_bounds(a),
        ensures
            r.xsize() == 128,
            r.ysize() == 128,
            r.bytes() == pallet_bytes(old(self)@, *cart, index, palette, Seq::new(49152, |i: int| 0u8), 128, 16384),
            final(self)@ == old(self)@,
    {
        let ghost p = self@;
        let ghost zero = Seq::new(49152, |i: int| 0u8);
        let mut buffer = Frame::new(128, 128);
        let mut y: u16 = 0;
        while y < 16
            invariant
                self@ == p,
                p == old(self)@,
                p.wf(),
                index < 16,
                forall|a: u16| cart.ppu_read_in_bounds(a),
                0 <= y <= 16,
                buffer.xsize() == 128,
                buffer.ysize() == 128,
                buffer.bytes() == pallet_bytes(p, *cart, index, palette, zero, 128, y as int * 1024),
            decreases 16 - y,
        {
            let mut x: u16 = 0;
            while x < 16
                invariant
                    self@ == p,
                    p.wf(),
                    index < 16,
                    forall|a: u16| cart.ppu_read_in_bounds(a),
                    0 <= y < 16,
                    0 <= x <= 16,
                    buffer.xsize() == 128,
                    buffer.ysize() == 128,
                    buffer.bytes() == pallet_bytes(p, *cart, index, palette, zero, 128, y as int * 1024 + x as int * 64),
                decreases 16 - x,
            {
                let offset: u16 = x * 16 + y * 256;
                let mut row: u16 = 0;
                while row < 8
                    invariant
                        self@ == p,
                        p.wf(),
                        index < 16,
                        forall|a: u16| cart.ppu_read_in_bounds(a),
                        0 <= y < 16,
                        0 <= x < 16,
                        0 <= row <= 8,
                        offset == x * 16 + y * 256,
                        buffer.xsize() == 128,
                        buffer.ysize() == 128,
                        buffer.bytes() == pallet_bytes(p, *cart, index, palette, zero, 128,
                            y as int * 1024 + x as int * 64 + row as int * 8),
                    decreases 8 - row,
                {
                    let base: u16 = index as u16 * 0x1000 + offset + row;
                    let lsb = self.ppu_read(cart, base + 0x0000, true);
                    let msb = self.ppu_read(cart, base + 0x0008, true);
                    let mut tile_lsb = lsb;
                    let mut tile_msb = msb;
                    assert(lsb >> 0u8 == lsb && msb >> 0u8 == msb) by (bit_vector);
                    let mut col: u16 = 0;
                    while col < 8
                        invariant
                            self@ == p,
                            p.wf(),
                            index < 16,
                            forall|a: u16| cart.ppu_read_in_bounds(a),
                            0 <= y < 16,
                            0 <= x < 16,
                            0 <= row < 8,
                            0 <= col <= 8,
                            base == index as int * 0x1000 + x * 16 + y * 256 + row,
                            lsb == simple_read(p, *cart, base),
                            msb == simple_read(p, *cart, (base + 8) as u16),
                            col < 8 ==> tile_lsb == lsb >> (col as u8),
                            col < 8 ==> tile_msb == msb >> (col as u8),
                            buffer.xsize() == 128,
                            buffer.ysize() == 128,
                            buffer.bytes() == pallet_bytes(p, *cart, index, palette, zero, 128,
                                y as int * 1024 + x as int * 64 + row as int * 8 + col as int),
                        decreases 8 - col,
                    {
                        let c8 = col as u8;
                        assert((tile_lsb & 1u8) | ((tile_msb & 1u8) << 1u8) == (tile_lsb & 1u8) + (tile_msb & 1u8) * 2
                            && (tile_lsb & 1u8) | ((tile_msb & 1u8) << 1u8) < 4) by (bit_vector);
                        assert(c8 < 7 ==> (lsb >> c8) >> 1u8 == lsb >> (c8 + 1) && (msb >> c8) >> 1u8 == msb >> (c8
                            + 1)) by (bit_vector);
                        let pixel = (tile_lsb & 0x1) | ((tile_msb & 0x01) << 1);
                        tile_lsb = tile_lsb >> 1;
                        tile_msb = tile_msb >> 1;
                        let pal16 = palette as u16;
                        assert(pal16 << 2u16 == pal16 * 4) by (bit_vector)
                            requires
                                pal16 < 256,
                        ;
                        let color_index = self.ppu_read(cart, 0x3F00 + ((palette as u16) << 2) + pixel as u16, true);
                        proof {
                            let pal = (palette as u16);
                            assert(pal << 2u16 == pal * 4) by (bit_vector)
                                requires
                                    pal < 256,
                            ;
                            let v = p.palette[palette_index((0x3F00 + palette as int * 4 + pixel) as u16)];
                            assert(v & 0x30u8 < 64 && v & 0x3Fu8 < 64) by (bit_vector);
                            lemma_pallet_step(y as int, x as int, row as int, col as int);
                        }
                        let color = self.system_palette[color_index as usize];
                        let xs = x as usize;
                        let mask = 8 + (7 - col as usize);
                        assert(xs & mask <= xs) by (bit_vector);
                        buffer.draw_pixel(x as usize & 8 + (7 - col as usize), y as usize * 8 + row as usize, color);
                        col = col + 1;
                    }
                    row = row + 1;
                }
                x = x + 1;
            }
            y = y + 1;
        }
        buffer
    }
}

} // verus!

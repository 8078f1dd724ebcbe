//! One PPU clock: background fetches, scroll updates, the background pixel,
//! sprite evaluation, the sprite-0 hit, the mapper's scanline signal and
//! the beam's advance with vertical blank.
use vstd::prelude::*;
use crate::bits::{lemma_byte_masks, lemma_word_masks, lemma_word_fields, lemma_byte_arith, lemma_quadrant_bits, lemma_selected_bit};
use crate::cartridge::{Cartridge, lemma_same_cart, mapper004};
use super::{Ppu, PpuView, ppu_read_spec, palette_color, bg_palette_address};
use super::frame::{Frame, pack_rgb};
use super::registers::{has_flag, incremented_x, incremented_y, transferred_x, transferred_y, nametable_address_of,
    attribute_address_of, coarse_x_of, coarse_y_of, fine_y_of, CTRL_BACKGROUND_PATTERN_TABLE, CTRL_VBLANK_ENABLE,
    MASK_ENABLE_BACKGROUND, MASK_ENABLE_SPRITES, MASK_SPRITES_LEFTMOST, STATUS_SPRITE0_HIT, STATUS_VBLANK,
    STATUS_SPRITE_OVERFLOW};
use super::render::{picture_fits, sprites_on_line, draw_sprites, sprite0_found};

verus! {

/// Whether `cycle` is one of the background fetch cycles of a scanline.
pub open spec fn fetch_cycle(cycle: u16) -> bool {
    (1 <= cycle < 256) || (321 <= cycle <= 338)
}

/// The pattern address of the background tile row to fetch.
pub open spec fn pattern_address_of(p: PpuView) -> int {
    (if has_flag(p.ctrl, CTRL_BACKGROUND_PATTERN_TABLE) { 0x1000int } else { 0 })
        + p.next_nametable_tile as int * 16 + fine_y_of(p.v)
}

/// The shift registers with the fetched bytes in their low halves.
pub open spec fn loaded(p: PpuView) -> PpuView {
    PpuView {
        pattern_lo: (p.pattern_lo - p.pattern_lo % 256 + p.next_pattern_lo) as u16,
        pattern_hi: (p.pattern_hi - p.pattern_hi % 256 + p.next_pattern_hi) as u16,
        attribute_lo: (p.attribute_lo - p.attribute_lo % 256 + p.next_attribute_lo) as u16,
        attribute_hi: (p.attribute_hi - p.attribute_hi % 256 + p.next_attribute_hi) as u16,
        ..p
    }
}

/// The two palette bits of the attribute byte `attr` for the tile that
/// `v` points at (the quadrant of its 32 x 32 pixel area).
pub open spec fn attribute_bits(attr: u8, v: u16) -> u16 {
    let a1 = if coarse_y_of(v) % 4 >= 2 { attr as int / 16 } else { attr as int };
    let a2 = if coarse_x_of(v) % 4 >= 2 { a1 / 4 } else { a1 };
    (a2 % 4) as u16
}

/// The reload of the shift registers and the fetch of the next tile
/// number from the nametable.
pub open spec fn nametable_fetched(p: PpuView, cart: Cartridge) -> PpuView {
    let q = loaded(p);
    PpuView { next_nametable_tile: ppu_read_spec(q, cart, nametable_address_of(q.v) as u16) as u16, ..q }
}

/// The fetch of the tile's attribute bits.
pub open spec fn attribute_fetched(p: PpuView, cart: Cartridge) -> PpuView {
    PpuView {
        next_attribute_tile: attribute_bits(ppu_read_spec(p, cart, attribute_address_of(p.v) as u16), p.v),
        ..p
    }
}

/// The fetch of the low pattern byte, with the low attribute bit spread
/// over a byte.
pub open spec fn low_fetched(p: PpuView, cart: Cartridge) -> PpuView {
    PpuView {
        next_pattern_lo: ppu_read_spec(p, cart, pattern_address_of(p) as u16) as u16,
        next_attribute_lo: if p.next_attribute_tile % 2 == 1 { 0xFFu16 } else { 0 },
        ..p
    }
}

/// The fetch of the high pattern byte, with the high attribute bit spread
/// over a byte.
pub open spec fn high_fetched(p: PpuView, cart: Cartridge) -> PpuView {
    PpuView {
        next_pattern_hi: ppu_read_spec(p, cart, (pattern_address_of(p) + 8) as u16) as u16,
        next_attribute_hi: if (p.next_attribute_tile / 2) % 2 == 1 { 0xFFu16 } else { 0 },
        ..p
    }
}

/// The step of the eight-cycle fetch pattern at the current cycle:
/// reload and nametable byte, attribute bits, low and high pattern bytes,
/// and the move to the next tile.
pub open spec fn fetch_step(p: PpuView, cart: Cartridge) -> PpuView {
    let phase = (p.cycle - 1) % 8;
    if !fetch_cycle(p.cycle) {
        p
    } else if phase == 0 {
        nametable_fetched(p, cart)
    } else if phase == 2 {
        attribute_fetched(p, cart)
    } else if phase == 4 {
        low_fetched(p, cart)
    } else if phase == 6 {
        high_fetched(p, cart)
    } else if phase == 7 && p.rendering() {
        PpuView { v: incremented_x(p.v), ..p }
    } else {
        p
    }
}

/// Cycle 0 of the pre-render and visible scanlines is idle: the clock
/// spends it doing nothing but moving the beam on.
pub open spec fn idle_cycle(p: PpuView) -> bool {
    -1 <= p.scanline < 240 && p.cycle == 0
}

/// The background work of the pre-render and visible scanlines after
/// their idle cycle 0: the fetch step runs, and at cycle 256 `v` moves
/// down a line and takes the horizontal scroll from `t` (while
/// rendering).
pub open spec fn background_phase(p: PpuView, cart: Cartridge) -> PpuView {
    if -1 <= p.scanline < 240 && p.cycle != 0 {
        let p2 = fetch_step(p, cart);
        if p2.cycle == 256 && p2.rendering() {
            PpuView { v: transferred_x(incremented_y(p2.v), p2.t), ..p2 }
        } else {
            p2
        }
    } else {
        p
    }
}

/// On the pre-render line, cycles 280 to 304 take the vertical scroll
/// from `t` (while rendering).
pub open spec fn vertical_phase(p: PpuView) -> PpuView {
    if p.scanline == -1 && 280 <= p.cycle <= 304 && p.rendering() {
        PpuView { v: transferred_y(p.v, p.t), ..p }
    } else {
        p
    }
}

/// Whether the bit of shift register `r` that fine X scroll `x` selects
/// is set.
pub open spec fn selected_bit(r: u16, x: u8) -> u16 {
    if r & (0x8000u16 >> x) != 0 { 1 } else { 0 }
}

/// The background colour number under the beam.
pub open spec fn bg_pixel(p: PpuView) -> u8 {
    (selected_bit(p.pattern_hi, p.x) * 2 + selected_bit(p.pattern_lo, p.x)) as u8
}

/// The background palette number under the beam.
pub open spec fn bg_palette(p: PpuView) -> u8 {
    (selected_bit(p.attribute_hi, p.x) * 2 + selected_bit(p.attribute_lo, p.x)) as u8
}

/// The colour of the background pixel under the beam; in the leftmost 8
/// cycles, with sprites hidden there, the backdrop colour.
pub open spec fn bg_color(p: PpuView, cart: Cartridge) -> (u8, u8, u8) {
    if !has_flag(p.mask, MASK_SPRITES_LEFTMOST) && p.cycle < 8 {
        palette_color(p, cart, bg_palette_address(p.mask, 0, 0))
    } else {
        palette_color(p, cart, bg_palette_address(p.mask, bg_palette(p) % 4, bg_pixel(p)))
    }
}

/// The PPU and frame pixels after the background pixel of this cycle:
/// while rendering, the shift registers move on and, on a visible pixel,
/// the colour number is recorded and (with the background enabled) the
/// colour drawn.
pub open spec fn pixel_phase(p: PpuView, cart: Cartridge, pixels: Seq<u32>, width: int) -> (PpuView, Seq<u32>) {
    if p.rendering() && !idle_cycle(p) {
        let shifted = PpuView {
            pattern_lo: ((p.pattern_lo as int * 2) % 65536) as u16,
            pattern_hi: ((p.pattern_hi as int * 2) % 65536) as u16,
            attribute_lo: ((p.attribute_lo as int * 2) % 65536) as u16,
            attribute_hi: ((p.attribute_hi as int * 2) % 65536) as u16,
            ..p
        };
        if 0 < p.cycle < 256 && 0 <= p.scanline < 240 {
            let x = p.cycle - 1;
            let y = p.scanline as int;
            (
                PpuView { frame: p.frame.update(x, p.frame[x].update(y, bg_pixel(p))), ..shifted },
                if has_flag(p.mask, MASK_ENABLE_BACKGROUND) {
                    pixels.update(y * width + x, pack_rgb(bg_color(p, cart)))
                } else {
                    pixels
                },
            )
        } else {
            (shifted, pixels)
        }
    } else {
        (p, pixels)
    }
}

/// At cycle 257 of a visible scanline the sprites on it are evaluated and
/// drawn.
pub open spec fn sprite_phase(p: PpuView, cart: Cartridge, pixels: Seq<u32>, width: int) -> (PpuView, Seq<u32>) {
    if p.cycle == 257 && 0 <= p.scanline < 240 {
        let list = sprites_on_line(p, p.scanline as int);
        let flagged = if list.len() > 8 {
            PpuView { status: p.status | STATUS_SPRITE_OVERFLOW, ..p }
        } else {
            p
        };
        draw_sprites(flagged, cart, pixels, width, list, p.scanline as int, list.len() as int)
    } else {
        (p, pixels)
    }
}

/// The sprite-0 hit flag rises when the beam reaches the first opaque
/// pixel of sprite 0.
pub open spec fn hit_phase(p: PpuView) -> PpuView {
    if p.scanline - 1 == (p.sprite0_y as i16) as int && p.cycle == p.sprite0_x && p.sprite0_possible
        && !idle_cycle(p) {
        PpuView { status: p.status | STATUS_SPRITE0_HIT, ..p }
    } else {
        p
    }
}

/// Whether this cycle signals the end of a scanline to the mapper.
pub open spec fn scanline_signal(p: PpuView) -> bool {
    p.rendering() && p.cycle == 260 && p.scanline < 240
}

/// Drawing sprites depends on the cartridge only through what it reads.
proof fn lemma_draw_sprites_cart(p: PpuView, a: Cartridge, b: Cartridge, pixels: Seq<u32>, width: int)
    requires
        forall|addr: u16| #[trigger] ppu_read_spec(p, a, addr) == ppu_read_spec(p, b, addr),
    ensures
        sprite_phase(p, a, pixels, width) == sprite_phase(p, b, pixels, width),
{
    if p.cycle == 257 && 0 <= p.scanline < 240 {
        let list = sprites_on_line(p, p.scanline as int);
        let flagged = if list.len() > 8 {
            PpuView { status: p.status | STATUS_SPRITE_OVERFLOW, ..p }
        } else {
            p
        };
        assert forall|addr: u16| #[trigger] ppu_read_spec(flagged, a, addr) == ppu_read_spec(flagged, b, addr) by {
            assert(ppu_read_spec(flagged, a, addr) == ppu_read_spec(p, a, addr));
            assert(ppu_read_spec(flagged, b, addr) == ppu_read_spec(p, b, addr));
        }
        super::render::lemma_draw_sprites_cart(flagged, a, b, pixels, width, list, p.scanline as int, list.len() as int);
    }
}

/// The background pixel depends on the cartridge only through what it
/// reads.
proof fn lemma_pixel_phase_cart(p: PpuView, a: Cartridge, b: Cartridge, pixels: Seq<u32>, width: int)
    requires
        forall|addr: u16| #[trigger] ppu_read_spec(p, a, addr) == ppu_read_spec(p, b, addr),
    ensures
        pixel_phase(p, a, pixels, width) == pixel_phase(p, b, pixels, width),
        pixel_phase(p, a, pixels, width).0.vram == p.vram,
        pixel_phase(p, a, pixels, width).0.palette == p.palette,
{
}

/// `b` is cartridge `a` after the mapper has seen a scanline end.
pub open spec fn cart_after_scanline(a: Cartridge, b: Cartridge) -> bool {
    &&& b.wf()
    &&& b.prg() == a.prg()
    &&& b.chr() == a.chr()
    &&& b.header() == a.header()
    &&& a.mapper().same_but_mmc3(b.mapper(), |v: mapper004::Mapper004View| v.after_scanline())
}

/// Whether this cycle ends its line early: on odd frames the pre-render
/// line skips its last cycle, 340.
pub open spec fn skips_last_cycle(p: PpuView) -> bool {
    p.scanline == -1 && p.odd_frame && p.cycle == 339
}

/// The beam's next position and the vertical-blank bookkeeping, before
/// the end of the frame: the cycle advances (past 340, or past 339 on the
/// pre-render line of an odd frame, to the next line), and vertical blank
/// starts at line 241 cycle 1 (with an NMI if enabled).
pub open spec fn advanced(p: PpuView) -> PpuView {
    let c1 = p.cycle + 1;
    let wraps = c1 > 340 || skips_last_cycle(p);
    let c = if wraps { 0 } else { c1 };
    let s = if wraps { p.scanline + 1 } else { p.scanline as int };
    let vblank = s == 241 && c == 1;
    let status = if vblank { p.status | STATUS_VBLANK } else { p.status };
    let nmi = if vblank && has_flag(p.ctrl, CTRL_VBLANK_ENABLE) { true } else { p.nmi };
    PpuView {
        cycle: c as u16,
        scanline: s as i16,
        status,
        nmi,
        total_cycles: if p.total_cycles == usize::MAX { 0 } else { (p.total_cycles + 1) as usize },
        ..p
    }
}

/// `q` follows `p` at the end of the clock: past line 260 the frame ends,
/// the scanline returns to the pre-render line, vertical blank, sprite-0
/// hit and overflow clear, the frame parity flips, and sprite 0 is
/// searched for anew.
pub open spec fn timing_phase(p: PpuView, cart: Cartridge, q: PpuView) -> bool {
    let a = advanced(p);
    if a.scanline > 260 {
        let r = PpuView {
            scanline: -1i16,
            status: a.status & !(STATUS_VBLANK | STATUS_SPRITE0_HIT | STATUS_SPRITE_OVERFLOW),
            odd_frame: !a.odd_frame,
            ..a
        };
        sprite0_found(r, cart, q)
    } else {
        q == a
    }
}

/// One PPU clock takes the PPU `p`, the cartridge `c` and the picture
/// `pixels` (`width` to a row) to `q`, `c2` and `pixels2`: the background
/// fetches and scroll updates, the background pixel, sprite evaluation,
/// the sprite-0 hit, the mapper's scanline signal and the beam's advance.
pub open spec fn clocked(p: PpuView, c: Cartridge, pixels: Seq<u32>, width: int, q: PpuView, c2: Cartridge,
    pixels2: Seq<u32>) -> bool {
    let a = background_phase(p, c);
    let b = vertical_phase(a);
    let x = pixel_phase(b, c, pixels, width);
    let d = sprite_phase(x.0, c, x.1, width);
    let e = hit_phase(d.0);
    &&& pixels2 == d.1
    &&& if scanline_signal(e) {
        cart_after_scanline(c, c2)
    } else {
        c.same(&c2)
    }
    &&& timing_phase(e, c2, q)
}

/// A scanline signal after accesses that left the cartridge the same is
/// still one scanline signal; no signal leaves it the same.
proof fn lemma_cart_chain(a: Cartridge, b: Cartridge, c: Cartridge)
    requires
        a.same(&b),
    ensures
        cart_after_scanline(b, c) ==> cart_after_scanline(a, c),
        b.same(&c) ==> a.same(&c),
{
    lemma_same_cart(a, b, c, 0, 0);
}

impl Ppu {
    fn fetch_nametable(&mut self, cart: &mut Cartridge)
        requires
            old(self)@.wf(),
            old(cart).wf(),
        ensures
            final(self)@ == nametable_fetched(old(self)@, *old(cart)),
            final(self)@.wf(),
            old(cart).same(final(cart)),
    {
        self.loadregisters();
        let address = self.vreg().get_nametable_address();
        let tile = self.ppu_read(cart, address);
        self.set_next_nametable_tile(tile as u16);
    }

    fn fetch_attribute(&mut self, cart: &mut Cartridge)
        requires
            old(self)@.wf(),
            old(cart).wf(),
        ensures
            final(self)@ == attribute_fetched(old(self)@, *old(cart)),
            final(self)@.wf(),
            old(cart).same(final(cart)),
    {
        let address = self.vreg().get_attribute_address();
        let attr_byte = self.ppu_read(cart, address);
        let coarse_y = self.vreg().get_coarse_yscroll();
        let coarse_x = self.vreg().get_coarse_xscroll();
        let a0 = attr_byte as u16;
        let a1: u16 = if coarse_y & 2 != 0 {
            a0 >> 4
        } else {
            a0
        };
        let a2: u16 = if coarse_x & 2 != 0 {
            a1 >> 2
        } else {
            a1
        };
        proof {
            lemma_byte_masks(coarse_y);
            lemma_byte_masks(coarse_x);
            lemma_word_fields(a0);
            lemma_word_fields(a1);
            lemma_word_fields(a2);
        }
        let attribute = a2 & 3;
        self.set_next_attribute_tile(attribute);
    }

    fn fetch_low(&mut self, cart: &mut Cartridge)
        requires
            old(self)@.wf(),
            old(cart).wf(),
        ensures
            final(self)@ == low_fetched(old(self)@, *old(cart)),
            final(self)@.wf(),
            old(cart).same(final(cart)),
    {
        let address = self.get_pattern_address();
        let lo = self.ppu_read(cart, address);
        let t = self.next_attribute();
        proof {
            lemma_word_masks(t);
        }
        let attribute_lo: u16 = if t & 1 > 0 {
            0xFF
        } else {
            0x00
        };
        self.set_next_low(lo as u16, attribute_lo);
    }

    fn fetch_high(&mut self, cart: &mut Cartridge)
        requires
            old(self)@.wf(),
            old(cart).wf(),
        ensures
            final(self)@ == high_fetched(old(self)@, *old(cart)),
            final(self)@.wf(),
            old(cart).same(final(cart)),
    {
        let address = self.get_pattern_address() + 8;
        let hi = self.ppu_read(cart, address);
        let t = self.next_attribute();
        proof {
            lemma_word_fields(t);
        }
        let attribute_hi: u16 = if t & 2 > 0 {
            0xFF
        } else {
            0x00
        };
        self.set_next_high(hi as u16, attribute_hi);
    }

    /// The fetch step of the background pipeline at the current cycle.
    fn fetch_background(&mut self, cart: &mut Cartridge)
        requires
            old(self)@.wf(),
            old(cart).wf(),
            old(self)@.cycle >= 1,
        ensures
            final(self)@ == fetch_step(old(self)@, *old(cart)),
            final(self)@.wf(),
            old(cart).same(final(cart)),
    {
        proof {
            lemma_same_cart(*cart, *cart, *cart, 0, 0);
        }
        let cycle = self.cycle();
        if (cycle >= 1 && cycle < 256) || (cycle >= 321 && cycle <= 338) {
            let phase = (cycle - 1) % 8;
            if phase == 0 {
                self.fetch_nametable(cart);
            } else if phase == 2 {
                self.fetch_attribute(cart);
            } else if phase == 4 {
                self.fetch_low(cart);
            } else if phase == 6 {
                self.fetch_high(cart);
            } else if phase == 7 {
                self.increment_x();
            }
        }
    }

    /// The background pixel of this cycle (see `pixel_phase`).
    #[verifier::rlimit(40)]
    fn draw_background_pixel(&mut self, cart: &mut Cartridge, frame: &mut Frame)
        requires
            old(self)@.wf(),
            old(cart).wf(),
            picture_fits(old(frame)),
        ensures
            (final(self)@, final(frame).pixels()) == pixel_phase(old(self)@, *old(cart), old(frame).pixels(),
                old(frame).width() as int),
            final(self)@.wf(),
            final(frame).width() == old(frame).width(),
            final(frame).pixels().len() == old(frame).pixels().len(),
            old(cart).same(final(cart)),
    {
        let ghost p = self@;
        proof {
            lemma_same_cart(*cart, *cart, *cart, 0, 0);
        }
        let mask = self.mask();
        let idle = self.cycle() == 0 && self.scanline() >= -1 && self.scanline() < 240;
        if (mask & MASK_ENABLE_BACKGROUND != 0 || mask & MASK_ENABLE_SPRITES != 0) && !idle {
            let x = self.fine_x();
            let mux: u16 = 0x8000 >> x;
            let (pattern_lo, pattern_hi, attribute_lo, attribute_hi) = self.shift_registers();
            let pixel_lo: u8 = if pattern_lo & mux != 0 {
                1
            } else {
                0
            };
            let pixel_hi: u8 = if pattern_hi & mux != 0 {
                1
            } else {
                0
            };
            let attrib_lo: u8 = if attribute_lo & mux != 0 {
                1
            } else {
                0
            };
            let attrib_hi: u8 = if attribute_hi & mux != 0 {
                1
            } else {
                0
            };
            let bgpixel = pixel_hi * 2 + pixel_lo;
            let bgpattern = attrib_hi * 2 + attrib_lo;
            self.shift();
            let cycle = self.cycle();
            let scanline = self.scanline();
            if cycle < 256 && scanline >= 0 && scanline < 240 {
                let color = if mask & MASK_SPRITES_LEFTMOST == 0 && cycle < 8 {
                    self.get_bgpalette(cart, 0, 0)
                } else {
                    self.get_bgpalette(cart, bgpattern % 4, bgpixel)
                };
                if cycle > 0 {
                    let px = cycle - 1;
                    let py = scanline as u16;
                    self.set_frame_at(px, py, bgpixel);
                    if mask & MASK_ENABLE_BACKGROUND != 0 {
                        proof {
                            super::render::lemma_pixel_in_frame(px as int, py as int, frame.width() as int,
                                frame.pixels().len() as int);
                        }
                        frame.drawpixel(px, py, color);
                    }
                }
            }
        }
    }

    /// The background fetches and scroll updates of this cycle.
    fn prepare_cycle(&mut self, cart: &mut Cartridge)
        requires
            old(self)@.wf(),
            old(cart).wf(),
        ensures
            final(self)@ == vertical_phase(background_phase(old(self)@, *old(cart))),
            final(self)@.wf(),
            old(cart).same(final(cart)),
    {
        proof {
            lemma_same_cart(*cart, *cart, *cart, 0, 0);
        }
        let scanline = self.scanline();
        if scanline >= -1 && scanline < 240 && self.cycle() != 0 {
            self.fetch_background(cart);
            if self.cycle() == 256 {
                self.increment_y();
                self.transfer_x();
            }
        }
        if self.scanline() == -1 && self.cycle() >= 280 && self.cycle() <= 304 {
            self.transfer_y();
        }
    }

    /// The picture work of this cycle: the background pixel, then sprite
    /// evaluation.
    fn draw_cycle(&mut self, cart: &mut Cartridge, frame: &mut Frame)
        requires
            old(self)@.wf(),
            old(cart).wf(),
            picture_fits(old(frame)),
        ensures
            ({
                let c = pixel_phase(old(self)@, *old(cart), old(frame).pixels(), old(frame).width() as int);
                (final(self)@, final(frame).pixels()) == sprite_phase(c.0, *old(cart), c.1, old(frame).width() as int)
            }),
            final(self)@.wf(),
            final(frame).width() == old(frame).width(),
            final(frame).pixels().len() == old(frame).pixels().len(),
            old(cart).same(final(cart)),
    {
        let ghost c0 = *cart;
        self.draw_background_pixel(cart, frame);
        let ghost c1 = *cart;
        let ghost cc = (self@, frame.pixels());
        let cycle = self.cycle();
        let scanline = self.scanline();
        if cycle == 257 && scanline >= 0 && scanline < 240 {
            self.evaluate_sprites(cart, scanline as u16, frame);
        }
        proof {
            super::render::lemma_same_reads(cc.0, c0, c1, *cart);
            super::render::lemma_same_reads(cc.0, c0, c1, c1);
            lemma_draw_sprites_cart(cc.0, c0, c1, cc.1, old(frame).width() as int);
        }
    }

    /// The sprite-0 hit check of this cycle.
    fn check_sprite0_hit(&mut self)
        requires
            old(self)@.wf(),
        ensures
            final(self)@ == hit_phase(old(self)@),
    {
        let cycle = self.cycle();
        let scanline = self.scanline();
        let (sprite0_x, sprite0_y, sprite0_possible) = self.sprite0();
        let idle = cycle == 0 && scanline >= -1 && scanline < 240;
        if scanline - 1 == sprite0_y as i16 && cycle == sprite0_x && sprite0_possible && !idle {
            let status = self.status();
            self.set_status(status | STATUS_SPRITE0_HIT);
        }
    }

    /// The end of this cycle: the mapper's scanline signal, the beam's
    /// advance, vertical blank, and the end of the frame.
    fn finish_cycle(&mut self, cart: &mut Cartridge)
        requires
            old(self)@.wf(),
            old(cart).wf(),
        ensures
            if scanline_signal(old(self)@) {
                cart_after_scanline(*old(cart), *final(cart))
            } else {
                old(cart).same(final(cart))
            },
            timing_phase(old(self)@, *final(cart), final(self)@),
            final(self)@.wf(),
            final(cart).wf(),
    {
        let cycle = self.cycle();
        let scanline = self.scanline();
        let mask = self.mask();
        if (mask & MASK_ENABLE_BACKGROUND != 0 || mask & MASK_ENABLE_SPRITES != 0) && cycle == 260 && scanline < 240 {
            cart.scanline();
        } else {
            proof {
                lemma_same_cart(*cart, *cart, *cart, 0, 0);
            }
        }
        let ghost c4 = *cart;
        let mut next_cycle = cycle + 1;
        let mut next_scanline = scanline;
        let skip = scanline == -1 && self.odd_frame() && cycle == 339;
        if next_cycle > 340 || skip {
            next_cycle = 0;
            next_scanline = next_scanline + 1;
        }
        let mut status = self.status();
        if next_scanline <= 239 {
        } else if next_scanline == 241 && next_cycle == 1 {
            status = status | STATUS_VBLANK;
            if self.ctrl() & CTRL_VBLANK_ENABLE != 0 {
                self.set_nmi(true);
            }
        }
        let end_of_frame = next_scanline > 260;
        if end_of_frame {
            next_scanline = -1;
            status = status & !(STATUS_VBLANK | STATUS_SPRITE0_HIT | STATUS_SPRITE_OVERFLOW);
            let odd = self.odd_frame();
            self.set_odd_frame(!odd);
        }
        self.set_cycle(next_cycle);
        self.set_scanline(next_scanline);
        self.set_status(status);
        let total = self.cycles();
        self.set_total_cycles(total.wrapping_add(1));
        if end_of_frame {
            let ghost r = self@;
            self.find_sprite0_coord(cart);
            proof {
                super::render::lemma_same_reads(r, c4, *cart, *cart);
                super::render::lemma_sprite0_found_cart(r, c4, *cart, self@);
                lemma_same_cart(c4, *cart, *cart, 0, 0);
            }
        }
    }

    /// Advances the PPU by one cycle: background fetches and scroll
    /// updates on the pre-render and visible lines, the background pixel,
    /// sprite evaluation at cycle 257, the sprite-0 hit, the mapper's
    /// scanline signal at cycle 260, and the beam's advance, with vertical
    /// blank (and the NMI) at line 241 and the end of the frame after line
    /// 260.
    pub fn clock(&mut self, cart: &mut Cartridge, frame: &mut Frame)
        requires
            old(self)@.wf(),
            old(cart).wf(),
            picture_fits(old(frame)),
        ensures
            clocked(old(self)@, *old(cart), old(frame).pixels(), old(frame).width() as int, final(self)@, *final(cart),
                final(frame).pixels()),
            final(self)@.wf(),
            final(cart).wf(),
            final(frame).width() == old(frame).width(),
            picture_fits(final(frame)),
    {
        let ghost c0 = *cart;
        self.prepare_cycle(cart);
        let ghost b = self@;
        let ghost c1 = *cart;
        self.draw_cycle(cart, frame);
        let ghost c2 = *cart;
        proof {
            super::render::lemma_same_reads(b, c0, c1, c1);
            lemma_pixel_phase_cart(b, c0, c1, old(frame).pixels(), old(frame).width() as int);
            let c = pixel_phase(b, c0, old(frame).pixels(), old(frame).width() as int);
            super::render::lemma_same_reads(c.0, c0, c1, c1);
            lemma_draw_sprites_cart(c.0, c0, c1, c.1, old(frame).width() as int);
        }
        self.check_sprite0_hit();
        let ghost c3 = *cart;
        self.finish_cycle(cart);
        proof {
            super::render::lemma_same_reads(b, c0, c1, c2);
            lemma_cart_chain(c0, c2, *cart);
        }
    }
}

/// Where the beam stands after one clock from line `s`, cycle `c` of a
/// frame of parity `odd`: the next cycle; past cycle 340, or past 339 on
/// the pre-render line of an odd frame, cycle 0 of the next line; past
/// line 260, the pre-render line (-1) of a frame of the other parity.
pub open spec fn beam_next(s: int, c: int, odd: bool) -> (int, int, bool) {
    let wraps = c + 1 > 340 || (s == -1 && odd && c == 339);
    let s1 = if wraps { s + 1 } else { s };
    let c1 = if wraps { 0 } else { c + 1 };
    if s1 > 260 {
        (-1, c1, !odd)
    } else {
        (s1, c1, odd)
    }
}

/// Where the beam stands after `n` clocks from line `s`, cycle `c` of a
/// frame of parity `odd`.
pub open spec fn beam_after(s: int, c: int, odd: bool, n: nat) -> (int, int, bool)
    decreases n,
{
    if n == 0 {
        (s, c, odd)
    } else {
        let b = beam_next(s, c, odd);
        beam_after(b.0, b.1, b.2, (n - 1) as nat)
    }
}

/// The clocks from one start of vertical blank (line 241, cycle 1) to the
/// next, in a frame of parity `odd`: 262 lines of 341 cycles, one fewer
/// when the frame that follows is odd and so skips a cycle.
pub open spec fn frame_period(odd: bool) -> nat {
    if odd {
        89342
    } else {
        89341
    }
}

/// A beam position on lines -1 to 260, cycles 0 to 340.
pub open spec fn beam_valid(s: int, c: int) -> bool {
    -1 <= s <= 260 && 0 <= c <= 340
}

/// The clocks from a beam position to the next start of vertical blank.
spec fn clocks_to_vblank(s: int, c: int, odd: bool) -> int {
    let l = (s + 1) * 341 + c;
    if l < 82523 {
        82523 - l - (if odd && s == -1 && c <= 339 { 1int } else { 0 })
    } else {
        89342 - l + 82523 - (if odd { 0int } else { 1 })
    }
}

/// The parity of the frame in which the beam next starts vertical blank.
spec fn parity_at_vblank(s: int, c: int, odd: bool) -> bool {
    if (s + 1) * 341 + c < 82523 {
        odd
    } else {
        !odd
    }
}

proof fn lemma_beam_step(s: int, c: int, odd: bool)
    requires
        beam_valid(s, c),
    ensures
        ({
            let b = beam_next(s, c, odd);
            &&& beam_valid(b.0, b.1)
            &&& clocks_to_vblank(s, c, odd) >= 1
            &&& clocks_to_vblank(s, c, odd) > 1 ==> clocks_to_vblank(b.0, b.1, b.2) == clocks_to_vblank(s, c, odd) - 1
                && parity_at_vblank(b.0, b.1, b.2) == parity_at_vblank(s, c, odd)
            &&& clocks_to_vblank(s, c, odd) == 1 ==> b == (241int, 1int, parity_at_vblank(s, c, odd))
        }),
{
}

proof fn lemma_beam_run(s: int, c: int, odd: bool, n: nat)
    requires
        beam_valid(s, c),
        n <= clocks_to_vblank(s, c, odd),
    ensures
        ({
            let b = beam_after(s, c, odd, n);
            &&& n < clocks_to_vblank(s, c, odd) ==> beam_valid(b.0, b.1) && clocks_to_vblank(b.0, b.1, b.2)
                == clocks_to_vblank(s, c, odd) - n
            &&& n == clocks_to_vblank(s, c, odd) ==> b == (241int, 1int, parity_at_vblank(s, c, odd))
        }),
    decreases n,
{
    lemma_beam_step(s, c, odd);
    if n > 0 {
        let b = beam_next(s, c, odd);
        if clocks_to_vblank(s, c, odd) > 1 {
            lemma_beam_run(b.0, b.1, b.2, (n - 1) as nat);
        } else {
            assert(beam_after(b.0, b.1, b.2, 0) == b);
        }
    }
}

/// Vertical blank starts once a frame: from its start at line 241, cycle
/// 1 of a frame of parity `odd`, the beam is back there after exactly
/// `frame_period(odd)` clocks (89342, or 89341 when the next frame skips
/// its odd-frame cycle), in a frame of the other parity, and at no clock
/// in between.
pub proof fn law_vblank_period(odd: bool, n: nat)
    ensures
        0 < n < frame_period(odd) ==> !(beam_after(241, 1, odd, n).0 == 241 && beam_after(241, 1, odd, n).1 == 1),
        beam_after(241, 1, odd, frame_period(odd)) == (241int, 1int, !odd),
{
    assert(clocks_to_vblank(241, 1, odd) == frame_period(odd));
    lemma_beam_run(241, 1, odd, frame_period(odd));
    if 0 < n < frame_period(odd) {
        lemma_beam_run(241, 1, odd, n);
        let b = beam_after(241, 1, odd, n);
        if b.0 == 241 && b.1 == 1 {
            if n == 1 {
                assert(beam_after(241, 1, odd, 1) == beam_after(241, 2, odd, 0));
            }
            assert(clocks_to_vblank(b.0, b.1, b.2) >= 89341);
        }
    }
}

/// Drawing sprites leaves the beam, the parity, the control register and
/// the NMI as they were.
proof fn lemma_draw_sprites_keeps_beam(
    p: PpuView,
    cart: Cartridge,
    pixels: Seq<u32>,
    width: int,
    list: Seq<usize>,
    line: int,
    n: int,
)
    ensures
        ({
            let q = draw_sprites(p, cart, pixels, width, list, line, n).0;
            q.cycle == p.cycle && q.scanline == p.scanline && q.odd_frame == p.odd_frame && q.ctrl == p.ctrl
                && q.nmi == p.nmi
        }),
    decreases n,
{
    if n > 0 {
        lemma_draw_sprites_keeps_beam(p, cart, pixels, width, list, line, n - 1);
    }
}

/// Each clock moves the beam one step (see `beam_next`), and a step onto
/// line 241, cycle 1 with NMIs enabled in PPUCTRL raises the NMI; with
/// `law_vblank_period`, NMIs come one frame period apart.
pub proof fn law_clock_moves_beam(
    p: PpuView,
    c: Cartridge,
    pixels: Seq<u32>,
    width: int,
    q: PpuView,
    c2: Cartridge,
    pixels2: Seq<u32>,
)
    requires
        p.wf(),
        clocked(p, c, pixels, width, q, c2, pixels2),
    ensures
        beam_valid(p.scanline as int, p.cycle as int),
        (q.scanline as int, q.cycle as int, q.odd_frame) == beam_next(p.scanline as int, p.cycle as int, p.odd_frame),
        ({
            let b = beam_next(p.scanline as int, p.cycle as int, p.odd_frame);
            b.0 == 241 && b.1 == 1 && has_flag(p.ctrl, CTRL_VBLANK_ENABLE) ==> q.nmi
        }),
{
    let a = background_phase(p, c);
    let b = vertical_phase(a);
    let x = pixel_phase(b, c, pixels, width);
    let d = sprite_phase(x.0, c, x.1, width);
    let e = hit_phase(d.0);
    if x.0.cycle == 257 && 0 <= x.0.scanline < 240 {
        let list = sprites_on_line(x.0, x.0.scanline as int);
        let flagged = if list.len() > 8 {
            PpuView { status: x.0.status | STATUS_SPRITE_OVERFLOW, ..x.0 }
        } else {
            x.0
        };
        lemma_draw_sprites_keeps_beam(flagged, c, x.1, width, list, x.0.scanline as int, list.len() as int);
    }
    assert(e.cycle == p.cycle && e.scanline == p.scanline && e.odd_frame == p.odd_frame && e.ctrl == p.ctrl);
}

/// The attribute fetch picks the tile's 2-bit palette out of the
/// attribute byte by the tile's 32x32-pixel quadrant: bit 1 of coarse Y
/// (bit 6 of `v`) selects the upper nibble, bit 1 of coarse X (bit 1 of
/// `v`) the upper pair within the nibble, so the palette is
/// `(attr >> (4 * ((v >> 6) & 1) + 2 * ((v >> 1) & 1))) & 3`.
#[verifier::rlimit(60)]
#[verifier::spinoff_prover]
pub proof fn law_attribute_quadrant(p: PpuView, cart: Cartridge)
    ensures
        ({
            let attr = ppu_read_spec(p, cart, attribute_address_of(p.v) as u16);
            let shift = ((if (p.v >> 6u16) & 1 == 1 { 4int } else { 0 }) + (if (p.v >> 1u16) & 1 == 1 {
                2int
            } else {
                0
            })) as u8;
            attribute_fetched(p, cart).next_attribute_tile == ((attr >> shift) & 3u8) as u16
        }),
{
    let attr = ppu_read_spec(p, cart, attribute_address_of(p.v) as u16);
    let v = p.v;
    lemma_quadrant_bits(v);
    lemma_byte_arith(attr, 0);
    assert(coarse_y_of(v) == ((v / 32) % 32) as int);
    assert(coarse_x_of(v) == (v % 32) as int);
}

/// The background pipeline: a reload puts the next tile's pattern and
/// attribute bytes in the low halves of the shift registers and keeps
/// the high halves, and the background pixel is made of bit 15 - x (fine
/// X) of the two pattern registers, high register for bit 1.
pub proof fn law_background_pixel(p: PpuView)
    requires
        p.wf(),
    ensures
        ({
            let q = loaded(p);
            &&& q.pattern_lo as int % 256 == p.next_pattern_lo && q.pattern_lo as int / 256 == p.pattern_lo as int / 256
            &&& q.pattern_hi as int % 256 == p.next_pattern_hi && q.pattern_hi as int / 256 == p.pattern_hi as int / 256
        }),
        bg_pixel(p) as int == 2 * ((p.pattern_hi >> (15u16 - p.x as u16) as u16) & 1) as int + ((p.pattern_lo >> (15u16 - p.x as u16) as u16)
            & 1) as int,
{
    lemma_selected_bit(p.pattern_hi, p.x as u16);
    lemma_selected_bit(p.pattern_lo, p.x as u16);
    lemma_selected_bit(p.pattern_hi, (15u16 - p.x as u16) as u16);
    lemma_selected_bit(p.pattern_lo, (15u16 - p.x as u16) as u16);
}

} // verus!

//! Sprite evaluation and drawing, the pattern-table view, and the
//! per-cycle PPU clock.
use vstd::prelude::*;
use crate::bits::{lemma_byte_masks, lemma_word_fields};
use crate::cartridge::{Cartridge, lemma_same_cart};
use super::{Ppu, PpuView, ppu_read_spec, palette_color, fg_palette_address, bg_palette_address};
use super::frame::{Frame, pack_rgb};
use super::registers::{has_flag, CTRL_SPRITE_SIZE, CTRL_SPRITE_PATTERN_TABLE, MASK_SPRITES_LEFTMOST,
    MASK_ENABLE_SPRITES, STATUS_SPRITE_OVERFLOW};

verus! {

/// The 2-bit colour number of column `col` (0 is the leftmost) of a tile
/// row whose two bit planes are `lo` and `hi`.
pub open spec fn tile_pixel(lo: u8, hi: u8, col: int) -> u8 {
    (((hi >> ((7 - col) as u8)) & 1u8) * 2 + ((lo >> ((7 - col) as u8)) & 1u8)) as u8
}

/// Column `col` of the tile row `lo`/`hi` as a colour number.
fn pixel_of(lo: u8, hi: u8, col: u8) -> (r: u8)
    requires
        col < 8,
    ensures
        r == tile_pixel(lo, hi, col as int),
        r < 4,
{
    let s: u8 = 7 - col;
    let l: u8 = (lo >> s) & 1;
    let h: u8 = (hi >> s) & 1;
    assert(l <= 1 && h <= 1) by (bit_vector)
        requires
            l == (lo >> s) & 1u8,
            h == (hi >> s) & 1u8,
    ;
    assert((h << 1u8) | l == h * 2 + l) by (bit_vector)
        requires
            l <= 1,
            h <= 1,
    ;
    (h << 1) | l
}

/// Whether the sprites are 8 x 16.
pub open spec fn tall_sprites(ctrl: u8) -> bool {
    has_flag(ctrl, CTRL_SPRITE_SIZE)
}

/// The pixels of sprite 0 that the search for its first opaque pixel
/// visits, in order: 64 for an 8 x 8 sprite, 128 for an 8 x 16 one.
pub open spec fn sprite0_span(ctrl: u8) -> int {
    if tall_sprites(ctrl) {
        128
    } else {
        64
    }
}

/// The pattern address of the row of sprite `s` that holds search
/// position `k` (row `k / 8` of the sprite, counted from its top, with
/// vertical flipping and, for 8 x 16 sprites, the tile pair).
#[verifier::opaque]
pub open spec fn sprite0_row_address(ctrl: u8, s: (u16, u8, u8, u8), k: int) -> int {
    let tile = s.1 as int;
    let flip_v = has_flag(s.2, 0x80);
    let half = k / 64;
    let row = (k / 8) % 8;
    let y_in_tile = if flip_v {
        7 - row
    } else {
        row
    };
    if tall_sprites(ctrl) {
        let base = if tile % 2 == 1 {
            0x1000int
        } else {
            0
        };
        let number = tile - tile % 2;
        let current = if flip_v {
            number + (1 - half)
        } else {
            number + half
        };
        base + current * 16 + y_in_tile
    } else {
        let base = if has_flag(ctrl, CTRL_SPRITE_PATTERN_TABLE) {
            0x1000int
        } else {
            0
        };
        base + tile * 16 + y_in_tile
    }
}

/// The pattern address of the top row of tile half `half` of sprite `s`
/// (the bottom tile first when an 8 x 16 sprite is flipped vertically).
pub open spec fn sprite0_tile_address(ctrl: u8, s: (u16, u8, u8, u8), half: int) -> int {
    let tile = s.1 as int;
    if tall_sprites(ctrl) {
        let base = if tile % 2 == 1 {
            0x1000int
        } else {
            0
        };
        let number = tile - tile % 2;
        if has_flag(s.2, 0x80) {
            base + (number + (1 - half)) * 16
        } else {
            base + (number + half) * 16
        }
    } else {
        let base = if has_flag(ctrl, CTRL_SPRITE_PATTERN_TABLE) {
            0x1000int
        } else {
            0
        };
        base + tile * 16
    }
}

/// The colour number of sprite 0 at search position `k`: row `k / 8`,
/// column `k % 8`, with horizontal flipping.
#[verifier::opaque]
pub open spec fn sprite0_pixel(p: PpuView, cart: Cartridge, k: int) -> u8 {
    let s = p.oam[0];
    let addr = sprite0_row_address(p.ctrl, s, k);
    let col = k % 8;
    let x_in_tile = if has_flag(s.2, 0x40) {
        7 - col
    } else {
        col
    };
    tile_pixel(ppu_read_spec(p, cart, addr as u16), ppu_read_spec(p, cart, (addr + 8) as u16), x_in_tile)
}

/// The first search position at which sprite 0 is opaque is `k`.
pub open spec fn sprite0_first_opaque(p: PpuView, cart: Cartridge, k: int) -> bool {
    &&& 0 <= k < sprite0_span(p.ctrl)
    &&& sprite0_pixel(p, cart, k) != 0
    &&& forall|j: int| 0 <= j < k ==> sprite0_pixel(p, cart, j) == 0
}

/// What `find_sprite0_coord` leaves: the screen position of sprite 0's
/// first opaque pixel, or its corner when it has none.
pub open spec fn sprite0_found(p: PpuView, cart: Cartridge, q: PpuView) -> bool {
    let s = p.oam[0];
    let x = s.3 as int;
    let y = (s.0 as u8) as int;
    &&& q == PpuView { sprite0_x: q.sprite0_x, sprite0_y: q.sprite0_y, sprite0_possible: q.sprite0_possible, ..p }
    &&& q.sprite0_possible <==> exists|k: int| 0 <= k < sprite0_span(p.ctrl) && sprite0_pixel(p, cart, k) != 0
    &&& q.sprite0_possible ==> exists|k: int|
        sprite0_first_opaque(p, cart, k) && q.sprite0_x == x + k % 8 && q.sprite0_y == y + k / 8
    &&& !q.sprite0_possible ==> q.sprite0_x == x && q.sprite0_y == y
}

/// Search position `half * 64 + row * 8 + col` is column `col` of row
/// `row` of tile half `half`, and its pixel is read from that row.
proof fn lemma_sprite0_pixel_at(p: PpuView, cart: Cartridge, half: int, row: int, col: int)
    requires
        0 <= half < 2,
        0 <= row < 8,
        0 <= col < 8,
    ensures
        ({
            let k = half * 64 + row * 8 + col;
            let addr = sprite0_row_address(p.ctrl, p.oam[0], half * 64 + row * 8);
            let x_in_tile = if has_flag(p.oam[0].2, 0x40) { 7 - col } else { col };
            &&& k % 8 == col
            &&& k / 8 == half * 8 + row
            &&& sprite0_row_address(p.ctrl, p.oam[0], k) == addr
            &&& addr == sprite0_tile_address(p.ctrl, p.oam[0], half)
                + if has_flag(p.oam[0].2, 0x80) { 7 - row } else { row }
            &&& sprite0_pixel(p, cart, k) == tile_pixel(
                ppu_read_spec(p, cart, addr as u16),
                ppu_read_spec(p, cart, (addr + 8) as u16),
                x_in_tile,
            )
        }),
{
    let k = half * 64 + row * 8 + col;
    assert(k / 64 == half && (k / 8) % 8 == row && k % 8 == col && k / 8 == half * 8 + row) by (nonlinear_arith)
        requires
            k == half * 64 + row * 8 + col,
            0 <= half < 2,
            0 <= row < 8,
            0 <= col < 8,
    ;
    let k0 = half * 64 + row * 8;
    assert(k0 / 64 == half && (k0 / 8) % 8 == row) by (nonlinear_arith)
        requires
            k0 == half * 64 + row * 8,
            0 <= half < 2,
            0 <= row < 8,
    ;
    reveal(sprite0_pixel);
    reveal(sprite0_row_address);
}

impl Ppu {
    /// Finds where on screen sprite 0 first shows an opaque pixel, scanning
    /// its rows top to bottom and each row left to right; the sprite-0 hit
    /// is raised when the beam reaches that point.
    #[verifier::rlimit(80)]
    pub fn find_sprite0_coord(&mut self, cart: &mut Cartridge)
        requires
            old(self)@.wf(),
            old(cart).wf(),
        ensures
            sprite0_found(old(self)@, *old(cart), final(self)@),
            old(cart).same(final(cart)),
    {
        let ghost p = self@;
        let ghost c0 = *cart;
        let sprite = self.sprite(0);
        let y_pos = sprite.get_y_position() as u8 as u16;
        let tile_index = sprite.get_index_number() as u16;
        let attributes = sprite.get_attribute();
        let x_pos = sprite.get_x_position() as u16;
        let ctrl = self.ctrl();
        proof {
            lemma_byte_masks(attributes);
            lemma_byte_masks(ctrl);
            lemma_same_cart(c0, c0, c0, 0, 0);
        }
        let flip_horizontal = (attributes & 0x40) != 0;
        let flip_vertical = (attributes & 0x80) != 0;
        let tall = (ctrl & CTRL_SPRITE_SIZE) != 0;
        proof {
            assert(tile_index & 0xFEu16 == tile_index - tile_index % 2 && tile_index & 1u16 == tile_index % 2) by {
                lemma_word_fields(tile_index);
            }
        }
        let pattern_table_base: u16 = if tall {
            if tile_index & 0x01 != 0 {
                0x1000
            } else {
                0x0000
            }
        } else if (ctrl & CTRL_SPRITE_PATTERN_TABLE) != 0 {
            0x1000
        } else {
            0x0000
        };
        let tile_number: u16 = if tall {
            tile_index & 0xFE
        } else {
            tile_index
        };
        let halves: u16 = if tall {
            2
        } else {
            1
        };
        let mut tile_half: u16 = 0;
        while tile_half < halves
            invariant
                p == old(self)@,
                c0 == *old(cart),
                self@ == p,
                p.wf(),
                c0.wf(),
                c0.same(cart),
                0 <= tile_half <= halves,
                halves as int * 64 == sprite0_span(p.ctrl),
                tall == tall_sprites(p.ctrl),
                halves == (if tall { 2u16 } else { 1u16 }),
                y_pos as int == (p.oam[0].0 as u8) as int,
                x_pos as int == p.oam[0].3 as int,
                tile_index as int == p.oam[0].1 as int,
                ctrl == p.ctrl,
                flip_horizontal == has_flag(p.oam[0].2, 0x40),
                flip_vertical == has_flag(p.oam[0].2, 0x80),
                pattern_table_base as int == if tall {
                    if tile_index % 2 == 1 { 0x1000int } else { 0 }
                } else if has_flag(p.ctrl, CTRL_SPRITE_PATTERN_TABLE) {
                    0x1000int
                } else {
                    0
                },
                tile_number as int == if tall { tile_index - tile_index % 2 } else { tile_index as int },
                tile_index < 256,
                forall|j: int| 0 <= j < tile_half as int * 64 ==> sprite0_pixel(p, c0, j) == 0,
            decreases halves - tile_half,
        {
            let current_tile: u16 = if tall && flip_vertical {
                tile_number + (1 - tile_half)
            } else {
                tile_number + tile_half
            };
            let tile_address: u16 = pattern_table_base + current_tile * 16;
            let mut row: u16 = 0;
            while row < 8
                invariant
                    p == old(self)@,
                    c0 == *old(cart),
                    self@ == p,
                    p.wf(),
                    c0.wf(),
                    c0.same(cart),
                    0 <= tile_half < halves,
                    0 <= row <= 8,
                    halves as int * 64 == sprite0_span(p.ctrl),
                    tall == tall_sprites(p.ctrl),
                    halves == (if tall { 2u16 } else { 1u16 }),
                    y_pos as int == (p.oam[0].0 as u8) as int,
                    x_pos as int == p.oam[0].3 as int,
                    flip_horizontal == has_flag(p.oam[0].2, 0x40),
                    flip_vertical == has_flag(p.oam[0].2, 0x80),
                    tile_address as int == sprite0_tile_address(p.ctrl, p.oam[0], tile_half as int),
                    tile_address as int <= 0x2000 - 16,
                    forall|j: int| 0 <= j < tile_half as int * 64 + row as int * 8 ==> sprite0_pixel(p, c0, j) == 0,
                decreases 8 - row,
            {
                let y_in_tile: u16 = if flip_vertical {
                    7 - row
                } else {
                    row
                };
                let ghost k0: int = tile_half as int * 64 + row as int * 8;
                proof {
                    lemma_sprite0_pixel_at(p, c0, tile_half as int, row as int, 0);
                }
                assert(tile_address as int + y_in_tile as int == sprite0_row_address(p.ctrl, p.oam[0], k0));
                let ghost c1 = *cart;
                let low_byte = self.ppu_read(cart, tile_address + y_in_tile);
                proof {
                    lemma_same_reads(p, c0, c1, *cart);
                }
                let ghost c2 = *cart;
                let high_byte = self.ppu_read(cart, tile_address + y_in_tile + 8);
                proof {
                    lemma_same_reads(p, c0, c2, *cart);
                }
                let mut col: u8 = 0;
                while col < 8
                    invariant
                        p == old(self)@,
                        c0 == *old(cart),
                        self@ == p,
                        p.wf(),
                        c0.wf(),
                        c0.same(cart),
                        0 <= tile_half < halves,
                        0 <= row < 8,
                        0 <= col <= 8,
                        halves as int * 64 == sprite0_span(p.ctrl),
                        y_pos as int == (p.oam[0].0 as u8) as int,
                        x_pos as int == p.oam[0].3 as int,
                        flip_horizontal == has_flag(p.oam[0].2, 0x40),
                        k0 == tile_half as int * 64 + row as int * 8,
                        low_byte == ppu_read_spec(p, c0, sprite0_row_address(p.ctrl, p.oam[0], k0) as u16),
                        high_byte == ppu_read_spec(p, c0, (sprite0_row_address(p.ctrl, p.oam[0], k0) + 8) as u16),
                        forall|j: int| 0 <= j < k0 + col as int ==> sprite0_pixel(p, c0, j) == 0,
                    decreases 8 - col,
                {
                    let x_in_tile: u8 = if flip_horizontal {
                        7 - col
                    } else {
                        col
                    };
                    let pixel_value = pixel_of(low_byte, high_byte, x_in_tile);
                    let ghost k: int = k0 + col as int;
                    proof {
                        lemma_sprite0_pixel_at(p, c0, tile_half as int, row as int, col as int);
                    }
                    if pixel_value != 0 {
                        self.set_sprite0(x_pos + col as u16, y_pos + tile_half * 8 + row, true);
                        assert(sprite0_first_opaque(p, c0, k));
                        return;
                    }
                    col = col + 1;
                }
                row = row + 1;
            }
            tile_half = tile_half + 1;
        }
        self.set_sprite0(x_pos, y_pos, false);
    }
}

/// The colour number of column `col` of a sprite row `lo`/`hi` with
/// attributes `attr` (bit 6 flips it horizontally).
pub open spec fn sprite_col_value(lo: u8, hi: u8, attr: u8, col: int) -> u8 {
    tile_pixel(lo, hi, if has_flag(attr, 0x40) { 7 - col } else { col })
}

/// Whether column `col` of a sprite row at (`sx`, `y`) is drawn: it is
/// opaque, on screen, sprites are enabled, and a sprite behind the
/// background (attribute bit 5) only shows where the background is
/// transparent.
pub open spec fn sprite_col_drawn(p: PpuView, sx: int, y: int, lo: u8, hi: u8, attr: u8, col: int) -> bool {
    let x = sx + col;
    &&& sprite_col_value(lo, hi, attr, col) != 0
    &&& x < 256
    &&& y < 240
    &&& (has_flag(attr, 0x20) ==> p.frame[x][y] == 0)
    &&& has_flag(p.mask, MASK_ENABLE_SPRITES)
}

/// The colour of a sprite pixel of colour number `value` in the palette
/// that `attr` selects; in the leftmost 8 cycles, with sprites hidden
/// there, the backdrop colour.
pub open spec fn sprite_color(p: PpuView, cart: Cartridge, attr: u8, value: u8) -> (u8, u8, u8) {
    if !has_flag(p.mask, MASK_SPRITES_LEFTMOST) && p.cycle < 8 {
        palette_color(p, cart, fg_palette_address(attr % 4, 0))
    } else {
        palette_color(p, cart, fg_palette_address(attr % 4, value))
    }
}

/// The colour numbers left after drawing the first `n` columns of a
/// sprite row at (`sx`, `y`).
pub open spec fn frame_after_row(p: PpuView, sx: int, y: int, lo: u8, hi: u8, attr: u8, n: int) -> Seq<Seq<u8>>
    decreases n,
{
    if n <= 0 {
        p.frame
    } else {
        let f = frame_after_row(p, sx, y, lo, hi, attr, n - 1);
        let x = sx + n - 1;
        if sprite_col_drawn(p, sx, y, lo, hi, attr, n - 1) {
            f.update(x, f[x].update(y, sprite_col_value(lo, hi, attr, n - 1)))
        } else {
            f
        }
    }
}

/// The frame pixels (`width` to a row) after drawing the first `n`
/// columns of a sprite row at (`sx`, `y`).
pub open spec fn pixels_after_row(
    p: PpuView,
    cart: Cartridge,
    pixels: Seq<u32>,
    width: int,
    sx: int,
    y: int,
    lo: u8,
    hi: u8,
    attr: u8,
    n: int,
) -> Seq<u32>
    decreases n,
{
    if n <= 0 {
        pixels
    } else {
        let q = pixels_after_row(p, cart, pixels, width, sx, y, lo, hi, attr, n - 1);
        if sprite_col_drawn(p, sx, y, lo, hi, attr, n - 1) {
            q.update(y * width + sx + n - 1, pack_rgb(sprite_color(p, cart, attr, sprite_col_value(lo, hi, attr, n - 1))))
        } else {
            q
        }
    }
}

/// A frame wide enough for the picture: at least 256 pixels to a row
/// and 240 rows.
pub open spec fn picture_fits(frame: &Frame) -> bool {
    &&& frame.width() >= 256
    &&& frame.pixels().len() >= 240 * frame.width() as int
}

pub(crate) proof fn lemma_pixel_in_frame(x: int, y: int, w: int, len: int)
    requires
        0 <= x < 256,
        0 <= y < 240,
        w >= 256,
        len >= 240 * w,
    ensures
        y * w + x < len,
        0 <= y * w + x,
{
    assert(y * w + x < len && 0 <= y * w) by (nonlinear_arith)
        requires
            0 <= x < 256,
            0 <= y < 240,
            w >= 256,
            len >= 240 * w,
    ;
}

proof fn lemma_frame_after_row_untouched(p: PpuView, sx: int, y: int, lo: u8, hi: u8, attr: u8, n: int, x: int)
    requires
        p.wf(),
        0 <= n <= 8,
        0 <= sx,
        0 <= y,
        0 <= x < 256,
    ensures
        x < sx || x >= sx + n ==> frame_after_row(p, sx, y, lo, hi, attr, n)[x] == p.frame[x],
        frame_after_row(p, sx, y, lo, hi, attr, n).len() == 256,
        forall|i: int| 0 <= i < 256 ==> (#[trigger] frame_after_row(p, sx, y, lo, hi, attr, n)[i]).len() == 240,
    decreases n,
{
    if n > 0 {
        lemma_frame_after_row_untouched(p, sx, y, lo, hi, attr, n - 1, x);
        let f = frame_after_row(p, sx, y, lo, hi, attr, n - 1);
        assert forall|i: int| 0 <= i < 256 implies (#[trigger] frame_after_row(p, sx, y, lo, hi, attr, n)[i]).len() == 240 by {
            assert(f[i].len() == 240);
        }
    }
}

impl Ppu {
    /// Draws one row of a sprite: the eight pixels of pattern row
    /// `lo`/`hi` at (`sx`, `scanline`), flipped and coloured as `attribute`
    /// says, onto `frame` and the colour-number buffer.
    #[verifier::rlimit(40)]
    fn draw_sprite_row(
        &mut self,
        cart: &mut Cartridge,
        frame: &mut Frame,
        sx: u16,
        scanline: u16,
        lo: u8,
        hi: u8,
        attribute: u8,
    )
        requires
            old(self)@.wf(),
            old(cart).wf(),
            picture_fits(old(frame)),
            sx < 256,
        ensures
            final(self)@ == (PpuView {
                frame: frame_after_row(old(self)@, sx as int, scanline as int, lo, hi, attribute, 8),
                ..old(self)@
            }),
            final(self)@.wf(),
            final(frame).width() == old(frame).width(),
            final(frame).pixels().len() == old(frame).pixels().len(),
            final(frame).pixels() == pixels_after_row(old(self)@, *old(cart), old(frame).pixels(),
                old(frame).width() as int, sx as int, scanline as int, lo, hi, attribute, 8),
            old(cart).same(final(cart)),
    {
        let ghost p = self@;
        let ghost c0 = *cart;
        let ghost f0 = frame.pixels();
        let ghost w = frame.width() as int;
        proof {
            lemma_byte_masks(attribute);
            lemma_same_cart(c0, c0, c0, 0, 0);
        }
        let flip_horizontal = attribute & 0x40 != 0;
        let palette = attribute & 0x3;
        let behind_background = attribute & 0x20 != 0;
        let mask = self.mask();
        proof {
            lemma_byte_masks(mask);
        }
        let mut col: u16 = 0;
        while col < 8
            invariant
                p == old(self)@,
                c0 == *old(cart),
                f0 == old(frame).pixels(),
                w == old(frame).width() as int,
                p.wf(),
                c0.wf(),
                c0.same(cart),
                picture_fits(frame),
                frame.width() as int == w,
                frame.pixels().len() == f0.len(),
                0 <= col <= 8,
                sx < 256,
                mask == p.mask,
                palette as int == attribute % 4,
                flip_horizontal == has_flag(attribute, 0x40),
                behind_background == has_flag(attribute, 0x20),
                self@ == (PpuView { frame: frame_after_row(p, sx as int, scanline as int, lo, hi, attribute, col as int), ..p }),
                self@.wf(),
                frame.pixels() == pixels_after_row(p, c0, f0, w, sx as int, scanline as int, lo, hi, attribute, col as int),
            decreases 8 - col,
        {
            let ghost before = self@;
            let effective_col: u8 = if flip_horizontal {
                7 - col as u8
            } else {
                col as u8
            };
            let pixel_value = pixel_of(lo, hi, effective_col);
            let screen_x = sx + col;
            let screen_y = scanline;
            proof {
                lemma_frame_after_row_untouched(p, sx as int, scanline as int, lo, hi, attribute, col as int, 0);
            }
            if pixel_value != 0 && screen_x < 256 && screen_y < 240 {
                proof {
                    lemma_frame_after_row_untouched(p, sx as int, scanline as int, lo, hi, attribute, col as int, screen_x as int);
                }
                let ghost c1 = *cart;
                let color = if (mask & MASK_SPRITES_LEFTMOST) == 0 && self.cycle() < 8 {
                    self.get_fgpalette(cart, palette, 0)
                } else {
                    self.get_fgpalette(cart, palette, pixel_value)
                };
                proof {
                    lemma_same_reads(p, c0, c1, *cart);
                }
                let bg_pixel = self.frame_at(screen_x, screen_y);
                let should_draw = if behind_background {
                    bg_pixel == 0
                } else {
                    true
                };
                if should_draw && (mask & MASK_ENABLE_SPRITES) != 0 {
                    proof {
                        lemma_pixel_in_frame(screen_x as int, screen_y as int, w, frame.pixels().len() as int);
                    }
                    frame.drawpixel(screen_x, screen_y, color);
                    self.set_frame_at(screen_x, screen_y, pixel_value);
                }
            }
            col = col + 1;
            proof {
                assert(self@ =~= (PpuView { frame: frame_after_row(p, sx as int, scanline as int, lo, hi, attribute, col as int), ..p }));
            }
        }
    }
}

/// The pattern address of the row of 8 x 8 sprite `index` that lies on
/// `scanline`, or `None` when the sprite is not on it (sprites are drawn
/// one line below their Y byte; one at Y 237 or lower on the screen is
/// not drawn).
pub open spec fn sprite88_row_address(p: PpuView, index: int, scanline: int) -> Option<int> {
    let s = p.oam[index];
    let sy = s.0 + 1;
    if scanline < sy || scanline >= sy + 8 || sy >= 238 {
        None
    } else {
        let row = scanline - sy;
        let effective_row = if has_flag(s.2, 0x80) { 7 - row } else { row };
        let base = if has_flag(p.ctrl, CTRL_SPRITE_PATTERN_TABLE) { 0x1000int } else { 0 };
        Some(base + s.1 as int * 16 + effective_row)
    }
}

/// The pattern address of the row of 8 x 16 sprite `index` that lies on
/// `scanline`, or `None` when the sprite is not on it; bit 0 of the tile
/// number selects the pattern table, and a vertical flip swaps the two
/// tiles as well as the rows.
pub open spec fn sprite816_row_address(p: PpuView, index: int, scanline: int) -> Option<int> {
    let s = p.oam[index];
    let sy = s.0 + 1;
    if scanline < sy || scanline >= sy + 16 {
        None
    } else {
        let offset = scanline - sy;
        let tile = offset / 8;
        let row = offset % 8;
        let flip_v = has_flag(s.2, 0x80);
        let effective_tile = if flip_v { 1 - tile } else { tile };
        let effective_row = if flip_v { 7 - row } else { row };
        let base = if s.1 % 2 == 1 { 0x1000int } else { 0 };
        let number = s.1 as int - s.1 as int % 2;
        Some(base + (number + effective_tile) * 16 + effective_row)
    }
}

/// The pattern address of the row of sprite `index` on `scanline`, for
/// 8 x 16 sprites when `tall`, else 8 x 8.
pub open spec fn sprite_row_address(p: PpuView, index: int, scanline: int, tall: bool) -> Option<int> {
    if tall {
        sprite816_row_address(p, index, scanline)
    } else {
        sprite88_row_address(p, index, scanline)
    }
}

/// The PPU and the frame pixels (`width` to a row) after drawing the row
/// of sprite `index` that lies on `scanline`, if any.
pub open spec fn sprite_step(
    p: PpuView,
    cart: Cartridge,
    pixels: Seq<u32>,
    width: int,
    index: int,
    scanline: int,
    tall: bool,
) -> (PpuView, Seq<u32>) {
    match sprite_row_address(p, index, scanline, tall) {
        None => (p, pixels),
        Some(a) => {
            let s = p.oam[index];
            let lo = ppu_read_spec(p, cart, a as u16);
            let hi = ppu_read_spec(p, cart, (a + 8) as u16);
            (
                PpuView { frame: frame_after_row(p, s.3 as int, scanline, lo, hi, s.2, 8), ..p },
                pixels_after_row(p, cart, pixels, width, s.3 as int, scanline, lo, hi, s.2, 8),
            )
        },
    }
}

impl Ppu {
    /// Draws the part of 8 x 8 sprite `index` that lies on `scanline`.
    pub fn render_88_sprite(&mut self, cart: &mut Cartridge, index: usize, scanline: u16, nametable_frame: &mut Frame)
        requires
            old(self)@.wf(),
            old(cart).wf(),
            picture_fits(old(nametable_frame)),
            index < 64,
        ensures
            (final(self)@, final(nametable_frame).pixels()) == sprite_step(old(self)@, *old(cart),
                old(nametable_frame).pixels(), old(nametable_frame).width() as int, index as int, scanline as int, false),
            final(self)@.wf(),
            final(nametable_frame).width() == old(nametable_frame).width(),
            final(nametable_frame).pixels().len() == old(nametable_frame).pixels().len(),
            old(cart).same(final(cart)),
    {
        let ghost p = self@;
        let ghost c0 = *cart;
        proof {
            lemma_same_cart(c0, c0, c0, 0, 0);
        }
        let oam_sprite = self.sprite(index);
        let sprite_x = oam_sprite.get_x_position() as u16;
        let sprite_y = oam_sprite.get_y_position() + 1;
        let tile_index = oam_sprite.get_index_number() as u16;
        let attribute = oam_sprite.get_attribute();
        let ctrl = self.ctrl();
        proof {
            lemma_byte_masks(attribute);
            lemma_byte_masks(ctrl);
        }
        let flip_vertical = attribute & 0x80 != 0;
        if scanline < sprite_y || scanline >= sprite_y + 8 || sprite_y >= 238 {
            return;
        }
        let pattern_table: u16 = if ctrl & CTRL_SPRITE_PATTERN_TABLE != 0 {
            0x1000
        } else {
            0
        };
        let tile_base = pattern_table + tile_index * 16;
        let row = scanline - sprite_y;
        let effective_row = if flip_vertical {
            7 - row
        } else {
            row
        };
        let ghost c1 = *cart;
        let pattern_lo = self.ppu_read(cart, tile_base + effective_row);
        proof {
            lemma_same_reads(p, c0, c1, *cart);
        }
        let ghost c2 = *cart;
        let pattern_hi = self.ppu_read(cart, tile_base + effective_row + 8);
        proof {
            lemma_same_reads(p, c0, c2, *cart);
        }
        let ghost c3 = *cart;
        self.draw_sprite_row(cart, nametable_frame, sprite_x, scanline, pattern_lo, pattern_hi, attribute);
        proof {
            lemma_same_reads(p, c0, c3, *cart);
            lemma_pixels_after_row_cart(p, c0, c3, old(nametable_frame).pixels(), old(nametable_frame).width() as int,
                sprite_x as int, scanline as int, pattern_lo, pattern_hi, attribute, 8);
            lemma_frame_after_row_untouched(p, sprite_x as int, scanline as int, pattern_lo, pattern_hi, attribute, 8, 0);
        }
    }

    /// Draws the part of 8 x 16 sprite `index` that lies on `scanline`.
    pub fn render_816_sprite(&mut self, cart: &mut Cartridge, index: usize, scanline: u16, nametable_frame: &mut Frame)
        requires
            old(self)@.wf(),
            old(cart).wf(),
            picture_fits(old(nametable_frame)),
            index < 64,
        ensures
            (final(self)@, final(nametable_frame).pixels()) == sprite_step(old(self)@, *old(cart),
                old(nametable_frame).pixels(), old(nametable_frame).width() as int, index as int, scanline as int, true),
            final(self)@.wf(),
            final(nametable_frame).width() == old(nametable_frame).width(),
            final(nametable_frame).pixels().len() == old(nametable_frame).pixels().len(),
            old(cart).same(final(cart)),
    {
        let ghost p = self@;
        let ghost c0 = *cart;
        proof {
            lemma_same_cart(c0, c0, c0, 0, 0);
        }
        let oam_sprite = self.sprite(index);
        let x = oam_sprite.get_x_position();
        let y = oam_sprite.get_y_position() + 1;
        let tile_index = oam_sprite.get_index_number() as u16;
        let attribute = oam_sprite.get_attribute();
        proof {
            lemma_byte_masks(attribute);
            assert(tile_index & 0xFEu16 == tile_index - tile_index % 2 && tile_index & 1u16 == tile_index % 2) by {
                lemma_word_fields(tile_index);
            }
        }
        let flip_vertical = attribute & 0x80 != 0;
        if scanline < y || scanline >= y + 16 {
            return;
        }
        let pattern_table: u16 = if tile_index & 1 == 0 {
            0
        } else {
            0x1000
        };
        let tile_number = tile_index & 0xFE;
        let sprite_y_offset = scanline - y;
        let tile = sprite_y_offset / 8;
        let row_in_tile = sprite_y_offset % 8;
        let effective_tile = if flip_vertical {
            1 - tile
        } else {
            tile
        };
        let tile_base = pattern_table + (tile_number + effective_tile) * 16;
        let effective_row = if flip_vertical {
            7 - row_in_tile
        } else {
            row_in_tile
        };
        let pattern_address = tile_base + effective_row;
        let ghost c1 = *cart;
        let pattern_lo = self.ppu_read(cart, pattern_address);
        proof {
            lemma_same_reads(p, c0, c1, *cart);
        }
        let ghost c2 = *cart;
        let pattern_hi = self.ppu_read(cart, pattern_address + 8);
        proof {
            lemma_same_reads(p, c0, c2, *cart);
        }
        let ghost c3 = *cart;
        self.draw_sprite_row(cart, nametable_frame, x as u16, scanline, pattern_lo, pattern_hi, attribute);
        proof {
            lemma_same_reads(p, c0, c3, *cart);
            lemma_pixels_after_row_cart(p, c0, c3, old(nametable_frame).pixels(), old(nametable_frame).width() as int,
                x as int, scanline as int, pattern_lo, pattern_hi, attribute, 8);
            lemma_frame_after_row_untouched(p, x as int, scanline as int, pattern_lo, pattern_hi, attribute, 8, 0);
        }
    }
}

/// The pixels a sprite row draws depend on the cartridge only through
/// what it reads.
proof fn lemma_pixels_after_row_cart(
    p: PpuView,
    a: Cartridge,
    b: Cartridge,
    pixels: Seq<u32>,
    width: int,
    sx: int,
    y: int,
    lo: u8,
    hi: u8,
    attr: u8,
    n: int,
)
    requires
        forall|addr: u16| #[trigger] ppu_read_spec(p, a, addr) == ppu_read_spec(p, b, addr),
    ensures
        pixels_after_row(p, a, pixels, width, sx, y, lo, hi, attr, n)
            == pixels_after_row(p, b, pixels, width, sx, y, lo, hi, attr, n),
    decreases n,
{
    if n > 0 {
        lemma_pixels_after_row_cart(p, a, b, pixels, width, sx, y, lo, hi, attr, n - 1);
    }
}

/// Whether sprite `i` lies on scanline `line` (sprites show one line
/// below their Y byte, 8 or 16 lines tall).
pub open spec fn on_line(p: PpuView, i: int, line: int) -> bool {
    let sy = p.oam[i].0 + 1;
    let height = if tall_sprites(p.ctrl) { 16int } else { 8 };
    sy <= line < sy + height
}

/// The sprites on scanline `line`, continuing the scan at sprite `i` with
/// `found` already found: OAM order, stopping once nine are found.
pub open spec fn sprites_on_line_from(p: PpuView, line: int, i: int, found: Seq<usize>) -> Seq<usize>
    decreases 64 - i,
{
    if i >= 64 || found.len() > 8 {
        found
    } else if on_line(p, i, line) {
        sprites_on_line_from(p, line, i + 1, found.push(i as usize))
    } else {
        sprites_on_line_from(p, line, i + 1, found)
    }
}

/// The sprites on scanline `line`, in OAM order, at most nine.
pub open spec fn sprites_on_line(p: PpuView, line: int) -> Seq<usize> {
    sprites_on_line_from(p, line, 0, Seq::empty())
}

/// The PPU and frame pixels after drawing the last `n` sprites of `list`
/// on `line`, last one first, so that earlier sprites end on top.
pub open spec fn draw_sprites(
    p: PpuView,
    cart: Cartridge,
    pixels: Seq<u32>,
    width: int,
    list: Seq<usize>,
    line: int,
    n: int,
) -> (PpuView, Seq<u32>)
    decreases n,
{
    if n <= 0 {
        (p, pixels)
    } else {
        let prev = draw_sprites(p, cart, pixels, width, list, line, n - 1);
        sprite_step(prev.0, cart, prev.1, width, list[list.len() - n] as int, line, tall_sprites(p.ctrl))
    }
}

proof fn lemma_sprites_on_line_from(p: PpuView, line: int, i: int, found: Seq<usize>)
    requires
        0 <= i <= 64,
        found.len() <= 9,
        forall|k: int| 0 <= k < found.len() ==> found[k] < 64,
    ensures
        sprites_on_line_from(p, line, i, found).len() <= 9,
        forall|k: int| 0 <= k < sprites_on_line_from(p, line, i, found).len()
            ==> (#[trigger] sprites_on_line_from(p, line, i, found)[k]) < 64,
    decreases 64 - i,
{
    if i < 64 && found.len() <= 8 {
        if on_line(p, i, line) {
            lemma_sprites_on_line_from(p, line, i + 1, found.push(i as usize));
        } else {
            lemma_sprites_on_line_from(p, line, i + 1, found);
        }
    }
}

/// Drawing a sprite depends on the cartridge only through what it reads.
proof fn lemma_sprite_step_cart(
    p: PpuView,
    a: Cartridge,
    b: Cartridge,
    pixels: Seq<u32>,
    width: int,
    index: int,
    line: int,
    tall: bool,
)
    requires
        forall|addr: u16| #[trigger] ppu_read_spec(p, a, addr) == ppu_read_spec(p, b, addr),
    ensures
        sprite_step(p, a, pixels, width, index, line, tall) == sprite_step(p, b, pixels, width, index, line, tall),
{
    match sprite_row_address(p, index, line, tall) {
        None => {},
        Some(addr) => {
            let s = p.oam[index];
            let lo = ppu_read_spec(p, a, addr as u16);
            let hi = ppu_read_spec(p, a, (addr + 8) as u16);
            lemma_pixels_after_row_cart(p, a, b, pixels, width, s.3 as int, line, lo, hi, s.2, 8);
        },
    }
}

impl Ppu {
    /// Sprite evaluation at the end of visible scanline `line`: finds the
    /// sprites on the line (raising the overflow flag when there are more
    /// than eight, and keeping the first nine) and draws them, the last
    /// found first.
    pub fn evaluate_sprites(&mut self, cart: &mut Cartridge, line: u16, frame: &mut Frame)
        requires
            old(self)@.wf(),
            old(cart).wf(),
            picture_fits(old(frame)),
        ensures
            ({
                let list = sprites_on_line(old(self)@, line as int);
                let flagged = if list.len() > 8 {
                    PpuView { status: old(self)@.status | STATUS_SPRITE_OVERFLOW, ..old(self)@ }
                } else {
                    old(self)@
                };
                (final(self)@, final(frame).pixels()) == draw_sprites(flagged, *old(cart), old(frame).pixels(),
                    old(frame).width() as int, list, line as int, list.len() as int)
            }),
            final(self)@.wf(),
            final(frame).width() == old(frame).width(),
            final(frame).pixels().len() == old(frame).pixels().len(),
            old(cart).same(final(cart)),
    {
        let ghost p = self@;
        let ghost c0 = *cart;
        proof {
            lemma_same_cart(c0, c0, c0, 0, 0);
            lemma_sprites_on_line_from(p, line as int, 0, Seq::empty());
        }
        let tall = self.ctrl() & CTRL_SPRITE_SIZE != 0;
        let mut visible: Vec<usize> = Vec::new();
        let mut i: usize = 0;
        while i < 64
            invariant_except_break
                0 <= i <= 64,
                visible@.len() <= 8,
                self@ == p,
                sprites_on_line_from(p, line as int, i as int, visible@) == sprites_on_line(p, line as int),
            invariant
                self@ == p || self@ == (PpuView { status: p.status | STATUS_SPRITE_OVERFLOW, ..p }),
                p == old(self)@,
                p.wf(),
                tall == tall_sprites(p.ctrl),
                forall|k: int| 0 <= k < visible@.len() ==> visible@[k] < 64,
            ensures
                visible@ == sprites_on_line(p, line as int),
                self@ == if visible@.len() > 8 {
                    PpuView { status: p.status | STATUS_SPRITE_OVERFLOW, ..p }
                } else {
                    p
                },
            decreases 64 - i,
        {
            let sprite_y = self.sprite(i).get_y_position() + 1;
            let sprite_height: u16 = if tall {
                16
            } else {
                8
            };
            let ghost old_visible = visible@;
            if line >= sprite_y && line < sprite_y + sprite_height {
                visible.push(i);
                assert(sprites_on_line_from(p, line as int, i as int, old_visible)
                    == sprites_on_line_from(p, line as int, i + 1, visible@));
                if visible.len() > 8 {
                    let status = self.status();
                    self.set_status(status | STATUS_SPRITE_OVERFLOW);
                    break;
                }
            }
            i = i + 1;
        }
        let n = visible.len();
        let mut j: usize = 0;
        while j < n
            invariant
                p == old(self)@,
                c0 == *old(cart),
                c0.wf(),
                c0.same(cart),
                n == visible@.len(),
                n <= 9,
                0 <= j <= n,
                forall|k: int| 0 <= k < visible@.len() ==> visible@[k] < 64,
                self@.wf(),
                picture_fits(frame),
                frame.width() == old(frame).width(),
                frame.pixels().len() == old(frame).pixels().len(),
                tall == tall_sprites(p.ctrl),
                (self@, frame.pixels()) == draw_sprites(
                    if n > 8 { PpuView { status: p.status | STATUS_SPRITE_OVERFLOW, ..p } } else { p },
                    c0, old(frame).pixels(), old(frame).width() as int, visible@, line as int, j as int),
                self@.ctrl == p.ctrl,
            decreases n - j,
        {
            let index = visible[n - 1 - j];
            let ghost c1 = *cart;
            let ghost before = (self@, frame.pixels());
            if tall {
                self.render_816_sprite(cart, index, line, frame);
            } else {
                self.render_88_sprite(cart, index, line, frame);
            }
            proof {
                lemma_same_reads(before.0, c0, c1, *cart);
                lemma_same_reads(before.0, c0, c1, c1);
                lemma_sprite_step_cart(before.0, c0, c1, before.1, old(frame).width() as int, index as int, line as int, tall);
            }
            j = j + 1;
        }
    }
}

/// Where sprite 0 is found depends on the cartridge only through what
/// it reads.
pub proof fn lemma_sprite0_found_cart(p: PpuView, a: Cartridge, b: Cartridge, q: PpuView)
    requires
        forall|addr: u16| #[trigger] ppu_read_spec(p, a, addr) == ppu_read_spec(p, b, addr),
        sprite0_found(p, a, q),
    ensures
        sprite0_found(p, b, q),
{
    reveal(sprite0_pixel);
    assert forall|k: int| sprite0_pixel(p, a, k) == #[trigger] sprite0_pixel(p, b, k) by {
        let addr = sprite0_row_address(p.ctrl, p.oam[0], k);
        assert(ppu_read_spec(p, a, addr as u16) == ppu_read_spec(p, b, addr as u16));
        assert(ppu_read_spec(p, a, (addr + 8) as u16) == ppu_read_spec(p, b, (addr + 8) as u16));
    }
    if q.sprite0_possible {
        let k = choose|k: int|
            sprite0_first_opaque(p, a, k) && q.sprite0_x == p.oam[0].3 as int + k % 8
                && q.sprite0_y == (p.oam[0].0 as u8) as int + k / 8;
        assert(sprite0_first_opaque(p, b, k));
    }
    if exists|k: int| 0 <= k < sprite0_span(p.ctrl) && sprite0_pixel(p, b, k) != 0 {
        let k = choose|k: int| 0 <= k < sprite0_span(p.ctrl) && sprite0_pixel(p, b, k) != 0;
        assert(sprite0_pixel(p, a, k) != 0);
    }
}

/// Drawing a list of sprites depends on the cartridge only through what
/// it reads, and changes nothing but the colour numbers.
pub proof fn lemma_draw_sprites_cart(
    p: PpuView,
    a: Cartridge,
    b: Cartridge,
    pixels: Seq<u32>,
    width: int,
    list: Seq<usize>,
    line: int,
    n: int,
)
    requires
        forall|addr: u16| #[trigger] ppu_read_spec(p, a, addr) == ppu_read_spec(p, b, addr),
    ensures
        draw_sprites(p, a, pixels, width, list, line, n) == draw_sprites(p, b, pixels, width, list, line, n),
        draw_sprites(p, a, pixels, width, list, line, n).0
            == (PpuView { frame: draw_sprites(p, a, pixels, width, list, line, n).0.frame, ..p }),
    decreases n,
{
    if n > 0 {
        lemma_draw_sprites_cart(p, a, b, pixels, width, list, line, n - 1);
        let prev = draw_sprites(p, a, pixels, width, list, line, n - 1);
        assert forall|addr: u16| #[trigger] ppu_read_spec(prev.0, a, addr) == ppu_read_spec(prev.0, b, addr) by {
            assert(ppu_read_spec(prev.0, a, addr) == ppu_read_spec(p, a, addr));
            assert(ppu_read_spec(prev.0, b, addr) == ppu_read_spec(p, b, addr));
        }
        lemma_sprite_step_cart(prev.0, a, b, prev.1, width, list[list.len() - n] as int, line, tall_sprites(p.ctrl));
    }
}

/// The colour number at (`x`, `y`) of the 256 x 128 view of the two
/// pattern tables, 16 x 16 tiles each, side by side; the low bit plane
/// gives the high bit of the number.
pub open spec fn pattern_view_value(p: PpuView, cart: Cartridge, x: int, y: int) -> u8 {
    let base = if x / 8 >= 16 { 0x1000int } else { 0 };
    let address = base + ((y / 8) * 16 + (x / 8) % 16) * 16 + y % 8;
    tile_pixel(ppu_read_spec(p, cart, (address + 8) as u16), ppu_read_spec(p, cart, address as u16), x % 8)
}

/// The colour of (`x`, `y`) in the pattern-table view, through the
/// background palette selected for it.
pub open spec fn pattern_view_color(p: PpuView, cart: Cartridge, x: int, y: int) -> (u8, u8, u8) {
    palette_color(p, cart, bg_palette_address(p.mask, p.palette_num, pattern_view_value(p, cart, x, y)))
}

/// Whether pixel (`x`, `y`) of the view comes before the pixel at fine
/// position (`fx`, `fy`) of tile (`cx`, `cy`) in drawing order: tile rows
/// top to bottom, tiles left to right, then each tile's rows and columns.
pub open spec fn drawn_before(x: int, y: int, cx: int, cy: int, fx: int, fy: int) -> bool {
    y / 8 < cy || (y / 8 == cy && (x / 8 < cx || (x / 8 == cx && (y % 8 < fy || (y % 8 == fy && x % 8 < fx)))))
}

/// The frame pixels (`width` to a row) once the pattern-table view has
/// been drawn, 256 pixels to the right, up to (not including) fine
/// position (`fx`, `fy`) of tile (`cx`, `cy`).
pub open spec fn pattern_view_partial(
    p: PpuView,
    cart: Cartridge,
    pixels: Seq<u32>,
    width: int,
    cx: int,
    cy: int,
    fx: int,
    fy: int,
) -> Seq<u32> {
    Seq::new(
        pixels.len(),
        |i: int|
            {
                let j = i - 256;
                let x = j % width;
                let y = j / width;
                if j >= 0 && x < 256 && y < 128 && drawn_before(x, y, cx, cy, fx, fy) {
                    pack_rgb(pattern_view_color(p, cart, x, y))
                } else {
                    pixels[i]
                }
            },
    )
}

/// The frame pixels once the whole pattern-table view has been drawn:
/// pixel (`x`, `y`) of the view lands at index `y * width + x + 256`.
pub open spec fn pattern_view_pixels(p: PpuView, cart: Cartridge, pixels: Seq<u32>, width: int) -> Seq<u32> {
    pattern_view_partial(p, cart, pixels, width, 0, 16, 0, 0)
}

/// Drawing the pixel at fine position (`fx`, `fy`) of tile (`cx`, `cy`)
/// extends the drawn part by exactly that pixel.
proof fn lemma_pattern_view_step(
    p: PpuView,
    cart: Cartridge,
    pixels: Seq<u32>,
    width: int,
    cx: int,
    cy: int,
    fx: int,
    fy: int,
)
    requires
        0 <= cx < 32,
        0 <= cy < 16,
        0 <= fx < 8,
        0 <= fy < 8,
        width >= 256,
        pixels.len() >= 127 * width + 512,
    ensures
        ({
            let x = cx * 8 + fx;
            let y = cy * 8 + fy;
            let i0 = y * width + x + 256;
            &&& 0 <= i0 < pixels.len()
            &&& pattern_view_partial(p, cart, pixels, width, cx, cy, fx + 1, fy)
                == pattern_view_partial(p, cart, pixels, width, cx, cy, fx, fy).update(
                i0,
                pack_rgb(pattern_view_color(p, cart, x, y)),
            )
        }),
{
    let x = cx * 8 + fx;
    let y = cy * 8 + fy;
    let i0 = y * width + x + 256;
    assert(0 <= y * width <= 127 * width) by (nonlinear_arith)
        requires
            0 <= y <= 127,
            width >= 256,
    ;
    assert((i0 - 256) % width == x && (i0 - 256) / width == y) by {
        vstd::arithmetic::div_mod::lemma_fundamental_div_mod_converse_mod(i0 - 256, width, y, x);
        vstd::arithmetic::div_mod::lemma_fundamental_div_mod_converse_div(i0 - 256, width, y, x);
    }
    let a = pattern_view_partial(p, cart, pixels, width, cx, cy, fx + 1, fy);
    let b = pattern_view_partial(p, cart, pixels, width, cx, cy, fx, fy).update(i0, pack_rgb(pattern_view_color(p, cart, x, y)));
    assert forall|i: int| 0 <= i < pixels.len() implies a[i] == b[i] by {
        if i != i0 {
            let j = i - 256;
            vstd::arithmetic::div_mod::lemma_fundamental_div_mod(j, width);
            if j >= 0 && j % width < 256 && j / width < 128 {
                if j % width == x && j / width == y {
                    assert(width * (j / width) == j / width * width) by (nonlinear_arith);
                    assert(false);
                }
            }
        }
    }
    assert(a =~= b);
}

impl Ppu {
    /// Draws the two pattern tables, side by side as 256 x 128 pixels in
    /// the background palette selected for the view, 256 pixels into each
    /// row of `frame`.
    #[verifier::rlimit(40)]
    pub fn get_pattern_table(&mut self, cart: &mut Cartridge, frame: &mut Frame)
        requires
            old(self)@.wf(),
            old(cart).wf(),
            old(frame).width() >= 256,
            old(frame).pixels().len() >= 127 * old(frame).width() + 512,
        ensures
            final(frame).pixels() == pattern_view_pixels(old(self)@, *old(cart), old(frame).pixels(),
                old(frame).width() as int),
            final(frame).width() == old(frame).width(),
            final(self)@ == old(self)@,
            old(cart).same(final(cart)),
    {
        let ghost p = self@;
        let ghost c0 = *cart;
        let ghost f0 = frame.pixels();
        let ghost w = frame.width() as int;
        proof {
            lemma_same_cart(c0, c0, c0, 0, 0);
            assert(pattern_view_partial(p, c0, f0, w, 0, 0, 0, 0) =~= f0);
        }
        let palette_num = self.palette_number();
        let mut coarse_y: u16 = 0;
        while coarse_y < 0x10
            invariant
                p == old(self)@,
                c0 == *old(cart),
                f0 == old(frame).pixels(),
                w == old(frame).width() as int,
                self@ == p,
                p.wf(),
                c0.wf(),
                c0.same(cart),
                palette_num == p.palette_num,
                frame.width() as int == w,
                w >= 256,
                f0.len() >= 127 * w + 512,
                0 <= coarse_y <= 16,
                frame.pixels() == pattern_view_partial(p, c0, f0, w, 0, coarse_y as int, 0, 0),
            decreases 16 - coarse_y,
        {
            let mut coarse_x: u16 = 0;
            while coarse_x < 0x20
                invariant
                    p == old(self)@,
                    c0 == *old(cart),
                    f0 == old(frame).pixels(),
                    w == old(frame).width() as int,
                    self@ == p,
                    p.wf(),
                    c0.wf(),
                    c0.same(cart),
                    palette_num == p.palette_num,
                    frame.width() as int == w,
                    w >= 256,
                    f0.len() >= 127 * w + 512,
                    0 <= coarse_y < 16,
                    0 <= coarse_x <= 32,
                    frame.pixels() == pattern_view_partial(p, c0, f0, w, coarse_x as int, coarse_y as int, 0, 0),
                decreases 32 - coarse_x,
            {
                let pattern_address: u16 = if coarse_x >= 0x10 {
                    0x1000
                } else {
                    0
                };
                let nametable_location: u16 = coarse_y * 16 + coarse_x % 16;
                let mut fine_y: u16 = 0;
                while fine_y < 8
                    invariant
                        p == old(self)@,
                        c0 == *old(cart),
                        f0 == old(frame).pixels(),
                        w == old(frame).width() as int,
                        self@ == p,
                        p.wf(),
                        c0.wf(),
                        c0.same(cart),
                        palette_num == p.palette_num,
                        frame.width() as int == w,
                        w >= 256,
                        f0.len() >= 127 * w + 512,
                        0 <= coarse_y < 16,
                        0 <= coarse_x < 32,
                        0 <= fine_y <= 8,
                        pattern_address as int == if coarse_x >= 16 { 0x1000int } else { 0 },
                        nametable_location as int == coarse_y * 16 + coarse_x % 16,
                        frame.pixels() == pattern_view_partial(p, c0, f0, w, coarse_x as int, coarse_y as int, 0,
                            fine_y as int),
                    decreases 8 - fine_y,
                {
                    let address = pattern_address + nametable_location * 16 + fine_y;
                    let ghost c1 = *cart;
                    let pattern_lo = self.ppu_read(cart, address);
                    proof {
                        lemma_same_reads(p, c0, c1, *cart);
                    }
                    let ghost c2 = *cart;
                    let pattern_hi = self.ppu_read(cart, address + 8);
                    proof {
                        lemma_same_reads(p, c0, c2, *cart);
                    }
                    let mut fine_x: u16 = 0;
                    while fine_x < 8
                        invariant
                            p == old(self)@,
                            c0 == *old(cart),
                            f0 == old(frame).pixels(),
                            w == old(frame).width() as int,
                            self@ == p,
                            p.wf(),
                            c0.wf(),
                            c0.same(cart),
                            palette_num == p.palette_num,
                            frame.width() as int == w,
                            w >= 256,
                            f0.len() >= 127 * w + 512,
                            0 <= coarse_y < 16,
                            0 <= coarse_x < 32,
                            0 <= fine_y < 8,
                            0 <= fine_x <= 8,
                            address as int == (if coarse_x >= 16 { 0x1000int } else { 0 })
                                + (coarse_y * 16 + coarse_x % 16) * 16 + fine_y,
                            pattern_lo == ppu_read_spec(p, c0, address),
                            pattern_hi == ppu_read_spec(p, c0, (address + 8) as u16),
                            frame.pixels() == pattern_view_partial(p, c0, f0, w, coarse_x as int, coarse_y as int,
                                fine_x as int, fine_y as int),
                        decreases 8 - fine_x,
                    {
                        let pattern_number = pixel_of(pattern_hi, pattern_lo, fine_x as u8);
                        let x = coarse_x * 8 + fine_x;
                        let y = coarse_y * 8 + fine_y;
                        let ghost c3 = *cart;
                        let color = self.get_bgpalette(cart, palette_num, pattern_number);
                        proof {
                            lemma_same_reads(p, c0, c3, *cart);
                            lemma_pattern_view_step(p, c0, f0, w, coarse_x as int, coarse_y as int, fine_x as int,
                                fine_y as int);
                            assert(x as int / 8 == coarse_x && x as int % 8 == fine_x);
                            assert(y as int / 8 == coarse_y && y as int % 8 == fine_y);
                            assert(pattern_number == pattern_view_value(p, c0, x as int, y as int));
                        }
                        frame.drawpixel(x + 256, y, color);
                        fine_x = fine_x + 1;
                    }
                    fine_y = fine_y + 1;
                    proof {
                        assert(frame.pixels() =~= pattern_view_partial(p, c0, f0, w, coarse_x as int, coarse_y as int, 0,
                            fine_y as int));
                    }
                }
                coarse_x = coarse_x + 1;
                proof {
                    assert(frame.pixels() =~= pattern_view_partial(p, c0, f0, w, coarse_x as int, coarse_y as int, 0, 0));
                }
            }
            coarse_y = coarse_y + 1;
            proof {
                assert(frame.pixels() =~= pattern_view_partial(p, c0, f0, w, 0, coarse_y as int, 0, 0));
            }
        }
    }
}

/// A cartridge that an access left the same reads the same through the
/// PPU bus, and "the same" chains.
pub(crate) proof fn lemma_same_reads(p: PpuView, a: Cartridge, b: Cartridge, c: Cartridge)
    requires
        a.same(&b),
        b.same(&c),
    ensures
        a.same(&c),
        a.wf() ==> c.wf(),
        forall|addr: u16| ppu_read_spec(p, a, addr) == #[trigger] ppu_read_spec(p, c, addr),
{
    assert forall|addr: u16| ppu_read_spec(p, a, addr) == #[trigger] ppu_read_spec(p, c, addr) by {
        lemma_same_cart(a, b, c, addr, 0);
        lemma_same_cart(b, c, c, addr, 0);
    }
    lemma_same_cart(a, b, c, 0, 0);
    lemma_same_cart(b, c, c, 0, 0);
}

} // verus!

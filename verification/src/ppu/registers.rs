//! The PPU's control, mask and status register bits, and the 15-bit
//! "loopy" scroll/address register (`v` and `t`).
use vstd::prelude::*;
use crate::bits::lemma_byte_masks;
use vstd::arithmetic::div_mod::{lemma_fundamental_div_mod, lemma_div_denominator};

verus! {

// PPUCTRL ($2000) bits.
pub const CTRL_NAMETABLE_X: u8 = 0x01;
pub const CTRL_NAMETABLE_Y: u8 = 0x02;
pub const CTRL_VRAM_INCREMENT: u8 = 0x04;
pub const CTRL_SPRITE_PATTERN_TABLE: u8 = 0x08;
pub const CTRL_BACKGROUND_PATTERN_TABLE: u8 = 0x10;
pub const CTRL_SPRITE_SIZE: u8 = 0x20;
pub const CTRL_MASTER_SLAVE: u8 = 0x40;
pub const CTRL_VBLANK_ENABLE: u8 = 0x80;

// PPUMASK ($2001) bits.
pub const MASK_GREYSCALE: u8 = 0x01;
pub const MASK_SHOW_BACKGROUND: u8 = 0x02;
pub const MASK_SPRITES_LEFTMOST: u8 = 0x04;
pub const MASK_ENABLE_BACKGROUND: u8 = 0x08;
pub const MASK_ENABLE_SPRITES: u8 = 0x10;
pub const MASK_EMPHASIZE_RED: u8 = 0x20;
pub const MASK_EMPHASIZE_GREEN: u8 = 0x40;
pub const MASK_EMPHASIZE_BLUE: u8 = 0x80;

// PPUSTATUS ($2002) bits.
pub const STATUS_VBLANK: u8 = 0x80;
pub const STATUS_SPRITE0_HIT: u8 = 0x40;
pub const STATUS_SPRITE_OVERFLOW: u8 = 0x20;

/// Whether bit `mask` (a single-bit mask) is set in `reg`.
pub open spec fn has_flag(reg: u8, mask: u8) -> bool {
    reg & mask != 0
}

/// Coarse X scroll: bits 0-4.
pub open spec fn coarse_x_of(v: u16) -> int {
    v as int % 32
}

/// Coarse Y scroll: bits 5-9.
pub open spec fn coarse_y_of(v: u16) -> int {
    (v as int / 32) % 32
}

/// Horizontal nametable select: bit 10.
pub open spec fn nametable_x_of(v: u16) -> int {
    (v as int / 1024) % 2
}

/// Vertical nametable select: bit 11.
pub open spec fn nametable_y_of(v: u16) -> int {
    (v as int / 2048) % 2
}

/// Both nametable select bits: bits 10-11.
pub open spec fn nametable_of(v: u16) -> int {
    (v as int / 1024) % 4
}

/// Fine Y scroll: bits 12-14.
pub open spec fn fine_y_of(v: u16) -> int {
    (v as int / 4096) % 8
}

/// The unused top bit 15.
pub open spec fn top_bit_of(v: u16) -> int {
    v as int / 32768
}

/// The register value made of the given fields.
pub open spec fn pack(top: int, fine_y: int, nt_y: int, nt_x: int, coarse_y: int, coarse_x: int) -> int {
    top * 32768 + fine_y * 4096 + nt_y * 2048 + nt_x * 1024 + coarse_y * 32 + coarse_x
}

/// The value of `v` with its fine Y field replaced by `f`.
pub open spec fn with_fine_y(v: u16, f: int) -> u16 {
    pack(top_bit_of(v), f, nametable_y_of(v), nametable_x_of(v), coarse_y_of(v), coarse_x_of(v)) as u16
}

/// The value of `v` with its coarse Y field replaced by `c`.
pub open spec fn with_coarse_y(v: u16, c: int) -> u16 {
    pack(top_bit_of(v), fine_y_of(v), nametable_y_of(v), nametable_x_of(v), c, coarse_x_of(v)) as u16
}

/// The value of `v` with its coarse X field replaced by `c`.
pub open spec fn with_coarse_x(v: u16, c: int) -> u16 {
    pack(top_bit_of(v), fine_y_of(v), nametable_y_of(v), nametable_x_of(v), coarse_y_of(v), c) as u16
}

/// The value of `v` with its horizontal nametable bit replaced by `n`.
pub open spec fn with_nametable_x(v: u16, n: int) -> u16 {
    pack(top_bit_of(v), fine_y_of(v), nametable_y_of(v), n, coarse_y_of(v), coarse_x_of(v)) as u16
}

/// The value of `v` with its vertical nametable bit replaced by `n`.
pub open spec fn with_nametable_y(v: u16, n: int) -> u16 {
    pack(top_bit_of(v), fine_y_of(v), n, nametable_x_of(v), coarse_y_of(v), coarse_x_of(v)) as u16
}

/// The nametable byte address that `v` points at.
pub open spec fn nametable_address_of(v: u16) -> int {
    0x2000 + v as int % 4096
}

/// The attribute byte address for the tile that `v` points at.
pub open spec fn attribute_address_of(v: u16) -> int {
    0x23C0 + nametable_of(v) * 1024 + (coarse_y_of(v) / 4) * 8 + coarse_x_of(v) / 4
}

/// Bit-level facts behind the getters and setters of `VtReg`, over the
/// register `d` and a field value `j` that fits its field.
pub proof fn lemma_vt_bits(d: u16, j: u16)
    by (bit_vector)
    ensures
        (d >> 12u16) & 7u16 == (d / 4096) % 8,
        (d >> 10u16) & 3u16 == (d / 1024) % 4,
        (d >> 5u16) & 0x1Fu16 == (d / 32) % 32,
        d & 0x1Fu16 == d % 32,
        (d >> 10u16) & 1u16 == (d / 1024) % 2,
        (d >> 11u16) & 1u16 == (d / 2048) % 2,
        0x2000u16 | (d & 0xFFFu16) == 0x2000 + d % 4096,
        0x23C0u16 | ((d & 0x3FFFu16) & 0x0C00u16) | (((d & 0x3FFFu16) >> 4u16) & 0x38u16) | (((d
            & 0x3FFFu16) >> 2u16) & 0x07u16) == 0x23C0 + ((d / 1024) % 4) * 1024 + (((d / 32) % 32)
            / 4) * 8 + (d % 32) / 4,
        j < 8 ==> (d & !(7u16 << 12u16)) | (j << 12u16) == (d / 32768) * 32768 + j * 4096 + ((d
            / 2048) % 2) * 2048 + ((d / 1024) % 2) * 1024 + ((d / 32) % 32) * 32 + d % 32,
        j < 4 ==> (d & 0b111_00_11_1111_1111u16) | (j << 10u16) == ((d / 4096) % 8) * 4096 + (j
            / 2) * 2048 + (j % 2) * 1024 + ((d / 32) % 32) * 32 + d % 32,
        j < 32 ==> (d & !(0x1Fu16 << 5u16)) | (j << 5u16) == (d / 32768) * 32768 + ((d / 4096) % 8)
            * 4096 + ((d / 2048) % 2) * 2048 + ((d / 1024) % 2) * 1024 + j * 32 + d % 32,
        j < 32 ==> (d & !0x1Fu16) | j == (d / 32768) * 32768 + ((d / 4096) % 8) * 4096 + ((d
            / 2048) % 2) * 2048 + ((d / 1024) % 2) * 1024 + ((d / 32) % 32) * 32 + j,
        j < 2 ==> (d & !(1u16 << 10u16)) | (j << 10u16) == (d / 32768) * 32768 + ((d / 4096) % 8)
            * 4096 + ((d / 2048) % 2) * 2048 + j * 1024 + ((d / 32) % 32) * 32 + d % 32,
        j < 2 ==> (d & !(1u16 << 11u16)) | (j << 11u16) == (d / 32768) * 32768 + ((d / 4096) % 8)
            * 4096 + j * 2048 + ((d / 1024) % 2) * 1024 + ((d / 32) % 32) * 32 + d % 32,
        d & 0x7FFFu16 == d % 32768,
{
}

/// Each scroll field of the loopy register reads back what was written
/// into it, and writing it leaves the other fields as they were.
pub proof fn law_vt_fields_read_back(v: u16, c: int, f: int, n: int)
    requires
        0 <= c < 32,
        0 <= f < 8,
        0 <= n < 2,
    ensures
        coarse_x_of(with_coarse_x(v, c)) == c,
        coarse_y_of(with_coarse_x(v, c)) == coarse_y_of(v),
        fine_y_of(with_coarse_x(v, c)) == fine_y_of(v),
        nametable_of(with_coarse_x(v, c)) == nametable_of(v),
        coarse_y_of(with_coarse_y(v, c)) == c,
        coarse_x_of(with_coarse_y(v, c)) == coarse_x_of(v),
        fine_y_of(with_coarse_y(v, c)) == fine_y_of(v),
        nametable_of(with_coarse_y(v, c)) == nametable_of(v),
        fine_y_of(with_fine_y(v, f)) == f,
        coarse_x_of(with_fine_y(v, f)) == coarse_x_of(v),
        coarse_y_of(with_fine_y(v, f)) == coarse_y_of(v),
        nametable_of(with_fine_y(v, f)) == nametable_of(v),
        nametable_x_of(with_nametable_x(v, n)) == n,
        nametable_y_of(with_nametable_x(v, n)) == nametable_y_of(v),
        nametable_y_of(with_nametable_y(v, n)) == n,
        nametable_x_of(with_nametable_y(v, n)) == nametable_x_of(v),
{
    let (t, fy, ny, nx, cy, cx) = (top_bit_of(v), fine_y_of(v), nametable_y_of(v), nametable_x_of(v), coarse_y_of(v),
        coarse_x_of(v));
    lemma_pack_fields(t, fy, ny, nx, cy, c);
    lemma_pack_fields(t, fy, ny, nx, c, cx);
    lemma_pack_fields(t, f, ny, nx, cy, cx);
    lemma_pack_fields(t, fy, ny, n, cy, cx);
    lemma_pack_fields(t, fy, n, nx, cy, cx);
    lemma_nametable_split(v as int);
    lemma_nametable_split(with_coarse_x(v, c) as int);
    lemma_nametable_split(with_coarse_y(v, c) as int);
    lemma_nametable_split(with_fine_y(v, f) as int);
}

/// Both nametable bits are the vertical bit over the horizontal one.
proof fn lemma_nametable_split(w: int)
    requires
        0 <= w,
    ensures
        (w / 1024) % 4 == ((w / 2048) % 2) * 2 + (w / 1024) % 2,
{
    let q = w / 1024;
    assert(q / 2 == w / 2048) by (nonlinear_arith)
        requires q == w / 1024, 0 <= w;
    assert(q % 4 == ((q / 2) % 2) * 2 + q % 2) by (nonlinear_arith)
        requires 0 <= q;
}

/// Reading a field back out of a packed value gives the field.
pub proof fn lemma_pack_fields(top: int, fine_y: int, nt_y: int, nt_x: int, coarse_y: int, coarse_x: int)
    requires
        0 <= top < 2,
        0 <= fine_y < 8,
        0 <= nt_y < 2,
        0 <= nt_x < 2,
        0 <= coarse_y < 32,
        0 <= coarse_x < 32,
    ensures
        ({
            let v = pack(top, fine_y, nt_y, nt_x, coarse_y, coarse_x);
            &&& 0 <= v < 65536
            &&& v / 32768 == top
            &&& (v / 4096) % 8 == fine_y
            &&& (v / 2048) % 2 == nt_y
            &&& (v / 1024) % 2 == nt_x
            &&& (v / 32) % 32 == coarse_y
            &&& v % 32 == coarse_x
        }),
{
    let v = pack(top, fine_y, nt_y, nt_x, coarse_y, coarse_x);
    assert(v / 32768 == top) by (nonlinear_arith)
        requires v == top * 32768 + fine_y * 4096 + nt_y * 2048 + nt_x * 1024 + coarse_y * 32 + coarse_x,
            0 <= fine_y * 4096 + nt_y * 2048 + nt_x * 1024 + coarse_y * 32 + coarse_x < 32768,
    ;
    assert(v / 4096 == top * 8 + fine_y) by (nonlinear_arith)
        requires v == (top * 8 + fine_y) * 4096 + nt_y * 2048 + nt_x * 1024 + coarse_y * 32 + coarse_x,
            0 <= nt_y * 2048 + nt_x * 1024 + coarse_y * 32 + coarse_x < 4096,
    ;
    assert(v / 2048 == (top * 8 + fine_y) * 2 + nt_y) by (nonlinear_arith)
        requires v == ((top * 8 + fine_y) * 2 + nt_y) * 2048 + nt_x * 1024 + coarse_y * 32 + coarse_x,
            0 <= nt_x * 1024 + coarse_y * 32 + coarse_x < 2048,
    ;
    assert(v / 1024 == ((top * 8 + fine_y) * 2 + nt_y) * 2 + nt_x) by (nonlinear_arith)
        requires v == (((top * 8 + fine_y) * 2 + nt_y) * 2 + nt_x) * 1024 + coarse_y * 32 + coarse_x,
            0 <= coarse_y * 32 + coarse_x < 1024,
    ;
    assert(v / 32 == (((top * 8 + fine_y) * 2 + nt_y) * 2 + nt_x) * 32 + coarse_y) by (nonlinear_arith)
        requires v == ((((top * 8 + fine_y) * 2 + nt_y) * 2 + nt_x) * 32 + coarse_y) * 32 + coarse_x,
            0 <= coarse_x < 32,
    ;
}

/// Setting fine Y and then coarse Y replaces both fields.
pub proof fn lemma_fine_then_coarse_y(t: u16, t1: u16, fine: int, coarse: int)
    requires
        0 <= fine < 8,
        0 <= coarse < 32,
        t1 == with_fine_y(t, fine),
    ensures
        with_coarse_y(t1, coarse) == pack(top_bit_of(t), fine, nametable_y_of(t), nametable_x_of(t), coarse, coarse_x_of(t)) as u16,
{
    lemma_vt_bits(t, 0);
    lemma_pack_fields(top_bit_of(t), fine, nametable_y_of(t), nametable_x_of(t), coarse_y_of(t), coarse_x_of(t));
    lemma_pack_fields(top_bit_of(t), fine, nametable_y_of(t), nametable_x_of(t), coarse, coarse_x_of(t));
}

proof fn lemma_hi_byte(t: u16, d: u16)
    by (bit_vector)
    requires
        d < 256,
    ensures
        (t & 0x00FFu16) | (d << 8u16) == t % 256 + d * 256,
{
}

proof fn lemma_lo_byte(t: u16, d: u16)
    by (bit_vector)
    requires
        d < 256,
    ensures
        (t & 0xFF00u16) | d == t - t % 256 + d,
{
}

/// `v` moved one tile right: coarse X counts up, wrapping from 31 to 0
/// with the horizontal nametable bit flipped.
pub open spec fn incremented_x(v: u16) -> u16 {
    if coarse_x_of(v) == 31 {
        pack(top_bit_of(v), fine_y_of(v), nametable_y_of(v), 1 - nametable_x_of(v), coarse_y_of(v), 0) as u16
    } else {
        with_coarse_x(v, coarse_x_of(v) + 1)
    }
}

/// `v` after `k` moves one tile to the right.
pub open spec fn incremented_x_times(v: u16, k: nat) -> u16
    decreases k,
{
    if k == 0 {
        v
    } else {
        incremented_x(incremented_x_times(v, (k - 1) as nat))
    }
}

/// A register value is the packing of its own fields.
proof fn lemma_unpack(v: u16)
    ensures
        v as int == pack(top_bit_of(v), fine_y_of(v), nametable_y_of(v), nametable_x_of(v), coarse_y_of(v),
            coarse_x_of(v)),
{
    let w = v as int;
    lemma_fundamental_div_mod(w, 32);
    lemma_fundamental_div_mod(w / 32, 32);
    lemma_div_denominator(w, 32, 32);
    lemma_fundamental_div_mod(w / 1024, 2);
    lemma_div_denominator(w, 1024, 2);
    lemma_fundamental_div_mod(w / 2048, 2);
    lemma_div_denominator(w, 2048, 2);
    lemma_fundamental_div_mod(w / 4096, 8);
    lemma_div_denominator(w, 4096, 8);
}

/// From coarse X `c`, `k` moves right that stay inside the nametable only
/// count coarse X up.
proof fn lemma_moves_within_row(t: int, fy: int, ny: int, nx: int, cy: int, c: int, k: nat)
    requires
        0 <= t < 2,
        0 <= fy < 8,
        0 <= ny < 2,
        0 <= nx < 2,
        0 <= cy < 32,
        0 <= c,
        c + k <= 31,
    ensures
        incremented_x_times(pack(t, fy, ny, nx, cy, c) as u16, k) == pack(t, fy, ny, nx, cy, c + k) as u16,
    decreases k,
{
    if k > 0 {
        lemma_moves_within_row(t, fy, ny, nx, cy, c, (k - 1) as nat);
        lemma_pack_fields(t, fy, ny, nx, cy, c + k - 1);
        lemma_pack_fields(t, fy, ny, nx, cy, c + k);
    }
}

/// 32 moves right cross one whole nametable row: only the horizontal
/// nametable bit changes, flipped; 64 moves bring the register back.
pub proof fn law_increment_x_row(v: u16)
    ensures
        incremented_x_times(v, 32) == with_nametable_x(v, 1 - nametable_x_of(v)),
        incremented_x_times(v, 64) == v,
{
    let (t, fy, ny, nx, cy, cx) = (top_bit_of(v), fine_y_of(v), nametable_y_of(v), nametable_x_of(v),
        coarse_y_of(v), coarse_x_of(v));
    lemma_unpack(v);
    assert(v == pack(t, fy, ny, nx, cy, cx) as u16);
    // up to coarse X 31, then the wrap, then back up to coarse X
    lemma_moves_within_row(t, fy, ny, nx, cy, cx, (31 - cx) as nat);
    lemma_pack_fields(t, fy, ny, nx, cy, 31);
    lemma_pack_fields(t, fy, ny, 1 - nx, cy, 0);
    let w = pack(t, fy, ny, 1 - nx, cy, 0) as u16;
    assert(incremented_x_times(v, (32 - cx) as nat) == w) by {
        lemma_split(v, (31 - cx) as nat, 1);
    }
    lemma_moves_within_row(t, fy, ny, 1 - nx, cy, 0, cx as nat);
    lemma_split(v, (32 - cx) as nat, cx as nat);
    lemma_pack_fields(t, fy, ny, 1 - nx, cy, cx);
    let u = pack(t, fy, ny, 1 - nx, cy, cx) as u16;
    assert(incremented_x_times(v, 32) == u);
    assert(with_nametable_x(v, 1 - nx) == u);
    // the second row of 32 flips the bit back
    lemma_unpack(u);
    lemma_moves_within_row(t, fy, ny, 1 - nx, cy, cx, (31 - cx) as nat);
    lemma_pack_fields(t, fy, ny, 1 - nx, cy, 31);
    lemma_pack_fields(t, fy, ny, nx, cy, 0);
    assert(incremented_x_times(u, (32 - cx) as nat) == pack(t, fy, ny, nx, cy, 0) as u16) by {
        lemma_split(u, (31 - cx) as nat, 1);
    }
    lemma_moves_within_row(t, fy, ny, nx, cy, 0, cx as nat);
    lemma_split(u, (32 - cx) as nat, cx as nat);
    assert(incremented_x_times(u, 32) == v);
    lemma_split(v, 32, 32);
}

/// `k` moves and then `j` more are `k + j` moves.
proof fn lemma_split(v: u16, k: nat, j: nat)
    ensures
        incremented_x_times(incremented_x_times(v, k), j) == incremented_x_times(v, k + j),
    decreases j,
{
    if j > 0 {
        lemma_split(v, k, (j - 1) as nat);
    }
}

/// `v` moved one scanline down (see `VtReg::increment_y`).
pub open spec fn incremented_y(v: u16) -> u16 {
    if fine_y_of(v) < 7 {
        with_fine_y(v, fine_y_of(v) + 1)
    } else if coarse_y_of(v) == 29 {
        pack(top_bit_of(v), 0, 1 - nametable_y_of(v), nametable_x_of(v), 0, coarse_x_of(v)) as u16
    } else if coarse_y_of(v) == 31 {
        pack(top_bit_of(v), 0, nametable_y_of(v), nametable_x_of(v), 0, coarse_x_of(v)) as u16
    } else {
        pack(top_bit_of(v), 0, nametable_y_of(v), nametable_x_of(v), coarse_y_of(v) + 1, coarse_x_of(v)) as u16
    }
}

/// `v` with its horizontal position (coarse X, nametable X) taken from `t`.
pub open spec fn transferred_x(v: u16, t: u16) -> u16 {
    pack(top_bit_of(v), fine_y_of(v), nametable_y_of(v), nametable_x_of(t), coarse_y_of(v), coarse_x_of(t)) as u16
}

/// `v` with its vertical position (coarse Y, nametable Y, fine Y) taken from `t`.
pub open spec fn transferred_y(v: u16, t: u16) -> u16 {
    pack(top_bit_of(v), fine_y_of(t), nametable_y_of(t), nametable_x_of(v), coarse_y_of(t), coarse_x_of(v)) as u16
}

/// Copying coarse X and then nametable X from `t` gives `transferred_x`.
#[verifier::rlimit(100)]
#[verifier::spinoff_prover]
pub proof fn lemma_transfer_x(v: u16, t: u16, cx: u8, ntx: u8, v1: u16, v2: u16)
    requires
        cx as int == coarse_x_of(t),
        ntx as int == nametable_x_of(t),
        v1 == with_coarse_x(v, cx as int % 32),
        v2 == with_nametable_x(v1, ntx as int % 2),
    ensures
        v2 == transferred_x(v, t),
{
    assert(cx as int % 32 == coarse_x_of(t));
    assert(ntx as int % 2 == nametable_x_of(t));
    lemma_pack_fields(top_bit_of(v), fine_y_of(v), nametable_y_of(v), nametable_x_of(v), coarse_y_of(v), coarse_x_of(t));
    assert(top_bit_of(v1) == top_bit_of(v) && fine_y_of(v1) == fine_y_of(v) && nametable_y_of(v1) == nametable_y_of(v)
        && coarse_y_of(v1) == coarse_y_of(v) && coarse_x_of(v1) == coarse_x_of(t));
}

/// The fields of a register value made by `pack`.
pub proof fn lemma_fields_of(v: u16, top: int, fine_y: int, nt_y: int, nt_x: int, coarse_y: int, coarse_x: int)
    requires
        0 <= top < 2,
        0 <= fine_y < 8,
        0 <= nt_y < 2,
        0 <= nt_x < 2,
        0 <= coarse_y < 32,
        0 <= coarse_x < 32,
        v == pack(top, fine_y, nt_y, nt_x, coarse_y, coarse_x) as u16,
    ensures
        top_bit_of(v) == top,
        fine_y_of(v) == fine_y,
        nametable_y_of(v) == nt_y,
        nametable_x_of(v) == nt_x,
        coarse_y_of(v) == coarse_y,
        coarse_x_of(v) == coarse_x,
{
    lemma_pack_fields(top, fine_y, nt_y, nt_x, coarse_y, coarse_x);
}

/// Copying coarse Y, nametable Y and fine Y from `t` gives `transferred_y`.
#[verifier::rlimit(100)]
#[verifier::spinoff_prover]
pub proof fn lemma_transfer_y(v: u16, t: u16, cy: u8, nty: u8, fy: u8, v1: u16, v2: u16, v3: u16)
    requires
        cy as int == coarse_y_of(t),
        nty as int == nametable_y_of(t),
        fy as int == fine_y_of(t),
        v1 == with_coarse_y(v, cy as int % 32),
        v2 == with_nametable_y(v1, nty as int % 2),
        v3 == with_fine_y(v2, fy as int % 8),
    ensures
        v3 == transferred_y(v, t),
{
    assert(cy as int % 32 == coarse_y_of(t));
    assert(nty as int % 2 == nametable_y_of(t));
    assert(fy as int % 8 == fine_y_of(t));
    lemma_fields_of(v1, top_bit_of(v), fine_y_of(v), nametable_y_of(v), nametable_x_of(v), coarse_y_of(t), coarse_x_of(v));
    lemma_fields_of(v2, top_bit_of(v), fine_y_of(v), nametable_y_of(t), nametable_x_of(v), coarse_y_of(t), coarse_x_of(v));
}

/// # vt_reg
/// The PPU's 15-bit internal scroll/address register.
/// - bits 0-4: coarse X scroll
/// - bits 5-9: coarse Y scroll
/// - bits 10-11: nametable select
/// - bits 12-14: fine Y scroll
pub struct VtReg {
    data: u16,
}

impl View for VtReg {
    type V = u16;

    closed spec fn view(&self) -> u16 {
        self.data
    }
}

impl VtReg {
    /// The register is 15 bits wide: the top bit stays clear.
    #[verifier::type_invariant]
    spec fn fifteen_bits(self) -> bool {
        self.data < 0x8000
    }

    /// A register with every bit clear.
    pub fn new() -> (r: Self)
        ensures
            r@ == 0,
    {
        Self { data: 0 }
    }

    /// Sets the fine Y bits to the low three bits of `input`.
    pub fn set_fine_y(&mut self, input: u8)
        ensures
            final(self)@ == with_fine_y(old(self)@, input as int % 8),
    {
        proof {
            lemma_byte_masks(input);
        }
        let mask: u16 = 7 << 12;
        let input = input & 7;
        let input = input as u16;
        proof {
            lemma_vt_bits(self.data, input);
            lemma_pack_fields(top_bit_of(self.data), input as int, nametable_y_of(self.data), nametable_x_of(self.data), coarse_y_of(self.data), coarse_x_of(self.data));
        }
        proof {
            use_type_invariant(&*self);
        }
        self.data = (self.data & !mask) | (input << 12);
    }

    /// The fine Y bits.
    pub fn get_fine_y(&self) -> (r: u8)
        ensures
            r as int == fine_y_of(self@),
    {
        proof {
            lemma_vt_bits(self.data, 0);
        }
        let temp = self.data >> 12;
        (temp & 7) as u8
    }

    /// Sets both nametable bits to the low two bits of `input` (and clears
    /// the unused top bit).
    pub fn set_nametable(&mut self, input: u8)
        ensures
            final(self)@ as int == pack(
                0,
                fine_y_of(old(self)@),
                (input as int % 4) / 2,
                input as int % 2,
                coarse_y_of(old(self)@),
                coarse_x_of(old(self)@),
            ),
    {
        proof {
            lemma_byte_masks(input);
        }
        let input = (input & 3) as u16;
        proof {
            lemma_vt_bits(self.data, input);
        }
        let input = input << 10;
        self.data = (self.data & 0b111_00_11_1111_1111) | input;
    }

    /// Both nametable bits.
    pub fn get_nametable(&self) -> (r: u8)
        ensures
            r as int == nametable_of(self@),
    {
        proof {
            lemma_vt_bits(self.data, 0);
        }
        let nametable = (self.data >> 10) & 3;
        nametable as u8
    }

    /// Sets the coarse Y bits to the low five bits of `input`.
    pub fn set_coarse_yscroll(&mut self, input: u8)
        ensures
            final(self)@ == with_coarse_y(old(self)@, input as int % 32),
    {
        proof {
            lemma_byte_masks(input);
        }
        let input = input & 0x1F;
        let mask: u16 = 0x1F << 5;
        let input = input as u16;
        proof {
            lemma_vt_bits(self.data, input);
            lemma_pack_fields(top_bit_of(self.data), fine_y_of(self.data), nametable_y_of(self.data), nametable_x_of(self.data), input as int, coarse_x_of(self.data));
        }
        proof {
            use_type_invariant(&*self);
        }
        let input = input << 5;
        self.data = (self.data & !mask) | input;
    }

    /// The coarse Y bits.
    pub fn get_coarse_yscroll(&self) -> (r: u8)
        ensures
            r as int == coarse_y_of(self@),
    {
        proof {
            lemma_vt_bits(self.data, 0);
        }
        ((self.data >> 5) & 0x1F) as u8
    }

    /// Sets the coarse X bits to the low five bits of `input`.
    pub fn set_coarse_xscroll(&mut self, input: u8)
        ensures
            final(self)@ == with_coarse_x(old(self)@, input as int % 32),
    {
        proof {
            lemma_byte_masks(input);
        }
        let input = input & 0x1F;
        let input = input as u16;
        proof {
            lemma_vt_bits(self.data, input);
            lemma_pack_fields(top_bit_of(self.data), fine_y_of(self.data), nametable_y_of(self.data), nametable_x_of(self.data), coarse_y_of(self.data), input as int);
        }
        proof {
            use_type_invariant(&*self);
        }
        self.data = (self.data & !0x1F) | input;
    }

    /// The coarse X bits.
    pub fn get_coarse_xscroll(&self) -> (r: u8)
        ensures
            r as int == coarse_x_of(self@),
    {
        proof {
            lemma_vt_bits(self.data, 0);
        }
        let toreturn = self.data & 0x1F;
        toreturn as u8
    }

    /// Sets the raw register to the low 15 bits of `val`.
    pub fn set_data(&mut self, val: u16)
        ensures
            final(self)@ as int == val as int % 32768,
    {
        proof {
            lemma_vt_bits(val, 0);
        }
        self.data = val & 0x7FFF;
    }

    /// The raw register; its top bit is always clear.
    pub fn get_data(&self) -> (r: u16)
        ensures
            r == self@,
            r < 0x8000,
    {
        proof {
            use_type_invariant(self);
        }
        self.data
    }

    /// Sets the horizontal nametable bit to the low bit of `table`.
    pub fn set_nametablex(&mut self, table: u8)
        ensures
            final(self)@ == with_nametable_x(old(self)@, table as int % 2),
    {
        proof {
            lemma_byte_masks(table);
        }
        let table = table & 1;
        let table = table as u16;
        proof {
            lemma_vt_bits(self.data, table);
            lemma_pack_fields(top_bit_of(self.data), fine_y_of(self.data), nametable_y_of(self.data), table as int, coarse_y_of(self.data), coarse_x_of(self.data));
        }
        proof {
            use_type_invariant(&*self);
        }
        let temp: u16 = 1 << 10;
        self.data = (self.data & !temp) | (table << 10);
    }

    /// Sets the vertical nametable bit to the low bit of `table`.
    pub fn set_nametabley(&mut self, table: u8)
        ensures
            final(self)@ == with_nametable_y(old(self)@, table as int % 2),
    {
        proof {
            lemma_byte_masks(table);
        }
        let table = table & 1;
        let table = table as u16;
        proof {
            lemma_vt_bits(self.data, table);
            lemma_pack_fields(top_bit_of(self.data), fine_y_of(self.data), table as int, nametable_x_of(self.data), coarse_y_of(self.data), coarse_x_of(self.data));
        }
        proof {
            use_type_invariant(&*self);
        }
        let temp: u16 = 1 << 11;
        self.data = (self.data & !temp) | (table << 11);
    }

    /// The horizontal nametable bit.
    pub fn get_nametablex(&self) -> (r: u8)
        ensures
            r as int == nametable_x_of(self@),
    {
        proof {
            lemma_vt_bits(self.data, 0);
        }
        (((self.data) >> 10) & 1) as u8
    }

    /// The vertical nametable bit.
    pub fn get_nametabley(&self) -> (r: u8)
        ensures
            r as int == nametable_y_of(self@),
    {
        proof {
            lemma_vt_bits(self.data, 0);
        }
        (((self.data) >> 11) & 1) as u8
    }

    /// Moves one tile to the right: coarse X counts up, and on wrapping
    /// from 31 to 0 the horizontal nametable bit flips.
    pub fn increment_x(&mut self)
        ensures
            final(self)@ == incremented_x(old(self)@),
            coarse_x_of(old(self)@) == 31 ==> final(self)@ as int == pack(
                top_bit_of(old(self)@),
                fine_y_of(old(self)@),
                nametable_y_of(old(self)@),
                1 - nametable_x_of(old(self)@),
                coarse_y_of(old(self)@),
                0,
            ),
            coarse_x_of(old(self)@) < 31 ==> final(self)@ == with_coarse_x(old(self)@, coarse_x_of(old(self)@) + 1),
    {
        let ghost d0 = self.data;
        proof {
            lemma_vt_bits(d0, 0);
            lemma_pack_fields(top_bit_of(d0), fine_y_of(d0), nametable_y_of(d0), nametable_x_of(d0), coarse_y_of(d0), 0);
            lemma_pack_fields(top_bit_of(d0), fine_y_of(d0), nametable_y_of(d0), 1 - nametable_x_of(d0), coarse_y_of(d0), 0);
            if coarse_x_of(d0) < 31 {
                lemma_pack_fields(top_bit_of(d0), fine_y_of(d0), nametable_y_of(d0), nametable_x_of(d0), coarse_y_of(d0), coarse_x_of(d0) + 1);
            }
        }
        let v = self.get_coarse_xscroll();
        if v == 31 {
            self.set_coarse_xscroll(0);
            let nt = self.get_nametablex();
            proof {
                lemma_byte_masks(nt);
                lemma_byte_masks(nt ^ 1);
            }
            let nametablex = nt ^ 1;
            self.set_nametablex(nametablex);
        } else {
            self.set_coarse_xscroll(v + 1);
        }
    }

    /// Moves one scanline down: fine Y counts up; on wrapping past 7 it
    /// resets and coarse Y counts up, where row 29 wraps to 0 and flips the
    /// vertical nametable bit, and rows 30-31 (attribute memory) count on,
    /// with 31 wrapping to 0 without a flip.
    pub fn increment_y(&mut self)
        ensures
            final(self)@ == incremented_y(old(self)@),
            fine_y_of(old(self)@) < 7 ==> final(self)@ == with_fine_y(old(self)@, fine_y_of(old(self)@) + 1),
            fine_y_of(old(self)@) == 7 && coarse_y_of(old(self)@) == 29 ==> final(self)@ as int
                == pack(
                top_bit_of(old(self)@),
                0,
                1 - nametable_y_of(old(self)@),
                nametable_x_of(old(self)@),
                0,
                coarse_x_of(old(self)@),
            ),
            fine_y_of(old(self)@) == 7 && coarse_y_of(old(self)@) == 31 ==> final(self)@ as int
                == pack(
                top_bit_of(old(self)@),
                0,
                nametable_y_of(old(self)@),
                nametable_x_of(old(self)@),
                0,
                coarse_x_of(old(self)@),
            ),
            fine_y_of(old(self)@) == 7 && coarse_y_of(old(self)@) != 29 && coarse_y_of(old(self)@)
                != 31 ==> final(self)@ as int == pack(
                top_bit_of(old(self)@),
                0,
                nametable_y_of(old(self)@),
                nametable_x_of(old(self)@),
                coarse_y_of(old(self)@) + 1,
                coarse_x_of(old(self)@),
            ),
    {
        let ghost d0 = self.data;
        proof {
            lemma_vt_bits(d0, 0);
            lemma_pack_fields(top_bit_of(d0), 0, nametable_y_of(d0), nametable_x_of(d0), coarse_y_of(d0), coarse_x_of(d0));
            lemma_pack_fields(top_bit_of(d0), 0, nametable_y_of(d0), nametable_x_of(d0), 0, coarse_x_of(d0));
            lemma_pack_fields(top_bit_of(d0), 0, 1 - nametable_y_of(d0), nametable_x_of(d0), 0, coarse_x_of(d0));
            if coarse_y_of(d0) < 31 {
                lemma_pack_fields(top_bit_of(d0), 0, nametable_y_of(d0), nametable_x_of(d0), coarse_y_of(d0) + 1, coarse_x_of(d0));
            }
            if fine_y_of(d0) < 7 {
                lemma_pack_fields(top_bit_of(d0), fine_y_of(d0) + 1, nametable_y_of(d0), nametable_x_of(d0), coarse_y_of(d0), coarse_x_of(d0));
            }
        }
        let finey = self.get_fine_y();
        if finey < 7 {
            self.set_fine_y(finey + 1);
        } else {
            self.set_fine_y(0);
            let y = self.get_coarse_yscroll();
            if y == 29 {
                self.set_coarse_yscroll(0);
                let nt = self.get_nametabley();
                proof {
                    lemma_byte_masks(nt);
                    lemma_byte_masks(!nt);
                }
                let nametabley = !nt;
                self.set_nametabley(nametabley);
            } else if y == 31 {
                self.set_coarse_yscroll(0);
            } else {
                self.set_coarse_yscroll(y + 1);
            }
        }
    }

    /// Sets fine Y to the low three bits of `data` and coarse Y to its high
    /// five bits (the second write to $2005).
    pub fn set_scroll_y(&mut self, data: u8)
        ensures
            final(self)@ == pack(
                top_bit_of(old(self)@),
                data as int % 8,
                nametable_y_of(old(self)@),
                nametable_x_of(old(self)@),
                data as int / 8,
                coarse_x_of(old(self)@),
            ) as u16,
    {
        proof {
            lemma_byte_masks(data);
        }
        let fine = data & 7;
        let coarse = data >> 3;
        assert(fine as int % 8 == data as int % 8);
        assert(coarse as int % 32 == data as int / 8);
        self.set_fine_y(fine);
        let ghost t1 = self.data;
        assert(t1 == with_fine_y(old(self).data, data as int % 8));
        self.set_coarse_yscroll(coarse);
        assert(self.data == with_coarse_y(t1, data as int / 8));
        proof {
            lemma_fine_then_coarse_y(old(self).data, t1, data as int % 8, data as int / 8);
        }
    }

    /// Replaces the high byte with `data` (the first write to $2006); the
    /// top bit is then cleared.
    pub fn set_high_byte(&mut self, data: u8)
        ensures
            final(self)@ as int == (old(self)@ as int % 256 + data as int * 256) % 0x8000,
    {
        let temp_dat = data as u16;
        let temp_val = self.get_data();
        proof {
            lemma_hi_byte(temp_val, temp_dat);
        }
        let temp_val = temp_val & 0x00FF;
        let temp_val = temp_val | (temp_dat << 8);
        self.set_data(temp_val);
    }

    /// Replaces the low byte with `data` (the second write to $2006).
    pub fn set_low_byte(&mut self, data: u8)
        ensures
            final(self)@ as int == (old(self)@ as int - old(self)@ as int % 256 + data as int) % 0x8000,
    {
        let temp_data = self.get_data();
        proof {
            lemma_lo_byte(temp_data, data as u16);
        }
        let temp_data = temp_data & 0xFF00;
        let d = data as u16;
        let temp_data = temp_data | d;
        self.set_data(temp_data);
    }

    /// Copies the horizontal position (coarse X, nametable X) from `t`.
    pub fn transfer_x_from(&mut self, t: &VtReg)
        ensures
            final(self)@ == transferred_x(old(self)@, t@),
    {
        let cx = t.get_coarse_xscroll();
        self.set_coarse_xscroll(cx);
        let ghost v1 = self.data;
        let ntx = t.get_nametablex();
        self.set_nametablex(ntx);
        proof {
            lemma_transfer_x(old(self).data, t.data, cx, ntx, v1, self.data);
        }
    }

    /// Copies the vertical position (coarse Y, nametable Y, fine Y) from `t`.
    pub fn transfer_y_from(&mut self, t: &VtReg)
        ensures
            final(self)@ == transferred_y(old(self)@, t@),
    {
        let cy = t.get_coarse_yscroll();
        self.set_coarse_yscroll(cy);
        let ghost v1 = self.data;
        let nty = t.get_nametabley();
        self.set_nametabley(nty);
        let ghost v2 = self.data;
        let fy = t.get_fine_y();
        self.set_fine_y(fy);
        proof {
            lemma_transfer_y(old(self).data, t.data, cy, nty, fy, v1, v2, self.data);
        }
    }

    /// The address of the nametable byte for the current tile.
    pub fn get_nametable_address(&self) -> (r: u16)
        ensures
            r as int == nametable_address_of(self@),
    {
        proof {
            lemma_vt_bits(self.data, 0);
        }
        let v = self.get_data();
        0x2000 | (v & 0xFFF)
    }

    /// The address of the attribute byte for the current tile.
    pub fn get_attribute_address(&self) -> (r: u16)
        ensures
            r as int == attribute_address_of(self@),
    {
        proof {
            lemma_vt_bits(self.data, 0);
        }
        let v = self.get_data() & 0x3FFF;
        let address = 0x23C0 | (v & 0x0C00) | ((v >> 4) & 0x38) | ((v >> 2) & 0x07);
        address
    }
}

} // verus!

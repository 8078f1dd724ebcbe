//! Bit-level facts shared by the register code.
use vstd::prelude::*;

verus! {

/// Masking facts on bytes.
pub proof fn lemma_byte_masks(i: u8)
    by (bit_vector)
    ensures
        i & 1u8 == i % 2,
        i & 3u8 == i % 4,
        i & 7u8 == i % 8,
        i & 0x0Fu8 == i % 16,
        i & 0x1Fu8 == i % 32,
        i & 0x3Fu8 == i % 64,
        i & 0x7Fu8 == i % 128,
        (!i) & 1u8 == 1 - i % 2,
        (i ^ 1u8) & 1u8 == 1 - i % 2,
        i >> 3u8 == i / 8,
        i >> 2u8 == i / 4,
        i >> 1u8 == i / 2,
        i >> 4u8 == i / 16,
        i & 0x80u8 == 0 <==> i < 128,
        i & 0x40u8 == 0 <==> i % 128 < 64,
        i & 0x20u8 == 0 <==> i % 64 < 32,
        i & 0x10u8 == 0 <==> i % 32 < 16,
        i & 0x08u8 == 0 <==> i % 16 < 8,
        i & 0x04u8 == 0 <==> i % 8 < 4,
        i & 0x02u8 == 0 <==> i % 4 < 2,
        i & 0x01u8 == 0 <==> i % 2 == 0,
        i & 0x0Eu8 == i % 16 - i % 2,
        i & 0x1Eu8 == i % 32 - i % 2,
        i & 0xFEu8 == i - i % 2,
        i | 0x01u8 == i - i % 2 + 1,
        (i & 0x30u8) >> 4u8 == (i / 16) % 4,
        (i & 0x0Eu8) >> 1u8 == (i % 16) / 2,
{
}

/// Field extraction facts on bytes.
pub proof fn lemma_byte_fields(i: u8)
    by (bit_vector)
    ensures
        (i >> 3u8) & 0x1Fu8 == i / 8,
        (i >> 4u8) & 0x07u8 == (i / 16) % 8,
        i & 0x80u8 == 0 <==> i < 128,
        i & 0x08u8 == 0 <==> i % 16 < 8,
        i & 7u8 == i % 8,
        (i & 4u8 != 0) == ((i / 4) % 2 == 1),
        (i & 1u8 != 0) == (i % 2 == 1),
{
}

/// Masking facts on 16-bit words.
pub proof fn lemma_word_masks(w: u16)
    by (bit_vector)
    ensures
        w & 0x1FFFu16 == w % 0x2000,
        w & 0x0FFFu16 == w % 0x1000,
        w & 0x3FFFu16 == w % 0x4000,
        w & 0x7FFFu16 == w % 0x8000,
        w & 0x03FFu16 == w % 0x400,
        w & 0x001Fu16 == w % 0x20,
        w & 0x07FFu16 == w % 0x800,
        w & 0x00FFu16 == w % 0x100,
        w & 0xFF00u16 == w - w % 0x100,
        w & 7u16 == w % 8,
        w & 0x000Fu16 == w % 16,
        w & 1u16 == w % 2,
        w & 0x1000u16 == 0 <==> w % 0x2000 < 0x1000,
        (w >> 13u16) & 3u16 == (w / 0x2000) % 4,
        w >> 8u16 == w / 0x100,
        w >> 0u16 == w,
{
}

/// Field extraction facts on 16-bit words.
pub proof fn lemma_word_fields(w: u16)
    by (bit_vector)
    ensures
        w >> 4u16 == w / 16,
        w >> 2u16 == w / 4,
        w & 3u16 == w % 4,
        w & 2u16 != 0 <==> (w / 2) % 2 == 1,
        w & 0xFEu16 == w % 0x100 - w % 2,
        w & 1u16 == w % 2,
        w & 0x7FFu16 == w % 0x800,
        w & 7u16 == w % 8,
        (w & 0x1000u16) >> 12u16 == (w % 0x2000) / 4096,
{
}

/// Masking facts on 32-bit words.
pub proof fn lemma_u32_masks(x: u32)
    by (bit_vector)
    ensures
        x & 0x7FFFu32 == x % 0x8000,
        x & 0x3FFFu32 == x % 0x4000,
        x & 0x1FFFu32 == x % 0x2000,
        x & 0x0FFFu32 == x % 0x1000,
        x & 0x03FFu32 == x % 0x400,
{
}

/// Arithmetic meaning of the shifts, rotates and bit tests on bytes.
pub proof fn lemma_byte_arith(a: u8, b: u8)
    by (bit_vector)
    ensures
        (a >> 1u8) as int == a as int / 2,
        (b == 0 || b == 0x80) ==> ((a >> 1u8) | b) as int == a as int / 2 + b as int,
        a ^ 0xFFu8 == !a,
        a | 0u8 == a,
        (a & 0x10u8 != 0) == ((a / 16) % 2 == 1),
        (a.wrapping_sub(1) & 0x80u8 != 0) == (a == 0 || a > 128),
        (a | 0x01u8) & !0x01u8 == a & !0x01u8,
        (a & !0x01u8) & !0x01u8 == a & !0x01u8,
        a % 4 == (a >> 0u8) & 3u8,
        (a / 4) % 4 == (a >> 2u8) & 3u8,
        (a / 16) % 4 == (a >> 4u8) & 3u8,
        (a / 16 / 4) % 4 == (a >> 6u8) & 3u8,
        0x80u8 & 0x02u8 == 0,
        0x02u8 & 0x01u8 == 0,
        0x80u8 & 0x01u8 == 0,
        0x04u8 & 0x10u8 == 0,
{
}

/// Doubling a byte and putting a bit in bit 0, in arithmetic terms.
pub proof fn lemma_shift_left_in(a: u8, b: u8)
    by (bit_vector)
    ensures
        b <= 1 ==> ((a << 1u8) | b) as int == (a as int * 2 + b as int) % 256,
{
}

/// The bit that mask $8000 >> `x` selects is bit 15 - `x`.
pub proof fn lemma_selected_bit(r: u16, x: u16)
    by (bit_vector)
    ensures
        x < 16 ==> ((r & (0x8000u16 >> x)) != 0) == ((r >> (15u16 - x) as u16) & 1u16 == 1u16),
        (r >> x) & 1u16 <= 1u16,
{
}

/// Bit 1 of coarse Y and bit 1 of coarse X of a VRAM address are its bits
/// 6 and 1.
pub proof fn lemma_quadrant_bits(v: u16)
    by (bit_vector)
    ensures
        ((v / 32u16) % 32u16) % 4u16 >= 2u16 <==> (v >> 6u16) & 1u16 == 1u16,
        (v % 32u16) % 4u16 >= 2u16 <==> (v >> 1u16) & 1u16 == 1u16,
{
}

} // verus!

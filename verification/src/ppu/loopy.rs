//! The scroll-register steps of the rendering pipeline and the background
//! shift registers.
use vstd::prelude::*;
use super::{Ppu, PpuView};
use super::registers::{incremented_x, incremented_y, transferred_x, transferred_y,
    MASK_ENABLE_BACKGROUND, MASK_ENABLE_SPRITES};

verus! {

impl Ppu {
    /// While rendering is on, moves `v` one tile to the right.
    pub fn increment_x(&mut self)
        ensures
            final(self)@ == if old(self)@.rendering() {
                PpuView { v: incremented_x(old(self)@.v), ..old(self)@ }
            } else {
                old(self)@
            },
    {
        if self.ppumask & MASK_ENABLE_BACKGROUND != 0 || self.ppumask & MASK_ENABLE_SPRITES != 0 {
            self.v.increment_x();
        }
    }

    /// While rendering is on, moves `v` one scanline down.
    pub fn increment_y(&mut self)
        ensures
            final(self)@ == if old(self)@.rendering() {
                PpuView { v: incremented_y(old(self)@.v), ..old(self)@ }
            } else {
                old(self)@
            },
    {
        if self.ppumask & MASK_ENABLE_BACKGROUND != 0 || self.ppumask & MASK_ENABLE_SPRITES != 0 {
            self.v.increment_y();
        }
    }

    /// While rendering is on, copies the horizontal scroll (coarse X and
    /// nametable X) from `t` to `v`.
    pub fn transfer_x(&mut self)
        ensures
            final(self)@ == if old(self)@.rendering() {
                PpuView { v: transferred_x(old(self)@.v, old(self)@.t), ..old(self)@ }
            } else {
                old(self)@
            },
    {
        if self.ppumask & MASK_ENABLE_BACKGROUND != 0 || self.ppumask & MASK_ENABLE_SPRITES != 0 {
            self.v.transfer_x_from(&self.t);
        }
    }

    /// While rendering is on, copies the vertical scroll (coarse Y,
    /// nametable Y, fine Y) from `t` to `v`.
    pub fn transfer_y(&mut self)
        ensures
            final(self)@ == if old(self)@.rendering() {
                PpuView { v: transferred_y(old(self)@.v, old(self)@.t), ..old(self)@ }
            } else {
                old(self)@
            },
    {
        if self.ppumask & MASK_ENABLE_BACKGROUND != 0 || self.ppumask & MASK_ENABLE_SPRITES != 0 {
            self.v.transfer_y_from(&self.t);
        }
    }

    /// Shifts the four background shift registers left by one bit.
    pub fn shift(&mut self)
        ensures
            final(self)@ == (PpuView {
                pattern_lo: ((old(self)@.pattern_lo as int * 2) % 65536) as u16,
                pattern_hi: ((old(self)@.pattern_hi as int * 2) % 65536) as u16,
                attribute_lo: ((old(self)@.attribute_lo as int * 2) % 65536) as u16,
                attribute_hi: ((old(self)@.attribute_hi as int * 2) % 65536) as u16,
                ..old(self)@
            }),
    {
        proof {
            lemma_shl1(self.attribute_hi_shift_register);
            lemma_shl1(self.attribute_lo_shift_register);
            lemma_shl1(self.pattern_hi_shift_register);
            lemma_shl1(self.pattern_lo_shift_register);
        }
        self.attribute_hi_shift_register = self.attribute_hi_shift_register << 1;
        self.attribute_lo_shift_register = self.attribute_lo_shift_register << 1;
        self.pattern_hi_shift_register = self.pattern_hi_shift_register << 1;
        self.pattern_lo_shift_register = self.pattern_lo_shift_register << 1;
    }

    /// Loads the fetched tile bytes into the low bytes of the shift registers.
    pub fn loadregisters(&mut self)
        requires
            old(self)@.wf(),
        ensures
            final(self)@ == (PpuView {
                pattern_lo: (old(self)@.pattern_lo - old(self)@.pattern_lo % 256 + old(self)@.next_pattern_lo) as u16,
                pattern_hi: (old(self)@.pattern_hi - old(self)@.pattern_hi % 256 + old(self)@.next_pattern_hi) as u16,
                attribute_lo: (old(self)@.attribute_lo - old(self)@.attribute_lo % 256 + old(self)@.next_attribute_lo) as u16,
                attribute_hi: (old(self)@.attribute_hi - old(self)@.attribute_hi % 256 + old(self)@.next_attribute_hi) as u16,
                ..old(self)@
            }),
    {
        proof {
            lemma_load_low(self.attribute_hi_shift_register, self.next_attribute_hi);
            lemma_load_low(self.attribute_lo_shift_register, self.next_attribute_lo);
            lemma_load_low(self.pattern_hi_shift_register, self.next_pattern_hi);
            lemma_load_low(self.pattern_lo_shift_register, self.next_pattern_lo);
        }
        self.attribute_hi_shift_register = (self.attribute_hi_shift_register & 0xFF00) | self.next_attribute_hi;
        self.attribute_lo_shift_register = (self.attribute_lo_shift_register & 0xFF00) | self.next_attribute_lo;
        self.pattern_hi_shift_register = (self.pattern_hi_shift_register & 0xFF00) | self.next_pattern_hi;
        self.pattern_lo_shift_register = (self.pattern_lo_shift_register & 0xFF00) | self.next_pattern_lo;
    }
}

proof fn lemma_shl1(x: u16)
    by (bit_vector)
    ensures
        x << 1u16 == (x * 2) % 65536,
{
}

proof fn lemma_load_low(r: u16, n: u16)
    by (bit_vector)
    requires
        n < 256,
    ensures
        (r & 0xFF00u16) | n == r - r % 256 + n,
{
}

} // verus!

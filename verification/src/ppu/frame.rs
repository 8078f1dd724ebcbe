//! A framebuffer of packed 0xRRGGBB pixels.
use vstd::prelude::*;

verus! {

/// The 0xRRGGBB word of an (r, g, b) colour.
pub open spec fn pack_rgb(color: (u8, u8, u8)) -> u32 {
    (color.0 as int * 65536 + color.1 as int * 256 + color.2 as int) as u32
}

proof fn lemma_pack_rgb(r: u32, g: u32, b: u32)
    by (bit_vector)
    requires
        r < 256,
        g < 256,
        b < 256,
    ensures
        (r << 16u32) | (g << 8u32) | b == r * 65536 + g * 256 + b,
{
}

/// A frame of `width` pixels per row, stored row after row.
pub struct Frame {
    buffer: Vec<u32>,
    width: u16,
}

impl Frame {
    /// The pixels, row after row.
    pub closed spec fn pixels(&self) -> Seq<u32> {
        self.buffer@
    }

    /// Pixels per row.
    pub closed spec fn width(&self) -> u16 {
        self.width
    }

    /// A black frame of `width` x `height` pixels.
    pub fn new(width: u16, height: u16) -> (r: Self)
        ensures
            r.width() == width,
            r.pixels() == Seq::new(width as nat * height as nat, |i: int| 0u32),
    {
        assert(width as usize * height as usize <= 65535 * 65535) by (nonlinear_arith)
            requires
                width <= 65535,
                height <= 65535,
        ;
        let n = width as usize * height as usize;
        let buffer: Vec<u32> = vec![0; n];
        assert(buffer@ =~= Seq::new(width as nat * height as nat, |i: int| 0u32));
        Self { buffer, width }
    }

    /// Stores `color` as 0xRRGGBB at column `x` of row `y`.
    pub fn drawpixel(&mut self, x: u16, y: u16, color: (u8, u8, u8))
        requires
            y as int * old(self).width() + x < old(self).pixels().len(),
        ensures
            final(self).width() == old(self).width(),
            final(self).pixels() == old(self).pixels().update(
                y as int * old(self).width() + x,
                pack_rgb(color),
            ),
    {
        assert(y as usize * self.width as usize <= 65535 * 65535) by (nonlinear_arith)
            requires
                y <= 65535,
                self.width <= 65535,
        ;
        let index = (y as usize * self.width as usize) + (x as usize);
        proof {
            lemma_pack_rgb(color.0 as u32, color.1 as u32, color.2 as u32);
        }
        let word = ((color.0 as u32) << 16) | ((color.1 as u32) << 8) | (color.2 as u32);
        self.buffer.set(index, word);
    }

    /// The pixels, row after row.
    pub fn get_buf(&self) -> (r: &Vec<u32>)
        ensures
            r@ == self.pixels(),
    {
        &self.buffer
    }
}

} // verus!

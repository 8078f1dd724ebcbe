//! A framebuffer of RGB byte triples.
use vstd::prelude::*;

verus! {

/// A frame of `xsize` x `ysize` pixels, three bytes (r, g, b) each.
pub struct Frame {
    buf: Vec<u8>,
    xsize: usize,
    ysize: usize,
}

/// Where `draw_pixel` puts the first byte of pixel (x, _) in a frame
/// `xsize` pixels wide: it scales by `x` where a row offset would use `y`.
pub open spec fn pixel_base(x: int, xsize: int) -> int {
    x * 3 * xsize + x * 3
}

impl Frame {
    /// The bytes of the frame.
    pub closed spec fn bytes(&self) -> Seq<u8> {
        self.buf@
    }

    /// The frame's width in pixels.
    pub closed spec fn xsize(&self) -> usize {
        self.xsize
    }

    /// The frame's height in pixels.
    pub closed spec fn ysize(&self) -> usize {
        self.ysize
    }

    /// A black frame of `x` x `y` pixels.
    pub fn new(x: usize, y: usize) -> (r: Self)
        requires
            x * y * 3 <= usize::MAX,
        ensures
            r.xsize() == x,
            r.ysize() == y,
            r.bytes() == Seq::new((x * y * 3) as nat, |i: int| 0u8),
    {
        let n = x * y * 3;
        let buf: Vec<u8> = vec![0; n];
        assert(buf@ =~= Seq::new((x * y * 3) as nat, |i: int| 0u8));
        Self { buf, xsize: x, ysize: y }
    }

    /// Writes `color` at byte offset `x * 3 * xsize + x * 3`, where all
    /// three bytes fit in the buffer; otherwise changes nothing.
    pub fn draw_pixel(&mut self, x: usize, y: usize, color: (u8, u8, u8))
        requires
            pixel_base(x as int, old(self).xsize() as int) + 2 <= usize::MAX,
        ensures
            final(self).xsize() == old(self).xsize(),
            final(self).ysize() == old(self).ysize(),
            ({
                let base = pixel_base(x as int, old(self).xsize() as int);
                if base + 2 < old(self).bytes().len() {
                    final(self).bytes() == old(self).bytes().update(base, color.0).update(
                        base + 1,
                        color.1,
                    ).update(base + 2, color.2)
                } else {
                    final(self).bytes() == old(self).bytes()
                }
            }),
    {
        assert(x * 3 * self.xsize <= usize::MAX) by (nonlinear_arith)
            requires
                x * 3 * self.xsize + x * 3 + 2 <= usize::MAX,
                x >= 0,
        ;
        let base = x * 3 * self.xsize + x * 3;
        if base + 2 < self.buf.len() {
            self.buf.set(base, color.0);
            self.buf.set(base + 1, color.1);
            self.buf.set(base + 2, color.2);
        }
    }

    /// The bytes of the frame.
    pub fn get_buf(&self) -> (r: &Vec<u8>)
        ensures
            r@ == self.bytes(),
    {
        &self.buf
    }
}

} // verus!

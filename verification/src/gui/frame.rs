//! A test frame: an RGB pixel buffer that the user interface shows as a texture.

use vstd::prelude::*;

verus! {

/// Width of the frame in pixels.
pub const FRAME_WIDTH: usize = 256;

/// Height of the frame in pixels.
pub const FRAME_HEIGHT: usize = 240;

/// An RGB frame, three bytes per pixel, row by row.
pub struct Frame {
    pub pixels: Vec<u8>,
    /// How many times the test pattern was drawn.
    pub pixel_index: usize,
}

/// The index of the first byte of pixel (`x`, `y`).
pub open spec fn pixel_offset(x: int, y: int) -> int {
    (y * FRAME_WIDTH + x) * 3
}

/// The test pattern's colour at (`x`, `y`).
pub open spec fn pattern_color(x: int, y: int) -> Seq<u8> {
    seq![(x % 256) as u8, (y % 256) as u8, 230u8]
}

impl Frame {
    /// The number of bytes of a frame.
    pub fn pixels_len() -> (r: usize)
        ensures
            r == FRAME_WIDTH * FRAME_HEIGHT * 3,
    {
        FRAME_WIDTH * FRAME_HEIGHT * 3
    }

    /// The buffer holds a whole frame.
    pub open spec fn wf(&self) -> bool {
        self.pixels@.len() == FRAME_WIDTH * FRAME_HEIGHT * 3
    }

    /// A black frame.
    pub fn new() -> (r: Frame)
        ensures
            r.wf(),
            forall|i: int| 0 <= i < r.pixels@.len() ==> r.pixels@[i] == 0,
            r.pixel_index == 0,
    {
        let len = Self::pixels_len();
        let mut pixels: Vec<u8> = Vec::new();
        while pixels.len() < len
            invariant
                len == FRAME_WIDTH * FRAME_HEIGHT * 3,
                pixels@.len() <= len,
                forall|i: int| 0 <= i < pixels@.len() ==> pixels@[i] == 0,
            decreases len - pixels@.len(),
        {
            pixels.push(0);
        }
        Frame { pixels, pixel_index: 0 }
    }

    /// Set pixel (`x`, `y`) to `color`; a pixel outside the frame is ignored.
    pub fn update_pixel(&mut self, x: usize, y: usize, color: [u8; 3])
        requires
            old(self).wf(),
        ensures
            final(self).wf(),
            final(self).pixel_index == old(self).pixel_index,
            x < FRAME_WIDTH && y < FRAME_HEIGHT ==> final(self).pixels@ == old(self).pixels@.update(
                pixel_offset(x as int, y as int),
                color[0],
            ).update(pixel_offset(x as int, y as int) + 1, color[1]).update(
                pixel_offset(x as int, y as int) + 2,
                color[2],
            ),
            !(x < FRAME_WIDTH && y < FRAME_HEIGHT) ==> final(self).pixels@ == old(self).pixels@,
    {
        if x >= FRAME_WIDTH || y >= FRAME_HEIGHT {
            return ;
        }
        let index = (y * FRAME_WIDTH + x) * 3;
        self.pixels.set(index, color[0]);
        self.pixels.set(index + 1, color[1]);
        self.pixels.set(index + 2, color[2]);
    }

    /// Draw the test pattern: red follows `x`, green follows `y`, blue is constant.
    pub fn draw_test_pattern(&mut self)
        requires
            old(self).wf(),
            old(self).pixel_index < usize::MAX,
        ensures
            final(self).wf(),
            final(self).pixel_index == old(self).pixel_index + 1,
            forall|x: int, y: int|
                0 <= x < FRAME_WIDTH && 0 <= y < FRAME_HEIGHT ==> #[trigger] final(self).pixels@.subrange(
                    pixel_offset(x, y),
                    pixel_offset(x, y) + 3,
                ) == pattern_color(x, y),
    {
        self.pixel_index += 1;
        let mut x: usize = 0;
        while x < FRAME_WIDTH
            invariant
                x <= FRAME_WIDTH,
                self.wf(),
                self.pixel_index == old(self).pixel_index + 1,
                forall|px: int, py: int|
                    0 <= px < x && 0 <= py < FRAME_HEIGHT ==> #[trigger] self.pixels@.subrange(
                        pixel_offset(px, py),
                        pixel_offset(px, py) + 3,
                    ) == pattern_color(px, py),
            decreases FRAME_WIDTH - x,
        {
            let mut y: usize = 0;
            while y < FRAME_HEIGHT
                invariant
                    x < FRAME_WIDTH,
                    y <= FRAME_HEIGHT,
                    self.wf(),
                    self.pixel_index == old(self).pixel_index + 1,
                    forall|px: int, py: int|
                        0 <= px < x && 0 <= py < FRAME_HEIGHT ==> #[trigger] self.pixels@.subrange(
                            pixel_offset(px, py),
                            pixel_offset(px, py) + 3,
                        ) == pattern_color(px, py),
                    forall|py: int|
                        0 <= py < y ==> #[trigger] self.pixels@.subrange(
                            pixel_offset(x as int, py),
                            pixel_offset(x as int, py) + 3,
                        ) == pattern_color(x as int, py),
                decreases FRAME_HEIGHT - y,
            {
                let ghost before = self.pixels@;
                self.update_pixel(x, y, [(x % 256) as u8, (y % 256) as u8, 230]);
                proof {
                    let o = pixel_offset(x as int, y as int);
                    assert(self.pixels@.subrange(o, o + 3) =~= pattern_color(x as int, y as int));
                    assert forall|px: int, py: int|
                        (0 <= px < x && 0 <= py < FRAME_HEIGHT) || (px == x && 0 <= py < y) implies
                        #[trigger] self.pixels@.subrange(pixel_offset(px, py), pixel_offset(px, py) + 3)
                        == before.subrange(pixel_offset(px, py), pixel_offset(px, py) + 3) by {
                        let q = pixel_offset(px, py);
                        assert(py * 256 + px != y * 256 + x) by (nonlinear_arith)
                            requires
                                0 <= px < 256,
                                0 <= x < 256,
                                px != x || py != y,
                        ;
                        assert(self.pixels@.subrange(q, q + 3) =~= before.subrange(q, q + 3));
                    }
                }
                y += 1;
            }
            x += 1;
        }
    }
}

} // verus!

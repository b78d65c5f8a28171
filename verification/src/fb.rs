//! A draw buffer for the 480x272 display, with the 512-word line stride the
//! hardware expects.
//!
//! The buffer holds one 32-bit word per pixel. Colors arrive as `0x00RRGGBB`
//! words and are stored in the byte order the display consumes; the
//! conversion is [`rgb_to_bgr`]. Coordinates outside the buffer are simply
//! skipped, never clamped.

use vstd::prelude::*;

verus! {

/// Visible width of the display in pixels.
pub const SCREEN_WIDTH: u32 = 480;

/// Visible height of the display in pixels.
pub const SCREEN_HEIGHT: u32 = 272;

/// Allocated width of a buffer line in words; lines are padded past the
/// visible width up to this stride.
pub const BUF_WIDTH: u32 = 512;

/// The number of words in the draw buffer.
pub const BUF_WORDS: usize = 139264;

/// Reorder an `0x00RRGGBB` color word into the display's byte order: the
/// word is rotated left by one byte and then byte-swapped.
pub open spec fn rgb_to_bgr_spec(rgb: u32) -> u32 {
    let t = (rgb << 8) | (rgb >> 24);
    ((t & 0xFF) << 24) | ((t & 0xFF00) << 8) | ((t >> 8) & 0xFF00) | (t >> 24)
}

/// Reorder an `0x00RRGGBB` color word into the display's byte order.
pub fn rgb_to_bgr(rgb: u32) -> (r: u32)
    ensures
        r == rgb_to_bgr_spec(rgb),
{
    let t = (rgb << 8) | (rgb >> 24);
    ((t & 0xFF) << 24) | ((t & 0xFF00) << 8) | ((t >> 8) & 0xFF00) | (t >> 24)
}

/// The buffer word holding a point, if the point lies inside the stride and
/// height: `x + y * 512` for `0 <= x < 512` and `0 <= y < 272`.
pub open spec fn point_index(x: int, y: int) -> Option<usize> {
    if 0 <= x < 512 && 0 <= y < 272 {
        Some((x + y * 512) as usize)
    } else {
        None
    }
}

/// One pixel written into a buffer: the color word converted and stored at
/// the point's index, or the buffer unchanged if the point lies outside.
pub open spec fn put_pixel(buf: Seq<u32>, x: int, y: int, color: u32) -> Seq<u32> {
    match point_index(x, y) {
        Some(i) => buf.update(i as int, rgb_to_bgr_spec(color)),
        None => buf,
    }
}

/// A run of pixels written in order.
pub open spec fn draw_seq(buf: Seq<u32>, ps: Seq<(i32, i32, u32)>) -> Seq<u32>
    decreases ps.len(),
{
    if ps.len() == 0 {
        buf
    } else {
        let p = ps.last();
        put_pixel(draw_seq(buf, ps.drop_last()), p.0 as int, p.1 as int, p.2)
    }
}

/// An owned draw buffer: one word per pixel, 512-word lines, 272 lines.
pub struct Framebuffer {
    pub buf: Vec<u32>,
}

impl Framebuffer {
    pub open spec fn wf(self) -> bool {
        self.buf@.len() == BUF_WORDS
    }

    /// A fresh buffer with every word zeroed.
    pub fn new() -> (r: Framebuffer)
        ensures
            r.wf(),
            forall|i: int| 0 <= i < BUF_WORDS ==> r.buf@[i] == 0,
    {
        let mut buf: Vec<u32> = Vec::new();
        let mut i: usize = 0;
        while i < BUF_WORDS
            invariant
                i <= BUF_WORDS,
                buf@.len() == i,
                forall|k: int| 0 <= k < i ==> buf@[k] == 0,
            decreases BUF_WORDS - i,
        {
            buf.push(0);
            i = i + 1;
        }
        Framebuffer { buf }
    }

    /// The visible size of the display, width before height.
    pub fn size(&self) -> (r: (u32, u32))
        ensures
            r.0 == SCREEN_WIDTH,
            r.1 == SCREEN_HEIGHT,
    {
        (SCREEN_WIDTH, SCREEN_HEIGHT)
    }

    /// The buffer word holding a point, if any; see [`point_index`].
    pub fn point_to_index(&self, x: i32, y: i32) -> (r: Option<usize>)
        ensures
            r == point_index(x as int, y as int),
    {
        if x >= 0 && y >= 0 {
            let xu = x as u32;
            let yu = y as u32;
            if xu < BUF_WIDTH && yu < SCREEN_HEIGHT {
                return Some((xu + yu * BUF_WIDTH) as usize);
            }
        }
        None
    }

    /// Store one color word at a point; a point outside the buffer is
    /// skipped.
    pub fn draw_pixel(&mut self, x: i32, y: i32, color: u32)
        requires
            old(self).wf(),
        ensures
            final(self).wf(),
            final(self).buf@ == put_pixel(old(self).buf@, x as int, y as int, color),
    {
        if let Some(i) = self.point_to_index(x, y) {
            let v = rgb_to_bgr(color);
            self.buf.set(i, v);
        }
    }

    /// Store a run of `(x, y, color)` pixels in order; points outside the
    /// buffer are skipped.
    pub fn draw_iter(&mut self, pixels: &Vec<(i32, i32, u32)>)
        requires
            old(self).wf(),
        ensures
            final(self).wf(),
            final(self).buf@ == draw_seq(old(self).buf@, pixels@),
    {
        let ghost buf0 = self.buf@;
        let mut i: usize = 0;
        while i < pixels.len()
            invariant
                self.wf(),
                i <= pixels@.len(),
                self.buf@ == draw_seq(buf0, pixels@.subrange(0, i as int)),
            decreases pixels@.len() - i,
        {
            let p = pixels[i];
            self.draw_pixel(p.0, p.1, p.2);
            proof {
                let head = pixels@.subrange(0, (i + 1) as int);
                assert(head.drop_last() =~= pixels@.subrange(0, i as int));
                assert(head.last() == pixels@[i as int]);
            }
            i = i + 1;
        }
        proof {
            assert(pixels@.subrange(0, pixels@.len() as int) =~= pixels@);
        }
    }
}

} // verus!

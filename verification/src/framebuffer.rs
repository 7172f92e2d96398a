//! The frame buffer: a character grid and a parallel depth grid.
//!
//! Both grids are row-major with one entry per screen cell. Depths are
//! fixed-point integers; `DEPTH_INF` marks a cell that no sample has reached
//! yet. The buffer is scratch storage: it is fully reset before every
//! rasterization pass.

use vstd::prelude::*;

verus! {

/// Depth value treated as infinitely far: every real sample lies nearer.
pub const DEPTH_INF: i64 = i64::MAX;

/// Width and height to draw at: the reported display size, or 240 by 80
/// columns and rows when the size could not be determined.
pub fn display_size_or_default(reported: Option<(u16, u16)>) -> (r: (usize, usize))
    ensures
        r == (match reported {
            Some((cols, rows)) => (cols as usize, rows as usize),
            None => (240usize, 80usize),
        }),
{
    match reported {
        Some((cols, rows)) => (cols as usize, rows as usize),
        None => (240, 80),
    }
}

/// A character grid with a parallel depth grid, both row-major.
pub struct FrameBuffer {
    pub width: usize,
    pub height: usize,
    pub glyphs: Vec<char>,
    pub depths: Vec<i64>,
}

impl FrameBuffer {
    /// Both grids hold exactly one entry per screen cell.
    pub open spec fn wf(self) -> bool {
        &&& self.glyphs@.len() == self.width * self.height
        &&& self.depths@.len() == self.width * self.height
    }

    /// Every cell is blank and every depth is at infinity.
    pub open spec fn cleared(self) -> bool {
        &&& forall|k: int| 0 <= k < self.glyphs@.len() ==> self.glyphs@[k] == ' '
        &&& forall|k: int| 0 <= k < self.depths@.len() ==> self.depths@[k] == DEPTH_INF
    }

    /// A fresh buffer of the given size, blank and with all depths at
    /// infinity.
    pub fn new(width: usize, height: usize) -> (fb: FrameBuffer)
        requires
            width * height <= usize::MAX,
        ensures
            fb.width == width,
            fb.height == height,
            fb.wf(),
            fb.cleared(),
    {
        let n: usize = width * height;
        let mut glyphs: Vec<char> = Vec::new();
        let mut depths: Vec<i64> = Vec::new();
        let mut k: usize = 0;
        while k < n
            invariant
                k <= n,
                glyphs@.len() == k,
                depths@.len() == k,
                forall|t: int| 0 <= t < k ==> glyphs@[t] == ' ',
                forall|t: int| 0 <= t < k ==> depths@[t] == DEPTH_INF,
            decreases n - k,
        {
            glyphs.push(' ');
            depths.push(DEPTH_INF);
            k = k + 1;
        }
        FrameBuffer { width, height, glyphs, depths }
    }

    /// Reset every cell to blank and every depth to infinity, keeping the
    /// size. This runs before each rasterization pass, so no frame can leak
    /// into the next.
    pub fn clear(&mut self)
        requires
            old(self).wf(),
        ensures
            final(self).width == old(self).width,
            final(self).height == old(self).height,
            final(self).wf(),
            final(self).cleared(),
    {
        let n: usize = self.glyphs.len();
        let mut k: usize = 0;
        while k < n
            invariant
                k <= n,
                self.width == old(self).width,
                self.height == old(self).height,
                self.glyphs@.len() == n,
                self.depths@.len() == n,
                n == self.width * self.height,
                forall|t: int| 0 <= t < k ==> self.glyphs@[t] == ' ',
                forall|t: int| 0 <= t < k ==> self.depths@[t] == DEPTH_INF,
            decreases n - k,
        {
            self.glyphs.set(k, ' ');
            self.depths.set(k, DEPTH_INF);
            k = k + 1;
        }
    }
}

/// One row of the flushed frame: a line break followed by the row's cells.
pub open spec fn row_seq(glyphs: Seq<char>, w: int, y: int) -> Seq<char> {
    seq!['\n'] + glyphs.subrange(y * w, (y + 1) * w)
}

/// The flushed form of the first `rows` rows of a row-major grid `w` wide:
/// every row preceded by a line break, rows in top-to-bottom order.
pub open spec fn grid_seq(glyphs: Seq<char>, w: int, rows: int) -> Seq<char>
    decreases rows,
{
    if rows <= 0 {
        Seq::empty()
    } else {
        grid_seq(glyphs, w, rows - 1) + row_seq(glyphs, w, rows - 1)
    }
}

impl FrameBuffer {
    /// The frame as it is flushed to the display: the whole grid in row-major
    /// order with one line break before every row.
    pub fn frame_chars(&self) -> (out: Vec<char>)
        requires
            self.wf(),
        ensures
            out@ == grid_seq(self.glyphs@, self.width as int, self.height as int),
            out@.len() == self.height * (self.width + 1),
    {
        let w = self.width;
        let h = self.height;
        let total = self.glyphs.len();
        let mut out: Vec<char> = Vec::new();
        let mut y: usize = 0;
        let mut base: usize = 0;
        while y < h
            invariant
                y <= h,
                w == self.width,
                h == self.height,
                self.wf(),
                total == self.glyphs@.len(),
                base == y * w,
                out@.len() == y * (w + 1),
                out@ == grid_seq(self.glyphs@, w as int, y as int),
            decreases h - y,
        {
            out.push('\n');
            proof {
                assert((y as int) * (w as int) <= (h as int) * (w as int)) by (nonlinear_arith)
                    requires
                        0 <= y <= h,
                        0 <= w,
                ;
                assert((h as int) * (w as int) == (self.width as int) * (self.height as int))
                    by (nonlinear_arith)
                    requires
                        w == self.width,
                        h == self.height,
                ;
                assert(self.glyphs@.subrange(y * w, y * w) =~= Seq::<char>::empty());
                assert(out@ =~= grid_seq(self.glyphs@, w as int, y as int) + seq!['\n']
                    + self.glyphs@.subrange(y * w, y * w));
            }
            let mut x: usize = 0;
            while x < w
                invariant
                    x <= w,
                    y < h,
                    w == self.width,
                    h == self.height,
                    self.wf(),
                    total == self.glyphs@.len(),
                    base == y * w,
                    out@.len() == y * (w + 1) + 1 + x,
                    out@ == grid_seq(self.glyphs@, w as int, y as int) + seq!['\n']
                        + self.glyphs@.subrange(y * w, y * w + x),
                decreases w - x,
            {
                proof {
                    assert((y as int) * (w as int) + (x as int) < (h as int) * (w as int))
                        by (nonlinear_arith)
                        requires
                            0 <= x < w,
                            0 <= y < h,
                    ;
                    assert((h as int) * (w as int) == (self.width as int) * (self.height as int))
                        by (nonlinear_arith)
                        requires
                            w == self.width,
                            h == self.height,
                    ;
                    assert(base + x < total);
                }
                let c = self.glyphs[base + x];
                out.push(c);
                proof {
                    assert(self.glyphs@.subrange(y * w, y * w + x + 1)
                        =~= self.glyphs@.subrange(y * w, y * w + x).push(c));
                    assert(out@ =~= grid_seq(self.glyphs@, w as int, y as int) + seq!['\n']
                        + self.glyphs@.subrange(y * w, y * w + x + 1));
                }
                x = x + 1;
            }
            proof {
                assert((y as int + 1) * (w as int) == (y as int) * (w as int) + (w as int))
                    by (nonlinear_arith);
                assert(out@ =~= grid_seq(self.glyphs@, w as int, y as int + 1));
                assert((y as int + 1) * (w as int + 1) == (y as int) * (w as int + 1) + (w as int)
                    + 1) by (nonlinear_arith);
                assert((y as int + 1) * (w as int) <= (h as int) * (w as int))
                    by (nonlinear_arith)
                    requires
                        0 <= y,
                        y + 1 <= h,
                        0 <= w,
                ;
                assert((h as int) * (w as int) == (self.width as int) * (self.height as int))
                    by (nonlinear_arith)
                    requires
                        w == self.width,
                        h == self.height,
                ;
            }
            base = base + w;
            y = y + 1;
        }
        proof {
            assert((h as int) * ((w as int) + 1) == (self.height as int) * ((self.width as int)
                + 1)) by (nonlinear_arith)
                requires
                    w == self.width,
                    h == self.height,
            ;
        }
        out
    }
}

} // verus!

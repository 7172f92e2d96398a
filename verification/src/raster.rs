//! Depth-tested rasterization: nearest-wins painting of projected samples.
//!
//! Every projected sample carries integer screen coordinates, a fixed-point
//! depth and a fixed-point brightness. A sample paints its cell only when it
//! lies inside the grid, faces the viewer (positive brightness) and is
//! strictly nearer than what the cell already holds; the painted character is
//! the quantized brightness looked up in the ramp.

use vstd::prelude::*;

use crate::framebuffer::{DEPTH_INF, FrameBuffer};
use crate::luminance::{lum_index_spec, luminance_index, ramp_char, ramp_spec};

verus! {

/// A projected surface sample: screen coordinates, fixed-point depth,
/// fixed-point brightness.
#[derive(Clone, Copy, Debug)]
pub struct ProjPoint {
    pub x: i64,
    pub y: i64,
    pub depth: i64,
    pub lum: i64,
}

/// Does sample `p` land on cell `(x, y)` facing the viewer? A sample with
/// non-positive brightness faces away and never touches a cell.
pub open spec fn hits(p: ProjPoint, x: int, y: int) -> bool {
    p.x == x && p.y == y && p.lum > 0
}

/// Row-major linear index of cell `(x, y)` in a grid `w` wide.
pub open spec fn cell_index(w: int, x: int, y: int) -> int {
    y * w + x
}

/// The depth held by cell `(x, y)` after rasterizing `ps` into a cleared
/// buffer: the minimum depth over the front-facing samples landing there,
/// or `DEPTH_INF` when none does.
pub open spec fn cell_depth(ps: Seq<ProjPoint>, x: int, y: int) -> int
    decreases ps.len(),
{
    if ps.len() == 0 {
        DEPTH_INF as int
    } else {
        let rest = cell_depth(ps.drop_last(), x, y);
        let p = ps.last();
        if hits(p, x, y) && p.depth < rest {
            p.depth as int
        } else {
            rest
        }
    }
}

/// The character held by cell `(x, y)` after rasterizing `ps` into a cleared
/// buffer: blank until a front-facing sample lands there, then the ramp
/// character of the latest sample that strictly improved the cell's depth.
pub open spec fn cell_glyph(ps: Seq<ProjPoint>, x: int, y: int) -> char
    decreases ps.len(),
{
    if ps.len() == 0 {
        ' '
    } else {
        let p = ps.last();
        if hits(p, x, y) && p.depth < cell_depth(ps.drop_last(), x, y) {
            ramp_spec(lum_index_spec(p.lum as int))
        } else {
            cell_glyph(ps.drop_last(), x, y)
        }
    }
}

/// `fb` holds exactly the rasterization of `ps`: the depth and character of
/// every cell are determined by `ps` alone.
pub open spec fn rastered(fb: FrameBuffer, ps: Seq<ProjPoint>) -> bool {
    &&& forall|x: int, y: int|
        0 <= x < fb.width && 0 <= y < fb.height ==> #[trigger] fb.depths@[cell_index(
            fb.width as int,
            x,
            y,
        )] == cell_depth(ps, x, y)
    &&& forall|x: int, y: int|
        0 <= x < fb.width && 0 <= y < fb.height ==> #[trigger] fb.glyphs@[cell_index(
            fb.width as int,
            x,
            y,
        )] == cell_glyph(ps, x, y)
}

/// Distinct cells of one grid have distinct linear indices.
proof fn lemma_cell_index_injective(w: int, x1: int, y1: int, x2: int, y2: int)
    requires
        0 <= x1 < w,
        0 <= x2 < w,
    ensures
        cell_index(w, x1, y1) == cell_index(w, x2, y2) ==> (x1 == x2 && y1 == y2),
{
    if cell_index(w, x1, y1) == cell_index(w, x2, y2) {
        assert(y1 == y2) by (nonlinear_arith)
            requires
                y1 * w + x1 == y2 * w + x2,
                0 <= x1 < w,
                0 <= x2 < w,
        ;
    }
}

/// Paint every valid sample of `ps` into `fb`, nearest sample winning each
/// cell, starting from a fully cleared buffer.
pub fn rasterize(fb: &mut FrameBuffer, ps: &Vec<ProjPoint>)
    requires
        old(fb).wf(),
        forall|t: int| 0 <= t < ps@.len() ==> #[trigger] ps@[t].depth < DEPTH_INF,
    ensures
        final(fb).width == old(fb).width,
        final(fb).height == old(fb).height,
        final(fb).wf(),
        rastered(*final(fb), ps@),
{
    fb.clear();
    let w = fb.width;
    let h = fb.height;
    let total = fb.depths.len();
    let n = ps.len();
    let mut k: usize = 0;
    proof {
        assert(ps@.take(0) =~= Seq::<ProjPoint>::empty());
        assert forall|x: int, y: int| 0 <= x < w && 0 <= y < h implies 0 <= #[trigger] cell_index(
            w as int,
            x,
            y,
        ) < total as int by {
            assert(0 <= y * (w as int) + x < (h as int) * (w as int)) by (nonlinear_arith)
                requires
                    0 <= x < w,
                    0 <= y < h,
            ;
            assert((h as int) * (w as int) == (fb.width as int) * (fb.height as int))
                by (nonlinear_arith)
                requires
                    w == fb.width,
                    h == fb.height,
            ;
        }
    }
    while k < n
        invariant
            fb.wf(),
            fb.width == w,
            fb.height == h,
            w == old(fb).width,
            h == old(fb).height,
            total == fb.depths@.len(),
            total == fb.glyphs@.len(),
            n == ps@.len(),
            k <= n,
            forall|t: int| 0 <= t < ps@.len() ==> #[trigger] ps@[t].depth < DEPTH_INF,
            rastered(*fb, ps@.take(k as int)),
        decreases n - k,
    {
        let ghost fb0 = *fb;
        let ghost prev = ps@.take(k as int);
        let ghost cur = ps@.take(k as int + 1);
        let p = ps[k];
        proof {
            assert(cur.drop_last() =~= prev);
            assert(cur.last() == ps@[k as int]);
            assert forall|x: int, y: int| 0 <= x < w && 0 <= y < h implies 0 <= #[trigger] cell_index(
                w as int,
                x,
                y,
            ) < total as int by {
                assert(0 <= y * (w as int) + x < (h as int) * (w as int)) by (nonlinear_arith)
                    requires
                        0 <= x < w,
                        0 <= y < h,
                ;
                assert((h as int) * (w as int) == (fb.width as int) * (fb.height as int))
                    by (nonlinear_arith)
                    requires
                        w == fb.width,
                        h == fb.height,
                ;
            }
        }
        if p.lum > 0 && p.x >= 0 && p.y >= 0 && (p.x as u64) < (w as u64) && (p.y as u64) < (
        h as u64) {
            let px = p.x as usize;
            let py = p.y as usize;
            proof {
                assert(px as int == p.x as int && py as int == p.y as int);
                assert((px as int) + (w as int) * (py as int) == cell_index(
                    w as int,
                    px as int,
                    py as int,
                ));
            }
            let idx = px + w * py;
            if p.depth < fb.depths[idx] {
                fb.depths.set(idx, p.depth);
                let g = ramp_char(luminance_index(p.lum));
                fb.glyphs.set(idx, g);
                proof {
                    assert forall|x: int, y: int| 0 <= x < fb.width && 0 <= y < fb.height
                        implies #[trigger] fb.depths@[cell_index(fb.width as int, x, y)]
                        == cell_depth(cur, x, y) by {
                        lemma_cell_index_injective(fb.width as int, x, y, px as int, py as int);
                        if x == px as int && y == py as int {
                            assert(fb0.depths@[cell_index(fb.width as int, x, y)] == cell_depth(
                                prev,
                                x,
                                y,
                            ));
                            assert(hits(cur.last(), x, y));
                            assert(cell_depth(cur, x, y) == p.depth as int);
                        } else {
                            assert(!hits(cur.last(), x, y));
                            assert(cell_depth(cur, x, y) == cell_depth(prev, x, y));
                            assert(fb.depths@[cell_index(fb.width as int, x, y)] == fb0.depths@[
                            cell_index(fb.width as int, x, y)]);
                        }
                    }
                    assert forall|x: int, y: int| 0 <= x < fb.width && 0 <= y < fb.height
                        implies #[trigger] fb.glyphs@[cell_index(fb.width as int, x, y)]
                        == cell_glyph(cur, x, y) by {
                        lemma_cell_index_injective(fb.width as int, x, y, px as int, py as int);
                        if x == px as int && y == py as int {
                            assert(fb0.depths@[cell_index(fb.width as int, x, y)] == cell_depth(
                                prev,
                                x,
                                y,
                            ));
                            assert(hits(cur.last(), x, y));
                            assert(cell_glyph(cur, x, y) == ramp_spec(lum_index_spec(p.lum as int)));
                        } else {
                            assert(!hits(cur.last(), x, y));
                            assert(cell_glyph(cur, x, y) == cell_glyph(prev, x, y));
                            assert(fb.glyphs@[cell_index(fb.width as int, x, y)] == fb0.glyphs@[
                            cell_index(fb.width as int, x, y)]);
                        }
                    }
                }
            } else {
                proof {
                    assert forall|x: int, y: int| 0 <= x < fb.width && 0 <= y < fb.height
                        implies #[trigger] fb.depths@[cell_index(fb.width as int, x, y)]
                        == cell_depth(cur, x, y) by {
                        if x == px as int && y == py as int {
                            assert(fb0.depths@[cell_index(fb.width as int, x, y)] == cell_depth(
                                prev,
                                x,
                                y,
                            ));
                            assert(!(cur.last().depth < cell_depth(prev, x, y)));
                            assert(cell_depth(cur, x, y) == cell_depth(prev, x, y));
                        } else {
                            assert(!hits(cur.last(), x, y));
                        }
                    }
                    assert forall|x: int, y: int| 0 <= x < fb.width && 0 <= y < fb.height
                        implies #[trigger] fb.glyphs@[cell_index(fb.width as int, x, y)]
                        == cell_glyph(cur, x, y) by {
                        if x == px as int && y == py as int {
                            assert(fb0.depths@[cell_index(fb.width as int, x, y)] == cell_depth(
                                prev,
                                x,
                                y,
                            ));
                            assert(!(cur.last().depth < cell_depth(prev, x, y)));
                            assert(cell_glyph(cur, x, y) == cell_glyph(prev, x, y));
                        } else {
                            assert(!hits(cur.last(), x, y));
                        }
                    }
                }
            }
        } else {
            proof {
                assert forall|x: int, y: int| 0 <= x < fb.width && 0 <= y < fb.height
                    implies #[trigger] fb.depths@[cell_index(fb.width as int, x, y)]
                    == cell_depth(cur, x, y) by {
                    assert(!hits(cur.last(), x, y));
                    assert(cell_depth(cur, x, y) == cell_depth(prev, x, y));
                }
                assert forall|x: int, y: int| 0 <= x < fb.width && 0 <= y < fb.height
                    implies #[trigger] fb.glyphs@[cell_index(fb.width as int, x, y)]
                    == cell_glyph(cur, x, y) by {
                    assert(!hits(cur.last(), x, y));
                    assert(cell_glyph(cur, x, y) == cell_glyph(prev, x, y));
                }
            }
        }
        k = k + 1;
    }
    proof {
        assert(ps@.take(n as int) =~= ps@);
    }
}

/// The rasterized depth of a cell is the least depth among the front-facing
/// samples that land on it: no such sample lies nearer, and unless the cell
/// is untouched (`DEPTH_INF`), one such sample attains the stored depth.
pub proof fn lemma_cell_depth_is_min(ps: Seq<ProjPoint>, x: int, y: int)
    ensures
        cell_depth(ps, x, y) <= DEPTH_INF,
        forall|t: int|
            0 <= t < ps.len() && hits(#[trigger] ps[t], x, y) ==> cell_depth(ps, x, y)
                <= ps[t].depth,
        cell_depth(ps, x, y) == DEPTH_INF || exists|t: int|
            0 <= t < ps.len() && hits(#[trigger] ps[t], x, y) && ps[t].depth == cell_depth(
                ps,
                x,
                y,
            ),
    decreases ps.len(),
{
    if ps.len() > 0 {
        let prev = ps.drop_last();
        let p = ps.last();
        lemma_cell_depth_is_min(prev, x, y);
        assert(forall|t: int| 0 <= t < prev.len() ==> prev[t] == #[trigger] ps[t]);
        assert(ps[ps.len() - 1] == p);
        if !(hits(p, x, y) && p.depth < cell_depth(prev, x, y)) && cell_depth(prev, x, y)
            != DEPTH_INF {
            let t = choose|t: int|
                0 <= t < prev.len() && hits(#[trigger] prev[t], x, y) && prev[t].depth
                    == cell_depth(prev, x, y);
            assert(hits(ps[t], x, y) && ps[t].depth == cell_depth(ps, x, y));
        }
    }
}

/// A sample that faces away from the viewer or lands on a different cell
/// leaves the cell's depth and character unchanged.
pub proof fn lemma_miss_no_effect(ps: Seq<ProjPoint>, p: ProjPoint, x: int, y: int)
    requires
        !hits(p, x, y),
    ensures
        cell_depth(ps.push(p), x, y) == cell_depth(ps, x, y),
        cell_glyph(ps.push(p), x, y) == cell_glyph(ps, x, y),
{
    assert(ps.push(p).drop_last() =~= ps);
    assert(ps.push(p).last() == p);
}

/// Rasterization is a function of the samples alone: two buffers of equal
/// size rasterized from the same samples agree on every cell of both grids,
/// so re-running a frame with identical inputs yields identical output and
/// nothing leaks from one frame into the next.
pub proof fn lemma_rasterize_deterministic(fb1: FrameBuffer, fb2: FrameBuffer, ps: Seq<ProjPoint>)
    requires
        fb1.wf(),
        fb2.wf(),
        fb1.width == fb2.width,
        fb1.height == fb2.height,
        rastered(fb1, ps),
        rastered(fb2, ps),
    ensures
        fb1.glyphs@ == fb2.glyphs@,
        fb1.depths@ == fb2.depths@,
{
    let w = fb1.width as int;
    let h = fb1.height as int;
    assert(fb1.glyphs@.len() == w * h);
    assert(fb2.glyphs@.len() == w * h);
    assert(fb1.depths@.len() == w * h);
    assert(fb2.depths@.len() == w * h);
    assert forall|i: int| 0 <= i < w * h implies #[trigger] fb1.glyphs@[i] == fb2.glyphs@[i] by {
        lemma_locate_cell(w, h, i);
        let y = i / w;
        let x = i % w;
        assert(fb1.glyphs@[cell_index(w, x, y)] == cell_glyph(ps, x, y));
        assert(fb2.glyphs@[cell_index(w, x, y)] == cell_glyph(ps, x, y));
    }
    assert forall|i: int| 0 <= i < w * h implies #[trigger] fb1.depths@[i] == fb2.depths@[i] by {
        lemma_locate_cell(w, h, i);
        let y = i / w;
        let x = i % w;
        assert(fb1.depths@[cell_index(w, x, y)] == cell_depth(ps, x, y));
        assert(fb2.depths@[cell_index(w, x, y)] == cell_depth(ps, x, y));
    }
    assert(fb1.glyphs@ =~= fb2.glyphs@);
    assert(fb1.depths@ =~= fb2.depths@);
}

/// Every linear index of a grid is the index of exactly the cell found by
/// dividing by the width.
proof fn lemma_locate_cell(w: int, h: int, i: int)
    requires
        0 <= i < w * h,
        0 <= w,
        0 <= h,
    ensures
        0 <= i % w < w,
        0 <= i / w < h,
        cell_index(w, i % w, i / w) == i,
{
    assert(w > 0 && h > 0) by (nonlinear_arith)
        requires
            0 <= i < w * h,
            0 <= w,
            0 <= h,
    ;
    vstd::arithmetic::div_mod::lemma_fundamental_div_mod(i, w);
    vstd::arithmetic::div_mod::lemma_mod_bound(i, w);
    assert(0 <= i / w < h) by (nonlinear_arith)
        requires
            i == w * (i / w) + i % w,
            0 <= i % w < w,
            0 <= i < w * h,
            w > 0,
    ;
    assert((i / w) * w + i % w == i) by (nonlinear_arith)
        requires
            i == w * (i / w) + i % w,
    ;
}

} // verus!

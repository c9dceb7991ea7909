//! The off-screen canvas: a pixel buffer in native color values, sized to the
//! last-known surface dimensions, together with a count of the backing
//! buffers retired over its lifetime (the model of "the old bitmap was
//! released"). Rectangle fills and the whole-canvas clear are pixel-exact.

use vstd::arithmetic::div_mod::{
    lemma_fundamental_div_mod,
    lemma_fundamental_div_mod_converse,
    lemma_mod_division_less_than_divisor,
};
use vstd::prelude::*;

use crate::geom::ClipRect;

verus! {

/// The off-screen drawing surface. `pixels` holds native color values in
/// row-major order, `width * height` of them; `retired` counts how many
/// backing buffers have been released since construction (one per effective
/// resize, plus one at teardown).
pub struct Canvas {
    pub width: u16,
    pub height: u16,
    pub pixels: Vec<u32>,
    pub retired: u64,
}

impl Canvas {
    /// The structural invariant: the buffer matches the dimensions.
    pub open spec fn wf(self) -> bool {
        self.pixels@.len() == (self.width as int) * (self.height as int)
    }

    /// The pixel at column `x`, row `y`.
    pub open spec fn pix(self, x: int, y: int) -> u32 {
        self.pixels@[y * (self.width as int) + x]
    }

    /// Whether (x, y) addresses a pixel of this canvas.
    pub open spec fn in_bounds(self, x: int, y: int) -> bool {
        0 <= x < self.width && 0 <= y < self.height
    }

    /// A buffer of `w * h` pixels all holding `fill`.
    pub open spec fn spec_uniform(w: int, h: int, fill: u32) -> Seq<u32> {
        Seq::new((w * h) as nat, |i: int| fill)
    }

    /// Allocates a canvas of the given dimensions with every pixel set to
    /// `fill`; no buffer has been retired yet.
    pub fn new(width: u16, height: u16, fill: u32) -> (out: Canvas)
        ensures
            out.wf(),
            out.width == width,
            out.height == height,
            out.retired == 0,
            out.pixels@ == Canvas::spec_uniform(width as int, height as int, fill),
    {
        let pixels = alloc_buffer(width, height, fill);
        Canvas { width, height, pixels, retired: 0 }
    }

    /// Reads one pixel; `None` exactly when (x, y) is outside the canvas.
    pub fn pixel(&self, x: u16, y: u16) -> (out: Option<u32>)
        requires
            self.wf(),
        ensures
            out is Some <==> self.in_bounds(x as int, y as int),
            self.in_bounds(x as int, y as int) ==> out == Some(self.pix(x as int, y as int)),
    {
        if x >= self.width || y >= self.height {
            return None;
        }
        let i: usize = buf_index(x as i32, y as i32, self.width, self.height);
        Some(self.pixels[i])
    }

    /// Replaces the backing buffer when the reported dimensions differ from
    /// the current ones: the old buffer is retired (counted) and a fresh
    /// zeroed buffer of the new size takes its place. Equal dimensions leave
    /// the canvas untouched.
    pub fn resize(&mut self, width: u16, height: u16)
        requires
            old(self).wf(),
            old(self).retired < u64::MAX,
        ensures
            final(self).wf(),
            final(self).width == width,
            final(self).height == height,
            old(self).width == width && old(self).height == height ==> *final(self) == *old(self),
            old(self).width != width || old(self).height != height ==> {
                &&& final(self).retired == old(self).retired + 1
                &&& final(self).pixels@ == Canvas::spec_uniform(width as int, height as int, 0u32)
            },
    {
        if width != self.width || height != self.height {
            self.pixels = alloc_buffer(width, height, 0);
            self.width = width;
            self.height = height;
            self.retired = self.retired + 1;
        }
    }

    /// Sets every pixel to `fill`, as the start-of-frame clear does.
    pub fn clear(&mut self, fill: u32)
        requires
            old(self).wf(),
        ensures
            final(self).wf(),
            final(self).width == old(self).width,
            final(self).height == old(self).height,
            final(self).retired == old(self).retired,
            final(self).pixels@ == Canvas::spec_uniform(
                old(self).width as int,
                old(self).height as int,
                fill,
            ),
    {
        let n: usize = self.pixels.len();
        let mut i: usize = 0;
        while i < n
            invariant
                self.wf(),
                self.width == old(self).width,
                self.height == old(self).height,
                self.retired == old(self).retired,
                n == self.pixels@.len(),
                i <= n,
                forall|j: int| 0 <= j < i ==> self.pixels@[j] == fill,
                forall|j: int| i <= j < n ==> self.pixels@[j] == old(self).pixels@[j],
            decreases n - i,
        {
            self.pixels.set(i, fill);
            i = i + 1;
        }
        proof {
            assert(self.pixels@ =~= Canvas::spec_uniform(
                old(self).width as int,
                old(self).height as int,
                fill,
            ));
        }
    }
}

/// The buffer after an opaque rectangle fill: inside the rectangle anchored
/// at (rx, ry) with size (rw, rh), restricted to `clip` and to the canvas,
/// every pixel holds `color`; all others keep their prior value. The
/// rectangle covers the half-open ranges [rx, rx+rw) and [ry, ry+rh).
pub open spec fn spec_filled(
    pix: Seq<u32>,
    w: int,
    rx: int,
    ry: int,
    rw: int,
    rh: int,
    clip: ClipRect,
    color: u32,
) -> Seq<u32> {
    Seq::new(
        pix.len(),
        |i: int|
            {
                let px = i % w;
                let py = i / w;
                if rx <= px < rx + rw && ry <= py < ry + rh && clip.contains(px, py) {
                    color
                } else {
                    pix[i]
                }
            },
    )
}

/// The intermediate states of the fill loops: rows below `py` are done, and
/// in row `py` the columns below `px` are done.
spec fn spec_fill_upto(
    pix: Seq<u32>,
    w: int,
    rx: int,
    ry: int,
    rw: int,
    rh: int,
    clip: ClipRect,
    color: u32,
    py: int,
    px: int,
) -> Seq<u32> {
    Seq::new(
        pix.len(),
        |i: int|
            {
                let cx = i % w;
                let cy = i / w;
                if rx <= cx < rx + rw && ry <= cy < ry + rh && clip.contains(cx, cy) && (cy < py
                    || (cy == py && cx < px)) {
                    color
                } else {
                    pix[i]
                }
            },
    )
}

/// Row-major indexing stays inside the buffer, and the index decomposes back
/// into the row and column it was built from.
pub(crate) proof fn lemma_row_index_in_range(w: int, h: int, x: int, y: int)
    requires
        0 <= x < w,
        0 <= y < h,
    ensures
        0 <= y * w + x < w * h,
        (y * w + x) % w == x,
        (y * w + x) / w == y,
{
    assert(0 <= y * w + x < w * h) by (nonlinear_arith)
        requires
            0 <= x < w,
            0 <= y < h,
    ;
    lemma_fundamental_div_mod_converse(y * w + x, w, y, x);
}

/// Reading one pixel of a filled buffer: a pixel inside both the rectangle
/// and the clip region holds the fill color, and every other pixel holds
/// its prior value. With an unrestricting clip, a fill at (rx, ry) with
/// size (rw, rh) covers exactly the columns [rx, rx + rw) and the rows
/// [ry, ry + rh).
pub proof fn lemma_filled_pixel(
    pix: Seq<u32>,
    w: int,
    h: int,
    rx: int,
    ry: int,
    rw: int,
    rh: int,
    clip: ClipRect,
    color: u32,
    px: int,
    py: int,
)
    requires
        pix.len() == w * h,
        0 <= px < w,
        0 <= py < h,
    ensures
        spec_filled(pix, w, rx, ry, rw, rh, clip, color)[py * w + px] == (if rx <= px < rx + rw
            && ry <= py < ry + rh && clip.contains(px, py) {
            color
        } else {
            pix[py * w + px]
        }),
{
    lemma_row_index_in_range(w, h, px, py);
}

/// Any buffer index decomposes into a valid column `i % w` and row `i / w`.
proof fn lemma_buf_coords(w: int, h: int, i: int)
    requires
        w > 0,
        0 <= i < w * h,
    ensures
        0 <= i % w < w,
        0 <= i / w < h,
        i == (i / w) * w + (i % w),
{
    lemma_fundamental_div_mod(i, w);
    lemma_mod_division_less_than_divisor(i, w);
    assert(w * (i / w) == (i / w) * w) by (nonlinear_arith);
    assert(0 <= i / w < h) by (nonlinear_arith)
        requires
            w > 0,
            0 <= i < w * h,
            i == (i / w) * w + (i % w),
            0 <= i % w < w,
    ;
}

impl Canvas {
    /// Fills an axis-aligned rectangle with `color`, restricted to `clip`:
    /// the model of the opaque-rectangle draw primitive. Pixels outside the
    /// rectangle, outside the clip region or outside the canvas are
    /// untouched.
    pub fn fill_rect(&mut self, rx: i16, ry: i16, rw: u16, rh: u16, color: u32, clip: ClipRect)
        requires
            old(self).wf(),
        ensures
            final(self).wf(),
            final(self).width == old(self).width,
            final(self).height == old(self).height,
            final(self).retired == old(self).retired,
            final(self).pixels@ == spec_filled(
                old(self).pixels@,
                old(self).width as int,
                rx as int,
                ry as int,
                rw as int,
                rh as int,
                clip,
                color,
            ),
    {
        let w = self.width;
        let h = self.height;
        let x0: i32 = max3(rx as i32, clip.left, 0);
        let x1: i32 = min3(rx as i32 + rw as i32, clip.right, w as i32);
        let y0: i32 = max3(ry as i32, clip.top, 0);
        let y1: i32 = min3(ry as i32 + rh as i32, clip.bottom, h as i32);
        let ghost target = spec_filled(
            old(self).pixels@,
            w as int,
            rx as int,
            ry as int,
            rw as int,
            rh as int,
            clip,
            color,
        );
        if x0 >= x1 || y0 >= y1 {
            proof {
                assert forall|i: int| 0 <= i < self.pixels@.len() implies target[i]
                    == self.pixels@[i] by {
                    assert(w > 0) by (nonlinear_arith)
                        requires
                            0 <= i < (w as int) * (h as int),
                            w >= 0,
                    ;
                    lemma_buf_coords(w as int, h as int, i);
                }
                assert(self.pixels@ =~= target);
            }
            return ;
        }
        let mut py: i32 = y0;
        while py < y1
            invariant
                self.wf(),
                self.width == w,
                self.height == h,
                self.retired == old(self).retired,
                self.pixels@.len() == old(self).pixels@.len(),
                y0 <= py <= y1,
                0 <= y0,
                y1 <= h,
                0 <= x0 < x1 <= w,
                rx <= x0,
                x1 <= rx + rw,
                clip.left <= x0,
                x1 <= clip.right,
                ry <= y0,
                y1 <= ry + rh,
                clip.top <= y0,
                y1 <= clip.bottom,
                x0 == rx || x0 == clip.left || x0 == 0,
                x1 == rx + rw || x1 == clip.right || x1 == w,
                y0 == ry || y0 == clip.top || y0 == 0,
                y1 == ry + rh || y1 == clip.bottom || y1 == h,
                self.pixels@ == spec_fill_upto(
                    old(self).pixels@,
                    w as int,
                    rx as int,
                    ry as int,
                    rw as int,
                    rh as int,
                    clip,
                    color,
                    py as int,
                    x0 as int,
                ),
            decreases y1 - py,
        {
            let mut px: i32 = x0;
            while px < x1
                invariant
                    self.wf(),
                    self.width == w,
                    self.height == h,
                    self.retired == old(self).retired,
                    self.pixels@.len() == old(self).pixels@.len(),
                    y0 <= py < y1,
                    x0 <= px <= x1,
                    0 <= y0,
                    y1 <= h,
                    0 <= x0 < x1 <= w,
                    rx <= x0,
                    x1 <= rx + rw,
                    clip.left <= x0,
                    x1 <= clip.right,
                    ry <= y0,
                    y1 <= ry + rh,
                    clip.top <= y0,
                    y1 <= clip.bottom,
                    x0 == rx || x0 == clip.left || x0 == 0,
                    x1 == rx + rw || x1 == clip.right || x1 == w,
                    y0 == ry || y0 == clip.top || y0 == 0,
                    y1 == ry + rh || y1 == clip.bottom || y1 == h,
                    self.pixels@ == spec_fill_upto(
                        old(self).pixels@,
                        w as int,
                        rx as int,
                        ry as int,
                        rw as int,
                        rh as int,
                        clip,
                        color,
                        py as int,
                        px as int,
                    ),
                decreases x1 - px,
            {
                let i: usize = buf_index(px, py, w, h);
                self.pixels.set(i, color);
                proof {
                    let prev = spec_fill_upto(
                        old(self).pixels@,
                        w as int,
                        rx as int,
                        ry as int,
                        rw as int,
                        rh as int,
                        clip,
                        color,
                        py as int,
                        px as int,
                    );
                    let next = spec_fill_upto(
                        old(self).pixels@,
                        w as int,
                        rx as int,
                        ry as int,
                        rw as int,
                        rh as int,
                        clip,
                        color,
                        py as int,
                        px as int + 1,
                    );
                    assert forall|j: int| 0 <= j < next.len() implies prev.update(i as int, color)[j]
                        == next[j] by {
                        lemma_buf_coords(w as int, h as int, j);
                        lemma_row_index_in_range(w as int, h as int, px as int, py as int);
                        if j != i as int {
                            if j % (w as int) == px as int && j / (w as int) == py as int {
                                assert(j == (py as int) * (w as int) + (px as int));
                            }
                        }
                    }
                    assert(self.pixels@ =~= next);
                }
                px = px + 1;
            }
            proof {
                let row_done = spec_fill_upto(
                    old(self).pixels@,
                    w as int,
                    rx as int,
                    ry as int,
                    rw as int,
                    rh as int,
                    clip,
                    color,
                    py as int,
                    x1 as int,
                );
                let next_row = spec_fill_upto(
                    old(self).pixels@,
                    w as int,
                    rx as int,
                    ry as int,
                    rw as int,
                    rh as int,
                    clip,
                    color,
                    py as int + 1,
                    x0 as int,
                );
                assert forall|j: int| 0 <= j < row_done.len() implies row_done[j]
                    == next_row[j] by {
                    lemma_buf_coords(w as int, h as int, j);
                }
                assert(row_done =~= next_row);
            }
            py = py + 1;
        }
        proof {
            let done = spec_fill_upto(
                old(self).pixels@,
                w as int,
                rx as int,
                ry as int,
                rw as int,
                rh as int,
                clip,
                color,
                y1 as int,
                x0 as int,
            );
            assert forall|j: int| 0 <= j < done.len() implies done[j] == target[j] by {
                lemma_buf_coords(w as int, h as int, j);
            }
            assert(done =~= target);
        }
    }
}

/// The row-major buffer index of column `px`, row `py` on a `w` by `h`
/// canvas.
fn buf_index(px: i32, py: i32, w: u16, h: u16) -> (i: usize)
    requires
        0 <= px < w,
        0 <= py < h,
    ensures
        i == (py as int) * (w as int) + (px as int),
        i < (w as int) * (h as int),
{
    proof {
        lemma_row_index_in_range(w as int, h as int, px as int, py as int);
        assert((w as int) * (h as int) <= 0xFFFF * 0xFFFF) by (nonlinear_arith)
            requires
                w <= 0xFFFF,
                h <= 0xFFFF,
        ;
    }
    (py as usize) * (w as usize) + (px as usize)
}

/// The largest of three values: the tightest lower bound wins.
fn max3(a: i32, b: i32, c: i32) -> (out: i32)
    ensures
        out >= a && out >= b && out >= c,
        out == a || out == b || out == c,
{
    let ab = if a >= b {
        a
    } else {
        b
    };
    if ab >= c {
        ab
    } else {
        c
    }
}

/// The smallest of three values: the tightest upper bound wins.
fn min3(a: i32, b: i32, c: i32) -> (out: i32)
    ensures
        out <= a && out <= b && out <= c,
        out == a || out == b || out == c,
{
    let ab = if a <= b {
        a
    } else {
        b
    };
    if ab <= c {
        ab
    } else {
        c
    }
}

/// Allocates a `width * height` buffer of `fill` pixels.
fn alloc_buffer(width: u16, height: u16, fill: u32) -> (out: Vec<u32>)
    ensures
        out@ == Canvas::spec_uniform(width as int, height as int, fill),
{
    proof {
        assert((width as int) * (height as int) <= 0xFFFF * 0xFFFF) by (nonlinear_arith)
            requires
                width <= 0xFFFF,
                height <= 0xFFFF,
        ;
    }
    let n: usize = (width as usize) * (height as usize);
    let mut out: Vec<u32> = Vec::new();
    while out.len() < n
        invariant
            out@.len() <= n,
            n == (width as int) * (height as int),
            forall|j: int| 0 <= j < out@.len() ==> out@[j] == fill,
        decreases n - out@.len(),
    {
        out.push(fill);
    }
    proof {
        assert(out@ =~= Canvas::spec_uniform(width as int, height as int, fill));
    }
    out
}

} // verus!

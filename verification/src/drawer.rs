//! The backend itself: it owns the off-screen canvas, the registered font
//! resources and the uploaded image resources, translates native events, and
//! interprets one frame's command sequence into native operations while
//! keeping the pixel model of the canvas.

use vstd::prelude::*;

use crate::canvas::Canvas;
use crate::color::{convert_color, spec_colorref, Color};
use crate::command::{clone_points, DrawCommand};
use crate::geom::ClipRect;
use crate::image::{spec_native_bits, to_native_bits};
use crate::input::{
    event_consumed,
    event_responses,
    spec_size_h,
    spec_size_w,
    translate_event,
    Response,
    MSG_SIZE,
};
use crate::lower::{clip_fold, clip_step, lemma_fold_snoc, lower_cmds, pixel_step, pixels_fold};
use crate::ops::{ops_view, GdiOp, OpV};
use crate::wide::encode_wide;

verus! {

/// One registered logical font: the configuration it was created from, the
/// line height the native metrics reported at creation (cached, never
/// re-queried), and whether its native resources have been released.
pub struct FontSlot {
    /// The face name the font was created from.
    pub family: String,
    /// The requested size in device units.
    pub size: u16,
    /// The line height the native metrics reported at creation.
    pub line_height: i32,
    /// Whether the native font and its measurement context were released.
    pub released: bool,
}

/// One uploaded image resource: its dimensions and its pixel bytes, already
/// converted to the native bitmap layout.
pub struct ImageSlot {
    /// Width in pixels.
    pub width: u16,
    /// Height in pixels.
    pub height: u16,
    /// The converted pixel bytes, four per pixel.
    pub bits: Vec<u8>,
}

/// The rendering and input backend. Font and image identifiers are indices
/// into the two resource lists, so they stay stable for the backend's
/// lifetime; fonts are only ever released at teardown, all at once.
pub struct Drawer {
    /// The off-screen canvas.
    pub canvas: Canvas,
    /// The registered fonts, indexed by their identifiers.
    pub fonts: Vec<FontSlot>,
    /// The uploaded images, indexed by their identifiers.
    pub images: Vec<ImageSlot>,
    /// Whether the backend was torn down.
    pub released: bool,
}

impl Drawer {
    /// The structural invariant: the canvas buffer matches its dimensions,
    /// and font resources are alive exactly while the backend is.
    pub open spec fn wf(self) -> bool {
        &&& self.canvas.wf()
        &&& forall|i: int|
            0 <= i < self.fonts@.len() ==> (#[trigger] self.fonts@[i]).released == self.released
    }

    /// Creates a backend with a fresh zeroed canvas of the given dimensions
    /// and no resources.
    pub fn new(width: u16, height: u16) -> (out: Drawer)
        ensures
            out.wf(),
            !out.released,
            out.canvas.width == width,
            out.canvas.height == height,
            out.canvas.retired == 0,
            out.canvas.pixels@ == Canvas::spec_uniform(width as int, height as int, 0u32),
            out.fonts@.len() == 0,
            out.images@.len() == 0,
    {
        Drawer {
            canvas: Canvas::new(width, height, 0),
            fonts: Vec::new(),
            images: Vec::new(),
            released: false,
        }
    }

    /// Registers a logical font and returns its identifier: the next free
    /// index, so identifiers are distinct and stable. The line height is the
    /// metric the native layer reported for the freshly created font.
    pub fn new_font(&mut self, family: String, size: u16, line_height: i32) -> (id: usize)
        requires
            old(self).wf(),
            !old(self).released,
        ensures
            final(self).wf(),
            !final(self).released,
            id == old(self).fonts@.len(),
            final(self).fonts@ == old(self).fonts@.push(
                FontSlot { family, size, line_height, released: false },
            ),
            final(self).canvas == old(self).canvas,
            final(self).images == old(self).images,
    {
        self.fonts.push(FontSlot { family, size, line_height, released: false });
        self.fonts.len() - 1
    }

    /// Looks a font up by identifier; `None` exactly when no font with that
    /// identifier was registered.
    pub fn font_by_id(&self, id: usize) -> (out: Option<&FontSlot>)
        ensures
            (out is Some) <==> id < self.fonts@.len(),
            id < self.fonts@.len() ==> out is Some && *out->0 == self.fonts@[id as int],
    {
        if id < self.fonts.len() {
            Some(&self.fonts[id])
        } else {
            None
        }
    }

    /// Uploads an already-decoded RGBA pixel buffer as an image resource,
    /// converting it to the native bitmap layout, and returns the new
    /// resource's identifier. Produces no resource exactly when the buffer
    /// does not hold four bytes per pixel.
    pub fn add_image(&mut self, width: u16, height: u16, rgba: &Vec<u8>) -> (out: Option<usize>)
        requires
            old(self).wf(),
            !old(self).released,
        ensures
            final(self).wf(),
            (out is Some) <==> rgba@.len() == 4 * (width as int) * (height as int),
            out is Some ==> {
                &&& out->0 == old(self).images@.len()
                &&& final(self).images@.len() == old(self).images@.len() + 1
                &&& forall|j: int|
                    0 <= j < old(self).images@.len() ==> final(self).images@[j] == old(
                        self,
                    ).images@[j]
                &&& final(self).images@.last().width == width
                &&& final(self).images@.last().height == height
                &&& final(self).images@.last().bits@ == spec_native_bits(
                    width as int,
                    height as int,
                    rgba@,
                )
            },
            out is None ==> final(self).images == old(self).images,
            final(self).canvas == old(self).canvas,
            final(self).fonts == old(self).fonts,
            final(self).released == old(self).released,
    {
        proof {
            assert((4 * (width as int)) * (height as int) <= 0x3FFFC * 0xFFFF)
                by (nonlinear_arith)
                requires
                    width <= 0xFFFF,
                    height <= 0xFFFF,
            ;
        }
        let expected: u64 = 4u64 * (width as u64) * (height as u64);
        if (rgba.len() as u64) != expected {
            return None;
        }
        let bits = to_native_bits(width, height, rgba);
        self.images.push(ImageSlot { width, height, bits });
        Some(self.images.len() - 1)
    }

    /// Handles one native event: a resize reallocates the canvas when the
    /// reported dimensions differ from the current ones (and is still
    /// reported as not consumed); every other event leaves the canvas alone
    /// and is translated into the GUI library's input calls.
    pub fn handle_event(&mut self, msg: u32, wparam: u64, lparam: u64, ctrl: bool) -> (out: (
        bool,
        Vec<Response>,
    ))
        requires
            old(self).wf(),
            !old(self).released,
            old(self).canvas.retired < u64::MAX,
        ensures
            final(self).wf(),
            out.0 == event_consumed(msg, wparam, lparam, ctrl),
            out.1@ == event_responses(msg, wparam, lparam, ctrl),
            final(self).fonts == old(self).fonts,
            final(self).images == old(self).images,
            final(self).released == old(self).released,
            msg != MSG_SIZE ==> final(self).canvas == old(self).canvas,
            msg == MSG_SIZE ==> {
                &&& final(self).canvas.width == spec_size_w(lparam)
                &&& final(self).canvas.height == spec_size_h(lparam)
                &&& (old(self).canvas.width == spec_size_w(lparam) && old(self).canvas.height
                    == spec_size_h(lparam)) ==> final(self).canvas == old(self).canvas
                &&& (old(self).canvas.width != spec_size_w(lparam) || old(self).canvas.height
                    != spec_size_h(lparam)) ==> {
                    &&& final(self).canvas.retired == old(self).canvas.retired + 1
                    &&& final(self).canvas.pixels@ == Canvas::spec_uniform(
                        spec_size_w(lparam) as int,
                        spec_size_h(lparam) as int,
                        0u32,
                    )
                }
            },
    {
        if msg == MSG_SIZE {
            let new_w: u64 = lparam % 0x10000;
            let new_h: u64 = (lparam / 0x10000) % 0x10000;
            self.canvas.resize(new_w as u16, new_h as u16);
        }
        translate_event(msg, wparam, lparam, ctrl)
    }

    /// Renders one frame: clears the canvas to the clear color, interprets
    /// every command in order under the scissor regime, emits the native
    /// operation for each, appends the presentation copy, and discards the
    /// consumed command sequence so the next frame starts empty. The pixel
    /// model reflects the frame clear and every sharp opaque rectangle fill
    /// exactly.
    pub fn render(&mut self, cmds: &mut Vec<DrawCommand>, clear: Color) -> (ops: Vec<GdiOp>)
        requires
            old(self).wf(),
            !old(self).released,
        ensures
            final(self).wf(),
            final(cmds)@.len() == 0,
            final(self).fonts == old(self).fonts,
            final(self).images == old(self).images,
            final(self).released == old(self).released,
            final(self).canvas.width == old(self).canvas.width,
            final(self).canvas.height == old(self).canvas.height,
            final(self).canvas.retired == old(self).canvas.retired,
            ops_view(ops@) == lower_cmds(
                old(cmds)@,
                ClipRect::spec_full(old(self).canvas.width, old(self).canvas.height),
            ).push(
                OpV::Present {
                    width: old(self).canvas.width,
                    height: old(self).canvas.height,
                },
            ),
            final(self).canvas.pixels@ == pixels_fold(
                old(cmds)@,
                ClipRect::spec_full(old(self).canvas.width, old(self).canvas.height),
                Canvas::spec_uniform(
                    old(self).canvas.width as int,
                    old(self).canvas.height as int,
                    spec_colorref(clear),
                ),
                old(self).canvas.width as int,
            ),
    {
        let w = self.canvas.width;
        let h = self.canvas.height;
        let clear_ref = convert_color(clear);
        self.canvas.clear(clear_ref);
        let mut clip = ClipRect::full(w, h);
        let mut ops: Vec<GdiOp> = Vec::new();
        let ghost full = ClipRect::spec_full(w, h);
        let ghost base = Canvas::spec_uniform(w as int, h as int, spec_colorref(clear));
        let n = cmds.len();
        let mut i: usize = 0;
        proof {
            assert(cmds@.take(0) =~= Seq::<DrawCommand>::empty());
            assert(ops_view(ops@) =~= lower_cmds(cmds@.take(0), full));
        }
        while i < n
            invariant
                i <= n,
                n == cmds@.len(),
                cmds@ == old(cmds)@,
                self.wf(),
                !self.released,
                self.fonts == old(self).fonts,
                self.images == old(self).images,
                self.released == old(self).released,
                self.canvas.width == w,
                self.canvas.height == h,
                self.canvas.retired == old(self).canvas.retired,
                w == old(self).canvas.width,
                h == old(self).canvas.height,
                full == ClipRect::spec_full(w, h),
                base == Canvas::spec_uniform(w as int, h as int, spec_colorref(clear)),
                clip == clip_fold(cmds@.take(i as int), full),
                ops_view(ops@) == lower_cmds(cmds@.take(i as int), full),
                self.canvas.pixels@ == pixels_fold(cmds@.take(i as int), full, base, w as int),
            decreases n - i,
        {
            let ghost prefix = cmds@.take(i as int);
            let ghost cur_clip = clip;
            let ghost prev_pix = self.canvas.pixels@;
            let ghost prev_ops = ops_view(ops@);
            let cmd = &cmds[i];
            match cmd {
                DrawCommand::Scissor { x, y, w: sw, h: sh } => {
                    let region = ClipRect::of_scissor(*x, *y, *sw, *sh);
                    clip = region;
                    ops.push(GdiOp::SetClip { clip: region });
                },
                DrawCommand::Line { x0, y0, x1, y1, thickness, color } => {
                    ops.push(
                        GdiOp::Line {
                            x0: *x0,
                            y0: *y0,
                            x1: *x1,
                            y1: *y1,
                            thickness: *thickness,
                            color: convert_color(*color),
                            clip,
                        },
                    );
                },
                DrawCommand::RectStroke { x, y, w: rw, h: rh, rounding, thickness, color } => {
                    ops.push(
                        GdiOp::StrokeRect {
                            left: *x as i32,
                            top: *y as i32,
                            right: (*x as i32) + (*rw as i32),
                            bottom: (*y as i32) + (*rh as i32),
                            rounding: *rounding,
                            thickness: *thickness,
                            color: convert_color(*color),
                            clip,
                        },
                    );
                },
                DrawCommand::RectFill { x, y, w: rw, h: rh, rounding, color } => {
                    let color_ref = convert_color(*color);
                    ops.push(
                        GdiOp::FillRect {
                            left: *x as i32,
                            top: *y as i32,
                            right: (*x as i32) + (*rw as i32),
                            bottom: (*y as i32) + (*rh as i32),
                            rounding: *rounding,
                            color: color_ref,
                            clip,
                        },
                    );
                    if *rounding == 0 {
                        let (fx, fy, fw, fh) = (*x, *y, *rw, *rh);
                        self.canvas.fill_rect(fx, fy, fw, fh, color_ref, clip);
                    }
                },
                DrawCommand::CircleStroke { x, y, w: rw, h: rh, thickness, color } => {
                    ops.push(
                        GdiOp::StrokeEllipse {
                            left: *x as i32,
                            top: *y as i32,
                            right: (*x as i32) + (*rw as i32),
                            bottom: (*y as i32) + (*rh as i32),
                            thickness: *thickness,
                            color: convert_color(*color),
                            clip,
                        },
                    );
                },
                DrawCommand::CircleFill { x, y, w: rw, h: rh, color } => {
                    ops.push(
                        GdiOp::FillEllipse {
                            left: *x as i32,
                            top: *y as i32,
                            right: (*x as i32) + (*rw as i32),
                            bottom: (*y as i32) + (*rh as i32),
                            color: convert_color(*color),
                            clip,
                        },
                    );
                },
                DrawCommand::TriangleStroke { a, b, c, thickness, color } => {
                    let mut points = Vec::new();
                    points.push(*a);
                    points.push(*b);
                    points.push(*c);
                    points.push(*a);
                    proof {
                        assert(points@ =~= seq![*a, *b, *c, *a]);
                    }
                    ops.push(
                        GdiOp::Polyline {
                            points,
                            thickness: *thickness,
                            color: convert_color(*color),
                            clip,
                        },
                    );
                },
                DrawCommand::TriangleFill { a, b, c, color } => {
                    let mut points = Vec::new();
                    points.push(*a);
                    points.push(*b);
                    points.push(*c);
                    proof {
                        assert(points@ =~= seq![*a, *b, *c]);
                    }
                    ops.push(
                        GdiOp::FillPolygon { points, color: convert_color(*color), clip },
                    );
                },
                DrawCommand::PolygonStroke { points, thickness, color } => {
                    if points.len() > 0 {
                        let mut closed = clone_points(points);
                        let first = points[0];
                        closed.push(first);
                        ops.push(
                            GdiOp::Polyline {
                                points: closed,
                                thickness: *thickness,
                                color: convert_color(*color),
                                clip,
                            },
                        );
                    }
                },
                DrawCommand::PolygonFill { points, color } => {
                    if points.len() > 0 {
                        let copy = clone_points(points);
                        ops.push(
                            GdiOp::FillPolygon {
                                points: copy,
                                color: convert_color(*color),
                                clip,
                            },
                        );
                    }
                },
                DrawCommand::Polyline { points, thickness, color } => {
                    if points.len() > 0 {
                        let copy = clone_points(points);
                        ops.push(
                            GdiOp::Polyline {
                                points: copy,
                                thickness: *thickness,
                                color: convert_color(*color),
                                clip,
                            },
                        );
                    }
                },
                DrawCommand::ArcStroke { cx, cy, radius, a0_bits, a1_bits, thickness, color } => {
                    ops.push(
                        GdiOp::StrokeArc {
                            cx: *cx,
                            cy: *cy,
                            radius: *radius,
                            a0_bits: *a0_bits,
                            a1_bits: *a1_bits,
                            thickness: *thickness,
                            color: convert_color(*color),
                            clip,
                        },
                    );
                },
                DrawCommand::ArcFill { cx, cy, radius, a0_bits, a1_bits, color } => {
                    ops.push(
                        GdiOp::FillArc {
                            cx: *cx,
                            cy: *cy,
                            radius: *radius,
                            a0_bits: *a0_bits,
                            a1_bits: *a1_bits,
                            color: convert_color(*color),
                            clip,
                        },
                    );
                },
                DrawCommand::Curve { p0, p1, p2, p3, thickness, color } => {
                    ops.push(
                        GdiOp::Bezier {
                            p0: *p0,
                            p1: *p1,
                            p2: *p2,
                            p3: *p3,
                            thickness: *thickness,
                            color: convert_color(*color),
                            clip,
                        },
                    );
                },
                DrawCommand::Text { x, y, w: _tw, h: _th, font, foreground, background, text } => {
                    let wide = encode_wide(text.as_str());
                    ops.push(
                        GdiOp::Text {
                            x: *x,
                            y: *y,
                            wide,
                            foreground: convert_color(*foreground),
                            background: convert_color(*background),
                            font: *font,
                            clip,
                        },
                    );
                },
                DrawCommand::Image { x, y, w: iw, h: ih, handle, color: _ } => {
                    ops.push(
                        GdiOp::Image { x: *x, y: *y, w: *iw, h: *ih, handle: *handle, clip },
                    );
                },
                DrawCommand::Unknown => {},
            }
            proof {
                let c = cmds@[i as int];
                assert(cmds@.take(i + 1) =~= prefix.push(c));
                lemma_fold_snoc(prefix, full, base, w as int, c);
                assert(clip == clip_step(c, cur_clip));
                assert(ops_view(ops@) =~= prev_ops + crate::lower::ops_of_cmd(c, cur_clip));
                assert(self.canvas.pixels@ == pixel_step(c, cur_clip, prev_pix, w as int));
            }
            i = i + 1;
        }
        proof {
            assert(cmds@.take(n as int) =~= cmds@);
        }
        let ghost before_present = ops_view(ops@);
        ops.push(GdiOp::Present { width: w, height: h });
        cmds.clear();
        proof {
            assert(ops_view(ops@) =~= before_present.push(OpV::Present { width: w, height: h }));
        }
        ops
    }

    /// Tears the backend down: the canvas buffer is retired and every
    /// registered font's native resources are released, each exactly once
    /// (they were alive until now by the invariant).
    pub fn release(&mut self)
        requires
            old(self).wf(),
            !old(self).released,
            old(self).canvas.retired < u64::MAX,
        ensures
            final(self).wf(),
            final(self).released,
            final(self).canvas.width == old(self).canvas.width,
            final(self).canvas.height == old(self).canvas.height,
            final(self).canvas.pixels@ == old(self).canvas.pixels@,
            final(self).canvas.retired == old(self).canvas.retired + 1,
            final(self).images == old(self).images,
            final(self).fonts@.len() == old(self).fonts@.len(),
            forall|i: int|
                0 <= i < old(self).fonts@.len() ==> final(self).fonts@[i] == (FontSlot {
                    released: true,
                    ..old(self).fonts@[i]
                }),
    {
        let count = self.fonts.len();
        let mut updated: Vec<FontSlot> = Vec::new();
        let mut i: usize = 0;
        while i < count
            invariant
                i <= count,
                count == self.fonts@.len(),
                self.fonts@ == old(self).fonts@,
                updated@.len() == i,
                forall|j: int|
                    0 <= j < i ==> updated@[j] == (FontSlot {
                        released: true,
                        ..old(self).fonts@[j]
                    }),
            decreases count - i,
        {
            let slot = &self.fonts[i];
            updated.push(
                FontSlot {
                    family: slot.family.clone(),
                    size: slot.size,
                    line_height: slot.line_height,
                    released: true,
                },
            );
            i = i + 1;
        }
        self.fonts = updated;
        self.canvas.retired = self.canvas.retired + 1;
        self.released = true;
    }
}

/// The width-query callback's decision: a missing font handle or missing
/// text measures zero; a failed native measurement reports the sentinel -1;
/// otherwise the measured extent is passed through.
pub open spec fn spec_text_width(font_known: bool, text_known: bool, measured: Option<i32>) -> i32 {
    if !font_known || !text_known {
        0
    } else {
        match measured {
            Some(cx) => cx,
            None => -1i32,
        }
    }
}

/// Decides the width-query callback's result from whether the font and the
/// text were present and what the native measurement returned.
pub fn text_width_outcome(font_known: bool, text_known: bool, measured: Option<i32>) -> (out: i32)
    ensures
        out == spec_text_width(font_known, text_known, measured),
{
    if !font_known || !text_known {
        0
    } else {
        match measured {
            Some(cx) => cx,
            None => -1i32,
        }
    }
}

} // verus!

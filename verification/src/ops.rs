//! The concrete native drawing operations the interpreter emits, in the
//! order they must reach the drawing surface. Every shape-drawing operation
//! records the clip region in force when it was emitted; colors are already
//! packed into native reference values. `GdiOp` is the executable form and
//! `OpV` its mathematical view.
//!
//! An operation carries plain values only, never a native handle: any
//! transient native resource a stroke or fill needs (a pen for a thickness
//! other than one, a brush for a fill) is created and released within the
//! execution of that single operation, so none can outlive its draw call.

use vstd::prelude::*;

use crate::command::Point;
use crate::geom::ClipRect;

verus! {

/// One native drawing operation, ready for the drawing surface.
#[derive(Clone, Debug, PartialEq)]
pub enum GdiOp {
    /// Clears the old clip region and installs `clip`.
    SetClip { clip: ClipRect },
    /// A pen stroke between two points.
    Line { x0: i16, y0: i16, x1: i16, y1: i16, thickness: u16, color: u32, clip: ClipRect },
    /// A rectangle outline over the half-open corner box.
    StrokeRect {
        left: i32,
        top: i32,
        right: i32,
        bottom: i32,
        rounding: u16,
        thickness: u16,
        color: u32,
        clip: ClipRect,
    },
    /// An opaque rectangle fill over the half-open corner box.
    FillRect {
        left: i32,
        top: i32,
        right: i32,
        bottom: i32,
        rounding: u16,
        color: u32,
        clip: ClipRect,
    },
    /// An ellipse outline inscribed in the corner box.
    StrokeEllipse {
        left: i32,
        top: i32,
        right: i32,
        bottom: i32,
        thickness: u16,
        color: u32,
        clip: ClipRect,
    },
    /// A filled ellipse inscribed in the corner box.
    FillEllipse { left: i32, top: i32, right: i32, bottom: i32, color: u32, clip: ClipRect },
    /// An arc outline; the angles stay in the producer's encoding.
    StrokeArc {
        cx: i16,
        cy: i16,
        radius: u16,
        a0_bits: u32,
        a1_bits: u32,
        thickness: u16,
        color: u32,
        clip: ClipRect,
    },
    /// A filled arc.
    FillArc {
        cx: i16,
        cy: i16,
        radius: u16,
        a0_bits: u32,
        a1_bits: u32,
        color: u32,
        clip: ClipRect,
    },
    /// A filled polygon through the points in order.
    FillPolygon { points: Vec<Point>, color: u32, clip: ClipRect },
    /// A pen stroke through the points in order.
    Polyline { points: Vec<Point>, thickness: u16, color: u32, clip: ClipRect },
    /// A cubic Bezier stroke.
    Bezier {
        p0: Point,
        p1: Point,
        p2: Point,
        p3: Point,
        thickness: u16,
        color: u32,
        clip: ClipRect,
    },
    /// A text run, already transcoded to wide units: background box in
    /// `background`, glyphs in `foreground`, shaped with the registered font
    /// named by `font`.
    Text { x: i16, y: i16, wide: Vec<u16>, foreground: u32, background: u32, font: u32, clip: ClipRect },
    /// Blits the image resource named by `handle` into the rectangle at
    /// (x, y) of size (w, h).
    Image { x: i16, y: i16, w: u16, h: u16, handle: u32, clip: ClipRect },
    /// Presents the frame: copies the whole off-screen canvas to the
    /// visible surface.
    Present { width: u16, height: u16 },
}

/// The mathematical view of a native operation.
pub enum OpV {
    /// See [`GdiOp::SetClip`].
    SetClip { clip: ClipRect },
    /// See [`GdiOp::Line`].
    Line { x0: i16, y0: i16, x1: i16, y1: i16, thickness: u16, color: u32, clip: ClipRect },
    /// See [`GdiOp::StrokeRect`].
    StrokeRect {
        left: i32,
        top: i32,
        right: i32,
        bottom: i32,
        rounding: u16,
        thickness: u16,
        color: u32,
        clip: ClipRect,
    },
    /// See [`GdiOp::FillRect`].
    FillRect {
        left: i32,
        top: i32,
        right: i32,
        bottom: i32,
        rounding: u16,
        color: u32,
        clip: ClipRect,
    },
    /// See [`GdiOp::StrokeEllipse`].
    StrokeEllipse {
        left: i32,
        top: i32,
        right: i32,
        bottom: i32,
        thickness: u16,
        color: u32,
        clip: ClipRect,
    },
    /// See [`GdiOp::FillEllipse`].
    FillEllipse { left: i32, top: i32, right: i32, bottom: i32, color: u32, clip: ClipRect },
    /// See [`GdiOp::StrokeArc`].
    StrokeArc {
        cx: i16,
        cy: i16,
        radius: u16,
        a0_bits: u32,
        a1_bits: u32,
        thickness: u16,
        color: u32,
        clip: ClipRect,
    },
    /// See [`GdiOp::FillArc`].
    FillArc {
        cx: i16,
        cy: i16,
        radius: u16,
        a0_bits: u32,
        a1_bits: u32,
        color: u32,
        clip: ClipRect,
    },
    /// See [`GdiOp::FillPolygon`].
    FillPolygon { points: Seq<Point>, color: u32, clip: ClipRect },
    /// See [`GdiOp::Polyline`].
    Polyline { points: Seq<Point>, thickness: u16, color: u32, clip: ClipRect },
    /// See [`GdiOp::Bezier`].
    Bezier {
        p0: Point,
        p1: Point,
        p2: Point,
        p3: Point,
        thickness: u16,
        color: u32,
        clip: ClipRect,
    },
    /// See [`GdiOp::Text`].
    Text { x: i16, y: i16, wide: Seq<u16>, foreground: u32, background: u32, font: u32, clip: ClipRect },
    /// See [`GdiOp::Image`].
    Image { x: i16, y: i16, w: u16, h: u16, handle: u32, clip: ClipRect },
    /// See [`GdiOp::Present`].
    Present { width: u16, height: u16 },
}

impl View for GdiOp {
    type V = OpV;

    open spec fn view(&self) -> OpV {
        match *self {
            GdiOp::SetClip { clip } => OpV::SetClip { clip },
            GdiOp::Line { x0, y0, x1, y1, thickness, color, clip } => OpV::Line {
                x0,
                y0,
                x1,
                y1,
                thickness,
                color,
                clip,
            },
            GdiOp::StrokeRect {
                left,
                top,
                right,
                bottom,
                rounding,
                thickness,
                color,
                clip,
            } => OpV::StrokeRect { left, top, right, bottom, rounding, thickness, color, clip },
            GdiOp::FillRect { left, top, right, bottom, rounding, color, clip } => OpV::FillRect {
                left,
                top,
                right,
                bottom,
                rounding,
                color,
                clip,
            },
            GdiOp::StrokeEllipse {
                left,
                top,
                right,
                bottom,
                thickness,
                color,
                clip,
            } => OpV::StrokeEllipse { left, top, right, bottom, thickness, color, clip },
            GdiOp::FillEllipse { left, top, right, bottom, color, clip } => OpV::FillEllipse {
                left,
                top,
                right,
                bottom,
                color,
                clip,
            },
            GdiOp::StrokeArc {
                cx,
                cy,
                radius,
                a0_bits,
                a1_bits,
                thickness,
                color,
                clip,
            } => OpV::StrokeArc { cx, cy, radius, a0_bits, a1_bits, thickness, color, clip },
            GdiOp::FillArc { cx, cy, radius, a0_bits, a1_bits, color, clip } => OpV::FillArc {
                cx,
                cy,
                radius,
                a0_bits,
                a1_bits,
                color,
                clip,
            },
            GdiOp::FillPolygon { ref points, color, clip } => OpV::FillPolygon {
                points: points@,
                color,
                clip,
            },
            GdiOp::Polyline { ref points, thickness, color, clip } => OpV::Polyline {
                points: points@,
                thickness,
                color,
                clip,
            },
            GdiOp::Bezier { p0, p1, p2, p3, thickness, color, clip } => OpV::Bezier {
                p0,
                p1,
                p2,
                p3,
                thickness,
                color,
                clip,
            },
            GdiOp::Text { x, y, ref wide, foreground, background, font, clip } => OpV::Text {
                x,
                y,
                wide: wide@,
                foreground,
                background,
                font,
                clip,
            },
            GdiOp::Image { x, y, w, h, handle, clip } => OpV::Image { x, y, w, h, handle, clip },
            GdiOp::Present { width, height } => OpV::Present { width, height },
        }
    }
}

/// The views of a whole operation list, in order.
pub open spec fn ops_view(ops: Seq<GdiOp>) -> Seq<OpV> {
    ops.map_values(|op: GdiOp| op@)
}

/// The clip region an operation was emitted under; a `SetClip` carries the
/// region it installs, and `Present` the full canvas it copies.
pub open spec fn op_clip(op: OpV) -> ClipRect {
    match op {
        OpV::SetClip { clip } => clip,
        OpV::Line { clip, .. } => clip,
        OpV::StrokeRect { clip, .. } => clip,
        OpV::FillRect { clip, .. } => clip,
        OpV::StrokeEllipse { clip, .. } => clip,
        OpV::FillEllipse { clip, .. } => clip,
        OpV::StrokeArc { clip, .. } => clip,
        OpV::FillArc { clip, .. } => clip,
        OpV::FillPolygon { clip, .. } => clip,
        OpV::Polyline { clip, .. } => clip,
        OpV::Bezier { clip, .. } => clip,
        OpV::Text { clip, .. } => clip,
        OpV::Image { clip, .. } => clip,
        OpV::Present { width, height } => ClipRect::spec_full(width, height),
    }
}

} // verus!

//! The abstract draw commands the GUI library produces, one ordered sequence
//! per frame. Coordinates are signed 16-bit pixel positions and sizes are
//! unsigned 16-bit extents, as the producer emits them; arc angles travel
//! through untouched in the producer's 32-bit encoding.

use vstd::prelude::*;

use crate::color::Color;

verus! {

/// A point of a polygon, polyline or curve.
#[derive(Clone, Copy, Debug, PartialEq, Eq, Structural)]
pub struct Point {
    pub x: i16,
    pub y: i16,
}

/// One abstract draw command. `Unknown` stands for any kind this backend
/// does not recognize; such commands are ignored, never fatal, so a newer
/// producer still renders everything this backend understands.
#[derive(Clone, Debug, PartialEq)]
pub enum DrawCommand {
    /// Replaces the active clip region with the given rectangle (padded by
    /// one pixel on right and bottom when applied).
    Scissor { x: i16, y: i16, w: u16, h: u16 },
    /// A straight line between two points.
    Line { x0: i16, y0: i16, x1: i16, y1: i16, thickness: u16, color: Color },
    /// A rectangle outline; `rounding` of zero draws sharp corners.
    RectStroke { x: i16, y: i16, w: u16, h: u16, rounding: u16, thickness: u16, color: Color },
    /// A filled rectangle; `rounding` of zero fills the exact axis-aligned
    /// pixel region.
    RectFill { x: i16, y: i16, w: u16, h: u16, rounding: u16, color: Color },
    /// An ellipse outline inscribed in the rectangle at (x, y) of size
    /// (w, h).
    CircleStroke { x: i16, y: i16, w: u16, h: u16, thickness: u16, color: Color },
    /// A filled ellipse inscribed in the rectangle at (x, y) of size (w, h).
    CircleFill { x: i16, y: i16, w: u16, h: u16, color: Color },
    /// A triangle outline.
    TriangleStroke { a: Point, b: Point, c: Point, thickness: u16, color: Color },
    /// A filled triangle.
    TriangleFill { a: Point, b: Point, c: Point, color: Color },
    /// A closed polygon outline through the points in order.
    PolygonStroke { points: Vec<Point>, thickness: u16, color: Color },
    /// A filled polygon through the points in order.
    PolygonFill { points: Vec<Point>, color: Color },
    /// An open polyline through the points in order.
    Polyline { points: Vec<Point>, thickness: u16, color: Color },
    /// An arc outline around (cx, cy); the two angles are forwarded in the
    /// producer's encoding without interpretation.
    ArcStroke {
        cx: i16,
        cy: i16,
        radius: u16,
        a0_bits: u32,
        a1_bits: u32,
        thickness: u16,
        color: Color,
    },
    /// A filled arc around (cx, cy).
    ArcFill { cx: i16, cy: i16, radius: u16, a0_bits: u32, a1_bits: u32, color: Color },
    /// A cubic Bezier curve: start, two control points, end.
    Curve { p0: Point, p1: Point, p2: Point, p3: Point, thickness: u16, color: Color },
    /// A text run: an opaque background box, then foreground glyphs, using
    /// the registered font named by `font`.
    Text {
        x: i16,
        y: i16,
        w: u16,
        h: u16,
        font: u32,
        foreground: Color,
        background: Color,
        text: String,
    },
    /// Blits the uploaded image resource named by `handle` into the
    /// rectangle at (x, y) of size (w, h), scaling as needed.
    Image { x: i16, y: i16, w: u16, h: u16, handle: u32, color: Color },
    /// A command kind this backend does not know: rendered as a no-op.
    Unknown,
}

/// Copies a point list, element for element.
pub fn clone_points(points: &Vec<Point>) -> (out: Vec<Point>)
    ensures
        out@ == points@,
{
    let out = points.clone();
    proof {
        assert forall|i: int| 0 <= i < points@.len() implies out@[i] == points@[i] by {
            assert(cloned::<Point>(points@[i], out@[i]));
        }
        assert(out@ =~= points@);
    }
    out
}

} // verus!

//! The rectangular clip region that a scissor command installs, and the rule
//! that turns a scissor rectangle into it.

use vstd::prelude::*;

verus! {

/// A half-open clip rectangle in canvas coordinates: a pixel (px, py) is kept
/// when `left <= px < right` and `top <= py < bottom`, matching how the native
/// clip region treats its right and bottom edges.
#[derive(Clone, Copy, Debug, PartialEq, Eq, Structural)]
pub struct ClipRect {
    pub left: i32,
    pub top: i32,
    pub right: i32,
    pub bottom: i32,
}

impl ClipRect {
    /// Whether the pixel column `px`, row `py` lies inside the region.
    pub open spec fn contains(self, px: int, py: int) -> bool {
        self.left <= px < self.right && self.top <= py < self.bottom
    }

    /// The region that lets the whole canvas through: "no clip".
    pub open spec fn spec_full(width: u16, height: u16) -> ClipRect {
        ClipRect { left: 0, top: 0, right: width as i32, bottom: height as i32 }
    }

    /// Builds the full-canvas region.
    pub fn full(width: u16, height: u16) -> (out: ClipRect)
        ensures
            out == ClipRect::spec_full(width, height),
    {
        ClipRect { left: 0, top: 0, right: width as i32, bottom: height as i32 }
    }

    /// The region a scissor command with origin (x, y) and size (w, h)
    /// installs: one pixel is added on the right and bottom edges to absorb
    /// native rounding, so no 1-pixel seam opens between adjacent scissors.
    pub open spec fn spec_of_scissor(x: i16, y: i16, w: u16, h: u16) -> ClipRect {
        ClipRect {
            left: x as i32,
            top: y as i32,
            right: ((x as int) + (w as int) + 1) as i32,
            bottom: ((y as int) + (h as int) + 1) as i32,
        }
    }

    /// Builds the clip region of a scissor command, padded by one pixel on
    /// the right and bottom.
    pub fn of_scissor(x: i16, y: i16, w: u16, h: u16) -> (out: ClipRect)
        ensures
            out == ClipRect::spec_of_scissor(x, y, w, h),
    {
        ClipRect {
            left: x as i32,
            top: y as i32,
            right: x as i32 + w as i32 + 1,
            bottom: y as i32 + h as i32 + 1,
        }
    }
}

} // verus!

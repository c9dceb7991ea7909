//! Colors as the GUI library hands them out (8-bit RGBA channels) and their
//! conversion to the native 0x00BBGGRR reference value used by every draw call.

use vstd::prelude::*;

verus! {

/// A color as produced by the GUI library: four 8-bit channels.
#[derive(Clone, Copy, Debug, PartialEq, Eq, Structural)]
pub struct Color {
    pub r: u8,
    pub g: u8,
    pub b: u8,
    pub a: u8,
}

/// The native reference value of a color: red in the low byte, then green,
/// then blue; the alpha channel is not representable and is dropped.
pub open spec fn spec_colorref(c: Color) -> u32 {
    ((c.r as int) + 0x100 * (c.g as int) + 0x1_0000 * (c.b as int)) as u32
}

/// Packs a color into the native reference value.
pub fn convert_color(c: Color) -> (out: u32)
    ensures
        out == spec_colorref(c),
{
    let out: u32 = (c.r as u32) | ((c.g as u32) << 8) | ((c.b as u32) << 16);
    proof {
        let (r, g, b) = (c.r, c.g, c.b);
        assert((r as u32) | ((g as u32) << 8) | ((b as u32) << 16) == (r as u32) + 0x100 * (
        g as u32) + 0x1_0000 * (b as u32)) by (bit_vector);
    }
    out
}

} // verus!

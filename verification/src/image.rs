//! Converting an already-decoded RGBA pixel buffer into the native bitmap
//! layout: rows are stored bottom-up and the red and blue channels trade
//! places, so destination row 0 holds the source's last row with each pixel
//! as B, G, R, A. This is the one conversion this backend uses; the row
//! flip and the channel swap always happen together.

use vstd::arithmetic::div_mod::lemma_fundamental_div_mod_converse;
use vstd::prelude::*;

use crate::canvas::lemma_row_index_in_range;

verus! {

/// The native channel holding what source channel `ch` holds: red and blue
/// swap, green and alpha stay.
pub open spec fn spec_swapped_channel(ch: int) -> int {
    if ch == 0 {
        2
    } else if ch == 2 {
        0
    } else {
        ch
    }
}

/// The native bitmap bytes for a `w` by `h` RGBA buffer: vertically
/// flipped, with red and blue swapped in every pixel.
pub open spec fn spec_native_bits(w: int, h: int, rgba: Seq<u8>) -> Seq<u8> {
    Seq::new(
        (4 * w * h) as nat,
        |k: int|
            {
                let p = k / 4;
                let ch = k % 4;
                let col = p % w;
                let row = p / w;
                rgba[4 * ((h - 1 - row) * w + col) + spec_swapped_channel(ch)]
            },
    )
}

/// Converts an RGBA buffer into the native bitmap layout. The buffer must
/// hold exactly four bytes per pixel.
pub fn to_native_bits(width: u16, height: u16, rgba: &Vec<u8>) -> (out: Vec<u8>)
    requires
        rgba@.len() == 4 * (width as int) * (height as int),
    ensures
        out@ == spec_native_bits(width as int, height as int, rgba@),
{
    let w: usize = width as usize;
    let h: usize = height as usize;
    let total: usize = rgba.len();
    let ghost target = spec_native_bits(width as int, height as int, rgba@);
    proof {
        assert(target.len() == total) by (nonlinear_arith)
            requires
                target.len() == 4 * (width as int) * (height as int),
                total == rgba@.len(),
                rgba@.len() == 4 * (width as int) * (height as int),
        ;
    }
    let mut out: Vec<u8> = Vec::new();
    let mut row: usize = 0;
    while row < h
        invariant
            row <= h,
            w == width as int,
            h == height as int,
            total == rgba@.len(),
            rgba@.len() == 4 * (width as int) * (height as int),
            target == spec_native_bits(width as int, height as int, rgba@),
            target.len() == total,
            out@.len() == 4 * ((row as int) * (w as int)),
            forall|k: int| 0 <= k < out@.len() ==> out@[k] == target[k],
        decreases h - row,
    {
        let srow: usize = h - 1 - row;
        let mut col: usize = 0;
        while col < w
            invariant
                col <= w,
                row < h,
                srow == h - 1 - row,
                w == width as int,
                h == height as int,
                total == rgba@.len(),
                rgba@.len() == 4 * (width as int) * (height as int),
                target == spec_native_bits(width as int, height as int, rgba@),
                target.len() == total,
                out@.len() == 4 * ((row as int) * (w as int) + col as int),
                forall|k: int| 0 <= k < out@.len() ==> out@[k] == target[k],
            decreases w - col,
        {
            proof {
                lemma_row_index_in_range(w as int, h as int, col as int, srow as int);
                lemma_row_index_in_range(w as int, h as int, col as int, row as int);
                assert(4 * ((srow as int) * (w as int) + (col as int)) + 3 < 4 * ((w as int) * (
                h as int))) by (nonlinear_arith)
                    requires
                        (srow as int) * (w as int) + (col as int) < (w as int) * (h as int),
                ;
                assert(4 * ((w as int) * (h as int)) == 4 * (width as int) * (height as int))
                    by (nonlinear_arith)
                    requires
                        w == width as int,
                        h == height as int,
                ;
            }
            let sidx: usize = 4 * (srow * w + col);
            let ghost dbase = 4 * ((row as int) * (w as int) + (col as int));
            out.push(rgba[sidx + 2]);
            out.push(rgba[sidx + 1]);
            out.push(rgba[sidx]);
            out.push(rgba[sidx + 3]);
            proof {
                let p = (row as int) * (w as int) + (col as int);
                assert(4 * p + 4 <= target.len()) by (nonlinear_arith)
                    requires
                        p < (w as int) * (h as int),
                        target.len() == 4 * (width as int) * (height as int),
                        w == width as int,
                        h == height as int,
                ;
                assert forall|ch: int| 0 <= ch < 4 implies target[dbase + ch] == rgba@[4 * ((
                h as int) - 1 - (row as int)) * (w as int) + 4 * (col as int)
                    + spec_swapped_channel(ch)] by {
                    lemma_fundamental_div_mod_converse(dbase + ch, 4, p, ch);
                    assert(4 * (((h as int) - 1 - (row as int)) * (w as int) + (col as int))
                        == 4 * ((h as int) - 1 - (row as int)) * (w as int) + 4 * (col as int))
                        by (nonlinear_arith);
                }
                assert(4 * ((srow as int) * (w as int) + (col as int)) == 4 * ((h as int) - 1 - (
                row as int)) * (w as int) + 4 * (col as int)) by (nonlinear_arith)
                    requires
                        srow == h - 1 - row,
                        w == width as int,
                        h == height as int,
                ;
                assert(out@.len() == dbase + 4);
                assert(4 * ((row as int) * (w as int) + (col as int) + 1) == 4 * ((row as int) * (
                w as int) + (col as int)) + 4) by (nonlinear_arith);
                assert(forall|k: int| 0 <= k < out@.len() ==> out@[k] == target[k]);
            }
            col = col + 1;
        }
        proof {
            assert(((row as int) + 1) * (w as int) == (row as int) * (w as int) + (w as int))
                by (nonlinear_arith);
        }
        row = row + 1;
    }
    proof {
        assert(4 * ((h as int) * (w as int)) == target.len()) by (nonlinear_arith)
            requires
                target.len() == 4 * (width as int) * (height as int),
                w == width as int,
                h == height as int,
        ;
        assert(out@ =~= target);
    }
    out
}

} // verus!

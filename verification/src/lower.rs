//! The meaning of one frame's command sequence: which native operations it
//! lowers to, which clip region is in force at every step, and what the
//! pixel-exact part (the frame clear and sharp opaque rectangle fills) does
//! to the canvas. The interpreter is verified against these folds.

use vstd::prelude::*;

use crate::canvas::spec_filled;
use crate::color::spec_colorref;
use crate::command::DrawCommand;
use crate::geom::ClipRect;
use crate::ops::{op_clip, OpV};
use crate::wide::wide_of;

verus! {

/// The clip region after one command: a scissor installs its padded region,
/// everything else leaves the clip alone.
pub open spec fn clip_step(cmd: DrawCommand, clip: ClipRect) -> ClipRect {
    match cmd {
        DrawCommand::Scissor { x, y, w, h } => ClipRect::spec_of_scissor(x, y, w, h),
        _ => clip,
    }
}

/// The native operations one command emits under the given clip region.
/// Shape commands emit exactly one operation carrying the active clip;
/// empty point lists and unknown commands emit none.
pub open spec fn ops_of_cmd(cmd: DrawCommand, clip: ClipRect) -> Seq<OpV> {
    match cmd {
        DrawCommand::Scissor { x, y, w, h } => seq![
            OpV::SetClip { clip: ClipRect::spec_of_scissor(x, y, w, h) },
        ],
        DrawCommand::Line { x0, y0, x1, y1, thickness, color } => seq![
            OpV::Line { x0, y0, x1, y1, thickness, color: spec_colorref(color), clip },
        ],
        DrawCommand::RectStroke { x, y, w, h, rounding, thickness, color } => seq![
            OpV::StrokeRect {
                left: x as i32,
                top: y as i32,
                right: (x + w) as i32,
                bottom: (y + h) as i32,
                rounding,
                thickness,
                color: spec_colorref(color),
                clip,
            },
        ],
        DrawCommand::RectFill { x, y, w, h, rounding, color } => seq![
            OpV::FillRect {
                left: x as i32,
                top: y as i32,
                right: (x + w) as i32,
                bottom: (y + h) as i32,
                rounding,
                color: spec_colorref(color),
                clip,
            },
        ],
        DrawCommand::CircleStroke { x, y, w, h, thickness, color } => seq![
            OpV::StrokeEllipse {
                left: x as i32,
                top: y as i32,
                right: (x + w) as i32,
                bottom: (y + h) as i32,
                thickness,
                color: spec_colorref(color),
                clip,
            },
        ],
        DrawCommand::CircleFill { x, y, w, h, color } => seq![
            OpV::FillEllipse {
                left: x as i32,
                top: y as i32,
                right: (x + w) as i32,
                bottom: (y + h) as i32,
                color: spec_colorref(color),
                clip,
            },
        ],
        DrawCommand::TriangleStroke { a, b, c, thickness, color } => seq![
            OpV::Polyline {
                points: seq![a, b, c, a],
                thickness,
                color: spec_colorref(color),
                clip,
            },
        ],
        DrawCommand::TriangleFill { a, b, c, color } => seq![
            OpV::FillPolygon { points: seq![a, b, c], color: spec_colorref(color), clip },
        ],
        DrawCommand::PolygonStroke { points, thickness, color } => {
            if points@.len() == 0 {
                Seq::empty()
            } else {
                seq![
                    OpV::Polyline {
                        points: points@.push(points@[0]),
                        thickness,
                        color: spec_colorref(color),
                        clip,
                    },
                ]
            }
        },
        DrawCommand::PolygonFill { points, color } => {
            if points@.len() == 0 {
                Seq::empty()
            } else {
                seq![OpV::FillPolygon { points: points@, color: spec_colorref(color), clip }]
            }
        },
        DrawCommand::Polyline { points, thickness, color } => {
            if points@.len() == 0 {
                Seq::empty()
            } else {
                seq![
                    OpV::Polyline {
                        points: points@,
                        thickness,
                        color: spec_colorref(color),
                        clip,
                    },
                ]
            }
        },
        DrawCommand::ArcStroke { cx, cy, radius, a0_bits, a1_bits, thickness, color } => seq![
            OpV::StrokeArc {
                cx,
                cy,
                radius,
                a0_bits,
                a1_bits,
                thickness,
                color: spec_colorref(color),
                clip,
            },
        ],
        DrawCommand::ArcFill { cx, cy, radius, a0_bits, a1_bits, color } => seq![
            OpV::FillArc {
                cx,
                cy,
                radius,
                a0_bits,
                a1_bits,
                color: spec_colorref(color),
                clip,
            },
        ],
        DrawCommand::Curve { p0, p1, p2, p3, thickness, color } => seq![
            OpV::Bezier { p0, p1, p2, p3, thickness, color: spec_colorref(color), clip },
        ],
        DrawCommand::Text { x, y, w, h, font, foreground, background, text } => seq![
            OpV::Text {
                x,
                y,
                wide: wide_of(text@),
                foreground: spec_colorref(foreground),
                background: spec_colorref(background),
                font,
                clip,
            },
        ],
        DrawCommand::Image { x, y, w, h, handle, color } => seq![
            OpV::Image { x, y, w, h, handle, clip },
        ],
        DrawCommand::Unknown => Seq::empty(),
    }
}

/// What one command does to the pixel model: a sharp (rounding zero)
/// rectangle fill paints its clipped region; every other command leaves the
/// model untouched (it renders natively, outside the pixel-exact subset).
pub open spec fn pixel_step(cmd: DrawCommand, clip: ClipRect, pix: Seq<u32>, width: int) -> Seq<
    u32,
> {
    match cmd {
        DrawCommand::RectFill { x, y, w, h, rounding, color } => {
            if rounding == 0 {
                spec_filled(
                    pix,
                    width,
                    x as int,
                    y as int,
                    w as int,
                    h as int,
                    clip,
                    spec_colorref(color),
                )
            } else {
                pix
            }
        },
        _ => pix,
    }
}

/// The operations a whole command sequence emits, threading the clip region
/// through in order.
pub open spec fn lower_cmds(cmds: Seq<DrawCommand>, clip: ClipRect) -> Seq<OpV>
    decreases cmds.len(),
{
    if cmds.len() == 0 {
        Seq::empty()
    } else {
        ops_of_cmd(cmds[0], clip) + lower_cmds(cmds.drop_first(), clip_step(cmds[0], clip))
    }
}

/// The clip region in force after a whole command sequence.
pub open spec fn clip_fold(cmds: Seq<DrawCommand>, clip: ClipRect) -> ClipRect
    decreases cmds.len(),
{
    if cmds.len() == 0 {
        clip
    } else {
        clip_fold(cmds.drop_first(), clip_step(cmds[0], clip))
    }
}

/// The pixel model after a whole command sequence.
pub open spec fn pixels_fold(cmds: Seq<DrawCommand>, clip: ClipRect, pix: Seq<u32>, width: int) -> Seq<
    u32,
>
    decreases cmds.len(),
{
    if cmds.len() == 0 {
        pix
    } else {
        pixels_fold(
            cmds.drop_first(),
            clip_step(cmds[0], clip),
            pixel_step(cmds[0], clip, pix, width),
            width,
        )
    }
}

/// Extending a command sequence by one command extends all three folds by
/// that command's step, applied under the clip the earlier commands left
/// behind. This is what lets the interpreter process commands front to back.
pub proof fn lemma_fold_snoc(
    cmds: Seq<DrawCommand>,
    clip: ClipRect,
    pix: Seq<u32>,
    width: int,
    c: DrawCommand,
)
    ensures
        lower_cmds(cmds.push(c), clip) == lower_cmds(cmds, clip) + ops_of_cmd(
            c,
            clip_fold(cmds, clip),
        ),
        clip_fold(cmds.push(c), clip) == clip_step(c, clip_fold(cmds, clip)),
        pixels_fold(cmds.push(c), clip, pix, width) == pixel_step(
            c,
            clip_fold(cmds, clip),
            pixels_fold(cmds, clip, pix, width),
            width,
        ),
    decreases cmds.len(),
{
    if cmds.len() == 0 {
        assert(cmds.push(c)[0] == c);
        assert(cmds.push(c).drop_first() =~= cmds);
        assert(clip_fold(cmds, clip) == clip);
        assert(lower_cmds(cmds, clip) == Seq::<OpV>::empty());
        assert(pixels_fold(cmds, clip, pix, width) == pix);
        assert(clip_fold(cmds.push(c), clip) == clip_fold(cmds, clip_step(c, clip)));
        assert(clip_fold(cmds, clip_step(c, clip)) == clip_step(c, clip));
        assert(lower_cmds(cmds.push(c), clip) == ops_of_cmd(c, clip) + lower_cmds(
            cmds,
            clip_step(c, clip),
        ));
        assert(lower_cmds(cmds, clip_step(c, clip)) == Seq::<OpV>::empty());
        assert(lower_cmds(cmds.push(c), clip) =~= lower_cmds(cmds, clip) + ops_of_cmd(
            c,
            clip_fold(cmds, clip),
        ));
        assert(pixels_fold(cmds.push(c), clip, pix, width) == pixels_fold(
            cmds,
            clip_step(c, clip),
            pixel_step(c, clip, pix, width),
            width,
        ));
        assert(pixels_fold(cmds, clip_step(c, clip), pixel_step(c, clip, pix, width), width)
            == pixel_step(c, clip, pix, width));
    } else {
        let head = cmds[0];
        let tail = cmds.drop_first();
        let clip1 = clip_step(head, clip);
        let pix1 = pixel_step(head, clip, pix, width);
        assert(cmds.push(c)[0] == head);
        assert(cmds.push(c).drop_first() =~= tail.push(c));
        lemma_fold_snoc(tail, clip1, pix1, width, c);
        assert(clip_fold(cmds.push(c), clip) == clip_fold(tail.push(c), clip1));
        assert(clip_fold(cmds, clip) == clip_fold(tail, clip1));
        assert(lower_cmds(cmds.push(c), clip) == ops_of_cmd(head, clip) + lower_cmds(
            tail.push(c),
            clip1,
        ));
        assert(lower_cmds(cmds, clip) == ops_of_cmd(head, clip) + lower_cmds(tail, clip1));
        assert(lower_cmds(cmds.push(c), clip) =~= lower_cmds(cmds, clip) + ops_of_cmd(
            c,
            clip_fold(cmds, clip),
        ));
        assert(pixels_fold(cmds.push(c), clip, pix, width) == pixels_fold(
            tail.push(c),
            clip1,
            pix1,
            width,
        ));
        assert(pixels_fold(cmds, clip, pix, width) == pixels_fold(tail, clip1, pix1, width));
    }
}

/// The empty-frame law: a frame with no commands emits no drawing
/// operations, and its pixel fold returns the cleared base buffer
/// untouched — so rendering an empty sequence leaves the canvas
/// pixel-identical to its prior state except for the clear-color fill.
pub proof fn lemma_empty_frame(full: ClipRect, base: Seq<u32>, width: int)
    ensures
        lower_cmds(Seq::<DrawCommand>::empty(), full) == Seq::<OpV>::empty(),
        pixels_fold(Seq::<DrawCommand>::empty(), full, base, width) == base,
        clip_fold(Seq::<DrawCommand>::empty(), full) == full,
{
}

/// Under a fixed clip, a scissor-free command sequence emits only shape
/// operations, all carrying exactly that clip, and leaves it in force.
pub proof fn lemma_no_scissor_keeps_clip(cmds: Seq<DrawCommand>, clip: ClipRect)
    requires
        forall|i: int| 0 <= i < cmds.len() ==> !(cmds[i] is Scissor),
    ensures
        clip_fold(cmds, clip) == clip,
        forall|j: int|
            0 <= j < lower_cmds(cmds, clip).len() ==> op_clip(#[trigger] lower_cmds(cmds, clip)[j])
                == clip,
    decreases cmds.len(),
{
    if cmds.len() > 0 {
        let head_ops = ops_of_cmd(cmds[0], clip);
        let rest = lower_cmds(cmds.drop_first(), clip);
        assert(clip_step(cmds[0], clip) == clip);
        assert(forall|i: int| 0 <= i < cmds.drop_first().len() ==> !(cmds.drop_first()[i]
            is Scissor));
        lemma_no_scissor_keeps_clip(cmds.drop_first(), clip);
        assert(forall|j: int|
            0 <= j < head_ops.len() ==> op_clip(#[trigger] head_ops[j]) == clip);
        assert forall|j: int| 0 <= j < lower_cmds(cmds, clip).len() implies op_clip(
            #[trigger] lower_cmds(cmds, clip)[j],
        ) == clip by {
            if j < head_ops.len() {
                assert(lower_cmds(cmds, clip)[j] == head_ops[j]);
            } else {
                assert(lower_cmds(cmds, clip)[j] == rest[j - head_ops.len()]);
            }
        }
    }
}

/// A frame's pixel fold keeps the buffer's length.
pub proof fn lemma_pixels_fold_len(cmds: Seq<DrawCommand>, clip: ClipRect, pix: Seq<u32>, width: int)
    ensures
        pixels_fold(cmds, clip, pix, width).len() == pix.len(),
    decreases cmds.len(),
{
    if cmds.len() > 0 {
        lemma_pixels_fold_len(
            cmds.drop_first(),
            clip_step(cmds[0], clip),
            pixel_step(cmds[0], clip, pix, width),
            width,
        );
    }
}

/// No command paints a pixel outside the clip region in force: under a
/// fixed clip, a scissor-free command sequence leaves every pixel whose
/// coordinates fall outside that region untouched.
pub proof fn lemma_no_scissor_confines_pixels(
    cmds: Seq<DrawCommand>,
    clip: ClipRect,
    pix: Seq<u32>,
    width: int,
)
    requires
        forall|i: int| 0 <= i < cmds.len() ==> !(cmds[i] is Scissor),
    ensures
        forall|k: int|
            0 <= k < pix.len() && !clip.contains(k % width, k / width) ==> pixels_fold(
                cmds,
                clip,
                pix,
                width,
            )[k] == pix[k],
    decreases cmds.len(),
{
    if cmds.len() > 0 {
        let head = cmds[0];
        let tail = cmds.drop_first();
        let pix1 = pixel_step(head, clip, pix, width);
        assert(clip_step(head, clip) == clip);
        assert(forall|i: int| 0 <= i < tail.len() ==> !(#[trigger] tail[i] is Scissor));
        assert(pix1.len() == pix.len());
        assert(forall|k: int|
            0 <= k < pix.len() && !clip.contains(k % width, k / width) ==> pix1[k] == pix[k]);
        lemma_no_scissor_confines_pixels(tail, clip, pix1, width);
        assert(pixels_fold(cmds, clip, pix, width) == pixels_fold(tail, clip, pix1, width));
    }
}

/// The pixel-level scissor law: in a frame whose first command is the only
/// scissor, every pixel outside the scissor's padded region still holds
/// its cleared base value after the whole frame.
pub proof fn lemma_scissor_confines_pixels(
    cmds: Seq<DrawCommand>,
    full: ClipRect,
    base: Seq<u32>,
    width: int,
    x: i16,
    y: i16,
    w: u16,
    h: u16,
)
    requires
        cmds.len() > 0,
        cmds[0] == (DrawCommand::Scissor { x, y, w, h }),
        forall|i: int| 1 <= i < cmds.len() ==> !(cmds[i] is Scissor),
    ensures
        forall|k: int|
            0 <= k < base.len() && !ClipRect::spec_of_scissor(x, y, w, h).contains(
                k % width,
                k / width,
            ) ==> pixels_fold(cmds, full, base, width)[k] == base[k],
{
    let scissor_clip = ClipRect::spec_of_scissor(x, y, w, h);
    let tail = cmds.drop_first();
    assert(forall|i: int| 0 <= i < tail.len() ==> !(#[trigger] tail[i] is Scissor));
    assert(pixel_step(cmds[0], full, base, width) == base);
    assert(pixels_fold(cmds, full, base, width) == pixels_fold(tail, scissor_clip, base, width));
    lemma_no_scissor_confines_pixels(tail, scissor_clip, base, width);
}

/// The scissor scoping law: in a frame whose first command is the only
/// scissor, every operation the remaining commands emit is clipped to the
/// scissor rectangle padded by one pixel on its right and bottom edges.
pub proof fn lemma_scissor_scopes_frame(
    cmds: Seq<DrawCommand>,
    init: ClipRect,
    x: i16,
    y: i16,
    w: u16,
    h: u16,
)
    requires
        cmds.len() > 0,
        cmds[0] == (DrawCommand::Scissor { x, y, w, h }),
        forall|i: int| 1 <= i < cmds.len() ==> !(cmds[i] is Scissor),
    ensures
        lower_cmds(cmds, init).len() > 0,
        lower_cmds(cmds, init)[0] == (OpV::SetClip {
            clip: ClipRect::spec_of_scissor(x, y, w, h),
        }),
        forall|j: int|
            1 <= j < lower_cmds(cmds, init).len() ==> op_clip(
                #[trigger] lower_cmds(cmds, init)[j],
            ) == ClipRect::spec_of_scissor(x, y, w, h),
{
    let scissor_clip = ClipRect::spec_of_scissor(x, y, w, h);
    let tail = cmds.drop_first();
    assert(forall|i: int| 0 <= i < tail.len() ==> !(#[trigger] tail[i] is Scissor));
    lemma_no_scissor_keeps_clip(tail, scissor_clip);
    assert(lower_cmds(cmds, init) == ops_of_cmd(cmds[0], init) + lower_cmds(tail, scissor_clip));
    assert(ops_of_cmd(cmds[0], init).len() == 1);
    assert forall|j: int| 1 <= j < lower_cmds(cmds, init).len() implies op_clip(
        #[trigger] lower_cmds(cmds, init)[j],
    ) == scissor_clip by {
        assert(lower_cmds(cmds, init)[j] == lower_cmds(tail, scissor_clip)[j - 1]);
    }
}

} // verus!

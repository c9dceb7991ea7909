use gdi_backend::canvas::Canvas;
use gdi_backend::color::{convert_color, Color};
use gdi_backend::command::{DrawCommand, Point};
use gdi_backend::drawer::{text_width_outcome, Drawer};
use gdi_backend::geom::ClipRect;
use gdi_backend::ops::GdiOp;

fn rgb(r: u8, g: u8, b: u8) -> Color {
    Color { r, g, b, a: 255 }
}

#[test]
fn color_packs_into_native_reference() {
    assert_eq!(convert_color(rgb(0x11, 0x22, 0x33)), 0x0033_2211);
    assert_eq!(convert_color(rgb(255, 0, 0)), 0x0000_00FF);
    assert_eq!(convert_color(Color { r: 0, g: 0, b: 0, a: 7 }), 0);
}

#[test]
fn scissor_region_pads_right_and_bottom() {
    let clip = ClipRect::of_scissor(10, 20, 30, 40);
    assert_eq!(clip, ClipRect { left: 10, top: 20, right: 41, bottom: 61 });
}

#[test]
fn canvas_resize_retires_old_buffer() {
    let mut canvas = Canvas::new(100, 50, 0xABCD);
    assert_eq!(canvas.retired, 0);
    canvas.resize(100, 50);
    assert_eq!(canvas.retired, 0);
    assert_eq!(canvas.pixel(0, 0), Some(0xABCD));
    canvas.resize(200, 80);
    assert_eq!((canvas.width, canvas.height), (200, 80));
    assert_eq!(canvas.retired, 1);
    assert_eq!(canvas.pixels.len(), 200 * 80);
    assert_eq!(canvas.pixel(199, 79), Some(0));
    assert_eq!(canvas.pixel(200, 0), None);
}

#[test]
fn resize_event_reallocates_canvas_only_on_change() {
    let mut drawer = Drawer::new(100, 50);
    let lparam = 200u64 | (80u64 << 16);
    let (consumed, responses) = drawer.handle_event(0x0005, 0, lparam, false);
    assert!(!consumed);
    assert!(responses.is_empty());
    assert_eq!((drawer.canvas.width, drawer.canvas.height), (200, 80));
    assert_eq!(drawer.canvas.retired, 1);
    let (again, _) = drawer.handle_event(0x0005, 0, lparam, false);
    assert!(!again);
    assert_eq!(drawer.canvas.retired, 1);
}

#[test]
fn empty_frame_leaves_only_the_clear() {
    let mut drawer = Drawer::new(40, 30);
    let mut cmds: Vec<DrawCommand> = Vec::new();
    let ops = drawer.render(&mut cmds, rgb(9, 8, 7));
    assert!(cmds.is_empty());
    assert_eq!(ops.len(), 1);
    assert_eq!(ops[0], GdiOp::Present { width: 40, height: 30 });
    let clear = convert_color(rgb(9, 8, 7));
    for y in 0..30u16 {
        for x in 0..40u16 {
            assert_eq!(drawer.canvas.pixel(x, y), Some(clear));
        }
    }
}

#[test]
fn rect_fill_covers_exactly_its_half_open_box() {
    let mut drawer = Drawer::new(200, 100);
    let red = rgb(255, 0, 0);
    let white = rgb(255, 255, 255);
    let mut cmds = vec![DrawCommand::RectFill {
        x: 10,
        y: 10,
        w: 100,
        h: 50,
        rounding: 0,
        color: red,
    }];
    drawer.render(&mut cmds, white);
    let fill = convert_color(red);
    let clear = convert_color(white);
    assert_eq!(drawer.canvas.pixel(10, 10), Some(fill));
    assert_eq!(drawer.canvas.pixel(109, 59), Some(fill));
    assert_eq!(drawer.canvas.pixel(110, 10), Some(clear));
    assert_eq!(drawer.canvas.pixel(10, 60), Some(clear));
    assert_eq!(drawer.canvas.pixel(9, 10), Some(clear));
    assert_eq!(drawer.canvas.pixel(10, 9), Some(clear));
    for x in 10..110u16 {
        for y in 10..60u16 {
            assert_eq!(drawer.canvas.pixel(x, y), Some(fill));
        }
    }
}

#[test]
fn scissor_clips_following_shapes_with_one_pixel_pad() {
    let mut drawer = Drawer::new(200, 100);
    let blue = rgb(0, 0, 255);
    let black = rgb(0, 0, 0);
    let mut cmds = vec![
        DrawCommand::Scissor { x: 20, y: 20, w: 10, h: 10 },
        DrawCommand::RectFill { x: 0, y: 0, w: 200, h: 100, rounding: 0, color: blue },
    ];
    let ops = drawer.render(&mut cmds, black);
    let scissor = ClipRect { left: 20, top: 20, right: 31, bottom: 31 };
    assert_eq!(ops[0], GdiOp::SetClip { clip: scissor });
    match &ops[1] {
        GdiOp::FillRect { clip, .. } => assert_eq!(*clip, scissor),
        other => panic!("expected a rectangle fill, got {:?}", other),
    }
    let fill = convert_color(blue);
    let clear = convert_color(black);
    assert_eq!(drawer.canvas.pixel(20, 20), Some(fill));
    // The padded edge: one pixel beyond the scissor's nominal extent stays.
    assert_eq!(drawer.canvas.pixel(30, 30), Some(fill));
    assert_eq!(drawer.canvas.pixel(31, 20), Some(clear));
    assert_eq!(drawer.canvas.pixel(20, 31), Some(clear));
    assert_eq!(drawer.canvas.pixel(19, 20), Some(clear));
}

#[test]
fn second_scissor_supersedes_the_first() {
    let mut drawer = Drawer::new(100, 100);
    let green = rgb(0, 255, 0);
    let mut cmds = vec![
        DrawCommand::Scissor { x: 0, y: 0, w: 9, h: 9 },
        DrawCommand::Scissor { x: 50, y: 50, w: 9, h: 9 },
        DrawCommand::RectFill { x: 0, y: 0, w: 100, h: 100, rounding: 0, color: green },
    ];
    drawer.render(&mut cmds, rgb(0, 0, 0));
    let fill = convert_color(green);
    let clear = convert_color(rgb(0, 0, 0));
    assert_eq!(drawer.canvas.pixel(5, 5), Some(clear));
    assert_eq!(drawer.canvas.pixel(55, 55), Some(fill));
}

#[test]
fn rounded_fill_emits_op_without_touching_pixel_model() {
    let mut drawer = Drawer::new(50, 50);
    let mut cmds = vec![DrawCommand::RectFill {
        x: 5,
        y: 5,
        w: 20,
        h: 20,
        rounding: 4,
        color: rgb(1, 2, 3),
    }];
    let ops = drawer.render(&mut cmds, rgb(0, 0, 0));
    assert_eq!(ops.len(), 2);
    match &ops[0] {
        GdiOp::FillRect { left, top, right, bottom, rounding, .. } => {
            assert_eq!((*left, *top, *right, *bottom, *rounding), (5, 5, 25, 25, 4));
        }
        other => panic!("expected a rectangle fill, got {:?}", other),
    }
    assert_eq!(drawer.canvas.pixel(10, 10), Some(0));
}

#[test]
fn unknown_commands_are_ignored() {
    let mut drawer = Drawer::new(10, 10);
    let mut cmds = vec![DrawCommand::Unknown, DrawCommand::Unknown];
    let ops = drawer.render(&mut cmds, rgb(0, 0, 0));
    assert_eq!(ops.len(), 1);
    assert!(cmds.is_empty());
}

#[test]
fn polygons_beyond_sixty_four_points_are_kept_whole() {
    let mut drawer = Drawer::new(10, 10);
    let points: Vec<Point> = (0..100).map(|i| Point { x: i as i16, y: (i * 2) as i16 }).collect();
    let mut cmds = vec![
        DrawCommand::PolygonStroke { points: points.clone(), thickness: 1, color: rgb(1, 1, 1) },
        DrawCommand::PolygonFill { points: points.clone(), color: rgb(1, 1, 1) },
        DrawCommand::Polyline { points, thickness: 2, color: rgb(1, 1, 1) },
    ];
    let ops = drawer.render(&mut cmds, rgb(0, 0, 0));
    match &ops[0] {
        GdiOp::Polyline { points, .. } => {
            assert_eq!(points.len(), 101);
            assert_eq!(points[100], Point { x: 0, y: 0 });
        }
        other => panic!("expected a polyline, got {:?}", other),
    }
    match &ops[1] {
        GdiOp::FillPolygon { points, .. } => assert_eq!(points.len(), 100),
        other => panic!("expected a polygon fill, got {:?}", other),
    }
    match &ops[2] {
        GdiOp::Polyline { points, .. } => assert_eq!(points.len(), 100),
        other => panic!("expected a polyline, got {:?}", other),
    }
}

#[test]
fn empty_point_lists_draw_nothing() {
    let mut drawer = Drawer::new(10, 10);
    let mut cmds = vec![
        DrawCommand::PolygonStroke { points: Vec::new(), thickness: 1, color: rgb(1, 1, 1) },
        DrawCommand::PolygonFill { points: Vec::new(), color: rgb(1, 1, 1) },
        DrawCommand::Polyline { points: Vec::new(), thickness: 1, color: rgb(1, 1, 1) },
    ];
    let ops = drawer.render(&mut cmds, rgb(0, 0, 0));
    assert_eq!(ops.len(), 1);
}

#[test]
fn triangles_lower_to_point_lists() {
    let mut drawer = Drawer::new(10, 10);
    let (a, b, c) = (Point { x: 0, y: 0 }, Point { x: 5, y: 0 }, Point { x: 0, y: 5 });
    let mut cmds = vec![
        DrawCommand::TriangleStroke { a, b, c, thickness: 1, color: rgb(1, 1, 1) },
        DrawCommand::TriangleFill { a, b, c, color: rgb(1, 1, 1) },
    ];
    let ops = drawer.render(&mut cmds, rgb(0, 0, 0));
    match &ops[0] {
        GdiOp::Polyline { points, .. } => assert_eq!(points.as_slice(), &[a, b, c, a]),
        other => panic!("expected a polyline, got {:?}", other),
    }
    match &ops[1] {
        GdiOp::FillPolygon { points, .. } => assert_eq!(points.as_slice(), &[a, b, c]),
        other => panic!("expected a polygon fill, got {:?}", other),
    }
}

#[test]
fn text_command_is_transcoded_for_the_native_call() {
    let mut drawer = Drawer::new(10, 10);
    let mut cmds = vec![DrawCommand::Text {
        x: 3,
        y: 4,
        w: 20,
        h: 10,
        font: 0,
        foreground: rgb(255, 255, 255),
        background: rgb(0, 0, 128),
        text: String::from("Hi\u{1D11E}"),
    }];
    let ops = drawer.render(&mut cmds, rgb(0, 0, 0));
    match &ops[0] {
        GdiOp::Text { x, y, wide, foreground, background, .. } => {
            assert_eq!((*x, *y), (3, 4));
            assert_eq!(wide.as_slice(), &[0x48, 0x69, 0xD834, 0xDD1E]);
            assert_eq!(*foreground, 0x00FF_FFFF);
            assert_eq!(*background, 0x0080_0000);
        }
        other => panic!("expected a text run, got {:?}", other),
    }
}

#[test]
fn every_shape_kind_lowers_in_command_order() {
    let mut drawer = Drawer::new(100, 100);
    let col = rgb(10, 20, 30);
    let cref = convert_color(col);
    let mut cmds = vec![
        DrawCommand::Line { x0: 1, y0: 2, x1: 3, y1: 4, thickness: 2, color: col },
        DrawCommand::CircleStroke { x: 5, y: 6, w: 10, h: 12, thickness: 1, color: col },
        DrawCommand::CircleFill { x: 5, y: 6, w: 10, h: 12, color: col },
        DrawCommand::ArcStroke {
            cx: 7,
            cy: 8,
            radius: 9,
            a0_bits: 0xAAAA,
            a1_bits: 0xBBBB,
            thickness: 3,
            color: col,
        },
        DrawCommand::ArcFill { cx: 7, cy: 8, radius: 9, a0_bits: 1, a1_bits: 2, color: col },
        DrawCommand::Curve {
            p0: Point { x: 0, y: 0 },
            p1: Point { x: 1, y: 1 },
            p2: Point { x: 2, y: 2 },
            p3: Point { x: 3, y: 3 },
            thickness: 1,
            color: col,
        },
        DrawCommand::Image { x: 9, y: 9, w: 16, h: 16, handle: 5, color: col },
        DrawCommand::RectStroke { x: 1, y: 1, w: 2, h: 2, rounding: 3, thickness: 4, color: col },
    ];
    let ops = drawer.render(&mut cmds, rgb(0, 0, 0));
    assert_eq!(ops.len(), 9);
    let full = ClipRect { left: 0, top: 0, right: 100, bottom: 100 };
    assert_eq!(
        ops[0],
        GdiOp::Line { x0: 1, y0: 2, x1: 3, y1: 4, thickness: 2, color: cref, clip: full }
    );
    assert_eq!(
        ops[1],
        GdiOp::StrokeEllipse {
            left: 5,
            top: 6,
            right: 15,
            bottom: 18,
            thickness: 1,
            color: cref,
            clip: full,
        }
    );
    assert_eq!(
        ops[2],
        GdiOp::FillEllipse { left: 5, top: 6, right: 15, bottom: 18, color: cref, clip: full }
    );
    assert_eq!(
        ops[3],
        GdiOp::StrokeArc {
            cx: 7,
            cy: 8,
            radius: 9,
            a0_bits: 0xAAAA,
            a1_bits: 0xBBBB,
            thickness: 3,
            color: cref,
            clip: full,
        }
    );
    assert_eq!(
        ops[4],
        GdiOp::FillArc {
            cx: 7,
            cy: 8,
            radius: 9,
            a0_bits: 1,
            a1_bits: 2,
            color: cref,
            clip: full,
        }
    );
    assert_eq!(
        ops[5],
        GdiOp::Bezier {
            p0: Point { x: 0, y: 0 },
            p1: Point { x: 1, y: 1 },
            p2: Point { x: 2, y: 2 },
            p3: Point { x: 3, y: 3 },
            thickness: 1,
            color: cref,
            clip: full,
        }
    );
    assert_eq!(ops[6], GdiOp::Image { x: 9, y: 9, w: 16, h: 16, handle: 5, clip: full });
    assert_eq!(
        ops[7],
        GdiOp::StrokeRect {
            left: 1,
            top: 1,
            right: 3,
            bottom: 3,
            rounding: 3,
            thickness: 4,
            color: cref,
            clip: full,
        }
    );
    assert_eq!(ops[8], GdiOp::Present { width: 100, height: 100 });
}

#[test]
fn frame_consumes_the_command_sequence() {
    let mut drawer = Drawer::new(10, 10);
    let mut cmds = vec![DrawCommand::Line {
        x0: 0,
        y0: 0,
        x1: 5,
        y1: 5,
        thickness: 1,
        color: rgb(1, 1, 1),
    }];
    let ops = drawer.render(&mut cmds, rgb(0, 0, 0));
    assert!(cmds.is_empty());
    assert_eq!(ops.len(), 2);
    let ops2 = drawer.render(&mut cmds, rgb(0, 0, 0));
    assert_eq!(ops2.len(), 1);
}

#[test]
fn fonts_get_distinct_stable_identifiers_and_release_once() {
    let mut drawer = Drawer::new(10, 10);
    let first = drawer.new_font(String::from("Arial"), 16, 19);
    let second = drawer.new_font(String::from("Consolas"), 12, 15);
    assert_eq!(first, 0);
    assert_eq!(second, 1);
    assert_ne!(first, second);
    assert_eq!(drawer.font_by_id(first).unwrap().family, "Arial");
    assert_eq!(drawer.font_by_id(second).unwrap().line_height, 15);
    assert!(drawer.font_by_id(2).is_none());
    assert!(!drawer.fonts[0].released && !drawer.fonts[1].released);
    let retired_before = drawer.canvas.retired;
    drawer.release();
    assert!(drawer.released);
    assert_eq!(drawer.fonts.len(), 2);
    assert!(drawer.fonts[0].released && drawer.fonts[1].released);
    assert_eq!(drawer.fonts[0].family, "Arial");
    assert_eq!(drawer.canvas.retired, retired_before + 1);
}

#[test]
fn image_upload_flips_rows_and_swaps_channels() {
    let mut drawer = Drawer::new(10, 10);
    let rgba = vec![1u8, 2, 3, 4, 5, 6, 7, 8];
    let id = drawer.add_image(1, 2, &rgba).unwrap();
    assert_eq!(id, 0);
    // Source row 0 is (1,2,3,4), row 1 is (5,6,7,8); the native bitmap is
    // bottom-up with blue first, so destination row 0 is row 1 swapped.
    assert_eq!(drawer.images[0].bits, vec![7, 6, 5, 8, 3, 2, 1, 4]);
    let wide = vec![10u8, 20, 30, 40, 50, 60, 70, 80];
    let id2 = drawer.add_image(2, 1, &wide).unwrap();
    assert_eq!(id2, 1);
    assert_eq!(drawer.images[1].bits, vec![30, 20, 10, 40, 70, 60, 50, 80]);
}

#[test]
fn image_upload_rejects_mismatched_buffers() {
    let mut drawer = Drawer::new(10, 10);
    let short = vec![0u8; 7];
    assert!(drawer.add_image(1, 2, &short).is_none());
    assert!(drawer.images.is_empty());
}

#[test]
fn width_query_reports_sentinels() {
    assert_eq!(text_width_outcome(false, true, Some(10)), 0);
    assert_eq!(text_width_outcome(true, false, Some(10)), 0);
    assert_eq!(text_width_outcome(false, false, None), 0);
    assert_eq!(text_width_outcome(true, true, None), -1);
    assert_eq!(text_width_outcome(true, true, Some(42)), 42);
}

use orbclient_sdl::color::Color;
use orbclient_sdl::draw::{Blend, DrawOp};
use orbclient_sdl::window::Window;

fn color_op(r: u8, g: u8, b: u8, a: u8) -> DrawOp {
    DrawOp::SetColor { r, g, b, a }
}

fn points(ops: &[DrawOp]) -> Vec<(i32, i32)> {
    ops.iter()
        .filter_map(|op| match op {
            DrawOp::Point { x, y } => Some((*x, *y)),
            _ => None,
        })
        .collect()
}

#[test]
fn new_window_keeps_geometry_and_title() {
    let w = Window::new(10, 20, 300, 200, "hello");
    assert_eq!((w.x(), w.y(), w.width(), w.height()), (10, 20, 300, 200));
    assert_eq!(w.title(), "hello");
    assert!(!w.is_async());
    assert!(Window::new_flags(0, 0, 1, 1, "", true).is_async());
}

#[test]
fn position_requested_only_when_a_coordinate_is_non_negative() {
    assert_eq!(Window::new(-1, 5, 1, 1, "").requested_position(), Some((-1, 5)));
    assert_eq!(Window::new(3, -1, 1, 1, "").requested_position(), Some((3, -1)));
    assert_eq!(Window::new(-1, -1, 1, 1, "").requested_position(), None);
}

#[test]
fn sync_path_refreshes_cached_state() {
    let mut w = Window::new(0, 0, 1, 1, "a");
    w.sync_path(5, 6, 7, 8, "b");
    assert_eq!((w.x(), w.y(), w.width(), w.height()), (5, 6, 7, 8));
    assert_eq!(w.title(), "b");
    w.set_title("c");
    assert_eq!(w.title(), "c");
}

#[test]
fn pixel_sets_blend_color_and_point() {
    let mut w = Window::new(0, 0, 10, 10, "");
    w.pixel(3, 4, Color { data: 0x80FF_4020 });
    assert_eq!(
        w.take_ops(),
        vec![DrawOp::SetBlend(Blend::Alpha), color_op(0xFF, 0x40, 0x20, 0x80), DrawOp::Point { x: 3, y: 4 }]
    );
    assert!(w.take_ops().is_empty());
}

#[test]
fn lines_with_no_points_draw_nothing() {
    let mut w = Window::new(0, 0, 10, 10, "");
    w.lines(&[], Color::rgb(1, 2, 3));
    assert!(w.take_ops().is_empty());
}

#[test]
fn lines_with_one_point_draw_a_pixel() {
    let mut w = Window::new(0, 0, 10, 10, "");
    w.lines(&[[7, 8]], Color::rgb(1, 2, 3));
    assert_eq!(
        w.take_ops(),
        vec![DrawOp::SetBlend(Blend::Alpha), color_op(1, 2, 3, 0xFF), DrawOp::Point { x: 7, y: 8 }]
    );
}

#[test]
fn lines_with_three_points_draw_two_segments() {
    let mut w = Window::new(0, 0, 10, 10, "");
    w.lines(&[[0, 0], [5, 1], [2, 9]], Color::rgb(1, 2, 3));
    let blend = DrawOp::SetBlend(Blend::Alpha);
    let c = color_op(1, 2, 3, 0xFF);
    assert_eq!(
        w.take_ops(),
        vec![
            blend,
            c,
            DrawOp::Line { x1: 0, y1: 0, x2: 5, y2: 1 },
            blend,
            c,
            DrawOp::Line { x1: 5, y1: 1, x2: 2, y2: 9 },
        ]
    );
}

#[test]
fn line_draws_one_segment() {
    let mut w = Window::new(0, 0, 10, 10, "");
    w.line(1, 2, 3, 4, Color::rgba(9, 8, 7, 6));
    assert_eq!(
        w.take_ops(),
        vec![DrawOp::SetBlend(Blend::Alpha), color_op(9, 8, 7, 6), DrawOp::Line { x1: 1, y1: 2, x2: 3, y2: 4 }]
    );
}

#[test]
fn rect_fills_with_blending() {
    let mut w = Window::new(0, 0, 10, 10, "");
    w.rect(1, 2, 3, 4, Color::rgb(5, 6, 7));
    assert_eq!(
        w.take_ops(),
        vec![DrawOp::SetBlend(Blend::Alpha), color_op(5, 6, 7, 0xFF), DrawOp::FillRect { x: 1, y: 2, w: 3, h: 4 }]
    );
}

#[test]
fn set_and_clear_paint_without_blending() {
    let mut w = Window::new(0, 0, 10, 10, "");
    w.set(Color::rgba(1, 2, 3, 4));
    w.clear();
    assert_eq!(
        w.take_ops(),
        vec![
            DrawOp::SetBlend(Blend::Off),
            color_op(1, 2, 3, 4),
            DrawOp::Clear,
            DrawOp::SetBlend(Blend::Off),
            color_op(0, 0, 0, 0xFF),
            DrawOp::Clear,
        ]
    );
}

#[test]
fn sync_presents_and_succeeds() {
    let mut w = Window::new(0, 0, 10, 10, "");
    assert!(w.sync());
    assert_eq!(w.take_ops(), vec![DrawOp::Present]);
}

#[test]
fn image_draws_every_entry_in_row_major_order() {
    let mut w = Window::new(0, 0, 10, 10, "");
    let data: Vec<Color> = (0..6).map(|i| Color { data: i }).collect();
    w.image(10, 20, 3, 2, &data);
    let ops = w.take_ops();
    assert_eq!(ops.len(), 18);
    assert_eq!(points(&ops), vec![(10, 20), (11, 20), (12, 20), (10, 21), (11, 21), (12, 21)]);
    assert_eq!(ops[16], color_op(0, 0, 5, 0));
}

#[test]
fn image_with_short_data_stops_after_the_data() {
    let mut w = Window::new(0, 0, 10, 10, "");
    let data: Vec<Color> = (0..4).map(|i| Color { data: i }).collect();
    w.image(0, 0, 3, 3, &data);
    let ops = w.take_ops();
    assert_eq!(points(&ops), vec![(0, 0), (1, 0), (2, 0), (0, 1)]);
    assert_eq!(ops.len(), 12);
}

#[test]
fn image_with_long_data_draws_the_area_only() {
    let mut w = Window::new(0, 0, 10, 10, "");
    let data: Vec<Color> = (0..10).map(|i| Color { data: i }).collect();
    w.image(0, 0, 2, 2, &data);
    assert_eq!(points(&w.take_ops()), vec![(0, 0), (1, 0), (0, 1), (1, 1)]);
}

#[test]
fn image_of_zero_width_draws_nothing() {
    let mut w = Window::new(0, 0, 10, 10, "");
    w.image(0, 0, 0, 5, &[Color { data: 1 }]);
    assert!(w.take_ops().is_empty());
}

#[test]
fn char_beyond_the_font_is_blank() {
    let mut w = Window::new(0, 0, 10, 10, "");
    w.set_font(vec![0xFF; 32]);
    w.char(0, 0, 'A', Color::rgb(1, 1, 1));
    assert_eq!(w.take_ops(), vec![DrawOp::SetBlend(Blend::Alpha), color_op(1, 1, 1, 0xFF)]);
}

#[test]
fn char_draws_lit_cells_row_by_row() {
    let mut w = Window::new(0, 0, 10, 10, "");
    let mut font = vec![0u8; 2 * 16];
    font[16] = 0b1000_0001;
    font[17] = 0b0010_0000;
    font[31] = 0b0000_0001;
    w.set_font(font);
    w.char(100, 50, '\u{1}', Color::rgb(1, 1, 1));
    let ops = w.take_ops();
    assert_eq!(ops.len(), 2 + 4);
    assert_eq!(points(&ops), vec![(100, 50), (107, 50), (102, 51), (107, 65)]);
}

#[test]
fn char_with_a_partial_glyph_treats_missing_rows_as_blank() {
    let mut w = Window::new(0, 0, 10, 10, "");
    w.set_font(vec![0xFF, 0x01]);
    w.char(0, 0, '\0', Color::rgb(1, 1, 1));
    let ops = w.take_ops();
    assert_eq!(points(&ops), vec![(0, 0), (1, 0), (2, 0), (3, 0), (4, 0), (5, 0), (6, 0), (7, 0), (7, 1)]);
}

#[test]
fn rect_with_an_empty_side_is_skipped() {
    let mut w = Window::new(0, 0, 10, 10, "");
    w.rect(1, 2, 0, 4, Color::rgb(5, 6, 7));
    w.rect(1, 2, 3, 0, Color::rgb(5, 6, 7));
    w.rect(1, 2, 0, 0, Color::rgb(5, 6, 7));
    assert!(w.take_ops().is_empty());
}

#[test]
fn rect_past_the_native_size_limit_is_skipped() {
    let mut w = Window::new(0, 0, 10, 10, "");
    w.rect(0, 0, 0x4000_0000, 1, Color::rgb(5, 6, 7));
    w.rect(0, 0, 1, u32::MAX, Color::rgb(5, 6, 7));
    assert!(w.take_ops().is_empty());
    w.rect(0, 0, 0x3FFF_FFFF, 1, Color::rgb(5, 6, 7));
    assert_eq!(w.take_ops().len(), 3);
}

#[test]
fn char_beyond_the_font_is_blank_at_the_coordinate_limit() {
    let mut w = Window::new(0, 0, 10, 10, "");
    w.char(i32::MAX, i32::MAX, 'A', Color::rgb(1, 1, 1));
    assert_eq!(w.take_ops(), vec![DrawOp::SetBlend(Blend::Alpha), color_op(1, 1, 1, 0xFF)]);
}

#[test]
fn char_cells_past_the_coordinate_limit_are_not_drawn() {
    let mut w = Window::new(0, 0, 10, 10, "");
    w.set_font(vec![0xFF; 16]);
    w.char(i32::MAX - 1, i32::MAX - 1, '\0', Color::rgb(1, 1, 1));
    let pts = points(&w.take_ops());
    assert_eq!(
        pts,
        vec![(i32::MAX - 1, i32::MAX - 1), (i32::MAX, i32::MAX - 1), (i32::MAX - 1, i32::MAX), (i32::MAX, i32::MAX)]
    );
}

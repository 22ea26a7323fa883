use vstd::prelude::*;

use crate::color::{alpha_of, blue_of, green_of, red_of, Color};

verus! {

/// How a native draw combines its color with what is on the surface.
#[derive(Clone, Copy, Debug, PartialEq, Eq, Structural)]
pub enum Blend {
    /// The color replaces what is there.
    Off,
    /// The color is blended by its alpha.
    Alpha,
}

/// One native drawing call.
#[derive(Clone, Copy, Debug, PartialEq, Eq, Structural)]
pub enum DrawOp {
    SetBlend(Blend),
    SetColor { r: u8, g: u8, b: u8, a: u8 },
    Point { x: i32, y: i32 },
    Line { x1: i32, y1: i32, x2: i32, y2: i32 },
    FillRect { x: i32, y: i32, w: u32, h: u32 },
    Clear,
    Present,
}

/// The draw color that a packed color decodes to.
pub open spec fn color_op(c: Color) -> DrawOp {
    DrawOp::SetColor {
        r: red_of(c.data),
        g: green_of(c.data),
        b: blue_of(c.data),
        a: alpha_of(c.data),
    }
}

/// Decodes a packed color into a native draw color.
pub fn set_color_op(c: Color) -> (op: DrawOp)
    ensures
        op == color_op(c),
{
    DrawOp::SetColor { r: c.r(), g: c.g(), b: c.b(), a: c.a() }
}

/// The calls that draw one blended point.
pub open spec fn pixel_ops(x: i32, y: i32, c: Color) -> Seq<DrawOp> {
    seq![DrawOp::SetBlend(Blend::Alpha), color_op(c), DrawOp::Point { x: x, y: y }]
}

/// The calls that draw one blended segment.
pub open spec fn line_ops(x1: i32, y1: i32, x2: i32, y2: i32, c: Color) -> Seq<DrawOp> {
    seq![
        DrawOp::SetBlend(Blend::Alpha),
        color_op(c),
        DrawOp::Line { x1: x1, y1: y1, x2: x2, y2: y2 },
    ]
}

/// The segments between the first `n + 1` points, each adjacent pair in order.
pub open spec fn segment_ops(points: Seq<[i32; 2]>, c: Color, n: nat) -> Seq<DrawOp>
    decreases n,
{
    if n == 0 {
        seq![]
    } else {
        let p = points[n - 1];
        let q = points[n as int];
        segment_ops(points, c, (n - 1) as nat) + line_ops(p[0], p[1], q[0], q[1], c)
    }
}

/// A polyline: nothing for no points, a point for one, else the segments.
pub open spec fn polyline_ops(points: Seq<[i32; 2]>, c: Color) -> Seq<DrawOp> {
    if points.len() == 0 {
        seq![]
    } else if points.len() == 1 {
        pixel_ops(points[0][0], points[0][1], c)
    } else {
        segment_ops(points, c, (points.len() - 1) as nat)
    }
}

/// The largest width or height the native rectangle takes unchanged.
pub const MAX_RECT_SIZE: u32 = 0x3FFF_FFFF;

/// Whether a rectangle of this size is drawn: neither side is empty or past
/// the native limit.
pub open spec fn rect_drawable(w: u32, h: u32) -> bool {
    0 < w <= MAX_RECT_SIZE && 0 < h <= MAX_RECT_SIZE
}

/// The calls that fill a rectangle.
pub open spec fn rect_ops(x: i32, y: i32, w: u32, h: u32, c: Color) -> Seq<DrawOp> {
    seq![DrawOp::SetBlend(Blend::Alpha), color_op(c), DrawOp::FillRect { x: x, y: y, w: w, h: h }]
}

/// The calls that paint the whole surface, without blending.
pub open spec fn fill_ops(c: Color) -> Seq<DrawOp> {
    seq![DrawOp::SetBlend(Blend::Off), color_op(c), DrawOp::Clear]
}

/// Row `row` of the glyph for `c`: 16 bytes per character, blank past the
/// end of the font.
pub open spec fn font_row(font: Seq<u8>, c: char, row: int) -> u8 {
    let i = (c as int) * 16 + row;
    if i < font.len() {
        font[i]
    } else {
        0
    }
}

/// Whether column `col` (0 leftmost) of a glyph row is lit.
pub open spec fn lit(bits: u8, col: u8) -> bool {
    (bits >> ((7 - col) as u8)) & 1u8 > 0
}

/// The points of the first `n` columns of one glyph row at (x, y); a lit
/// cell whose coordinate would pass `i32::MAX` is not drawn.
pub open spec fn row_points(x: i32, y: int, bits: u8, n: nat) -> Seq<DrawOp>
    decreases n,
{
    if n == 0 {
        seq![]
    } else {
        row_points(x, y, bits, (n - 1) as nat) + if lit(bits, (n - 1) as u8) && x + n - 1
            <= i32::MAX && y <= i32::MAX {
            seq![DrawOp::Point { x: (x + n - 1) as i32, y: y as i32 }]
        } else {
            seq![]
        }
    }
}

/// The points of the first `n` rows of the glyph for `c` at (x, y).
pub open spec fn glyph_points(font: Seq<u8>, c: char, x: i32, y: i32, n: nat) -> Seq<DrawOp>
    decreases n,
{
    if n == 0 {
        seq![]
    } else {
        glyph_points(font, c, x, y, (n - 1) as nat) + row_points(
            x,
            y + n - 1,
            font_row(font, c, n - 1),
            8,
        )
    }
}

/// The calls that draw a character: a point for each lit cell of its 8x16
/// glyph, row by row, top to bottom and left to right.
pub open spec fn char_ops(font: Seq<u8>, c: char, x: i32, y: i32, color: Color) -> Seq<DrawOp> {
    seq![DrawOp::SetBlend(Blend::Alpha), color_op(color)] + glyph_points(font, c, x, y, 16)
}

/// The pixels of the first `n` entries of an image `w` wide at (x, y), in
/// row-major order.
pub open spec fn image_ops(x: i32, y: i32, w: u32, data: Seq<Color>, n: nat) -> Seq<DrawOp>
    decreases n,
{
    if n == 0 {
        seq![]
    } else {
        let i = n - 1;
        image_ops(x, y, w, data, i as nat) + pixel_ops(
            (x + i % (w as int)) as i32,
            (y + i / (w as int)) as i32,
            data[i],
        )
    }
}

/// The number of pixels an image blit draws: the area, or fewer if the data
/// runs out.
pub open spec fn image_count(w: u32, h: u32, len: nat) -> nat {
    if (w as nat) * (h as nat) < len {
        (w as nat) * (h as nat)
    } else {
        len
    }
}

/// No points draw nothing; one point draws that pixel; three points draw
/// exactly the two segments between neighbours, in order.
pub proof fn lemma_polyline_shapes(p0: [i32; 2], p1: [i32; 2], p2: [i32; 2], c: Color)
    ensures
        polyline_ops(seq![], c) == Seq::<DrawOp>::empty(),
        polyline_ops(seq![p0], c) == pixel_ops(p0[0], p0[1], c),
        polyline_ops(seq![p0, p1, p2], c) == line_ops(p0[0], p0[1], p1[0], p1[1], c) + line_ops(
            p1[0],
            p1[1],
            p2[0],
            p2[1],
            c,
        ),
{
    let ps = seq![p0, p1, p2];
    assert(segment_ops(ps, c, 0) == Seq::<DrawOp>::empty());
    assert(segment_ops(ps, c, 1) =~= line_ops(p0[0], p0[1], p1[0], p1[1], c));
    assert(segment_ops(ps, c, 2) =~= line_ops(p0[0], p0[1], p1[0], p1[1], c) + line_ops(
        p1[0],
        p1[1],
        p2[0],
        p2[1],
        c,
    ));
}

/// Two or more points draw one segment per adjacent pair and nothing else.
pub proof fn lemma_polyline_segments(points: Seq<[i32; 2]>, c: Color, n: nat)
    requires
        n < points.len(),
    ensures
        segment_ops(points, c, n).len() == 3 * n,
        forall|k: int|
            0 <= k < n ==> (#[trigger] segment_ops(points, c, n).subrange(3 * k, 3 * k + 3))
                == line_ops(points[k][0], points[k][1], points[k + 1][0], points[k + 1][1], c),
    decreases n,
{
    if n > 0 {
        lemma_polyline_segments(points, c, (n - 1) as nat);
        let prev = segment_ops(points, c, (n - 1) as nat);
        let all = segment_ops(points, c, n);
        assert forall|k: int| 0 <= k < n implies #[trigger] all.subrange(3 * k, 3 * k + 3)
            == line_ops(points[k][0], points[k][1], points[k + 1][0], points[k + 1][1], c) by {
            if k < n - 1 {
                assert(all.subrange(3 * k, 3 * k + 3) =~= prev.subrange(3 * k, 3 * k + 3));
            } else {
                assert(all.subrange(3 * k, 3 * k + 3) =~= line_ops(
                    points[k][0],
                    points[k][1],
                    points[k + 1][0],
                    points[k + 1][1],
                    c,
                ));
            }
        }
    }
}

/// The first `n` entries of an image draw `n` pixels, entry `k` at column
/// `k % w` and row `k / w` with its own color.
pub proof fn lemma_image_pixels(x: i32, y: i32, w: u32, data: Seq<Color>, n: nat)
    requires
        n <= data.len(),
    ensures
        image_ops(x, y, w, data, n).len() == 3 * n,
        forall|k: int|
            0 <= k < n ==> (#[trigger] image_ops(x, y, w, data, n).subrange(3 * k, 3 * k + 3))
                == pixel_ops((x + k % (w as int)) as i32, (y + k / (w as int)) as i32, data[k]),
    decreases n,
{
    if n > 0 {
        lemma_image_pixels(x, y, w, data, (n - 1) as nat);
        let prev = image_ops(x, y, w, data, (n - 1) as nat);
        let all = image_ops(x, y, w, data, n);
        assert forall|k: int| 0 <= k < n implies #[trigger] all.subrange(3 * k, 3 * k + 3)
            == pixel_ops((x + k % (w as int)) as i32, (y + k / (w as int)) as i32, data[k]) by {
            if k < n - 1 {
                assert(all.subrange(3 * k, 3 * k + 3) =~= prev.subrange(3 * k, 3 * k + 3));
            } else {
                assert(all.subrange(3 * k, 3 * k + 3) =~= pixel_ops(
                    (x + k % (w as int)) as i32,
                    (y + k / (w as int)) as i32,
                    data[k],
                ));
            }
        }
    }
}

/// An image whose data is shorter than its area draws exactly one pixel per
/// entry of the data, in row-major order, and nothing more.
pub proof fn lemma_image_short_data(x: i32, y: i32, w: u32, h: u32, data: Seq<Color>)
    requires
        data.len() < (w as nat) * (h as nat),
    ensures
        image_count(w, h, data.len()) == data.len(),
        image_ops(x, y, w, data, image_count(w, h, data.len())).len() == 3 * data.len(),
        forall|k: int|
            0 <= k < data.len() ==> (#[trigger] image_ops(x, y, w, data, data.len()).subrange(
                3 * k,
                3 * k + 3,
            )) == pixel_ops((x + k % (w as int)) as i32, (y + k / (w as int)) as i32, data[k]),
{
    lemma_image_pixels(x, y, w, data, data.len());
}

proof fn lemma_blank_row(x: i32, y: int, n: nat)
    requires
        n <= 8,
    ensures
        row_points(x, y, 0, n) == Seq::<DrawOp>::empty(),
    decreases n,
{
    if n > 0 {
        lemma_blank_row(x, y, (n - 1) as nat);
        let col = (n - 1) as u8;
        assert(!lit(0, col)) by (bit_vector);
        assert(row_points(x, y, 0, n) =~= Seq::<DrawOp>::empty());
    }
}

proof fn lemma_blank_rows(font: Seq<u8>, c: char, x: i32, y: i32, n: nat)
    requires
        n <= 16,
        (c as int) * 16 >= font.len(),
    ensures
        glyph_points(font, c, x, y, n) == Seq::<DrawOp>::empty(),
    decreases n,
{
    if n > 0 {
        lemma_blank_rows(font, c, x, y, (n - 1) as nat);
        assert(font_row(font, c, n - 1) == 0);
        lemma_blank_row(x, y + n - 1, 8);
        assert(glyph_points(font, c, x, y, n) =~= Seq::<DrawOp>::empty());
    }
}

/// A character whose code is past the end of the font draws no point: only
/// the blend mode and color are set.
pub proof fn lemma_blank_glyph(font: Seq<u8>, c: char, x: i32, y: i32, color: Color)
    requires
        (c as int) * 16 >= font.len(),
    ensures
        char_ops(font, c, x, y, color) == seq![DrawOp::SetBlend(Blend::Alpha), color_op(color)],
{
    lemma_blank_rows(font, c, x, y, 16);
    assert(char_ops(font, c, x, y, color) =~= seq![DrawOp::SetBlend(Blend::Alpha), color_op(color)]);
}

} // verus!

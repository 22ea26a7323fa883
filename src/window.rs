use vstd::prelude::*;

use crate::color::{packed, Color};
use crate::draw::{
    char_ops, fill_ops, glyph_points, image_count, image_ops, line_ops, lit, pixel_ops,
    polyline_ops, rect_drawable, rect_ops, row_points, segment_ops, set_color_op, Blend, DrawOp, font_row, MAX_RECT_SIZE,
};

verus! {

/// A window's cached geometry and title, its polling mode, the font used for
/// characters, and the native draw calls recorded since they were last taken.
///
/// A new window has an empty font, so `char` draws nothing until a font is
/// given with `set_font`.
pub struct Window {
    pub x: i32,
    pub y: i32,
    pub w: u32,
    pub h: u32,
    pub t: String,
    /// Polling never waits for input.
    pub async_mode: bool,
    /// 16 bytes per character code, one per glyph row, leftmost pixel in the
    /// highest bit.
    pub font: Vec<u8>,
    /// Native draw calls not yet taken.
    pub ops: Vec<DrawOp>,
}

impl Window {
    /// Everything but the recorded draw calls is as in `other`.
    pub open spec fn same_settings(&self, other: &Window) -> bool {
        self.x == other.x && self.y == other.y && self.w == other.w && self.h == other.h
            && self.t == other.t && self.async_mode == other.async_mode && self.font == other.font
    }

    /// A window that waits for input when polled, with an empty font (see
    /// `new_flags`).
    pub fn new(x: i32, y: i32, w: u32, h: u32, title: &str) -> (r: Window)
        ensures
            r.x == x && r.y == y && r.w == w && r.h == h,
            r.t@ == title@,
            !r.async_mode,
            r.font@.len() == 0,
            r.ops@.len() == 0,
    {
        Window::new_flags(x, y, w, h, title, false)
    }

    /// A window with the given polling mode. Its font is empty: characters are
    /// blank until `set_font` supplies one.
    pub fn new_flags(x: i32, y: i32, w: u32, h: u32, title: &str, async_mode: bool) -> (r: Window)
        ensures
            r.x == x && r.y == y && r.w == w && r.h == h,
            r.t@ == title@,
            r.async_mode == async_mode,
            r.font@.len() == 0,
            r.ops@.len() == 0,
    {
        Window {
            x: x,
            y: y,
            w: w,
            h: h,
            t: title.to_string(),
            async_mode: async_mode,
            font: Vec::new(),
            ops: Vec::new(),
        }
    }

    /// The position to ask the window system for: the given one if either
    /// coordinate is non-negative, else none (the system places the window).
    pub fn requested_position(&self) -> (r: Option<(i32, i32)>)
        ensures
            r == (if self.x >= 0 || self.y >= 0 {
                Some((self.x, self.y))
            } else {
                None
            }),
    {
        if self.x >= 0 || self.y >= 0 {
            Some((self.x, self.y))
        } else {
            None
        }
    }

    /// Refreshes the cached geometry and title from the native window's.
    pub fn sync_path(&mut self, x: i32, y: i32, w: u32, h: u32, title: &str)
        ensures
            final(self).x == x && final(self).y == y,
            final(self).w == w && final(self).h == h,
            final(self).t@ == title@,
            final(self).async_mode == old(self).async_mode,
            final(self).font == old(self).font,
            final(self).ops == old(self).ops,
    {
        self.x = x;
        self.y = y;
        self.w = w;
        self.h = h;
        self.t = title.to_string();
    }

    pub fn x(&self) -> (r: i32)
        ensures
            r == self.x,
    {
        self.x
    }

    pub fn y(&self) -> (r: i32)
        ensures
            r == self.y,
    {
        self.y
    }

    pub fn width(&self) -> (r: u32)
        ensures
            r == self.w,
    {
        self.w
    }

    pub fn height(&self) -> (r: u32)
        ensures
            r == self.h,
    {
        self.h
    }

    pub fn title(&self) -> (r: String)
        ensures
            r@ == self.t@,
    {
        self.t.clone()
    }

    /// Sets the cached title.
    pub fn set_title(&mut self, title: &str)
        ensures
            final(self).t@ == title@,
            final(self).x == old(self).x && final(self).y == old(self).y,
            final(self).w == old(self).w && final(self).h == old(self).h,
            final(self).async_mode == old(self).async_mode,
            final(self).font == old(self).font,
            final(self).ops == old(self).ops,
    {
        self.t = title.to_string();
    }

    /// Whether polling never waits for input.
    pub fn is_async(&self) -> (r: bool)
        ensures
            r == self.async_mode,
    {
        self.async_mode
    }

    /// Replaces the font used by `char`.
    pub fn set_font(&mut self, font: Vec<u8>)
        ensures
            final(self).font@ == font@,
            final(self).x == old(self).x && final(self).y == old(self).y,
            final(self).w == old(self).w && final(self).h == old(self).h,
            final(self).t == old(self).t,
            final(self).async_mode == old(self).async_mode,
            final(self).ops == old(self).ops,
    {
        self.font = font;
    }

    /// Hands out the recorded draw calls, oldest first, and forgets them.
    pub fn take_ops(&mut self) -> (r: Vec<DrawOp>)
        ensures
            r@ == old(self).ops@,
            final(self).ops@.len() == 0,
            final(self).same_settings(old(self)),
    {
        let mut taken: Vec<DrawOp> = Vec::new();
        std::mem::swap(&mut taken, &mut self.ops);
        taken
    }

    /// Draws a pixel.
    pub fn pixel(&mut self, x: i32, y: i32, color: Color)
        ensures
            final(self).ops@ == old(self).ops@ + pixel_ops(x, y, color),
            final(self).same_settings(old(self)),
    {
        self.ops.push(DrawOp::SetBlend(Blend::Alpha));
        self.ops.push(set_color_op(color));
        self.ops.push(DrawOp::Point { x: x, y: y });
        assert(self.ops@ =~= old(self).ops@ + pixel_ops(x, y, color));
    }

    /// Draws a line.
    pub fn line(&mut self, argx1: i32, argy1: i32, argx2: i32, argy2: i32, color: Color)
        ensures
            final(self).ops@ == old(self).ops@ + line_ops(argx1, argy1, argx2, argy2, color),
            final(self).same_settings(old(self)),
    {
        self.ops.push(DrawOp::SetBlend(Blend::Alpha));
        self.ops.push(set_color_op(color));
        self.ops.push(DrawOp::Line { x1: argx1, y1: argy1, x2: argx2, y2: argy2 });
        assert(self.ops@ =~= old(self).ops@ + line_ops(argx1, argy1, argx2, argy2, color));
    }

    /// Draws lines from point to point; a single point draws a pixel.
    pub fn lines(&mut self, points: &[[i32; 2]], color: Color)
        ensures
            final(self).ops@ == old(self).ops@ + polyline_ops(points@, color),
            final(self).same_settings(old(self)),
    {
        if points.len() == 0 {
            assert(old(self).ops@ + polyline_ops(points@, color) =~= old(self).ops@);
        } else if points.len() == 1 {
            self.pixel(points[0][0], points[0][1], color);
        } else {
            let n = points.len() - 1;
            let mut i: usize = 0;
            while i < n
                invariant
                    n == points@.len() - 1,
                    i <= n,
                    self.ops@ == old(self).ops@ + segment_ops(points@, color, i as nat),
                    self.same_settings(old(self)),
                decreases n - i,
            {
                self.line(points[i][0], points[i][1], points[i + 1][0], points[i + 1][1], color);
                assert(segment_ops(points@, color, (i + 1) as nat) == segment_ops(
                    points@,
                    color,
                    i as nat,
                ) + line_ops(points@[i as int][0], points@[i as int][1], points@[i + 1][0], points@[i + 1][1], color));
                i = i + 1;
                assert(self.ops@ =~= old(self).ops@ + segment_ops(points@, color, i as nat));
            }
        }
    }

    /// Paints the whole surface with a color, without blending.
    pub fn set(&mut self, color: Color)
        ensures
            final(self).ops@ == old(self).ops@ + fill_ops(color),
            final(self).same_settings(old(self)),
    {
        self.ops.push(DrawOp::SetBlend(Blend::Off));
        self.ops.push(set_color_op(color));
        self.ops.push(DrawOp::Clear);
        assert(self.ops@ =~= old(self).ops@ + fill_ops(color));
    }

    /// Paints the whole surface opaque black.
    pub fn clear(&mut self)
        ensures
            final(self).ops@ == old(self).ops@ + fill_ops(Color { data: packed(0xFF, 0, 0, 0) }),
            final(self).same_settings(old(self)),
    {
        self.set(Color::rgb(0, 0, 0));
    }

    /// Fills a rectangle; one with an empty side, or a side past the native
    /// limit, is skipped without drawing anything.
    pub fn rect(&mut self, start_x: i32, start_y: i32, w: u32, h: u32, color: Color)
        ensures
            !rect_drawable(w, h) ==> final(self).ops@ == old(self).ops@,
            rect_drawable(w, h) ==> final(self).ops@ == old(self).ops@ + rect_ops(
                start_x,
                start_y,
                w,
                h,
                color,
            ),
            final(self).same_settings(old(self)),
    {
        if w > 0 && w <= MAX_RECT_SIZE && h > 0 && h <= MAX_RECT_SIZE {
            self.ops.push(DrawOp::SetBlend(Blend::Alpha));
            self.ops.push(set_color_op(color));
            self.ops.push(DrawOp::FillRect { x: start_x, y: start_y, w: w, h: h });
            assert(self.ops@ =~= old(self).ops@ + rect_ops(start_x, start_y, w, h, color));
        }
    }

    /// Shows what has been drawn; always succeeds.
    pub fn sync(&mut self) -> (r: bool)
        ensures
            r,
            final(self).ops@ == old(self).ops@.push(DrawOp::Present),
            final(self).same_settings(old(self)),
    {
        self.ops.push(DrawOp::Present);
        true
    }

    /// Draws a character with the window's font: a point for each lit cell of
    /// its 8x16 glyph, rows top to bottom, columns left to right. Character
    /// codes past the end of the font are blank, and so is every character
    /// while the font is empty. Cells whose coordinates would pass `i32::MAX`
    /// lie outside any surface and are not drawn.
    pub fn char(&mut self, x: i32, y: i32, c: char, color: Color)
        ensures
            final(self).ops@ == old(self).ops@ + char_ops(old(self).font@, c, x, y, color),
            final(self).same_settings(old(self)),
    {
        self.ops.push(DrawOp::SetBlend(Blend::Alpha));
        self.ops.push(set_color_op(color));
        let ghost base = self.ops@;
        let mut offset: usize = (c as u32 as usize) * 16;
        let mut row: u8 = 0;
        while row < 16
            invariant
                row <= 16,
                offset == (c as int) * 16 + row,
                self.same_settings(old(self)),
                base == old(self).ops@ + seq![DrawOp::SetBlend(Blend::Alpha), crate::draw::color_op(color)],
                self.ops@ == base + glyph_points(self.font@, c, x, y, row as nat),
            decreases 16 - row,
        {
            let row_data: u8 = if offset < self.font.len() {
                self.font[offset]
            } else {
                0
            };
            assert(row_data == font_row(self.font@, c, row as int));
            let ghost before_row = self.ops@;
            let ry: i64 = y as i64 + row as i64;
            let mut col: u8 = 0;
            while col < 8
                invariant
                    col <= 8,
                    row < 16,
                    ry == y + row,
                    self.same_settings(old(self)),
                    self.ops@ == before_row + row_points(x, ry as int, row_data, col as nat),
                decreases 8 - col,
            {
                let pixel = (row_data >> (7 - col)) & 1;
                if pixel > 0 {
                    let px: i64 = x as i64 + col as i64;
                    if px <= i32::MAX as i64 && ry <= i32::MAX as i64 {
                        self.ops.push(DrawOp::Point { x: px as i32, y: ry as i32 });
                    }
                }
                assert(lit(row_data, col) == (pixel > 0));
                col = col + 1;
                assert(self.ops@ =~= before_row + row_points(x, ry as int, row_data, col as nat));
            }
            offset = offset + 1;
            row = row + 1;
            assert(self.ops@ =~= base + glyph_points(self.font@, c, x, y, row as nat));
        }
        assert(self.ops@ =~= old(self).ops@ + char_ops(old(self).font@, c, x, y, color));
    }

    /// Draws an image `w` wide and `h` high at (start_x, start_y), one pixel
    /// per entry of `data` in row-major order; if `data` is shorter than the
    /// area, the pixels past its end are not drawn.
    pub fn image(&mut self, start_x: i32, start_y: i32, w: u32, h: u32, data: &[Color])
        requires
            w <= i32::MAX as u32,
            h <= i32::MAX as u32,
            start_x as int + w as int <= i32::MAX,
            start_y as int + h as int <= i32::MAX,
        ensures
            final(self).ops@ == old(self).ops@ + image_ops(
                start_x,
                start_y,
                w,
                data@,
                image_count(w, h, data@.len()),
            ),
            final(self).same_settings(old(self)),
    {
        let len: u64 = data.len() as u64;
        let mut i: u64 = 0;
        let mut row: u32 = 0;
        while row < h
            invariant
                row <= h,
                len == data@.len(),
                i == row as int * w as int,
                w <= i32::MAX as u32,
                h <= i32::MAX as u32,
                start_x as int + w as int <= i32::MAX,
                start_y as int + h as int <= i32::MAX,
                self.same_settings(old(self)),
                self.ops@ == old(self).ops@ + image_ops(
                    start_x,
                    start_y,
                    w,
                    data@,
                    if i < len { i as nat } else { len as nat },
                ),
            decreases h - row,
        {
            let mut col: u32 = 0;
            while col < w
                invariant
                    row < h,
                    col <= w,
                    len == data@.len(),
                    i == row as int * w as int + col as int,
                    w <= i32::MAX as u32,
                    h <= i32::MAX as u32,
                    start_x as int + w as int <= i32::MAX,
                    start_y as int + h as int <= i32::MAX,
                    self.same_settings(old(self)),
                    self.ops@ == old(self).ops@ + image_ops(
                        start_x,
                        start_y,
                        w,
                        data@,
                        if i < len { i as nat } else { len as nat },
                    ),
                decreases w - col,
            {
                assert((row as int) * (w as int) + (col as int) < (h as int) * (w as int)) by (nonlinear_arith)
                    requires
                        row < h,
                        col < w,
                ;
                assert(h as int * w as int <= 0xFFFF_FFFF * 0xFFFF_FFFF) by (nonlinear_arith);
                if i < len {
                    let ghost gi = i as int;
                    proof {
                        vstd::arithmetic::div_mod::lemma_fundamental_div_mod_converse(
                            gi,
                            w as int,
                            row as int,
                            col as int,
                        );
                    }
                    let ghost mid = self.ops@;
                    self.pixel(start_x + col as i32, start_y + row as i32, data[i as usize]);
                    assert(image_ops(start_x, start_y, w, data@, (gi + 1) as nat) == image_ops(
                        start_x,
                        start_y,
                        w,
                        data@,
                        gi as nat,
                    ) + pixel_ops(
                        (start_x + gi % (w as int)) as i32,
                        (start_y + gi / (w as int)) as i32,
                        data@[gi],
                    ));
                    assert(self.ops@ =~= old(self).ops@ + image_ops(
                        start_x,
                        start_y,
                        w,
                        data@,
                        (gi + 1) as nat,
                    ));
                }
                i = i + 1;
                col = col + 1;
            }
            assert(i == (row as int + 1) * w as int) by (nonlinear_arith)
                requires
                    i == row as int * w as int + w as int,
            ;
            row = row + 1;
        }
        assert(i == h as int * w as int);
        assert((w as nat) * (h as nat) == h as int * w as int) by (nonlinear_arith);
    }
}

} // verus!

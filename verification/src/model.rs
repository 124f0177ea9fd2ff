//! The mathematical model of an image buffer: every header field, the
//! location of each pixel, and the effect of reading or writing one, stated
//! over the buffer's byte sequence.

use vstd::prelude::*;

use crate::constants::{
    HEADER_COLORS_USED, HEADER_COMPRESSION_OFFSET, HEADER_FILE_SIZE, HEADER_HEIGHT_OFFSET,
    HEADER_IMAGE_SIZE, HEADER_IMPORTANT_COLORS, HEADER_PIXEL_ARRAY_OFFSET, HEADER_PLANES_OFFSET,
    HEADER_WIDTH_OFFSET, HEADER_BITS_PER_PIXEL, INFOHEADER_SIZE_OFFSET, TOTAL_HEADER_SIZE,
};
use crate::font::{spec_glyph_bit, FONT_GLYPH_COUNT};
use crate::{Point, Rgb};

verus! {

/// Little-endian value of the two bytes at `off`.
pub open spec fn spec_le_u16(s: Seq<u8>, off: int) -> int {
    s[off] + 0x100 * s[off + 1]
}

/// Little-endian value of the four bytes at `off`.
pub open spec fn spec_le_u32(s: Seq<u8>, off: int) -> int {
    s[off] + 0x100 * s[off + 1] + 0x1_0000 * s[off + 2] + 0x100_0000 * s[off + 3]
}

/// Total length of the file as recorded in the header.
pub open spec fn spec_file_size(s: Seq<u8>) -> int {
    spec_le_u32(s, HEADER_FILE_SIZE as int)
}

/// Byte offset of the pixel array, as the accessor reads it: a single byte.
pub open spec fn spec_pixel_array_offset(s: Seq<u8>) -> int {
    s[HEADER_PIXEL_ARRAY_OFFSET as int] as int
}

/// Recorded size of the info header.
pub open spec fn spec_info_header_size(s: Seq<u8>) -> int {
    spec_le_u32(s, INFOHEADER_SIZE_OFFSET as int)
}

/// Image width in pixels.
pub open spec fn spec_width(s: Seq<u8>) -> int {
    spec_le_u32(s, HEADER_WIDTH_OFFSET as int)
}

/// Image height in pixels.
pub open spec fn spec_height(s: Seq<u8>) -> int {
    spec_le_u32(s, HEADER_HEIGHT_OFFSET as int)
}

/// Number of color planes.
pub open spec fn spec_planes(s: Seq<u8>) -> int {
    spec_le_u16(s, HEADER_PLANES_OFFSET as int)
}

/// Color depth in bits per pixel, as the accessor reads it: a single byte.
pub open spec fn spec_bits_per_pixel(s: Seq<u8>) -> int {
    s[HEADER_BITS_PER_PIXEL as int] as int
}

/// Compression mode field.
pub open spec fn spec_compression(s: Seq<u8>) -> int {
    spec_le_u32(s, HEADER_COMPRESSION_OFFSET as int)
}

/// Recorded size of the pixel array.
pub open spec fn spec_image_size(s: Seq<u8>) -> int {
    spec_le_u32(s, HEADER_IMAGE_SIZE as int)
}

/// Number of palette colors in use.
pub open spec fn spec_colors_used(s: Seq<u8>) -> int {
    spec_le_u32(s, HEADER_COLORS_USED as int)
}

/// Number of important palette colors.
pub open spec fn spec_important_colors(s: Seq<u8>) -> int {
    spec_le_u32(s, HEADER_IMPORTANT_COLORS as int)
}

/// Bytes taken by one pixel; the color depth must be byte aligned.
pub open spec fn spec_bytes_per_pixel(s: Seq<u8>) -> int {
    spec_bits_per_pixel(s) / 8
}

/// Bytes of color data in one scan line, before padding.
pub open spec fn spec_row_width(s: Seq<u8>) -> int {
    spec_width(s) * spec_bytes_per_pixel(s)
}

/// Zero bytes appended to each scan line to reach a 4-byte boundary.
pub open spec fn spec_padding_per_line(s: Seq<u8>) -> int {
    (4 - spec_row_width(s) % 4) % 4
}

/// Bytes of one scan line as stored, padding included.
pub open spec fn spec_padded_row_width(s: Seq<u8>) -> int {
    spec_row_width(s) + spec_padding_per_line(s)
}

/// Whether the buffer opens with the ASCII signature bytes `B`, `M`.
pub open spec fn spec_has_signature(s: Seq<u8>) -> bool {
    s.len() >= 2 && s[0] == 66u8 && s[1] == 77u8
}

/// The admission test every pixel operation makes: the buffer carries the signature
/// and the coordinate lies inside the recorded dimensions.
pub open spec fn spec_point_exists(s: Seq<u8>, x: int, y: int) -> bool {
    &&& spec_has_signature(s)
    &&& y < spec_height(s)
    &&& x < spec_width(s)
}

/// Linear byte offset of the pixel at `(x, y)`: rows are padded, and row `y`
/// is addressed directly, so row 0 names the first stored scan line.
pub open spec fn spec_pixel_offset(s: Seq<u8>, x: int, y: int) -> int {
    y * spec_padded_row_width(s) + x * spec_bytes_per_pixel(s) + spec_pixel_array_offset(s)
}

/// The defensive check both pixel accessors make: all three color bytes fall
/// inside the buffer.
pub open spec fn spec_pixel_in_bounds(s: Seq<u8>, x: int, y: int) -> bool {
    spec_pixel_offset(s, x, y) + 2 < s.len()
}

/// Effect of a pixel write: blue, green, red stored in that order at the
/// pixel's offset; a write that fails either admission test leaves the buffer as it was.
pub open spec fn spec_write_pixel(s: Seq<u8>, x: int, y: int, c: Rgb) -> Seq<u8> {
    if spec_point_exists(s, x, y) && spec_pixel_in_bounds(s, x, y) {
        let o = spec_pixel_offset(s, x, y);
        s.update(o, c.b).update(o + 1, c.g).update(o + 2, c.r)
    } else {
        s
    }
}

/// Absolute value over the integers.
pub open spec fn spec_abs(a: int) -> int {
    if a >= 0 {
        a
    } else {
        -a
    }
}

/// One walk of the integer line algorithm, starting from the running state
/// `(x0, y0, err)`: plot the current point, stop at the endpoint, otherwise
/// advance along x when `2 * err > -dy` and along y when `2 * err < dx`.
/// `dx`, `dy`, `sx`, `sy` are fixed by the endpoints; `fuel` only bounds the
/// recursion and never runs out on the walks the drawing function takes.
pub open spec fn spec_line_model(
    s: Seq<u8>,
    x0: int,
    y0: int,
    x1: int,
    y1: int,
    dx: int,
    dy: int,
    sx: int,
    sy: int,
    err: int,
    c: Rgb,
    fuel: nat,
) -> Seq<u8>
    decreases fuel,
{
    let s1 = spec_write_pixel(s, x0, y0, c);
    if x0 == x1 && y0 == y1 {
        s1
    } else if fuel == 0 {
        s1
    } else {
        let e2 = 2 * err;
        let xn = if e2 > -dy {
            x0 + sx
        } else {
            x0
        };
        let err1 = if e2 > -dy {
            err - dy
        } else {
            err
        };
        let yn = if e2 < dx {
            y0 + sy
        } else {
            y0
        };
        let errn = if e2 < dx {
            err1 + dx
        } else {
            err1
        };
        spec_line_model(s1, xn, yn, x1, y1, dx, dy, sx, sy, errn, c, (fuel - 1) as nat)
    }
}

/// Effect of drawing the line from `start` to `end`: the pixel writes of the
/// integer line algorithm, in the order it makes them.
pub open spec fn spec_draw_line(s: Seq<u8>, start: Point, end: Point, c: Rgb) -> Seq<u8> {
    let x0 = start.x as int;
    let y0 = start.y as int;
    let x1 = end.x as int;
    let y1 = end.y as int;
    let dx = spec_abs(x1 - x0);
    let dy = spec_abs(y1 - y0);
    let sx: int = if x0 < x1 {
        1
    } else {
        -1
    };
    let sy: int = if y0 < y1 {
        1
    } else {
        -1
    };
    spec_line_model(s, x0, y0, x1, y1, dx, dy, sx, sy, dx - dy, c, (dx + dy) as nat)
}

/// Effect of drawing a rectangle from two opposite corners: the two derived
/// corners complete the box, and its four edges are drawn as lines, in order.
pub open spec fn spec_draw_rectangle(s: Seq<u8>, point1: Point, point2: Point, c: Rgb) -> Seq<u8> {
    let point3 = Point { x: point1.x, y: point2.y };
    let point4 = Point { x: point2.x, y: point1.y };
    spec_draw_line(
        spec_draw_line(
            spec_draw_line(spec_draw_line(s, point1, point3, c), point3, point2, c),
            point2,
            point4,
            c,
        ),
        point4,
        point1,
        c,
    )
}

/// One scan of a circle's bounding box row `y`, over columns `x` to `xmax`:
/// a point is painted exactly when its squared distance to the center is at
/// most `radius` squared.
pub open spec fn spec_circle_row(
    s: Seq<u8>,
    cx: int,
    cy: int,
    radius: int,
    c: Rgb,
    y: int,
    x: int,
    xmax: int,
) -> Seq<u8>
    decreases xmax + 1 - x,
{
    if x > xmax {
        s
    } else {
        let dx = x - cx;
        let dy = y - cy;
        let s1 = if dx * dx + dy * dy <= radius * radius {
            spec_write_pixel(s, x, y, c)
        } else {
            s
        };
        spec_circle_row(s1, cx, cy, radius, c, y, x + 1, xmax)
    }
}

/// The scans of a circle's bounding box from row `y` to row `ymax`.
pub open spec fn spec_circle_rows(
    s: Seq<u8>,
    cx: int,
    cy: int,
    radius: int,
    c: Rgb,
    y: int,
    ymax: int,
    xmin: int,
    xmax: int,
) -> Seq<u8>
    decreases ymax + 1 - y,
{
    if y > ymax {
        s
    } else {
        let s1 = spec_circle_row(s, cx, cy, radius, c, y, xmin, xmax);
        spec_circle_rows(s1, cx, cy, radius, c, y + 1, ymax, xmin, xmax)
    }
}

/// Effect of drawing a filled disk: every point of the bounding square whose
/// squared distance to the center is at most the radius squared, scanned row
/// by row. The box clamps to the coordinate range instead of wrapping.
pub open spec fn spec_draw_circle(s: Seq<u8>, center: Point, radius: u32, c: Rgb) -> Seq<u8> {
    let cx = center.x as int;
    let cy = center.y as int;
    let r = radius as int;
    let xmin = if cx - r >= 0 {
        cx - r
    } else {
        0
    };
    let xmax = if cx + r <= u32::MAX as int {
        cx + r
    } else {
        u32::MAX as int
    };
    let ymin = if cy - r >= 0 {
        cy - r
    } else {
        0
    };
    let ymax = if cy + r <= u32::MAX as int {
        cy + r
    } else {
        u32::MAX as int
    };
    spec_circle_rows(s, cx, cy, r, c, ymin, ymax, xmin, xmax)
}

/// The open chain of a polygon: the lines between consecutive points, from
/// the edge leaving point `i` onward.
pub open spec fn spec_polygon_chain(s: Seq<u8>, points: Seq<Point>, i: int, c: Rgb) -> Seq<u8>
    decreases points.len() - i,
{
    if i < 0 || i + 1 >= points.len() {
        s
    } else {
        spec_polygon_chain(spec_draw_line(s, points[i], points[i + 1], c), points, i + 1, c)
    }
}

/// Effect of drawing a polygon: the chain of consecutive edges, closed by a
/// final line from the first point back to the last.
pub open spec fn spec_draw_polygon(s: Seq<u8>, points: Seq<Point>, c: Rgb) -> Seq<u8> {
    spec_draw_line(
        spec_polygon_chain(s, points, 0, c),
        points[0],
        points[points.len() - 1],
        c,
    )
}

/// The pixels of glyph row `row` from bit column `col` rightward: a set bit
/// paints the point at the mirrored x offset `7 - col` and y offset `row`.
pub open spec fn spec_char_cols(
    s: Seq<u8>,
    char_index: int,
    px: int,
    py: int,
    c: Rgb,
    row: int,
    col: int,
) -> Seq<u8>
    decreases 8 - col,
{
    if col < 0 || col >= 8 {
        s
    } else {
        let s1 = if spec_glyph_bit(char_index, row, col) {
            spec_write_pixel(s, px + 7 - col, py + row, c)
        } else {
            s
        };
        spec_char_cols(s1, char_index, px, py, c, row, col + 1)
    }
}

/// The rows of a glyph from `row` down to 0, each drawn column by column.
pub open spec fn spec_char_rows(
    s: Seq<u8>,
    char_index: int,
    px: int,
    py: int,
    c: Rgb,
    row: int,
) -> Seq<u8>
    decreases row + 1,
{
    if row < 0 {
        s
    } else {
        spec_char_rows(
            spec_char_cols(s, char_index, px, py, c, row, 0),
            char_index,
            px,
            py,
            c,
            row - 1,
        )
    }
}

/// Effect of drawing one glyph with its lower-left pixel at `(px, py)`; an
/// index outside the atlas changes nothing.
pub open spec fn spec_draw_char(s: Seq<u8>, char_index: int, px: int, py: int, c: Rgb) -> Seq<u8> {
    if 0 <= char_index < FONT_GLYPH_COUNT as int {
        spec_char_rows(s, char_index, px, py, c, 7)
    } else {
        s
    }
}

/// The glyphs of `text` from index `i` on: each character maps to the glyph
/// at its code point minus 32 (the drawing function admits only printable
/// ASCII, where the byte cast below is the code point), and the cursor
/// advances 8 pixels per glyph.
pub open spec fn spec_string_chars(
    s: Seq<u8>,
    text: Seq<char>,
    i: int,
    x: int,
    y: int,
    c: Rgb,
) -> Seq<u8>
    decreases text.len() - i,
{
    if i < 0 || i >= text.len() {
        s
    } else {
        spec_string_chars(
            spec_draw_char(s, text[i] as u8 - 32, x, y, c),
            text,
            i + 1,
            x + 8,
            y,
            c,
        )
    }
}

/// Effect of drawing `text` with its first glyph at `position`.
pub open spec fn spec_draw_string(s: Seq<u8>, text: Seq<char>, position: Point, c: Rgb) -> Seq<u8> {
    spec_string_chars(s, text, 0, position.x as int, position.y as int, c)
}

/// Whether the construction parameters are supported: no degenerate image,
/// and a color depth that is a positive multiple of 8.
pub open spec fn spec_params_supported(width: u32, height: u32, bpp: u16) -> bool {
    &&& width > 0
    &&& height > 0
    &&& bpp > 0
    &&& (bpp as int) % 8 == 0
}

/// Stored width of one scan line for the given construction parameters:
/// color bytes, padded to the next 4-byte boundary.
pub open spec fn spec_padded_width_of(width: int, bpp: int) -> int {
    let row_width = width * (bpp / 8);
    row_width + (4 - row_width % 4) % 4
}

/// Total buffer length for the given construction parameters: the padded
/// pixel array plus the full header.
pub open spec fn spec_buffer_size_of(width: int, height: int, bpp: int) -> int {
    spec_padded_width_of(width, bpp) * height + TOTAL_HEADER_SIZE
}

/// Result of a pixel read: the three color bytes in blue, green, red order,
/// or nothing when either admission test fails.
pub open spec fn spec_read_pixel(s: Seq<u8>, x: int, y: int) -> Option<Rgb> {
    if spec_point_exists(s, x, y) && spec_pixel_in_bounds(s, x, y) {
        let o = spec_pixel_offset(s, x, y);
        Some(Rgb { r: s[o + 2], g: s[o + 1], b: s[o] })
    } else {
        None
    }
}

/// Law: writing a pixel and then reading the same point returns exactly the
/// color written. This holds whenever the point exists, its three bytes lie
/// inside the buffer, and the recorded pixel array offset places pixel data
/// behind the header, as it does in every constructed buffer: the write can
/// then touch no header field the admission tests depend on.
pub proof fn lemma_pixel_round_trip(s: Seq<u8>, x: int, y: int, c: Rgb)
    requires
        0 <= x,
        0 <= y,
        spec_point_exists(s, x, y),
        spec_pixel_in_bounds(s, x, y),
        spec_pixel_array_offset(s) >= TOTAL_HEADER_SIZE as int,
    ensures
        spec_read_pixel(spec_write_pixel(s, x, y, c), x, y) == Some(c),
{
    let o = spec_pixel_offset(s, x, y);
    let t = spec_write_pixel(s, x, y, c);
    assert(spec_row_width(s) >= 0) by (nonlinear_arith)
        requires
            spec_width(s) >= 0,
            spec_bytes_per_pixel(s) >= 0,
    ;
    assert(y * spec_padded_row_width(s) >= 0) by (nonlinear_arith)
        requires
            y >= 0,
            spec_padded_row_width(s) >= 0,
    ;
    assert(x * spec_bytes_per_pixel(s) >= 0) by (nonlinear_arith)
        requires
            x >= 0,
            spec_bytes_per_pixel(s) >= 0,
    ;
    assert(o >= TOTAL_HEADER_SIZE as int);
    // Every byte the admission tests read lies in the header, below the write.
    assert(forall|i: int| 0 <= i < TOTAL_HEADER_SIZE as int ==> t[i] == s[i]);
    assert(spec_width(t) == spec_width(s));
    assert(spec_height(t) == spec_height(s));
    assert(spec_bits_per_pixel(t) == spec_bits_per_pixel(s));
    assert(spec_pixel_array_offset(t) == spec_pixel_array_offset(s));
    assert(spec_has_signature(t) == spec_has_signature(s));
    assert(spec_pixel_offset(t, x, y) == o);
    assert(t[o] == c.b);
    assert(t[o + 1] == c.g);
    assert(t[o + 2] == c.r);
}

/// Law: no pixel exists at a coordinate outside the recorded dimensions, nor
/// anywhere on a buffer that does not carry the signature.
pub proof fn lemma_point_exists_bounds(s: Seq<u8>, x: int, y: int)
    ensures
        x >= spec_width(s) ==> !spec_point_exists(s, x, y),
        y >= spec_height(s) ==> !spec_point_exists(s, x, y),
        !spec_has_signature(s) ==> !spec_point_exists(s, x, y),
{
}

} // verus!

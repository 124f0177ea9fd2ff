//! Construction of uncompressed bitmap images in memory: a fixed binary
//! header, a padded pixel array, bounds-checked pixel access, and shape and
//! text rasterization built on top of it.

mod constants;
pub use crate::constants::{
    HEADER_COLORS_USED, HEADER_COMPRESSION_OFFSET, HEADER_FILE_SIZE, HEADER_HEIGHT_OFFSET,
    HEADER_IMAGE_SIZE, HEADER_IMPORTANT_COLORS, HEADER_PIXEL_ARRAY_OFFSET, HEADER_PLANES_OFFSET,
    HEADER_SIZE, HEADER_WIDTH_OFFSET, HEADER_BITS_PER_PIXEL, INFOHEADER_SIZE,
    INFOHEADER_SIZE_OFFSET, TOTAL_HEADER_SIZE,
};

mod font;
pub use crate::font::{FONT_BITMAP, FONT_GLYPH_COUNT, FONT_HEIGHT, FONT_WIDTH};

mod get;
pub use get::Get;

pub mod model;

use vstd::prelude::*;

use crate::model::{
    spec_abs, spec_buffer_size_of, spec_char_cols, spec_char_rows, spec_circle_row,
    spec_circle_rows, spec_colors_used, spec_compression, spec_draw_char, spec_draw_circle,
    spec_draw_line, spec_draw_polygon, spec_draw_rectangle, spec_draw_string, spec_file_size,
    spec_has_signature, spec_height, spec_image_size, spec_important_colors,
    spec_info_header_size, spec_le_u16, spec_le_u32, spec_line_model, spec_padded_width_of,
    spec_params_supported, spec_pixel_array_offset, spec_pixel_offset, spec_planes,
    spec_point_exists, spec_polygon_chain, spec_string_chars, spec_width, spec_write_pixel,
};

verus! {

/// A pixel coordinate. Row 0 names the first stored scan line.
#[derive(Clone, Copy, PartialEq, Eq, Structural, Debug)]
pub struct Point {
    pub x: u32,
    pub y: u32,
}

/// A color with three 8-bit channels; stored in the buffer as blue, green,
/// red.
#[derive(Clone, Copy, PartialEq, Eq, Structural, Debug)]
pub struct Rgb {
    pub r: u8,
    pub g: u8,
    pub b: u8,
}

/// Why an image buffer could not be created.
#[derive(Clone, Copy, PartialEq, Eq, Structural, Debug)]
pub enum BitmapError {
    /// The dimensions or the color depth are unsupported: a zero width or
    /// height, or a bit depth that is not a positive multiple of 8.
    UnsupportedFormat,
}

/// Construction of an image buffer and drawing operations on it.
pub trait Bitmap: Get {
    /// Builds a zero-filled image buffer with its header fields written:
    /// signature, pixel array offset, dimensions, color depth, file size,
    /// plane count and info header size. Unsupported parameters fail fast,
    /// before anything is allocated.
    fn new_bitmap(width: u32, height: u32, bpp: u16) -> (r: Result<Vec<u8>, BitmapError>)
        requires
            spec_params_supported(width, height, bpp) ==> spec_buffer_size_of(
                width as int,
                height as int,
                bpp as int,
            ) <= u32::MAX,
        ensures
            match r {
                Ok(v) => {
                    &&& spec_params_supported(width, height, bpp)
                    &&& v@.len() == spec_buffer_size_of(width as int, height as int, bpp as int)
                    &&& spec_has_signature(v@)
                    &&& spec_width(v@) == width as int
                    &&& spec_height(v@) == height as int
                    &&& spec_le_u16(v@, HEADER_BITS_PER_PIXEL as int) == bpp as int
                    &&& spec_file_size(v@) == v@.len() as int
                    &&& spec_planes(v@) == 1
                    &&& spec_info_header_size(v@) == INFOHEADER_SIZE as int
                    &&& spec_pixel_array_offset(v@) == TOTAL_HEADER_SIZE as int
                    &&& spec_compression(v@) == 0
                    &&& spec_image_size(v@) == 0
                    &&& spec_colors_used(v@) == 0
                    &&& spec_important_colors(v@) == 0
                    &&& forall|i: int|
                        TOTAL_HEADER_SIZE as int <= i < v@.len() ==> v@[i] == 0u8
                },
                Err(e) => {
                    &&& !spec_params_supported(width, height, bpp)
                    &&& e == BitmapError::UnsupportedFormat
                },
            },
    ;

    /// Checks whether the buffer opens with the bitmap signature.
    fn has_file_signature(&self) -> (r: bool)
        requires
            self.bytes().len() >= 2,
        ensures
            r == spec_has_signature(self.bytes()),
    ;

    /// Checks whether `point` names a pixel: the buffer must carry the
    /// signature and the point must lie inside the recorded dimensions.
    fn point_exists(&self, point: &Point) -> (r: bool)
        requires
            self.bytes().len() >= TOTAL_HEADER_SIZE as int,
        ensures
            r == spec_point_exists(self.bytes(), point.x as int, point.y as int),
    ;

    /// Writes `color` at `start`. A point that fails either bounds test is
    /// silently dropped, so one off-canvas point never aborts a shape.
    fn draw_point(&mut self, start: &Point, color: &Rgb)
        requires
            old(self).bytes().len() >= TOTAL_HEADER_SIZE as int,
        ensures
            final(self).bytes() == spec_write_pixel(
                old(self).bytes(),
                start.x as int,
                start.y as int,
                *color,
            ),
            final(self).bytes().len() == old(self).bytes().len(),
    ;

    /// Draws the integer line from `start` to `end`, both ends included.
    fn draw_line(&mut self, start: &Point, end: &Point, color: &Rgb)
        requires
            old(self).bytes().len() >= TOTAL_HEADER_SIZE as int,
        ensures
            final(self).bytes() == spec_draw_line(old(self).bytes(), *start, *end, *color),
            final(self).bytes().len() == old(self).bytes().len(),
    ;

    /// Fills the disk around `center`: every point of the bounding square at
    /// squared distance at most `radius` squared from the center is painted.
    fn draw_circle(&mut self, center: &Point, radius: u32, color: &Rgb)
        requires
            old(self).bytes().len() >= TOTAL_HEADER_SIZE as int,
        ensures
            final(self).bytes() == spec_draw_circle(
                old(self).bytes(),
                *center,
                radius,
                *color,
            ),
            final(self).bytes().len() == old(self).bytes().len(),
    ;

    /// Draws the outline of the axis-aligned box with opposite corners
    /// `point1` and `point2`; the interior stays untouched.
    fn draw_rectangle(&mut self, point1: &Point, point2: &Point, color: &Rgb)
        requires
            old(self).bytes().len() >= TOTAL_HEADER_SIZE as int,
        ensures
            final(self).bytes() == spec_draw_rectangle(
                old(self).bytes(),
                *point1,
                *point2,
                *color,
            ),
            final(self).bytes().len() == old(self).bytes().len(),
    ;

    /// Draws the glyph with index `char_index` at `position`: each set bit
    /// of the glyph's bitmap paints one point. An index outside the atlas is
    /// a silent no-op.
    fn draw_char(&mut self, char_index: usize, position: &Point, color: &Rgb)
        requires
            old(self).bytes().len() >= TOTAL_HEADER_SIZE as int,
            position.x as int + 7 <= u32::MAX as int,
            position.y as int + 7 <= u32::MAX as int,
        ensures
            final(self).bytes() == spec_draw_char(
                old(self).bytes(),
                char_index as int,
                position.x as int,
                position.y as int,
                *color,
            ),
            final(self).bytes().len() == old(self).bytes().len(),
    ;

    /// Draws `string` starting at `position`, one glyph per character, the
    /// cursor advancing by the glyph width. Only printable ASCII text is
    /// supported; each character maps to the glyph at its code minus 32.
    fn draw_string(&mut self, string: &str, position: &Point, color: &Rgb)
        requires
            old(self).bytes().len() >= TOTAL_HEADER_SIZE as int,
            vstd::string::is_ascii(string),
            forall|i: int| 0 <= i < string@.len() ==> string@[i] as u8 >= 32,
            position.x as int + 8 * string@.len() <= u32::MAX as int,
            position.y as int + 7 <= u32::MAX as int,
        ensures
            final(self).bytes() == spec_draw_string(
                old(self).bytes(),
                string@,
                *position,
                *color,
            ),
            final(self).bytes().len() == old(self).bytes().len(),
    ;

    /// Draws a line between each consecutive pair of points, then closes the
    /// loop from the first point back to the last.
    fn draw_polygon(&mut self, points: &[Point], color: &Rgb)
        requires
            old(self).bytes().len() >= TOTAL_HEADER_SIZE as int,
            points@.len() >= 2,
        ensures
            final(self).bytes() == spec_draw_polygon(old(self).bytes(), points@, *color),
            final(self).bytes().len() == old(self).bytes().len(),
    ;
}

/// Writes `val` at `off` as two little-endian bytes.
fn write_le_u16(v: &mut Vec<u8>, off: usize, val: u16)
    requires
        off + 2 <= old(v)@.len(),
    ensures
        final(v)@.len() == old(v)@.len(),
        spec_le_u16(final(v)@, off as int) == val as int,
        forall|i: int|
            0 <= i < old(v)@.len() && !(off <= i < off + 2) ==> final(v)@[i] == old(v)@[i],
{
    let n = v.len();
    proof {
        assert(val & 0xff < 0x100 && (val >> 8) & 0xff < 0x100) by (bit_vector);
        assert((val & 0xff) + 0x100 * ((val >> 8) & 0xff) == val) by (bit_vector);
    }
    v.set(off, (val & 0xff) as u8);
    v.set(off + 1, ((val >> 8) & 0xff) as u8);
}

/// Writes `val` at `off` as four little-endian bytes.
fn write_le_u32(v: &mut Vec<u8>, off: usize, val: u32)
    requires
        off + 4 <= old(v)@.len(),
    ensures
        final(v)@.len() == old(v)@.len(),
        spec_le_u32(final(v)@, off as int) == val as int,
        forall|i: int|
            0 <= i < old(v)@.len() && !(off <= i < off + 4) ==> final(v)@[i] == old(v)@[i],
{
    let n = v.len();
    proof {
        assert(val & 0xff < 0x100 && (val >> 8) & 0xff < 0x100 && (val >> 16) & 0xff < 0x100
            && (val >> 24) & 0xff < 0x100) by (bit_vector);
        assert((val & 0xff) + 0x100 * ((val >> 8) & 0xff) + 0x1_0000 * ((val >> 16) & 0xff)
            + 0x100_0000 * ((val >> 24) & 0xff) == val) by (bit_vector);
    }
    v.set(off, (val & 0xff) as u8);
    v.set(off + 1, ((val >> 8) & 0xff) as u8);
    v.set(off + 2, ((val >> 16) & 0xff) as u8);
    v.set(off + 3, ((val >> 24) & 0xff) as u8);
}

/// Padded-row-aware linear byte offset of `point` inside the buffer. The
/// callers verify `point_exists` first; `locate` itself checks no bounds.
pub(crate) fn locate(v: &Vec<u8>, point: &Point) -> (off: u128)
    requires
        v@.len() >= TOTAL_HEADER_SIZE as int,
    ensures
        off as int == spec_pixel_offset(v@, point.x as int, point.y as int),
        off < 0x1_0000_0000_0000_0000_0000u128,
{
    let width = v.get_width();
    let bytes_per_pixel = (v.get_bits_per_pixel() / 8) as u64;

    // Calculate the row width in bytes, including padding
    proof {
        assert((width as int) * (bytes_per_pixel as int) <= 0xffff_ffff * 31)
            by (nonlinear_arith)
            requires
                width as int <= 0xffff_ffff,
                bytes_per_pixel as int <= 31,
        ;
    }
    let row_width: u64 = width as u64 * bytes_per_pixel;
    let padding: u64 = (4 - row_width % 4) % 4;
    let padded_row_width: u64 = row_width + padding;

    proof {
        assert((point.y as int) * (padded_row_width as int) <= 0xffff_ffff * 0x20_0000_0003)
            by (nonlinear_arith)
            requires
                point.y as int <= 0xffff_ffff,
                padded_row_width as int <= 0x20_0000_0003,
        ;
        assert((point.x as int) * (bytes_per_pixel as int) <= 0xffff_ffff * 31)
            by (nonlinear_arith)
            requires
                point.x as int <= 0xffff_ffff,
                bytes_per_pixel as int <= 31,
        ;
    }
    point.y as u128 * padded_row_width as u128 + point.x as u128 * bytes_per_pixel as u128
        + v.get_pixel_array_offset() as u128
}

impl Bitmap for Vec<u8> {
    fn new_bitmap(width: u32, height: u32, bpp: u16) -> (r: Result<Vec<u8>, BitmapError>)
        ensures
            match r {
                Ok(v) => {
                    &&& spec_params_supported(width, height, bpp)
                    &&& v@.len() == spec_buffer_size_of(width as int, height as int, bpp as int)
                    &&& spec_has_signature(v@)
                    &&& spec_width(v@) == width as int
                    &&& spec_height(v@) == height as int
                    &&& spec_le_u16(v@, HEADER_BITS_PER_PIXEL as int) == bpp as int
                    &&& spec_file_size(v@) == v@.len() as int
                    &&& spec_planes(v@) == 1
                    &&& spec_info_header_size(v@) == INFOHEADER_SIZE as int
                    &&& spec_pixel_array_offset(v@) == TOTAL_HEADER_SIZE as int
                    &&& spec_compression(v@) == 0
                    &&& spec_image_size(v@) == 0
                    &&& spec_colors_used(v@) == 0
                    &&& spec_important_colors(v@) == 0
                    &&& forall|i: int|
                        TOTAL_HEADER_SIZE as int <= i < v@.len() ==> v@[i] == 0u8
                },
                Err(e) => {
                    &&& !spec_params_supported(width, height, bpp)
                    &&& e == BitmapError::UnsupportedFormat
                },
            },
    {
        if !(width > 0 && height > 0 && bpp > 0 && bpp % 8 == 0) {
            return Err(BitmapError::UnsupportedFormat);
        }

        let bytes_per_pixel: u32 = bpp as u32 / 8;
        proof {
            assert(spec_padded_width_of(width as int, bpp as int) * height >= spec_padded_width_of(
                width as int,
                bpp as int,
            )) by (nonlinear_arith)
                requires
                    height >= 1,
                    spec_padded_width_of(width as int, bpp as int) >= 0,
            ;
            assert((width as int) * (bytes_per_pixel as int) >= 0) by (nonlinear_arith)
                requires
                    width as int >= 0,
                    bytes_per_pixel as int >= 0,
            ;
        }
        // Each scan line is zero padded to the nearest 4-byte boundary: a row
        // of, say, 21 bytes gets 3 bytes of padding at its end.
        let row_width: u32 = width * bytes_per_pixel;
        // Compute the remainder when divided by 4
        let remainder = row_width % 4;
        // If there's no remainder, the value is already a multiple of 4
        let padded_width: u32 = if remainder != 0 {
            row_width + (4 - remainder)  // Add padding
        } else {
            row_width
        };
        // Total size of bitmap, with headers and padded pixel array
        let len: u32 = padded_width * height + TOTAL_HEADER_SIZE;

        let mut new_bitmap: Vec<u8> = vec![0u8; len as usize];

        // Insert bitmap header signature
        new_bitmap.set(0, 66);  // 'B'
        new_bitmap.set(1, 77);  // 'M'

        // Insert offset of pixel array in header
        write_le_u32(&mut new_bitmap, HEADER_PIXEL_ARRAY_OFFSET, TOTAL_HEADER_SIZE);

        // Insert image width in header
        write_le_u32(&mut new_bitmap, HEADER_WIDTH_OFFSET, width);

        // Insert image height in header
        write_le_u32(&mut new_bitmap, HEADER_HEIGHT_OFFSET, height);

        // Insert bits per pixel in header
        write_le_u16(&mut new_bitmap, HEADER_BITS_PER_PIXEL, bpp);

        // Insert file size in header
        let file_size = new_bitmap.len() as u32;
        write_le_u32(&mut new_bitmap, HEADER_FILE_SIZE, file_size);

        // Insert number of planes in header
        new_bitmap.set(HEADER_PLANES_OFFSET, 1);

        // Insert size of InfoHeader in header
        write_le_u32(&mut new_bitmap, INFOHEADER_SIZE_OFFSET, INFOHEADER_SIZE);

        Ok(new_bitmap)
    }

    // Checks if a vector of bytes has the bitmap file signature
    fn has_file_signature(&self) -> (r: bool)
        ensures
            r == spec_has_signature(self@),
    {
        self[0] == 66 && self[1] == 77  // 'B', 'M'
    }

    fn point_exists(&self, point: &Point) -> (r: bool)
        ensures
            r == spec_point_exists(self@, point.x as int, point.y as int),
    {
        if !self.has_file_signature() {
            return false;
        }
        self.get_height() > point.y && self.get_width() > point.x
    }

    fn draw_point(&mut self, start: &Point, color: &Rgb)
        ensures
            final(self)@ == spec_write_pixel(old(self)@, start.x as int, start.y as int, *color),
            final(self)@.len() == old(self)@.len(),
    {
        // Ensure the point is within the bounds of the bitmap
        if !self.point_exists(start) {
            return;
        }

        // Calculate the base index for the pixel location
        let base_index: u128 = locate(self, start);

        // Ensure the base index is within bounds before accessing the array
        if base_index + 2 < self.len() as u128 {
            let i = base_index as usize;
            self.set(i, color.b);  // Blue
            self.set(i + 1, color.g);  // Green
            self.set(i + 2, color.r);  // Red
        }
    }

    fn draw_line(&mut self, start: &Point, end: &Point, color: &Rgb)
        ensures
            final(self)@ == spec_draw_line(old(self)@, *start, *end, *color),
            final(self)@.len() == old(self)@.len(),
    {
        let mut x0: i64 = start.x as i64;
        let mut y0: i64 = start.y as i64;
        let x1: i64 = end.x as i64;
        let y1: i64 = end.y as i64;
        let dx: i64 = if x1 >= x0 { x1 - x0 } else { x0 - x1 };
        let dy: i64 = if y1 >= y0 { y1 - y0 } else { y0 - y1 };
        let sx: i64 = if x0 < x1 { 1 } else { -1 };
        let sy: i64 = if y0 < y1 { 1 } else { -1 };
        let mut err: i64 = dx - dy;

        let ghost s0 = self@;
        // Steps taken so far along each axis, and loop turns completed.
        let ghost mut steps_x: int = 0;
        let ghost mut steps_y: int = 0;
        let ghost mut turns: int = 0;

        loop
            invariant_except_break
                s0.len() >= TOTAL_HEADER_SIZE as int,
                self@.len() == s0.len(),
                x1 == end.x as i64,
                y1 == end.y as i64,
                dx as int == spec_abs(end.x as int - start.x as int),
                dy as int == spec_abs(end.y as int - start.y as int),
                sx == (if (start.x as int) < (end.x as int) { 1i64 } else { -1i64 }),
                sy == (if (start.y as int) < (end.y as int) { 1i64 } else { -1i64 }),
                0 <= steps_x <= dx as int,
                0 <= steps_y <= dy as int,
                sx == 1i64 ==> x0 as int == start.x as int + steps_x,
                sx == -1i64 ==> x0 as int == start.x as int - steps_x,
                sy == 1i64 ==> y0 as int == start.y as int + steps_y,
                sy == -1i64 ==> y0 as int == start.y as int - steps_y,
                err as int == dx as int - dy as int + dx as int * steps_y - dy as int * steps_x,
                -2 * (dy as int) <= err as int <= 2 * (dx as int),
                0 <= turns <= steps_x + steps_y,
                spec_draw_line(s0, *start, *end, *color) == spec_line_model(
                    self@,
                    x0 as int,
                    y0 as int,
                    x1 as int,
                    y1 as int,
                    dx as int,
                    dy as int,
                    sx as int,
                    sy as int,
                    err as int,
                    *color,
                    (dx as int + dy as int - turns) as nat,
                ),
            ensures
                self@ == spec_draw_line(s0, *start, *end, *color),
                self@.len() == s0.len(),
            decreases (dx as int - steps_x) + (dy as int - steps_y),
        {
            proof {
                assert(0 <= x0 as int <= u32::MAX as int);
                assert(0 <= y0 as int <= u32::MAX as int);
            }
            let ghost pre = self@;
            self.draw_point(&Point { x: x0 as u32, y: y0 as u32 }, color);
            if x0 == x1 && y0 == y1 {
                break;
            }
            proof {
                // Fuel never runs out: turns never exceed the steps taken.
                assert(steps_x == dx as int ==> x0 == x1);
                assert(steps_y == dy as int ==> y0 == y1);
                // When one axis is exhausted, its branch cannot fire again.
                if steps_x == dx as int {
                    assert(2 * (err as int) <= -(dy as int)) by (nonlinear_arith)
                        requires
                            err as int == dx as int - dy as int + dx as int * steps_y
                                - dy as int * steps_x,
                            steps_x == dx as int,
                            0 <= steps_y <= dy as int - 1,
                            dx as int >= 0,
                            dy as int >= 1,
                    ;
                }
                if steps_y == dy as int {
                    assert(2 * (err as int) >= dx as int) by (nonlinear_arith)
                        requires
                            err as int == dx as int - dy as int + dx as int * steps_y
                                - dy as int * steps_x,
                            steps_y == dy as int,
                            0 <= steps_x <= dx as int - 1,
                            dx as int >= 1,
                            dy as int >= 0,
                    ;
                }
            }
            let ghost (ox0, oy0, oerr) = (x0 as int, y0 as int, err as int);
            let e2 = 2 * err;
            if e2 > -dy {
                err = err - dy;
                x0 = x0 + sx;
                proof {
                    assert(dy as int * (steps_x + 1) == dy as int * steps_x + dy as int)
                        by (nonlinear_arith);
                    steps_x = steps_x + 1;
                }
            }
            if e2 < dx {
                err = err + dx;
                y0 = y0 + sy;
                proof {
                    assert(dx as int * (steps_y + 1) == dx as int * steps_y + dx as int)
                        by (nonlinear_arith);
                    steps_y = steps_y + 1;
                }
            }
            proof {
                turns = turns + 1;
                let fuel = (dx as int + dy as int - (turns - 1)) as nat;
                assert(fuel >= 1);
                assert(spec_line_model(
                    pre,
                    ox0,
                    oy0,
                    x1 as int,
                    y1 as int,
                    dx as int,
                    dy as int,
                    sx as int,
                    sy as int,
                    oerr,
                    *color,
                    fuel,
                ) == spec_line_model(
                    self@,
                    x0 as int,
                    y0 as int,
                    x1 as int,
                    y1 as int,
                    dx as int,
                    dy as int,
                    sx as int,
                    sy as int,
                    err as int,
                    *color,
                    (fuel - 1) as nat,
                ));
            }
        }
    }

    fn draw_circle(&mut self, center: &Point, radius: u32, color: &Rgb)
        ensures
            final(self)@ == spec_draw_circle(old(self)@, *center, radius, *color),
            final(self)@.len() == old(self)@.len(),
    {
        // Calculate the bounding box for the circle
        let min_x = center.x.saturating_sub(radius);
        let max_x = center.x.saturating_add(radius);
        let min_y = center.y.saturating_sub(radius);
        let max_y = center.y.saturating_add(radius);

        let ghost s0 = self@;
        // Iterate over the bounding box around the circle
        let mut y: u64 = min_y as u64;
        while y <= max_y as u64
            invariant
                s0.len() >= TOTAL_HEADER_SIZE as int,
                self@.len() == s0.len(),
                min_x <= max_x,
                min_y as u64 <= y <= max_y as u64 + 1,
                spec_draw_circle(s0, *center, radius, *color) == spec_circle_rows(
                    self@,
                    center.x as int,
                    center.y as int,
                    radius as int,
                    *color,
                    y as int,
                    max_y as int,
                    min_x as int,
                    max_x as int,
                ),
            decreases max_y as int + 1 - y as int,
        {
            let ghost row_start = self@;
            let mut x: u64 = min_x as u64;
            while x <= max_x as u64
                invariant
                    s0.len() >= TOTAL_HEADER_SIZE as int,
                    self@.len() == s0.len(),
                    min_x as u64 <= x <= max_x as u64 + 1,
                    y <= u32::MAX as u64,
                    spec_circle_row(
                        row_start,
                        center.x as int,
                        center.y as int,
                        radius as int,
                        *color,
                        y as int,
                        min_x as int,
                        max_x as int,
                    ) == spec_circle_row(
                        self@,
                        center.x as int,
                        center.y as int,
                        radius as int,
                        *color,
                        y as int,
                        x as int,
                        max_x as int,
                    ),
                decreases max_x as int + 1 - x as int,
            {
                // Calculate the distance from the center to the point (x, y)
                let dx = x as i128 - center.x as i128;
                let dy = y as i128 - center.y as i128;
                proof {
                    assert(dx * dx <= 0x1_0000_0000 * 0x1_0000_0000) by (nonlinear_arith)
                        requires
                            -0x1_0000_0000 <= dx <= 0x1_0000_0000,
                    ;
                    assert(dy * dy <= 0x1_0000_0000 * 0x1_0000_0000) by (nonlinear_arith)
                        requires
                            -0x1_0000_0000 <= dy <= 0x1_0000_0000,
                    ;
                    assert(dx * dx >= 0 && dy * dy >= 0) by (nonlinear_arith);
                    assert((radius as i128) * (radius as i128) <= 0x1_0000_0000 * 0x1_0000_0000)
                        by (nonlinear_arith)
                        requires
                            0 <= radius as i128 <= 0x1_0000_0000,
                    ;
                }
                if dx * dx + dy * dy <= radius as i128 * radius as i128 {
                    let point = Point { x: x as u32, y: y as u32 };
                    self.draw_point(&point, color);
                }
                x = x + 1;
            }
            y = y + 1;
        }
    }

    // Input two opposite corners of the rectangle
    fn draw_rectangle(&mut self, point1: &Point, point2: &Point, color: &Rgb)
        ensures
            final(self)@ == spec_draw_rectangle(old(self)@, *point1, *point2, *color),
            final(self)@.len() == old(self)@.len(),
    {
        let point3 = Point { x: point1.x, y: point2.y };
        let point4 = Point { x: point2.x, y: point1.y };
        self.draw_line(point1, &point3, color);
        self.draw_line(&point3, point2, color);
        self.draw_line(point2, &point4, color);
        self.draw_line(&point4, point1, color);
    }

    fn draw_char(&mut self, char_index: usize, position: &Point, color: &Rgb)
        ensures
            final(self)@ == spec_draw_char(
                old(self)@,
                char_index as int,
                position.x as int,
                position.y as int,
                *color,
            ),
            final(self)@.len() == old(self)@.len(),
    {
        // Ensure char_index is within bounds of the font atlas
        if char_index >= FONT_GLYPH_COUNT {
            return;  // unsupported characters degrade to a silent no-op
        }

        // Get the bitmap for the character
        let bitmap = &FONT_BITMAP[char_index];

        let ghost s0 = self@;
        // Iterate over rows of the character's bitmap from bottom to top
        let mut row: usize = FONT_HEIGHT;
        while row > 0
            invariant
                s0.len() >= TOTAL_HEADER_SIZE as int,
                self@.len() == s0.len(),
                row <= FONT_HEIGHT,
                char_index < FONT_GLYPH_COUNT,
                position.x as int + 7 <= u32::MAX as int,
                position.y as int + 7 <= u32::MAX as int,
                bitmap@ == FONT_BITMAP[char_index as int]@,
                spec_char_rows(
                    s0,
                    char_index as int,
                    position.x as int,
                    position.y as int,
                    *color,
                    7,
                ) == spec_char_rows(
                    self@,
                    char_index as int,
                    position.x as int,
                    position.y as int,
                    *color,
                    row as int - 1,
                ),
            decreases row,
        {
            row = row - 1;
            let ghost row_start = self@;
            // Iterate over columns of the character's bitmap, left to right
            let mut col: usize = 0;
            while col < FONT_WIDTH
                invariant
                    s0.len() >= TOTAL_HEADER_SIZE as int,
                    self@.len() == s0.len(),
                    row < FONT_HEIGHT,
                    col <= FONT_WIDTH,
                    char_index < FONT_GLYPH_COUNT,
                    position.x as int + 7 <= u32::MAX as int,
                    position.y as int + 7 <= u32::MAX as int,
                    bitmap@ == FONT_BITMAP[char_index as int]@,
                    row_start.len() == s0.len(),
                    spec_char_rows(
                        s0,
                        char_index as int,
                        position.x as int,
                        position.y as int,
                        *color,
                        7,
                    ) == spec_char_rows(
                        row_start,
                        char_index as int,
                        position.x as int,
                        position.y as int,
                        *color,
                        row as int,
                    ),
                    spec_char_cols(
                        row_start,
                        char_index as int,
                        position.x as int,
                        position.y as int,
                        *color,
                        row as int,
                        0,
                    ) == spec_char_cols(
                        self@,
                        char_index as int,
                        position.x as int,
                        position.y as int,
                        *color,
                        row as int,
                        col as int,
                    ),
                decreases FONT_WIDTH - col,
            {
                // Calculate the index of this pixel's bit within the bitmap
                let bit_index = (FONT_HEIGHT - 1 - row) * FONT_WIDTH + col;
                let byte_index = bit_index / 8;
                let bit_position = 7 - (bit_index % 8);
                proof {
                    assert(byte_index as int == 7 - row as int);
                    assert(bit_position as int == 7 - col as int);
                }

                // Ensure the byte index is within bounds of the bitmap array
                if byte_index < FONT_HEIGHT {
                    // Create a mask for the bit position
                    let mask: u8 = 1u8 << bit_position;

                    // Check if the specific bit is set
                    if bitmap[byte_index] & mask != 0 {
                        // Calculate the coordinates for the point: glyph
                        // columns are mirrored into the x offset
                        let x = position.x + (FONT_WIDTH - 1 - col) as u32;
                        let y = position.y + row as u32;

                        // Draw the point
                        let point = Point { x, y };
                        self.draw_point(&point, color);
                    }
                }
                col = col + 1;
            }
        }
    }

    fn draw_string(&mut self, string: &str, position: &Point, color: &Rgb)
        ensures
            final(self)@ == spec_draw_string(old(self)@, string@, *position, *color),
            final(self)@.len() == old(self)@.len(),
    {
        let bytes = string.as_bytes();
        let n = bytes.len();
        proof {
            vstd::string::is_ascii_spec_bytes(string);
            vstd::utf8::is_ascii_chars_nat_bound(string@);
        }

        let ghost s0 = self@;
        let mut x_offset: u32 = position.x;  // Start at the initial x position
        let mut i: usize = 0;
        // Iterate over each character in the string
        while i < n
            invariant
                s0.len() >= TOTAL_HEADER_SIZE as int,
                self@.len() == s0.len(),
                i <= n,
                n == string@.len(),
                bytes@.len() == n,
                forall|j: int| 0 <= j < n ==> bytes@[j] == string@[j] as u8,
                forall|j: int| 0 <= j < n ==> 32 <= string@[j] as u8,
                position.x as int + 8 * n <= u32::MAX as int,
                position.y as int + 7 <= u32::MAX as int,
                x_offset as int == position.x as int + 8 * i,
                spec_string_chars(
                    s0,
                    string@,
                    0,
                    position.x as int,
                    position.y as int,
                    *color,
                ) == spec_string_chars(
                    self@,
                    string@,
                    i as int,
                    x_offset as int,
                    position.y as int,
                    *color,
                ),
            decreases n - i,
        {
            let ch = bytes[i];
            proof {
                assert(ch == string@[i as int] as u8);
                assert(ch >= 32);
            }
            // Find the index of the character in the font bitmap
            let char_index = (ch - 32) as usize;
            let ghost pre = self@;
            // Draw the character at the current position
            self.draw_char(char_index, &Point { x: x_offset, y: position.y }, color);
            proof {
                assert(spec_string_chars(
                    pre,
                    string@,
                    i as int,
                    x_offset as int,
                    position.y as int,
                    *color,
                ) == spec_string_chars(
                    self@,
                    string@,
                    i as int + 1,
                    x_offset as int + 8,
                    position.y as int,
                    *color,
                ));
            }
            // Move the x offset by the width of the character
            x_offset = x_offset + FONT_WIDTH as u32;
            i = i + 1;
        }
    }

    fn draw_polygon(&mut self, points: &[Point], color: &Rgb)
        ensures
            final(self)@ == spec_draw_polygon(old(self)@, points@, *color),
            final(self)@.len() == old(self)@.len(),
    {
        let ghost s0 = self@;
        let n = points.len();
        let mut i: usize = 0;
        while i < n - 1
            invariant
                s0.len() >= TOTAL_HEADER_SIZE as int,
                self@.len() == s0.len(),
                n == points@.len(),
                2 <= n,
                0 <= i <= n - 1,
                spec_polygon_chain(s0, points@, 0, *color) == spec_polygon_chain(
                    self@,
                    points@,
                    i as int,
                    *color,
                ),
            decreases n - 1 - i,
        {
            self.draw_line(&points[i], &points[i + 1], color);
            i = i + 1;
        }
        self.draw_line(&points[0], &points[n - 1], color);
    }
}

} // verus!

//! Header accessors: each one decodes a fixed-offset field of the image
//! buffer as an unsigned little-endian integer, or a quantity derived from
//! such fields.

use vstd::prelude::*;

use crate::constants::{
    HEADER_COLORS_USED, HEADER_COMPRESSION_OFFSET, HEADER_FILE_SIZE, HEADER_HEIGHT_OFFSET,
    HEADER_IMAGE_SIZE, HEADER_IMPORTANT_COLORS, HEADER_PIXEL_ARRAY_OFFSET, HEADER_PLANES_OFFSET,
    HEADER_WIDTH_OFFSET, HEADER_BITS_PER_PIXEL, INFOHEADER_SIZE_OFFSET, TOTAL_HEADER_SIZE,
};
use crate::model::{
    spec_bits_per_pixel, spec_colors_used, spec_compression, spec_file_size, spec_height,
    spec_image_size, spec_important_colors, spec_info_header_size, spec_le_u16, spec_le_u32,
    spec_padding_per_line, spec_pixel_array_offset, spec_planes, spec_read_pixel, spec_row_width,
    spec_width,
};
use crate::{locate, Bitmap, Point, Rgb};

verus! {

/// Reads the two bytes at `off` as a little-endian unsigned integer.
fn read_le_u16(v: &Vec<u8>, off: usize) -> (r: u16)
    requires
        off + 2 <= v@.len(),
    ensures
        r as int == spec_le_u16(v@, off as int),
{
    let n = v.len();
    let b0 = v[off] as u16;
    let b1 = v[off + 1] as u16;
    b0 + 0x100 * b1
}

/// Reads the four bytes at `off` as a little-endian unsigned integer.
fn read_le_u32(v: &Vec<u8>, off: usize) -> (r: u32)
    requires
        off + 4 <= v@.len(),
    ensures
        r as int == spec_le_u32(v@, off as int),
{
    let n = v.len();
    let b0 = v[off] as u32;
    let b1 = v[off + 1] as u32;
    let b2 = v[off + 2] as u32;
    let b3 = v[off + 3] as u32;
    b0 + 0x100 * b1 + 0x1_0000 * b2 + 0x100_0000 * b3
}

/// Read-only access to the header fields of an image buffer and to the
/// quantities derived from them. Every accessor assumes the buffer holds at
/// least the full header, which is guaranteed by construction.
pub trait Get {
    /// The raw bytes of the buffer, as the specifications see them.
    spec fn bytes(&self) -> Seq<u8>;

    /// Byte offset where the pixel array begins.
    fn get_pixel_array_offset(&self) -> (r: usize)
        requires
            self.bytes().len() >= TOTAL_HEADER_SIZE as int,
        ensures
            r as int == spec_pixel_array_offset(self.bytes()),
    ;

    /// Image height in pixels.
    fn get_height(&self) -> (r: u32)
        requires
            self.bytes().len() >= TOTAL_HEADER_SIZE as int,
        ensures
            r as int == spec_height(self.bytes()),
    ;

    /// Image width in pixels.
    fn get_width(&self) -> (r: u32)
        requires
            self.bytes().len() >= TOTAL_HEADER_SIZE as int,
        ensures
            r as int == spec_width(self.bytes()),
    ;

    /// Color depth in bits per pixel.
    fn get_bits_per_pixel(&self) -> (r: u8)
        requires
            self.bytes().len() >= TOTAL_HEADER_SIZE as int,
        ensures
            r as int == spec_bits_per_pixel(self.bytes()),
    ;

    /// Total file size recorded in the header.
    fn get_file_size(&self) -> (r: u32)
        requires
            self.bytes().len() >= TOTAL_HEADER_SIZE as int,
        ensures
            r as int == spec_file_size(self.bytes()),
    ;

    /// Recorded size of the info header.
    fn get_size_of_info_header(&self) -> (r: u32)
        requires
            self.bytes().len() >= TOTAL_HEADER_SIZE as int,
        ensures
            r as int == spec_info_header_size(self.bytes()),
    ;

    /// Number of color planes.
    fn get_planes(&self) -> (r: u16)
        requires
            self.bytes().len() >= TOTAL_HEADER_SIZE as int,
        ensures
            r as int == spec_planes(self.bytes()),
    ;

    /// Compression mode field.
    fn get_compression(&self) -> (r: u32)
        requires
            self.bytes().len() >= TOTAL_HEADER_SIZE as int,
        ensures
            r as int == spec_compression(self.bytes()),
    ;

    /// Recorded size of the pixel array.
    fn get_image_size(&self) -> (r: u32)
        requires
            self.bytes().len() >= TOTAL_HEADER_SIZE as int,
        ensures
            r as int == spec_image_size(self.bytes()),
    ;

    /// Number of palette colors in use.
    fn get_colors_used(&self) -> (r: u32)
        requires
            self.bytes().len() >= TOTAL_HEADER_SIZE as int,
        ensures
            r as int == spec_colors_used(self.bytes()),
    ;

    /// Number of important palette colors.
    fn get_important_colors(&self) -> (r: u32)
        requires
            self.bytes().len() >= TOTAL_HEADER_SIZE as int,
        ensures
            r as int == spec_important_colors(self.bytes()),
    ;

    /// Total bytes spent on scan-line padding over the whole image.
    fn get_padding_size(&self) -> (r: u32)
        requires
            self.bytes().len() >= TOTAL_HEADER_SIZE as int,
            spec_row_width(self.bytes()) + 3 <= u32::MAX,
            spec_padding_per_line(self.bytes()) * spec_height(self.bytes()) <= u32::MAX,
        ensures
            r as int == spec_padding_per_line(self.bytes()) * spec_height(self.bytes()),
    ;

    /// Bytes of padding appended to each scan line.
    fn get_padding_per_line(&self) -> (r: u8)
        requires
            self.bytes().len() >= TOTAL_HEADER_SIZE as int,
            spec_row_width(self.bytes()) + 3 <= u32::MAX,
        ensures
            r as int == spec_padding_per_line(self.bytes()),
    ;

    /// Reads the color of the pixel at `point`, or reports that the point is
    /// out of bounds: past the recorded dimensions, on a buffer without the
    /// signature, or located beyond the end of the buffer.
    fn get_pixel(&self, point: &Point) -> (r: Result<Rgb, String>)
        requires
            self.bytes().len() >= TOTAL_HEADER_SIZE as int,
        ensures
            match r {
                Ok(c) => spec_read_pixel(self.bytes(), point.x as int, point.y as int)
                    == Some(c),
                Err(_) => spec_read_pixel(self.bytes(), point.x as int, point.y as int)
                    is None,
            },
    ;
}

impl Get for Vec<u8> {
    open spec fn bytes(&self) -> Seq<u8> {
        self@
    }

    fn get_pixel(&self, point: &Point) -> (r: Result<Rgb, String>)
        ensures
            match r {
                Ok(c) => spec_read_pixel(self@, point.x as int, point.y as int) == Some(c),
                Err(_) => spec_read_pixel(self@, point.x as int, point.y as int) is None,
            },
    {
        // Ensure the point is within the bounds of the bitmap
        if !self.point_exists(point) {
            return Err("point out of bounds".to_owned());
        }

        // Calculate the base index for the pixel location
        let base_index: u128 = locate(self, point);

        // Ensure the base index is within bounds before accessing the array
        if base_index + 2 < self.len() as u128 {
            let i = base_index as usize;
            let blue = self[i];
            let green = self[i + 1];
            let red = self[i + 2];
            Ok(Rgb { r: red, g: green, b: blue })
        } else {
            Err("point out of bounds".to_owned())
        }
    }

    // Returns bytes of padding per scan line
    fn get_padding_per_line(&self) -> (r: u8)
        ensures
            r as int == spec_padding_per_line(self@),
    {
        // Calculate the width of the scan line in bytes
        let row_width: u32 = self.get_width() * (self.get_bits_per_pixel() as u32 / 8);
        // Compute the remainder when divided by 4
        let remainder = row_width % 4;

        // If there's no remainder, it's already a multiple of 4
        let padded_width: u32 = if remainder != 0 {
            // Add padding to make it a multiple of 4
            row_width + (4 - remainder)
        } else {
            row_width
        };
        // The padding is the difference between padded and original width
        (padded_width - row_width) as u8
    }

    // Returns total bytes spent on padding
    fn get_padding_size(&self) -> (r: u32)
        ensures
            r as int == spec_padding_per_line(self@) * spec_height(self@),
    {
        self.get_padding_per_line() as u32 * self.get_height()
    }

    fn get_pixel_array_offset(&self) -> (r: usize)
        ensures
            r as int == spec_pixel_array_offset(self@),
    {
        self[HEADER_PIXEL_ARRAY_OFFSET] as usize
    }

    fn get_width(&self) -> (r: u32)
        ensures
            r as int == spec_width(self@),
    {
        read_le_u32(self, HEADER_WIDTH_OFFSET)
    }

    fn get_height(&self) -> (r: u32)
        ensures
            r as int == spec_height(self@),
    {
        read_le_u32(self, HEADER_HEIGHT_OFFSET)
    }

    fn get_bits_per_pixel(&self) -> (r: u8)
        ensures
            r as int == spec_bits_per_pixel(self@),
    {
        self[HEADER_BITS_PER_PIXEL]
    }

    fn get_file_size(&self) -> (r: u32)
        ensures
            r as int == spec_file_size(self@),
    {
        read_le_u32(self, HEADER_FILE_SIZE)
    }

    fn get_size_of_info_header(&self) -> (r: u32)
        ensures
            r as int == spec_info_header_size(self@),
    {
        read_le_u32(self, INFOHEADER_SIZE_OFFSET)
    }

    fn get_planes(&self) -> (r: u16)
        ensures
            r as int == spec_planes(self@),
    {
        read_le_u16(self, HEADER_PLANES_OFFSET)
    }

    fn get_compression(&self) -> (r: u32)
        ensures
            r as int == spec_compression(self@),
    {
        read_le_u32(self, HEADER_COMPRESSION_OFFSET)
    }

    fn get_image_size(&self) -> (r: u32)
        ensures
            r as int == spec_image_size(self@),
    {
        read_le_u32(self, HEADER_IMAGE_SIZE)
    }

    fn get_colors_used(&self) -> (r: u32)
        ensures
            r as int == spec_colors_used(self@),
    {
        read_le_u32(self, HEADER_COLORS_USED)
    }

    fn get_important_colors(&self) -> (r: u32)
        ensures
            r as int == spec_important_colors(self@),
    {
        read_le_u32(self, HEADER_IMPORTANT_COLORS)
    }
}

} // verus!

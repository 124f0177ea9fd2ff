use vstd::prelude::*;

verus! {

/// Byte length of the file header that opens every image buffer.
pub const HEADER_SIZE: u32 = 14;

/// Byte length of the info header that follows the file header.
pub const INFOHEADER_SIZE: u32 = 40;

/// Total number of header bytes stored before the pixel array.
pub const TOTAL_HEADER_SIZE: u32 = HEADER_SIZE + INFOHEADER_SIZE;

// File header field offsets.
pub const HEADER_FILE_SIZE: usize = 2;
pub const HEADER_PIXEL_ARRAY_OFFSET: usize = 10;

// Info header field offsets.
pub const INFOHEADER_SIZE_OFFSET: usize = 14;
pub const HEADER_WIDTH_OFFSET: usize = 18;
pub const HEADER_HEIGHT_OFFSET: usize = 22;
pub const HEADER_PLANES_OFFSET: usize = 26;
pub const HEADER_BITS_PER_PIXEL: usize = 28;
pub const HEADER_COMPRESSION_OFFSET: usize = 30;
pub const HEADER_IMAGE_SIZE: usize = 34;
pub const HEADER_COLORS_USED: usize = 46;
pub const HEADER_IMPORTANT_COLORS: usize = 50;

} // verus!

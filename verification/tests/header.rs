use bitmap::{Bitmap, BitmapError, Get};

#[test]
fn create_writes_all_header_fields() {
    let bmp: Vec<u8> = Vec::<u8>::new_bitmap(40, 40, 24).unwrap();
    assert_eq!(bmp.len(), 54 + 120 * 40);
    assert_eq!(bmp[0], b'B');
    assert_eq!(bmp[1], b'M');
    assert!(bmp.has_file_signature());
    assert_eq!(bmp.get_width(), 40);
    assert_eq!(bmp.get_height(), 40);
    assert_eq!(bmp.get_bits_per_pixel(), 24);
    assert_eq!(bmp.get_file_size(), bmp.len() as u32);
    assert_eq!(bmp.get_size_of_info_header(), 40);
    assert_eq!(bmp.get_planes(), 1);
    assert_eq!(bmp.get_compression(), 0);
    assert_eq!(bmp.get_pixel_array_offset(), 54);
    assert_eq!(bmp.get_image_size(), 0);
    assert_eq!(bmp.get_colors_used(), 0);
    assert_eq!(bmp.get_important_colors(), 0);
}

#[test]
fn create_pads_scan_lines_to_four_bytes() {
    // 7 pixels at 3 bytes each: 21 bytes per row, so 3 bytes of padding.
    let bmp: Vec<u8> = Vec::<u8>::new_bitmap(7, 5, 24).unwrap();
    assert_eq!(bmp.get_padding_per_line(), 3);
    assert_eq!(bmp.get_padding_size(), 15);
    assert_eq!(bmp.len(), 54 + 24 * 5);
    assert_eq!(bmp.get_file_size(), 174);
}

#[test]
fn create_without_padding_when_aligned() {
    // 4 pixels at 3 bytes each: 12 bytes per row, already aligned.
    let bmp: Vec<u8> = Vec::<u8>::new_bitmap(4, 3, 24).unwrap();
    assert_eq!(bmp.get_padding_per_line(), 0);
    assert_eq!(bmp.get_padding_size(), 0);
    assert_eq!(bmp.len(), 54 + 12 * 3);
}

#[test]
fn create_rejects_zero_width() {
    assert_eq!(
        Vec::<u8>::new_bitmap(0, 10, 24),
        Err(BitmapError::UnsupportedFormat)
    );
}

#[test]
fn create_rejects_zero_height() {
    assert_eq!(
        Vec::<u8>::new_bitmap(10, 0, 24),
        Err(BitmapError::UnsupportedFormat)
    );
}

#[test]
fn create_rejects_zero_bit_depth() {
    assert_eq!(
        Vec::<u8>::new_bitmap(10, 10, 0),
        Err(BitmapError::UnsupportedFormat)
    );
}

#[test]
fn create_rejects_unaligned_bit_depth() {
    assert_eq!(
        Vec::<u8>::new_bitmap(10, 10, 12),
        Err(BitmapError::UnsupportedFormat)
    );
}

#[test]
fn pixel_array_starts_zeroed() {
    let bmp: Vec<u8> = Vec::<u8>::new_bitmap(6, 6, 24).unwrap();
    for i in 54..bmp.len() {
        assert_eq!(bmp[i], 0);
    }
}

#[test]
fn thirty_two_bit_depth_is_supported() {
    let bmp: Vec<u8> = Vec::<u8>::new_bitmap(10, 4, 32).unwrap();
    assert_eq!(bmp.get_bits_per_pixel(), 32);
    assert_eq!(bmp.get_padding_per_line(), 0);
    assert_eq!(bmp.len(), 54 + 40 * 4);
}

use bitmap::{Bitmap, Get, Point, Rgb, FONT_WIDTH};

/// All points of the image painted exactly in `color`, scanned row by row.
fn painted(bmp: &Vec<u8>, color: &Rgb) -> Vec<(u32, u32)> {
    let mut acc = Vec::new();
    for y in 0..bmp.get_height() {
        for x in 0..bmp.get_width() {
            if bmp.get_pixel(&Point { x, y }) == Ok(*color) {
                acc.push((x, y));
            }
        }
    }
    acc
}

#[test]
fn one_letter_stays_within_the_glyph_cell() {
    let mut bmp: Vec<u8> = Vec::<u8>::new_bitmap(64, 16, 24).unwrap();
    let white = Rgb { r: 255, g: 255, b: 255 };
    bmp.draw_string("A", &Point { x: 0, y: 0 }, &white);
    let points = painted(&bmp, &white);
    assert!(!points.is_empty());
    for &(x, _) in &points {
        assert!(x < FONT_WIDTH as u32);
    }
}

#[test]
fn string_advances_one_cell_per_character() {
    let mut bmp: Vec<u8> = Vec::<u8>::new_bitmap(64, 16, 24).unwrap();
    let white = Rgb { r: 255, g: 255, b: 255 };
    bmp.draw_string("AA", &Point { x: 0, y: 0 }, &white);
    let points = painted(&bmp, &white);
    assert!(!points.is_empty());
    assert!(points.iter().all(|&(x, _)| x < 16));
    assert!(points.iter().any(|&(x, _)| x >= 8));
    // The second cell repeats the first, shifted one glyph width.
    let left: Vec<(u32, u32)> = points.iter().copied().filter(|&(x, _)| x < 8).collect();
    let right: Vec<(u32, u32)> = points
        .iter()
        .copied()
        .filter(|&(x, _)| x >= 8)
        .map(|(x, y)| (x - 8, y))
        .collect();
    assert_eq!(left, right);
}

#[test]
fn space_paints_nothing() {
    let mut bmp: Vec<u8> = Vec::<u8>::new_bitmap(32, 16, 24).unwrap();
    let white = Rgb { r: 255, g: 255, b: 255 };
    bmp.draw_string(" ", &Point { x: 0, y: 0 }, &white);
    assert!(painted(&bmp, &white).is_empty());
}

#[test]
fn empty_string_paints_nothing() {
    let mut bmp: Vec<u8> = Vec::<u8>::new_bitmap(32, 16, 24).unwrap();
    let before = bmp.clone();
    bmp.draw_string("", &Point { x: 0, y: 0 }, &Rgb { r: 1, g: 1, b: 1 });
    assert_eq!(bmp, before);
}

#[test]
fn glyph_index_out_of_range_is_a_no_op() {
    let mut bmp: Vec<u8> = Vec::<u8>::new_bitmap(32, 16, 24).unwrap();
    let before = bmp.clone();
    bmp.draw_char(500, &Point { x: 0, y: 0 }, &Rgb { r: 1, g: 1, b: 1 });
    assert_eq!(bmp, before);
}

#[test]
fn glyph_renders_mirrored_columns() {
    // The exclamation mark fills no more than a few columns; drawing it at
    // the origin must keep every point inside one glyph cell.
    let mut bmp: Vec<u8> = Vec::<u8>::new_bitmap(16, 16, 24).unwrap();
    let c = Rgb { r: 9, g: 9, b: 9 };
    bmp.draw_char(1, &Point { x: 0, y: 0 }, &c);
    let points = painted(&bmp, &c);
    assert!(!points.is_empty());
    for &(x, y) in &points {
        assert!(x < 8 && y < 8);
    }
}

#[test]
fn character_maps_to_glyph_by_code_minus_space() {
    // Drawing "!" through the string renderer matches glyph index 1 drawn
    // directly.
    let mut via_string: Vec<u8> = Vec::<u8>::new_bitmap(16, 16, 24).unwrap();
    let mut via_char: Vec<u8> = Vec::<u8>::new_bitmap(16, 16, 24).unwrap();
    let c = Rgb { r: 4, g: 5, b: 6 };
    via_string.draw_string("!", &Point { x: 2, y: 3 }, &c);
    via_char.draw_char(1, &Point { x: 2, y: 3 }, &c);
    assert_eq!(via_string, via_char);
}

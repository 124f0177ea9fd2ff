use bitmap::{Bitmap, Get, Point, Rgb};

#[test]
fn pixel_round_trip() {
    let mut bmp: Vec<u8> = Vec::<u8>::new_bitmap(40, 40, 24).unwrap();
    let red = Rgb { r: 255, g: 0, b: 0 };
    bmp.draw_point(&Point { x: 20, y: 20 }, &red);
    assert_eq!(bmp.get_pixel(&Point { x: 20, y: 20 }), Ok(red));
    // An untouched pixel still reads back as black.
    assert_eq!(
        bmp.get_pixel(&Point { x: 39, y: 39 }),
        Ok(Rgb { r: 0, g: 0, b: 0 })
    );
}

#[test]
fn pixel_round_trip_at_corners() {
    let mut bmp: Vec<u8> = Vec::<u8>::new_bitmap(9, 7, 24).unwrap();
    let c = Rgb { r: 1, g: 2, b: 3 };
    for &(x, y) in &[(0, 0), (8, 0), (0, 6), (8, 6)] {
        bmp.draw_point(&Point { x, y }, &c);
        assert_eq!(bmp.get_pixel(&Point { x, y }), Ok(c));
    }
}

#[test]
fn pixel_round_trip_thirty_two_bit() {
    let mut bmp: Vec<u8> = Vec::<u8>::new_bitmap(10, 10, 32).unwrap();
    let c = Rgb { r: 9, g: 8, b: 7 };
    bmp.draw_point(&Point { x: 5, y: 5 }, &c);
    assert_eq!(bmp.get_pixel(&Point { x: 5, y: 5 }), Ok(c));
}

#[test]
fn pixel_bytes_are_stored_blue_green_red() {
    let mut bmp: Vec<u8> = Vec::<u8>::new_bitmap(4, 4, 24).unwrap();
    let c = Rgb { r: 10, g: 20, b: 30 };
    bmp.draw_point(&Point { x: 0, y: 0 }, &c);
    assert_eq!(bmp[54], 30);
    assert_eq!(bmp[55], 20);
    assert_eq!(bmp[56], 10);
}

#[test]
fn point_exists_is_false_past_the_dimensions() {
    let bmp: Vec<u8> = Vec::<u8>::new_bitmap(10, 10, 24).unwrap();
    assert!(bmp.point_exists(&Point { x: 9, y: 9 }));
    assert!(!bmp.point_exists(&Point { x: 10, y: 0 }));
    assert!(!bmp.point_exists(&Point { x: 0, y: 10 }));
    assert!(!bmp.point_exists(&Point { x: 10, y: 10 }));
    assert!(!bmp.point_exists(&Point { x: 4_000_000_000, y: 0 }));
}

#[test]
fn point_exists_is_false_without_signature() {
    let mut bmp: Vec<u8> = Vec::<u8>::new_bitmap(10, 10, 24).unwrap();
    bmp[0] = 0;
    assert!(!bmp.has_file_signature());
    assert!(!bmp.point_exists(&Point { x: 0, y: 0 }));
}

#[test]
fn read_out_of_bounds_is_an_error() {
    let bmp: Vec<u8> = Vec::<u8>::new_bitmap(10, 10, 24).unwrap();
    assert!(bmp.get_pixel(&Point { x: 10, y: 0 }).is_err());
    assert!(bmp.get_pixel(&Point { x: 0, y: 10 }).is_err());
}

#[test]
fn write_out_of_bounds_is_dropped() {
    let mut bmp: Vec<u8> = Vec::<u8>::new_bitmap(10, 10, 24).unwrap();
    let before = bmp.clone();
    bmp.draw_point(&Point { x: 100, y: 100 }, &Rgb { r: 1, g: 1, b: 1 });
    assert_eq!(bmp, before);
}

#[test]
fn write_on_corrupted_buffer_is_dropped() {
    let mut bmp: Vec<u8> = Vec::<u8>::new_bitmap(10, 10, 24).unwrap();
    bmp[1] = 0;
    let before = bmp.clone();
    bmp.draw_point(&Point { x: 0, y: 0 }, &Rgb { r: 1, g: 1, b: 1 });
    assert_eq!(bmp, before);
}

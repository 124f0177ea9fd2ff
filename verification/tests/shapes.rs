use bitmap::{Bitmap, Get, Point, Rgb};

/// All points of the image painted exactly in `color`, scanned row by row.
fn painted(bmp: &Vec<u8>, color: &Rgb) -> Vec<(u32, u32)> {
    let mut acc = Vec::new();
    for y in 0..bmp.get_height() {
        for x in 0..bmp.get_width() {
            if bmp.get_pixel(&Point { x, y }) == Ok(*color) {
                acc.push((x, y));
            }
        }
    }
    acc
}

#[test]
fn line_to_itself_plots_one_point() {
    let mut bmp: Vec<u8> = Vec::<u8>::new_bitmap(10, 10, 24).unwrap();
    let green = Rgb { r: 0, g: 255, b: 0 };
    bmp.draw_line(&Point { x: 0, y: 0 }, &Point { x: 0, y: 0 }, &green);
    assert_eq!(painted(&bmp, &green), vec![(0, 0)]);
}

#[test]
fn horizontal_line_plots_every_column_once() {
    let mut bmp: Vec<u8> = Vec::<u8>::new_bitmap(10, 10, 24).unwrap();
    let green = Rgb { r: 0, g: 255, b: 0 };
    bmp.draw_line(&Point { x: 0, y: 0 }, &Point { x: 4, y: 0 }, &green);
    let points = painted(&bmp, &green);
    assert_eq!(points, vec![(0, 0), (1, 0), (2, 0), (3, 0), (4, 0)]);
    for pair in points.windows(2) {
        assert!(pair[0].0 < pair[1].0);
    }
}

#[test]
fn vertical_line_plots_every_row_once() {
    let mut bmp: Vec<u8> = Vec::<u8>::new_bitmap(10, 10, 24).unwrap();
    let c = Rgb { r: 5, g: 6, b: 7 };
    bmp.draw_line(&Point { x: 2, y: 1 }, &Point { x: 2, y: 6 }, &c);
    assert_eq!(
        painted(&bmp, &c),
        vec![(2, 1), (2, 2), (2, 3), (2, 4), (2, 5), (2, 6)]
    );
}

#[test]
fn diagonal_line_steps_both_axes() {
    let mut bmp: Vec<u8> = Vec::<u8>::new_bitmap(10, 10, 24).unwrap();
    let c = Rgb { r: 50, g: 60, b: 70 };
    bmp.draw_line(&Point { x: 0, y: 0 }, &Point { x: 3, y: 3 }, &c);
    assert_eq!(painted(&bmp, &c), vec![(0, 0), (1, 1), (2, 2), (3, 3)]);
}

#[test]
fn reversed_line_keeps_length_and_endpoints() {
    let mut forward: Vec<u8> = Vec::<u8>::new_bitmap(12, 12, 24).unwrap();
    let mut backward: Vec<u8> = Vec::<u8>::new_bitmap(12, 12, 24).unwrap();
    let c = Rgb { r: 1, g: 2, b: 3 };
    forward.draw_line(&Point { x: 1, y: 2 }, &Point { x: 9, y: 5 }, &c);
    backward.draw_line(&Point { x: 9, y: 5 }, &Point { x: 1, y: 2 }, &c);
    // The walk plots max(dx, dy) + 1 points from either end, and both walks
    // paint the two endpoints; the interior rounding may differ.
    let f = painted(&forward, &c);
    let b = painted(&backward, &c);
    assert_eq!(f.len(), 9);
    assert_eq!(b.len(), 9);
    for set in [&f, &b] {
        assert!(set.contains(&(1, 2)));
        assert!(set.contains(&(9, 5)));
    }
}

#[test]
fn line_leaving_the_canvas_keeps_its_visible_part() {
    let mut bmp: Vec<u8> = Vec::<u8>::new_bitmap(10, 10, 24).unwrap();
    let c = Rgb { r: 255, g: 255, b: 0 };
    bmp.draw_line(&Point { x: 0, y: 0 }, &Point { x: 19, y: 0 }, &c);
    let points = painted(&bmp, &c);
    assert_eq!(points.len(), 10);
    for (i, &(x, y)) in points.iter().enumerate() {
        assert_eq!((x, y), (i as u32, 0));
    }
}

#[test]
fn rectangle_paints_exactly_the_perimeter() {
    let mut bmp: Vec<u8> = Vec::<u8>::new_bitmap(10, 10, 24).unwrap();
    let c = Rgb { r: 200, g: 100, b: 50 };
    bmp.draw_rectangle(&Point { x: 1, y: 1 }, &Point { x: 5, y: 5 }, &c);
    let points = painted(&bmp, &c);
    assert_eq!(points.len(), 16);
    for &(x, y) in &points {
        assert!((1..=5).contains(&x) && (1..=5).contains(&y));
        assert!(x == 1 || x == 5 || y == 1 || y == 5);
    }
    // None of the interior is painted.
    for y in 2..5 {
        for x in 2..5 {
            assert!(!points.contains(&(x, y)));
        }
    }
}

#[test]
fn circle_fills_by_squared_distance() {
    let mut bmp: Vec<u8> = Vec::<u8>::new_bitmap(20, 20, 24).unwrap();
    let c = Rgb { r: 0, g: 0, b: 255 };
    bmp.draw_circle(&Point { x: 10, y: 10 }, 3, &c);
    for y in 0..20u32 {
        for x in 0..20u32 {
            let dx = x as i32 - 10;
            let dy = y as i32 - 10;
            let inside = dx * dx + dy * dy <= 9;
            let hit = bmp.get_pixel(&Point { x, y }) == Ok(c);
            assert_eq!(hit, inside, "disagreement at ({}, {})", x, y);
        }
    }
}

#[test]
fn circle_clamps_at_the_origin() {
    let mut bmp: Vec<u8> = Vec::<u8>::new_bitmap(8, 8, 24).unwrap();
    let c = Rgb { r: 3, g: 3, b: 3 };
    bmp.draw_circle(&Point { x: 0, y: 0 }, 2, &c);
    assert_eq!(bmp.get_pixel(&Point { x: 0, y: 0 }), Ok(c));
    assert_eq!(bmp.get_pixel(&Point { x: 2, y: 0 }), Ok(c));
    assert_ne!(bmp.get_pixel(&Point { x: 2, y: 2 }), Ok(c));
}

#[test]
fn two_point_polygon_is_a_double_line() {
    let mut polygon: Vec<u8> = Vec::<u8>::new_bitmap(12, 12, 24).unwrap();
    let mut line: Vec<u8> = Vec::<u8>::new_bitmap(12, 12, 24).unwrap();
    let c = Rgb { r: 8, g: 8, b: 8 };
    let ends = [Point { x: 1, y: 1 }, Point { x: 6, y: 4 }];
    polygon.draw_polygon(&ends, &c);
    line.draw_line(&Point { x: 1, y: 1 }, &Point { x: 6, y: 4 }, &c);
    line.draw_line(&Point { x: 1, y: 1 }, &Point { x: 6, y: 4 }, &c);
    assert_eq!(polygon, line);
}

#[test]
fn polygon_closes_the_loop() {
    let mut bmp: Vec<u8> = Vec::<u8>::new_bitmap(16, 16, 24).unwrap();
    let c = Rgb { r: 255, g: 255, b: 255 };
    let corners = [
        Point { x: 1, y: 1 },
        Point { x: 9, y: 1 },
        Point { x: 9, y: 9 },
        Point { x: 1, y: 9 },
    ];
    bmp.draw_polygon(&corners, &c);
    // Every corner and every edge midpoint is painted, including the closing
    // edge from the last corner back to the first.
    for &(x, y) in &[
        (1, 1),
        (9, 1),
        (9, 9),
        (1, 9),
        (5, 1),
        (9, 5),
        (5, 9),
        (1, 5),
    ] {
        assert_eq!(bmp.get_pixel(&Point { x, y }), Ok(c));
    }
    assert_ne!(bmp.get_pixel(&Point { x: 5, y: 5 }), Ok(c));
}

use ln::canvas::{Canvas, BLACK, WHITE};
use ln::{draw_line, Paths, Scalar, Vector};

fn s(x: f64) -> Scalar {
    Scalar::from_bits(x.to_bits())
}

fn v(x: f64, y: f64, z: f64) -> Vector {
    Vector::new(s(x), s(y), s(z))
}

fn black_pixels(canvas: &Canvas) -> Vec<(u32, u32)> {
    let mut out = Vec::new();
    for y in 0..canvas.height() {
        for x in 0..canvas.width() {
            if canvas.pixel(x, y) == Some(BLACK) {
                out.push((x, y));
            }
        }
    }
    out
}

/// The line of Bresenham, as the textbook has it.
fn reference_line(x0: i64, y0: i64, x1: i64, y1: i64) -> Vec<(i64, i64)> {
    let dx = (x1 - x0).abs();
    let dy = -(y1 - y0).abs();
    let sx = if x0 < x1 { 1 } else { -1 };
    let sy = if y0 < y1 { 1 } else { -1 };
    let mut err = dx + dy;
    let (mut x, mut y) = (x0, y0);
    let mut out = Vec::new();
    loop {
        out.push((x, y));
        if x == x1 && y == y1 {
            break;
        }
        let e2 = 2 * err;
        if e2 >= dy {
            err += dy;
            x += sx;
        }
        if e2 <= dx {
            err += dx;
            y += sy;
        }
    }
    out
}

#[test]
fn casts_cut_off_behind_the_point() {
    let cases = [
        0.0, -0.0, 0.5, -0.5, 0.999, 1.0, -1.0, 1.5, -1.5, 2.5, 123456.789, -123456.789, 2147483646.5, 2147483647.0,
        2147483647.5, 2147483648.0, -2147483648.0, -2147483648.5, -2147483649.0, 4294967295.0, 4294967295.5,
        4294967296.0, 1e10, -1e10, 1e300, -1e300, 5e-324, 4503599627370496.0, 9007199254740993.0,
        f64::INFINITY, f64::NEG_INFINITY, f64::NAN, f64::MAX, f64::MIN_POSITIVE,
    ];
    for &x in cases.iter() {
        assert_eq!(s(x).to_i32(), x as i32, "{} as i32", x);
        assert_eq!(s(x).to_u32(), x as u32, "{} as u32", x);
    }
    let mut seed: u64 = 99;
    for _ in 0..2000 {
        seed = seed.wrapping_mul(6364136223846793005).wrapping_add(1442695040888963407);
        let x = f64::from_bits(seed);
        assert_eq!(s(x).to_i32(), x as i32);
        assert_eq!(s(x).to_u32(), x as u32);
        let y = (seed >> 20) as f64 / 1024.0 - 2e9;
        assert_eq!(s(y).to_i32(), y as i32);
        assert_eq!(s(y).to_u32(), y as u32);
    }
}

#[test]
fn a_new_canvas_has_one_colour() {
    let canvas = Canvas::new(4, 3, WHITE).unwrap();
    assert_eq!((canvas.width(), canvas.height()), (4, 3));
    for y in 0..3 {
        for x in 0..4 {
            assert_eq!(canvas.pixel(x, y), Some(WHITE));
        }
    }
    assert_eq!(canvas.pixel(4, 0), None);
    assert_eq!(canvas.pixel(0, 3), None);
    assert_eq!(canvas.into_raw(), vec![255u8; 36]);
    let empty = Canvas::new(0, 7, BLACK).unwrap();
    assert_eq!((empty.width(), empty.height()), (0, 7));
    assert!(empty.into_raw().is_empty());
    assert!(Canvas::new(u32::MAX, u32::MAX, WHITE).is_none());
}

#[test]
fn draw_line_paints_the_line_of_bresenham() {
    let ends = [
        (0, 0, 9, 0),
        (0, 0, 0, 9),
        (0, 0, 9, 9),
        (9, 9, 0, 0),
        (0, 9, 9, 0),
        (1, 2, 8, 5),
        (8, 5, 1, 2),
        (2, 1, 4, 9),
        (4, 9, 2, 1),
        (3, 3, 3, 3),
        (0, 7, 9, 6),
        (9, 0, 0, 3),
    ];
    for &(x0, y0, x1, y1) in ends.iter() {
        let mut canvas = Canvas::new(10, 10, WHITE).unwrap();
        draw_line(&mut canvas, x0, y0, x1, y1, BLACK);
        let mut want: Vec<(u32, u32)> =
            reference_line(x0 as i64, y0 as i64, x1 as i64, y1 as i64).iter().map(|p| (p.0 as u32, p.1 as u32)).collect();
        want.sort_by_key(|p| (p.1, p.0));
        want.dedup();
        assert_eq!(black_pixels(&canvas), want, "{:?}", (x0, y0, x1, y1));
        assert_eq!(canvas.pixel(x0 as u32, y0 as u32), Some(BLACK));
        assert_eq!(canvas.pixel(x1 as u32, y1 as u32), Some(BLACK));
        let steps = (x1 - x0).abs().max((y1 - y0).abs()) as usize + 1;
        assert_eq!(want.len(), steps);
    }
}

#[test]
fn draw_line_leaves_out_what_lies_outside() {
    let mut canvas = Canvas::new(5, 5, WHITE).unwrap();
    draw_line(&mut canvas, -3, 2, 8, 2, BLACK);
    assert_eq!(black_pixels(&canvas), vec![(0, 2), (1, 2), (2, 2), (3, 2), (4, 2)]);
    let mut canvas = Canvas::new(5, 5, WHITE).unwrap();
    draw_line(&mut canvas, -10, -10, -1, 20, BLACK);
    assert!(black_pixels(&canvas).is_empty());
    let mut canvas = Canvas::new(5, 5, WHITE).unwrap();
    draw_line(&mut canvas, -2, -2, 6, 6, BLACK);
    assert_eq!(black_pixels(&canvas), vec![(0, 0), (1, 1), (2, 2), (3, 3), (4, 4)]);
    let mut red = Canvas::new(3, 1, BLACK).unwrap();
    draw_line(&mut red, 1, 0, 2, 0, (200, 10, 20));
    assert_eq!(red.into_raw(), vec![0, 0, 0, 200, 10, 20, 200, 10, 20]);
}

#[test]
fn draw_line_bears_far_ends() {
    let mut canvas = Canvas::new(3, 3, WHITE).unwrap();
    draw_line(&mut canvas, 1, i32::MIN + 2147483000, 1, 1000, BLACK);
    assert_eq!(black_pixels(&canvas), vec![(1, 0), (1, 1), (1, 2)]);
}

#[test]
fn an_image_of_paths_counts_rows_from_the_top() {
    let paths = Paths::from_vec(vec![
        vec![v(0.0, 0.0, 0.0), v(3.9, 0.2, 0.0)],
        vec![v(1.5, 4.0, 0.0), v(1.5, 2.0, 0.0), v(3.0, 2.0, 0.0)],
        vec![v(0.0, 4.0, 0.0)],
        Vec::new(),
    ]);
    let canvas = paths.to_image(s(5.0), s(4.0)).unwrap();
    assert_eq!((canvas.width(), canvas.height()), (5, 4));
    // y = 0 falls on row 4, below the image; y = 0.2 on row 3, since 3.8 is cut off to 3.
    let mut want = vec![(2, 3), (3, 3), (1, 0), (1, 1), (1, 2), (2, 2), (3, 2)];
    want.sort_by_key(|p| (p.1, p.0));
    assert_eq!(black_pixels(&canvas), want);
    assert!(Paths::new().to_image(s(1e10), s(1e10)).is_none());
    let none = Paths::new().to_image(s(2.9), s(-1.0)).unwrap();
    assert_eq!((none.width(), none.height()), (2, 0));
}

use paint::geometry::{quad_vertices, NormalizedPoint, Ratio};

fn as_float(ratio: Ratio) -> f32 {
    ratio.num as f32 / ratio.den as f32
}

#[test]
fn origin_maps_to_top_left() {
    let point = NormalizedPoint::from_pixel(0, 0, 800, 600);
    assert_eq!(point.x, Ratio { num: -800, den: 800 });
    assert_eq!(point.y, Ratio { num: 600, den: 600 });
    assert_eq!(as_float(point.x), -1.0);
    assert_eq!(as_float(point.y), 1.0);
}

#[test]
fn extent_maps_to_bottom_right() {
    let point = NormalizedPoint::from_pixel(800, 600, 800, 600);
    assert_eq!(point.x, Ratio { num: 800, den: 800 });
    assert_eq!(point.y, Ratio { num: -600, den: 600 });
    assert_eq!(as_float(point.x), 1.0);
    assert_eq!(as_float(point.y), -1.0);
}

#[test]
fn middle_maps_to_center() {
    let point = NormalizedPoint::from_pixel(400, 300, 800, 600);
    assert_eq!(point.x, Ratio { num: 0, den: 800 });
    assert_eq!(point.y, Ratio { num: 0, den: 600 });
    assert_eq!(as_float(point.x), 0.0);
    assert_eq!(as_float(point.y), 0.0);
}

#[test]
fn quarter_points_are_exact() {
    let point = NormalizedPoint::from_pixel(200, 150, 800, 600);
    assert_eq!(point.x, Ratio { num: -400, den: 800 });
    assert_eq!(point.y, Ratio { num: 300, den: 600 });
    assert_eq!(as_float(point.x), -0.5);
    assert_eq!(as_float(point.y), 0.5);
    let point = NormalizedPoint::from_pixel(600, 450, 800, 600);
    assert_eq!(as_float(point.x), 0.5);
    assert_eq!(as_float(point.y), -0.5);
}

#[test]
fn mapping_follows_the_formula() {
    let (width, height) = (1023u32, 767u32);
    for x in (-50..1100).step_by(37) {
        for y in (-50..800).step_by(29) {
            let point = NormalizedPoint::from_pixel(x, y, width, height);
            let nx = 2.0 * x as f64 / width as f64 - 1.0;
            let ny = -(2.0 * y as f64 / height as f64 - 1.0);
            let px = point.x.num as f64 / point.x.den as f64;
            let py = point.y.num as f64 / point.y.den as f64;
            assert!((px - nx).abs() < 1e-12, "x {} -> {} vs {}", x, px, nx);
            assert!((py - ny).abs() < 1e-12, "y {} -> {} vs {}", y, py, ny);
        }
    }
}

#[test]
fn mapping_has_room_for_every_input() {
    let point = NormalizedPoint::from_pixel(i32::MAX, i32::MIN, u32::MAX, u32::MAX);
    assert_eq!(point.x.num, 2 * i32::MAX as i64 - u32::MAX as i64);
    assert_eq!(point.x.den, u32::MAX as i64);
    assert_eq!(point.y.num, u32::MAX as i64 - 2 * i32::MIN as i64);
    assert_eq!(point.y.den, u32::MAX as i64);
    let point = NormalizedPoint::from_pixel(i32::MIN, i32::MAX, 0, 0);
    assert_eq!(point.x.num, 2 * i32::MIN as i64);
    assert_eq!(point.y.num, -2 * i32::MAX as i64);
}

#[test]
fn surface_without_extent_gives_no_number() {
    let point = NormalizedPoint::from_pixel(3, 0, 0, 0);
    assert_eq!(point.x, Ratio { num: 6, den: 0 });
    assert_eq!(point.y, Ratio { num: 0, den: 0 });
    assert!(as_float(point.x).is_infinite());
    assert!(as_float(point.y).is_nan());
}

#[test]
fn quad_is_two_triangles_over_the_viewport() {
    let data = quad_vertices();
    let expected: Vec<i8> = vec![
        -1, 1, 0, 1, //
        -1, -1, 0, 0, //
        1, -1, 1, 0, //
        -1, 1, 0, 1, //
        1, -1, 1, 0, //
        1, 1, 1, 1,
    ];
    assert_eq!(data, expected);
    for vertex in data.chunks(4) {
        assert_eq!(2 * vertex[2], vertex[0] + 1);
        assert_eq!(2 * vertex[3], vertex[1] + 1);
    }
}

use pond::circle_math::get_point_on_circle;
use pond::config::Config;
use pond::point::Point;

/// Milli-scaled cosine and sine of an angle in degrees, as the host
/// evaluates them.
fn trig_milli(angle_degrees: f64) -> (i64, i64) {
    let rad = angle_degrees.to_radians();
    (
        (rad.cos() * 1000.0).round() as i64,
        (rad.sin() * 1000.0).round() as i64,
    )
}

#[test]
fn point_at_angle_zero_is_radius_to_the_right() {
    let (c, s) = trig_milli(0.0);
    assert_eq!((c, s), (1000, 0));
    let (x, y) = get_point_on_circle(2000, 3000, 150, c, s);
    assert_eq!(x, 2000 + 150 * 1000);
    assert_eq!(y, 3000);
}

#[test]
fn point_at_angle_ninety_is_radius_above() {
    let (c, s) = trig_milli(90.0);
    let (x, y) = get_point_on_circle(2000, 3000, 150, c, s);
    // cos 90 rounds to exactly zero at milli precision, so the tolerance
    // band collapses to equality.
    assert_eq!(x, 2000);
    assert_eq!(y, 3000 + 150 * 1000);
}

#[test]
fn point_on_circle_has_period_of_full_turn() {
    for base in [0.0f64, 37.0, 90.0, 123.4, 180.0, 271.5] {
        let t0 = trig_milli(base);
        let t1 = trig_milli(base + 360.0);
        let p0 = get_point_on_circle(-5000, 7000, 120, t0.0, t0.1);
        let p1 = get_point_on_circle(-5000, 7000, 120, t1.0, t1.1);
        assert_eq!(p0, p1);
    }
}

#[test]
fn negative_radius_flips_through_center() {
    let (c, s) = trig_milli(0.0);
    let (x, y) = get_point_on_circle(1000, 1000, -50, c, s);
    assert_eq!(x, 1000 - 50 * 1000);
    assert_eq!(y, 1000);
}

#[test]
fn point_new_stores_coordinates() {
    let p = Point::new(-7, 9);
    assert_eq!(p.x_position, -7);
    assert_eq!(p.y_position, 9);
}

#[test]
fn config_new_fixed_canvas() {
    let c = Config::new();
    assert_eq!(c.rows, 100);
    assert_eq!(c.cols, 100);
    assert_eq!(c.size, 10);
    assert_eq!(c.line_width, 2000);
    assert_eq!(c.margin, 35);
    assert_eq!(c.width, 1070);
    assert_eq!(c.height, 1070);
    assert!(!c.debug_mode);
}

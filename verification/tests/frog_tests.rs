use pond::frog::{Frog, MouthStatus, MOUTH_OPEN_LIMIT, MOUTH_STEP};

#[test]
fn opening_past_limit_turns_around() {
    // 40.01 degrees, opening.  The same tick that flips the phase to
    // closing also narrows the mouth by one step: the closing rule runs
    // right after the flip and sees the new phase.
    let mut f = Frog::new(0, 5000, 100, 40_010, MouthStatus::Opening);
    f.update();
    assert_eq!(f.mouth_status, MouthStatus::Closing);
    assert_eq!(f.mouth_angle, 40_010 - MOUTH_STEP);
}

#[test]
fn closing_below_zero_turns_around_without_moving() {
    // -0.01 degrees, closing: the flip back to opening happens after the
    // opening rule has already run this tick, so the angle stays put.
    let mut f = Frog::new(0, 500, 100, -10, MouthStatus::Closing);
    f.update();
    assert_eq!(f.mouth_status, MouthStatus::Opening);
    assert_eq!(f.mouth_angle, -10);
}

#[test]
fn opening_within_limit_widens_by_one_step() {
    let mut f = Frog::new(0, 500, 100, 30_000, MouthStatus::Opening);
    f.update();
    assert_eq!(f.mouth_status, MouthStatus::Opening);
    assert_eq!(f.mouth_angle, 30_000 + MOUTH_STEP);
}

#[test]
fn static_phase_starts_opening_and_never_returns() {
    let mut f = Frog::new(0, 500, 100, 10_000, MouthStatus::Static);
    f.update();
    assert_eq!(f.mouth_status, MouthStatus::Opening);
    assert_eq!(f.mouth_angle, 10_000);
    for _ in 0..5000 {
        f.update();
        assert_ne!(f.mouth_status, MouthStatus::Static);
    }
}

#[test]
fn mouth_angle_stays_in_band_over_many_ticks() {
    let mut f = Frog::new(0, 500, 100, 35_000, MouthStatus::Opening);
    for _ in 0..10_000 {
        f.update();
        assert!(f.mouth_angle >= -MOUTH_STEP);
        assert!(f.mouth_angle <= MOUTH_OPEN_LIMIT + MOUTH_STEP);
    }
}

#[test]
fn mouth_angle_from_above_band_comes_down() {
    // Construction draws angles up to 60 degrees; the machine walks such
    // an angle down into the band and keeps it there.
    let mut f = Frog::new(0, 500, 100, 59_000, MouthStatus::Opening);
    for _ in 0..10_000 {
        let before = f.mouth_angle;
        f.update();
        assert!(f.mouth_angle <= before.max(MOUTH_OPEN_LIMIT + MOUTH_STEP));
        assert!(f.mouth_angle >= -MOUTH_STEP);
    }
    assert!(f.mouth_angle <= MOUTH_OPEN_LIMIT + MOUTH_STEP);
}

#[test]
fn descent_tick_lowers_body_head_and_foot_by_one_unit() {
    // A closing mouth below zero leaves the angle unchanged this tick, so
    // the head moves by the descent alone.
    let mut f = Frog::new(0, 5000, 100, -10, MouthStatus::Closing);
    let head_before = f.head(1000, 0);
    let foot_before = f.foot();
    f.update();
    let head_after = f.head(1000, 0);
    let foot_after = f.foot();
    assert_eq!(f.body_y, 4000);
    assert_eq!(head_after.y_position, head_before.y_position - 1000);
    assert_eq!(head_after.x_position, head_before.x_position);
    assert_eq!(foot_after.y_position, foot_before.y_position - 1000);
    assert_eq!(foot_after.x_position, foot_before.x_position);
}

#[test]
fn body_at_rest_line_stays_put() {
    let mut f = Frog::new(0, 1000, 100, -10, MouthStatus::Closing);
    for _ in 0..100 {
        f.update();
        assert_eq!(f.body_y, 1000);
    }
}

#[test]
fn body_sinks_once_to_rest_line_and_settles() {
    let mut f = Frog::new(0, 5500, 100, 20_000, MouthStatus::Opening);
    for _ in 0..4 {
        f.update();
    }
    assert_eq!(f.body_y, 1500);
    f.update();
    assert_eq!(f.body_y, 500);
    f.update();
    assert_eq!(f.body_y, 500);
}

#[test]
fn head_and_foot_derive_from_body_size_and_angle() {
    let f = Frog::new(2000, 3000, 150, 0, MouthStatus::Opening);
    // Trig of angle zero: cosine one, sine zero, milli-scaled.
    let head = f.head(1000, 0);
    let foot = f.foot();
    assert_eq!(head.x_position, 2000 + 150 * 1000);
    assert_eq!(head.y_position, 3000);
    assert_eq!(foot.x_position, 2000 + 150 * 1000);
    assert_eq!(foot.y_position, 3000);
}

#[test]
fn frog_display_emits_five_commands() {
    let f = Frog::new(0, 5000, 100, 10_000, MouthStatus::Opening);
    let rad = 10.0f64.to_radians();
    let c = (rad.cos() * 1000.0).round() as i64;
    let s = (rad.sin() * 1000.0).round() as i64;
    let cmds = f.display(c, s);
    assert_eq!(cmds.len(), 5);
}

use pond::draw::{Color, DrawCmd, LINE_WEIGHT};
use pond::fern::{Fern, LifeCycleStatus};
use pond::point::Point;

#[test]
fn fern_grows_to_its_cap_and_matures() {
    // Height cap of 150 units, far-off age cap: after 150 ticks the fern
    // stands exactly at its cap and is an adult.
    let mut f = Fern::new(0, 0, 150_000, 1_000_000, 60, 220, 80);
    for _ in 0..150 {
        f.update();
    }
    assert_eq!(f.current_height, 150_000);
    assert_eq!(f.life_cycle_status, LifeCycleStatus::Adult);
    // Growth stops: the next tick leaves the height alone.
    f.update();
    assert_eq!(f.current_height, 150_000);
}

#[test]
fn fern_dies_when_age_cap_elapses_whatever_its_height() {
    // Age cap of ten ticks against a height cap of a thousand units.
    let mut f = Fern::new(0, 0, 1_000_000, 10, 60, 220, 80);
    for _ in 0..9 {
        f.update();
    }
    assert_ne!(f.life_cycle_status, LifeCycleStatus::Dead);
    f.update();
    assert_eq!(f.life_cycle_status, LifeCycleStatus::Dead);
    assert_eq!(f.red_value, 255);
    assert_eq!(f.green_value, 0);
    assert_eq!(f.blue_value, 80);
}

#[test]
fn dead_fern_stays_dead_and_keeps_its_color() {
    let mut f = Fern::new(0, 0, 1_000_000, 10, 60, 220, 80);
    for _ in 0..10 {
        f.update();
    }
    let height_at_death = f.current_height;
    for _ in 0..100 {
        f.update();
        assert_eq!(f.life_cycle_status, LifeCycleStatus::Dead);
        assert_eq!(f.current_height, height_at_death);
        assert_eq!(f.red_value, 255);
        assert_eq!(f.green_value, 0);
        assert_eq!(f.blue_value, 80);
    }
}

#[test]
fn fern_height_never_decreases() {
    let mut f = Fern::new(0, 0, 40_000, 80, 60, 220, 80);
    let mut last = f.current_height;
    for _ in 0..200 {
        f.update();
        assert!(f.current_height >= last);
        last = f.current_height;
    }
}

#[test]
fn fern_ages_one_tick_at_a_time() {
    let mut f = Fern::new(0, 0, 40_000, 300, 60, 220, 80);
    assert_eq!(f.age, 0);
    for expected in 1..=50i64 {
        f.update();
        assert_eq!(f.age, expected);
    }
}

#[test]
fn fern_display_is_one_vertical_line_from_the_floor() {
    let mut f = Fern::new(12_345, 0, 40_000, 300, 60, 220, 80);
    for _ in 0..7 {
        f.update();
    }
    let cmds = f.display();
    assert_eq!(cmds.len(), 1);
    assert_eq!(
        cmds[0],
        DrawCmd::Line {
            start: Point::new(12_345, 0),
            end: Point::new(12_345, 7000),
            weight: LINE_WEIGHT,
            color: Color { red: 60, green: 220, blue: 80 },
        }
    );
}

use pond::fly::{FlightStatus, Fly, Jitter};

/// A small deterministic generator standing in for the host's seeded
/// random source: each draw is a jitter component in [-1000, 1000].
struct SeededDraws {
    state: u64,
}

impl SeededDraws {
    fn new(seed: u64) -> SeededDraws {
        SeededDraws { state: seed }
    }

    fn next_offset(&mut self) -> i64 {
        self.state = self
            .state
            .wrapping_mul(6364136223846793005)
            .wrapping_add(1442695040888963407);
        ((self.state >> 33) % 2001) as i64 - 1000
    }
}

#[test]
fn fly_position_is_base_plus_sum_of_sampled_offsets() {
    let mut draws = SeededDraws::new(42);
    let mut fly = Fly::new(5000, -3000);
    let mut sum_x: i64 = 0;
    let mut sum_y: i64 = 0;
    for _ in 0..500 {
        let j = Jitter { delta_x: draws.next_offset(), delta_y: draws.next_offset() };
        sum_x += j.delta_x;
        sum_y += j.delta_y;
        fly.update(j);
    }
    assert_eq!(fly.body_x, 5000 + sum_x);
    assert_eq!(fly.body_y, -3000 + sum_y);
}

#[test]
fn fly_runs_reproduce_exactly_under_the_same_seed() {
    let mut first = Fly::new(0, 0);
    let mut second = Fly::new(0, 0);
    let mut draws_a = SeededDraws::new(7);
    for _ in 0..200 {
        first.update(Jitter { delta_x: draws_a.next_offset(), delta_y: draws_a.next_offset() });
    }
    let mut draws_b = SeededDraws::new(7);
    for _ in 0..200 {
        second.update(Jitter { delta_x: draws_b.next_offset(), delta_y: draws_b.next_offset() });
    }
    assert_eq!(first.body_x, second.body_x);
    assert_eq!(first.body_y, second.body_y);
}

#[test]
fn fly_starts_hovering_and_stays_hovering() {
    let mut fly = Fly::new(10, 20);
    assert_eq!(fly.flight_status, FlightStatus::Hover);
    for _ in 0..50 {
        fly.update(Jitter { delta_x: 3, delta_y: -4 });
        assert_eq!(fly.flight_status, FlightStatus::Hover);
    }
}

#[test]
fn fly_display_is_one_small_ellipse() {
    let fly = Fly::new(111, 222);
    let cmds = fly.display();
    assert_eq!(cmds.len(), 1);
    match cmds[0] {
        pond::draw::DrawCmd::Ellipse { center, width, height, fill, stroke_weight, .. } => {
            assert_eq!(center.x_position, 111);
            assert_eq!(center.y_position, 222);
            assert_eq!(width, 5000);
            assert_eq!(height, 5000);
            assert_eq!(fill, pond::draw::Color { red: 255, green: 255, blue: 0 });
            assert_eq!(stroke_weight, 0);
        }
        _ => panic!("a fly draws a single ellipse"),
    }
}

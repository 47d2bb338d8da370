use vstd::prelude::*;
use crate::draw::{spec_fly_color, Color, DrawCmd};
use crate::point::Point;
use crate::units::MILLI;

verus! {

/// How a fly moves.  Only hovering jitter is active behavior; `Flit` is a
/// reserved mode that no current rule enters.
#[derive(Clone, Copy, PartialEq, Eq, Structural, Debug)]
pub enum FlightStatus {
    Hover,
    Flit,
}

/// One tick's random motion for one fly, both components in milli-units
/// and at most one world unit in magnitude.
#[derive(Clone, Copy, PartialEq, Eq, Structural, Debug)]
pub struct Jitter {
    pub delta_x: i64,
    pub delta_y: i64,
}

impl Jitter {
    /// Each component models a uniform draw from [-1.0, 1.0] world units.
    pub open spec fn wf(self) -> bool {
        &&& -MILLI <= self.delta_x <= MILLI
        &&& -MILLI <= self.delta_y <= MILLI
    }
}

/// Width and height of the ellipse a fly is drawn as: five world units.
pub const FLY_SIZE: i64 = 5000;

/// A fly: a position that drifts by one random offset per tick.  Flies
/// have no lifecycle; their position is unbounded by design.
#[derive(Clone, Copy, PartialEq, Eq, Structural, Debug)]
pub struct Fly {
    pub body_x: i64,
    pub body_y: i64,
    pub flight_status: FlightStatus,
}

/// The drawing commands a fly emits: a single small yellow ellipse at its
/// body position.
pub open spec fn fly_commands(f: Fly) -> Seq<DrawCmd> {
    seq![
        DrawCmd::Ellipse {
            center: (Point { x_position: f.body_x, y_position: f.body_y }),
            width: FLY_SIZE,
            height: FLY_SIZE,
            fill: spec_fly_color(),
            stroke: spec_fly_color(),
            stroke_weight: 0,
        },
    ]
}

impl Fly {
    pub fn new(body_x: i64, body_y: i64) -> (f: Fly)
        ensures
            f.body_x == body_x,
            f.body_y == body_y,
            f.flight_status is Hover,
    {
        Fly { body_x, body_y, flight_status: FlightStatus::Hover }
    }

    /// One tick of shaky hovering: the position moves by exactly the
    /// offsets the caller sampled.  The bounds on the current position are
    /// a machine limit only: drift itself is unbounded by design.
    pub fn update(&mut self, jitter: Jitter)
        requires
            jitter.wf(),
            i64::MIN <= old(self).body_x + jitter.delta_x <= i64::MAX,
            i64::MIN <= old(self).body_y + jitter.delta_y <= i64::MAX,
        ensures
            final(self).body_x == old(self).body_x + jitter.delta_x,
            final(self).body_y == old(self).body_y + jitter.delta_y,
            final(self).flight_status == old(self).flight_status,
    {
        self.body_x = self.body_x + jitter.delta_x;
        self.body_y = self.body_y + jitter.delta_y;
    }

    pub fn display(&self) -> (cmds: Vec<DrawCmd>)
        ensures
            cmds@ == fly_commands(*self),
    {
        let mut cmds: Vec<DrawCmd> = Vec::new();
        cmds.push(DrawCmd::Ellipse {
            center: Point { x_position: self.body_x, y_position: self.body_y },
            width: FLY_SIZE,
            height: FLY_SIZE,
            fill: Color { red: 255, green: 255, blue: 0 },
            stroke: Color { red: 255, green: 255, blue: 0 },
            stroke_weight: 0,
        });
        proof {
            assert(cmds@ =~= fly_commands(*self));
        }
        cmds
    }
}

/// One coordinate of a fly's position after the first `n` of a run of
/// per-tick offsets have been applied.
pub open spec fn drifted(start: int, offsets: Seq<i64>, n: int) -> int
    decreases n,
{
    if n <= 0 {
        start
    } else {
        drifted(start, offsets, n - 1) + offsets[n - 1]
    }
}

/// The sum of the first `n` offsets of a run.
pub open spec fn offset_sum(offsets: Seq<i64>, n: int) -> int
    decreases n,
{
    if n <= 0 {
        0
    } else {
        offset_sum(offsets, n - 1) + offsets[n - 1]
    }
}

/// Drift law: after any run of ticks, each coordinate of a fly's position
/// is its base value plus the sum of the offsets sampled for it, so a run
/// is exactly reproducible from the draw sequence.
pub proof fn lemma_fly_drift(start: int, offsets: Seq<i64>, n: int)
    requires
        0 <= n <= offsets.len(),
    ensures
        drifted(start, offsets, n) == start + offset_sum(offsets, n),
    decreases n,
{
    if n > 0 {
        lemma_fly_drift(start, offsets, n - 1);
    }
}

} // verus!

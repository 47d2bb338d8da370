use vstd::prelude::*;
use crate::circle_math::{get_point_on_circle, spec_point_on_circle};
use crate::draw::{spec_frog_color, Color, DrawCmd, LINE_WEIGHT};
use crate::point::Point;
use crate::units::{ANGLE_LIMIT, COORD_LIMIT, MILLI, SIZE_LIMIT};

verus! {

/// Phase of the mouth animation.  `Static` is transient: the machine
/// leaves it on its very first tick and never re-enters it.
#[derive(Clone, Copy, PartialEq, Eq, Structural, Debug)]
pub enum MouthStatus {
    Opening,
    Closing,
    Static,
}

/// How far the mouth angle moves per tick: a fifth of a degree.
pub const MOUTH_STEP: i64 = 200;

/// The angle (in milli-degrees) above which an opening mouth turns around.
pub const MOUTH_OPEN_LIMIT: i64 = 40_000;

/// Width and height of the ellipses a frog's body parts are drawn as.
pub const FROG_PART_SIZE: i64 = 10_000;

/// A frog: a body position that sinks once to a rest line, a mouth that
/// oscillates between roughly 0 and 40 degrees, and a fixed body size.
///
/// The head sits at `size` units from the body at the mouth angle and the
/// foot at `size` units at angle zero.  Both are always derived from the
/// body position, the size and the angle — they are never stored, so they
/// can never drift out of step with that formula.
#[derive(Clone, Copy, PartialEq, Eq, Structural, Debug)]
pub struct Frog {
    pub body_x: i64,
    pub body_y: i64,
    /// Mouth aperture in milli-degrees.
    pub mouth_angle: i64,
    pub mouth_status: MouthStatus,
    /// Radius of body-part placement, in whole units.
    pub size: i64,
}

/// A body y after the per-tick descent rule: while above the rest line
/// (one unit), sink by exactly one unit; at or below it, stay put.
pub open spec fn descended_y(y: int) -> int {
    if y > MILLI {
        y - MILLI
    } else {
        y
    }
}

/// The mouth state machine, one tick.  The three rules are evaluated in
/// sequence, each reading what the previous one left behind:
/// an opening mouth at or under the limit widens by one step, one over the
/// limit flips to closing; then a closing mouth at or above zero narrows
/// by one step, one below zero flips to opening; finally a static mouth
/// starts opening.  Because a flip to closing is seen by the very next
/// rule, the tick that turns the mouth around at the top also narrows it —
/// the oscillation is asymmetric by one tick at the extremes, and that
/// asymmetry is intended behavior.
pub open spec fn mouth_after(status: MouthStatus, angle: int) -> (MouthStatus, int) {
    let (s1, a1) = if status is Opening {
        if angle <= MOUTH_OPEN_LIMIT {
            (MouthStatus::Opening, angle + MOUTH_STEP)
        } else {
            (MouthStatus::Closing, angle)
        }
    } else {
        (status, angle)
    };
    let (s2, a2) = if s1 is Closing {
        if a1 >= 0 {
            (MouthStatus::Closing, a1 - MOUTH_STEP)
        } else {
            (MouthStatus::Opening, a1)
        }
    } else {
        (s1, a1)
    };
    let s3 = if s2 is Static {
        MouthStatus::Opening
    } else {
        s2
    };
    (s3, a2)
}

/// A whole frog after one tick: the body sinks toward the rest line and
/// the mouth machine advances.  Meaningful for well-formed frogs, whose
/// fields the casts cannot truncate.
pub open spec fn frog_ticked(f: Frog) -> Frog {
    Frog {
        body_x: f.body_x,
        body_y: descended_y(f.body_y as int) as i64,
        mouth_angle: mouth_after(f.mouth_status, f.mouth_angle as int).1 as i64,
        mouth_status: mouth_after(f.mouth_status, f.mouth_angle as int).0,
        size: f.size,
    }
}

/// The head's position, given the milli-scaled cosine and sine of the
/// mouth angle.
pub open spec fn spec_head_x(f: Frog, cos_milli: int) -> int {
    f.body_x + f.size * cos_milli
}

pub open spec fn spec_head_y(f: Frog, sin_milli: int) -> int {
    f.body_y + f.size * sin_milli
}

/// The foot's position: `size` units from the body at angle zero, so
/// exactly `size` units to the right of it.
pub open spec fn spec_foot_x(f: Frog) -> int {
    f.body_x + f.size * (MILLI as int)
}

pub open spec fn spec_foot_y(f: Frog) -> int {
    f.body_y as int
}

impl Frog {
    /// Field ranges every frog is kept inside.  They admit every
    /// configuration the simulation constructs and keep all body-part
    /// arithmetic inside `i64`.
    pub open spec fn wf(self) -> bool {
        &&& -COORD_LIMIT <= self.body_x <= COORD_LIMIT
        &&& -COORD_LIMIT <= self.body_y <= COORD_LIMIT
        &&& -ANGLE_LIMIT <= self.mouth_angle <= ANGLE_LIMIT
        &&& 1 <= self.size <= SIZE_LIMIT
    }

    pub fn new(
        body_x: i64,
        body_y: i64,
        size: i64,
        mouth_angle: i64,
        mouth_status: MouthStatus,
    ) -> (f: Frog)
        requires
            -COORD_LIMIT <= body_x <= COORD_LIMIT,
            -COORD_LIMIT <= body_y <= COORD_LIMIT,
            -ANGLE_LIMIT <= mouth_angle <= ANGLE_LIMIT,
            1 <= size <= SIZE_LIMIT,
        ensures
            f == (Frog { body_x, body_y, mouth_angle, mouth_status, size }),
            f.wf(),
    {
        Frog { body_x, body_y, mouth_angle, mouth_status, size }
    }

    /// The head's current position.  The caller evaluates the cosine and
    /// sine of the mouth angle, milli-scaled; the placement itself is
    /// exact.
    pub fn head(&self, cos_milli: i64, sin_milli: i64) -> (p: Point)
        requires
            self.wf(),
            -MILLI <= cos_milli <= MILLI,
            -MILLI <= sin_milli <= MILLI,
        ensures
            p.x_position == spec_head_x(*self, cos_milli as int),
            p.y_position == spec_head_y(*self, sin_milli as int),
    {
        let (x, y) = get_point_on_circle(self.body_x, self.body_y, self.size, cos_milli, sin_milli);
        Point { x_position: x, y_position: y }
    }

    /// The foot's current position: on the circle at angle zero, whose
    /// cosine and sine factors are exactly `MILLI` and zero.
    pub fn foot(&self) -> (p: Point)
        requires
            self.wf(),
        ensures
            p.x_position == spec_foot_x(*self),
            p.y_position == spec_foot_y(*self),
    {
        let (x, y) = get_point_on_circle(self.body_x, self.body_y, self.size, MILLI, 0);
        Point { x_position: x, y_position: y }
    }

    /// One tick: sink toward the rest line, then run the mouth machine.
    pub fn update(&mut self)
        requires
            old(self).wf(),
        ensures
            *final(self) == frog_ticked(*old(self)),
            final(self).wf(),
    {
        if self.body_y > MILLI {
            self.body_y = self.body_y - MILLI;
        }

        if self.mouth_status == MouthStatus::Opening && self.mouth_angle <= MOUTH_OPEN_LIMIT {
            self.mouth_angle = self.mouth_angle + MOUTH_STEP;
        } else if self.mouth_status == MouthStatus::Opening && self.mouth_angle > MOUTH_OPEN_LIMIT {
            self.mouth_status = MouthStatus::Closing;
        }

        if self.mouth_status == MouthStatus::Closing && self.mouth_angle >= 0 {
            self.mouth_angle = self.mouth_angle - MOUTH_STEP;
        } else if self.mouth_status == MouthStatus::Closing && self.mouth_angle < 0 {
            self.mouth_status = MouthStatus::Opening;
        }

        if self.mouth_status == MouthStatus::Static {
            self.mouth_status = MouthStatus::Opening;
        }
    }

    /// The drawing commands a frog emits: sea-green ellipses at body, head
    /// and foot, then a line from body to head and one from body to foot.
    /// The head ellipse and the body-to-head line use the head position
    /// derived from the supplied trigonometry of the current mouth angle.
    pub fn display(&self, cos_milli: i64, sin_milli: i64) -> (cmds: Vec<DrawCmd>)
        requires
            self.wf(),
            -MILLI <= cos_milli <= MILLI,
            -MILLI <= sin_milli <= MILLI,
        ensures
            cmds@ == frog_commands(*self, cos_milli as int, sin_milli as int),
    {
        let body = Point { x_position: self.body_x, y_position: self.body_y };
        let head = self.head(cos_milli, sin_milli);
        let foot = self.foot();
        let color = Color { red: 46, green: 139, blue: 87 };
        let mut cmds: Vec<DrawCmd> = Vec::new();
        cmds.push(DrawCmd::Ellipse {
            center: body,
            width: FROG_PART_SIZE,
            height: FROG_PART_SIZE,
            fill: color,
            stroke: color,
            stroke_weight: LINE_WEIGHT,
        });
        cmds.push(DrawCmd::Ellipse {
            center: head,
            width: FROG_PART_SIZE,
            height: FROG_PART_SIZE,
            fill: color,
            stroke: color,
            stroke_weight: LINE_WEIGHT,
        });
        cmds.push(DrawCmd::Ellipse {
            center: foot,
            width: FROG_PART_SIZE,
            height: FROG_PART_SIZE,
            fill: color,
            stroke: color,
            stroke_weight: LINE_WEIGHT,
        });
        cmds.push(DrawCmd::Line { start: body, end: head, weight: LINE_WEIGHT, color });
        cmds.push(DrawCmd::Line { start: body, end: foot, weight: LINE_WEIGHT, color });
        proof {
            assert(cmds@ =~= frog_commands(*self, cos_milli as int, sin_milli as int));
        }
        cmds
    }
}

/// The frog's command sequence, as `display` emits it.  Meaningful for
/// well-formed frogs and milli-scaled trigonometry, where the casts cannot
/// truncate.
pub open spec fn frog_commands(f: Frog, cos_milli: int, sin_milli: int) -> Seq<DrawCmd> {
    let body = (Point { x_position: f.body_x, y_position: f.body_y });
    let head = (Point {
        x_position: spec_head_x(f, cos_milli) as i64,
        y_position: spec_head_y(f, sin_milli) as i64,
    });
    let foot = (Point {
        x_position: spec_foot_x(f) as i64,
        y_position: spec_foot_y(f) as i64,
    });
    seq![
        DrawCmd::Ellipse {
            center: body,
            width: FROG_PART_SIZE,
            height: FROG_PART_SIZE,
            fill: spec_frog_color(),
            stroke: spec_frog_color(),
            stroke_weight: LINE_WEIGHT,
        },
        DrawCmd::Ellipse {
            center: head,
            width: FROG_PART_SIZE,
            height: FROG_PART_SIZE,
            fill: spec_frog_color(),
            stroke: spec_frog_color(),
            stroke_weight: LINE_WEIGHT,
        },
        DrawCmd::Ellipse {
            center: foot,
            width: FROG_PART_SIZE,
            height: FROG_PART_SIZE,
            fill: spec_frog_color(),
            stroke: spec_frog_color(),
            stroke_weight: LINE_WEIGHT,
        },
        DrawCmd::Line { start: body, end: head, weight: LINE_WEIGHT, color: spec_frog_color() },
        DrawCmd::Line { start: body, end: foot, weight: LINE_WEIGHT, color: spec_frog_color() },
    ]
}

/// Oscillation band: once the mouth angle lies within one step of the
/// range [0, limit], every further tick keeps it there, whatever the
/// phase.
pub proof fn lemma_mouth_angle_stays_in_band(status: MouthStatus, angle: int)
    requires
        -MOUTH_STEP <= angle <= MOUTH_OPEN_LIMIT + MOUTH_STEP,
    ensures
        -MOUTH_STEP <= mouth_after(status, angle).1 <= MOUTH_OPEN_LIMIT + MOUTH_STEP,
{
}

/// Phase and angle of the mouth after `n` ticks of the machine.
pub open spec fn mouth_after_n(status: MouthStatus, angle: int, n: nat) -> (MouthStatus, int)
    decreases n,
{
    if n == 0 {
        (status, angle)
    } else {
        let prev = mouth_after_n(status, angle, (n - 1) as nat);
        mouth_after(prev.0, prev.1)
    }
}

/// Over many ticks the band holds: however long the machine runs from a
/// state inside the band, the angle never leaves it.
pub proof fn lemma_mouth_angle_bounded_forever(status: MouthStatus, angle: int, n: nat)
    requires
        -MOUTH_STEP <= angle <= MOUTH_OPEN_LIMIT + MOUTH_STEP,
    ensures
        -MOUTH_STEP <= mouth_after_n(status, angle, n).1 <= MOUTH_OPEN_LIMIT + MOUTH_STEP,
    decreases n,
{
    if n > 0 {
        lemma_mouth_angle_bounded_forever(status, angle, (n - 1) as nat);
    }
}

/// No divergence: a tick never lowers the angle below one step under
/// zero, and never raises it above one step over the limit or above where
/// it already was.  From any start the angle therefore stays bounded, and
/// from above the band every opening or closing tick moves it down by one
/// step.
pub proof fn lemma_mouth_angle_never_diverges(status: MouthStatus, angle: int)
    requires
        angle >= -MOUTH_STEP,
    ensures
        mouth_after(status, angle).1 >= -MOUTH_STEP,
        angle <= MOUTH_OPEN_LIMIT + MOUTH_STEP ==>
            mouth_after(status, angle).1 <= MOUTH_OPEN_LIMIT + MOUTH_STEP,
        angle > MOUTH_OPEN_LIMIT + MOUTH_STEP ==> mouth_after(status, angle).1 <= angle,
        angle > MOUTH_OPEN_LIMIT + MOUTH_STEP && !(status is Static) ==>
            mouth_after(status, angle).1 == angle - MOUTH_STEP,
{
}

/// Descent law: on a tick whose mouth rules leave the angle where it was,
/// a body above the rest line sinks by exactly one unit and takes the head
/// and the foot down with it, by exactly one unit each; the foot comes
/// down with the body on every descent tick.  Once the body is at or below
/// the rest line, ticks leave it there.
pub proof fn lemma_frog_descent(f: Frog, sin_milli: int)
    requires
        f.wf(),
        mouth_after(f.mouth_status, f.mouth_angle as int).1 == f.mouth_angle as int,
    ensures
        f.body_y > MILLI ==> frog_ticked(f).body_y == f.body_y - MILLI,
        f.body_y > MILLI ==> spec_head_y(frog_ticked(f), sin_milli)
            == spec_head_y(f, sin_milli) - MILLI,
        f.body_y > MILLI ==> spec_foot_y(frog_ticked(f)) == spec_foot_y(f) - MILLI,
        f.body_y <= MILLI ==> frog_ticked(f).body_y == f.body_y,
        f.body_y <= MILLI ==> spec_foot_y(frog_ticked(f)) == spec_foot_y(f),
{
}

} // verus!

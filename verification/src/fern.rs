use vstd::prelude::*;
use crate::draw::{Color, DrawCmd, LINE_WEIGHT};
use crate::point::Point;
use crate::units::{CAP_LIMIT, COORD_LIMIT};

verus! {

/// Stage of a fern's life.  Stages only move forward: a juvenile becomes
/// an adult when it reaches its height cap, and either becomes dead — for
/// good — when its age cap elapses.
#[derive(Clone, Copy, PartialEq, Eq, Structural, Debug)]
pub enum LifeCycleStatus {
    Juvenile,
    Adult,
    Dead,
}

/// How much a juvenile fern grows per tick: one world unit.
pub const GROWTH_STEP: i64 = 1000;

/// The red and green channels every fern shows once dead.
pub const DEATH_RED: u8 = 255;

pub const DEATH_GREEN: u8 = 0;

/// A fern: a rooted vertical line that grows toward a randomized height
/// cap, matures, ages, and dies when its randomized age cap elapses.
/// Heights are in milli-units, ages in ticks.
#[derive(Clone, Copy, PartialEq, Eq, Structural, Debug)]
pub struct Fern {
    pub base_x: i64,
    pub base_y: i64,
    pub height_cap: i64,
    pub current_height: i64,
    pub life_cycle_status: LifeCycleStatus,
    pub age: i64,
    pub age_cap: i64,
    pub red_value: u8,
    pub green_value: u8,
    pub blue_value: u8,
}

/// Height after the growth rule: only a juvenile grows, by exactly one
/// step.
pub open spec fn grown_height(status: LifeCycleStatus, height: int) -> int {
    if status is Juvenile {
        height + GROWTH_STEP
    } else {
        height
    }
}

/// Stage after the two checks of a tick, applied to the grown height and
/// the new age: reaching the height cap makes an adult, and an elapsed age
/// cap makes a dead fern whatever the height says.
pub open spec fn stage_after(
    status: LifeCycleStatus,
    new_height: int,
    height_cap: int,
    new_age: int,
    age_cap: int,
) -> LifeCycleStatus {
    let grown_status = if new_height >= height_cap {
        LifeCycleStatus::Adult
    } else {
        status
    };
    if new_age >= age_cap {
        LifeCycleStatus::Dead
    } else {
        grown_status
    }
}

/// A whole fern after one tick: it ages, a juvenile grows, the stage
/// checks run, and death forces the display color to pure red over the
/// unchanged blue.  Meaningful for well-formed ferns, whose fields the
/// casts cannot truncate.
pub open spec fn fern_ticked(f: Fern) -> Fern {
    let new_age = (f.age + 1) as int;
    let new_height = grown_height(f.life_cycle_status, f.current_height as int);
    let new_status = stage_after(
        f.life_cycle_status,
        new_height,
        f.height_cap as int,
        new_age,
        f.age_cap as int,
    );
    Fern {
        current_height: new_height as i64,
        life_cycle_status: new_status,
        age: new_age as i64,
        red_value: if new_age >= f.age_cap { DEATH_RED } else { f.red_value },
        green_value: if new_age >= f.age_cap { DEATH_GREEN } else { f.green_value },
        ..f
    }
}

/// Rank of a stage along the one-way lifecycle.
pub open spec fn stage_rank(status: LifeCycleStatus) -> int {
    match status {
        LifeCycleStatus::Juvenile => 0,
        LifeCycleStatus::Adult => 1,
        LifeCycleStatus::Dead => 2,
    }
}

/// The drawing commands a fern emits: a single vertical line from the
/// floor to its current height at its base x, in its current color.
pub open spec fn fern_commands(f: Fern) -> Seq<DrawCmd> {
    seq![
        DrawCmd::Line {
            start: (Point { x_position: f.base_x, y_position: 0 }),
            end: (Point { x_position: f.base_x, y_position: f.current_height }),
            weight: LINE_WEIGHT,
            color: (Color { red: f.red_value, green: f.green_value, blue: f.blue_value }),
        },
    ]
}

impl Fern {
    /// The invariant every reachable fern satisfies: caps are positive and
    /// bounded, the height never passes one growth step over its cap, a
    /// juvenile is still strictly under its cap, and a dead fern's age cap
    /// has really elapsed.
    pub open spec fn wf(self) -> bool {
        &&& -COORD_LIMIT <= self.base_x <= COORD_LIMIT
        &&& -COORD_LIMIT <= self.base_y <= COORD_LIMIT
        &&& 1 <= self.height_cap <= CAP_LIMIT
        &&& 1 <= self.age_cap <= CAP_LIMIT
        &&& 0 <= self.current_height <= self.height_cap + GROWTH_STEP
        &&& self.life_cycle_status is Juvenile ==> self.current_height < self.height_cap
        &&& 0 <= self.age
        &&& self.life_cycle_status is Dead ==> self.age >= self.age_cap
    }

    /// A fern starts at height zero, age zero, juvenile, with the caps and
    /// the color its configuration drew.
    pub fn new(
        base_x: i64,
        base_y: i64,
        height_cap: i64,
        age_cap: i64,
        red_value: u8,
        green_value: u8,
        blue_value: u8,
    ) -> (f: Fern)
        requires
            -COORD_LIMIT <= base_x <= COORD_LIMIT,
            -COORD_LIMIT <= base_y <= COORD_LIMIT,
            1 <= height_cap <= CAP_LIMIT,
            1 <= age_cap <= CAP_LIMIT,
        ensures
            f == (Fern {
                base_x,
                base_y,
                height_cap,
                current_height: 0,
                life_cycle_status: LifeCycleStatus::Juvenile,
                age: 0,
                age_cap,
                red_value,
                green_value,
                blue_value,
            }),
            f.wf(),
    {
        Fern {
            base_x,
            base_y,
            height_cap,
            current_height: 0,
            life_cycle_status: LifeCycleStatus::Juvenile,
            age: 0,
            age_cap,
            red_value,
            green_value,
            blue_value,
        }
    }

    /// One tick of the lifecycle.  The bound on the age is a machine
    /// limit only: ferns age forever.
    pub fn update(&mut self)
        requires
            old(self).wf(),
            old(self).age < i64::MAX,
        ensures
            *final(self) == fern_ticked(*old(self)),
            final(self).wf(),
    {
        self.age = self.age + 1;

        if self.life_cycle_status == LifeCycleStatus::Juvenile {
            self.current_height = self.current_height + GROWTH_STEP;
        }

        if self.current_height >= self.height_cap {
            self.life_cycle_status = LifeCycleStatus::Adult;
        }

        if self.age >= self.age_cap {
            self.life_cycle_status = LifeCycleStatus::Dead;
            self.red_value = DEATH_RED;
            self.green_value = DEATH_GREEN;
        }
    }

    pub fn display(&self) -> (cmds: Vec<DrawCmd>)
        ensures
            cmds@ == fern_commands(*self),
    {
        let mut cmds: Vec<DrawCmd> = Vec::new();
        cmds.push(DrawCmd::Line {
            start: Point { x_position: self.base_x, y_position: 0 },
            end: Point { x_position: self.base_x, y_position: self.current_height },
            weight: LINE_WEIGHT,
            color: Color {
                red: self.red_value,
                green: self.green_value,
                blue: self.blue_value,
            },
        });
        proof {
            assert(cmds@ =~= fern_commands(*self));
        }
        cmds
    }
}

/// Growth law: a tick never lowers a fern, and a fern past its juvenile
/// stage does not grow at all — there is no regrowth.
pub proof fn lemma_fern_height_monotone(f: Fern)
    requires
        f.wf(),
        f.age < i64::MAX,
    ensures
        fern_ticked(f).current_height >= f.current_height,
        !(f.life_cycle_status is Juvenile) ==>
            fern_ticked(f).current_height == f.current_height,
{
}

/// Lifecycle law: stages only move forward — juvenile to adult to dead,
/// or juvenile straight to dead — never back.
pub proof fn lemma_fern_stage_monotone(f: Fern)
    requires
        f.wf(),
        f.age < i64::MAX,
    ensures
        stage_rank(fern_ticked(f).life_cycle_status) >= stage_rank(f.life_cycle_status),
{
}

/// Death law: a dead fern stays dead, keeps its height, and keeps showing
/// the death color — pure red over its own blue.
pub proof fn lemma_fern_death_permanent(f: Fern)
    requires
        f.wf(),
        f.age < i64::MAX,
        f.life_cycle_status is Dead,
    ensures
        fern_ticked(f).life_cycle_status is Dead,
        fern_ticked(f).current_height == f.current_height,
        fern_ticked(f).red_value == DEATH_RED,
        fern_ticked(f).green_value == DEATH_GREEN,
        fern_ticked(f).blue_value == f.blue_value,
{
}

/// A fern after `n` ticks.
pub open spec fn fern_ticked_n(f: Fern, n: nat) -> Fern
    decreases n,
{
    if n == 0 {
        f
    } else {
        fern_ticked(fern_ticked_n(f, (n - 1) as nat))
    }
}

/// Death is permanent over any horizon: a dead fern remains dead, at its
/// height and in its death color, for as long as it is ticked.  The bound
/// on the age is a machine limit only.
pub proof fn lemma_fern_death_permanent_forever(f: Fern, n: nat)
    requires
        f.wf(),
        f.life_cycle_status is Dead,
        f.age + n < i64::MAX,
    ensures
        fern_ticked_n(f, n).wf(),
        fern_ticked_n(f, n).life_cycle_status is Dead,
        fern_ticked_n(f, n).current_height == f.current_height,
        n > 0 ==> fern_ticked_n(f, n).red_value == DEATH_RED,
        n > 0 ==> fern_ticked_n(f, n).green_value == DEATH_GREEN,
        fern_ticked_n(f, n).blue_value == f.blue_value,
        fern_ticked_n(f, n).age == f.age + n,
    decreases n,
{
    if n > 0 {
        lemma_fern_death_permanent_forever(f, (n - 1) as nat);
    }
}

} // verus!

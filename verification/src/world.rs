use vstd::prelude::*;
use vstd::pervasive::VecAdditionalExecFns;
use crate::draw::DrawCmd;
use crate::fern::{fern_commands, fern_ticked, Fern, LifeCycleStatus};
use crate::fly::{fly_commands, Fly, FlightStatus, Jitter};
use crate::frog::{frog_commands, frog_ticked, Frog, MouthStatus};
use crate::units::{ANGLE_LIMIT, CAP_LIMIT, COORD_LIMIT, MILLI, SIZE_LIMIT};

verus! {

/// Construction data for one fly: its starting position.
#[derive(Clone, Copy, PartialEq, Eq, Structural, Debug)]
pub struct FlyParams {
    pub body_x: i64,
    pub body_y: i64,
}

/// Construction data for one frog: position, body size (whole units),
/// starting mouth angle (milli-degrees) and starting mouth phase.
#[derive(Clone, Copy, PartialEq, Eq, Structural, Debug)]
pub struct FrogParams {
    pub body_x: i64,
    pub body_y: i64,
    pub size: i64,
    pub mouth_angle: i64,
    pub mouth_status: MouthStatus,
}

/// Construction data for one fern: base position, caps and color.
#[derive(Clone, Copy, PartialEq, Eq, Structural, Debug)]
pub struct FernParams {
    pub base_x: i64,
    pub base_y: i64,
    pub height_cap: i64,
    pub age_cap: i64,
    pub red_value: u8,
    pub green_value: u8,
    pub blue_value: u8,
}

/// The whole population a world is built from, in creation order, plus
/// the seed the host used to draw it.
#[derive(Debug)]
pub struct WorldParams {
    pub random_seed: u64,
    pub flies: Vec<FlyParams>,
    pub frogs: Vec<FrogParams>,
    pub ferns: Vec<FernParams>,
}

/// Why a world refused its configuration: the first out-of-range entry,
/// by kind and index.  Flies are checked first, then frogs, then ferns.
#[derive(Clone, Copy, PartialEq, Eq, Structural, Debug)]
pub enum ConfigError {
    InvalidFly(usize),
    InvalidFrog(usize),
    InvalidFern(usize),
}

pub open spec fn fly_params_valid(p: FlyParams) -> bool {
    &&& -COORD_LIMIT <= p.body_x <= COORD_LIMIT
    &&& -COORD_LIMIT <= p.body_y <= COORD_LIMIT
}

pub open spec fn frog_params_valid(p: FrogParams) -> bool {
    &&& -COORD_LIMIT <= p.body_x <= COORD_LIMIT
    &&& -COORD_LIMIT <= p.body_y <= COORD_LIMIT
    &&& -ANGLE_LIMIT <= p.mouth_angle <= ANGLE_LIMIT
    &&& 1 <= p.size <= SIZE_LIMIT
}

pub open spec fn fern_params_valid(p: FernParams) -> bool {
    &&& -COORD_LIMIT <= p.base_x <= COORD_LIMIT
    &&& -COORD_LIMIT <= p.base_y <= COORD_LIMIT
    &&& 1 <= p.height_cap <= CAP_LIMIT
    &&& 1 <= p.age_cap <= CAP_LIMIT
}

pub open spec fn world_params_valid(params: WorldParams) -> bool {
    &&& forall|i: int| 0 <= i < params.flies@.len() ==> fly_params_valid(#[trigger] params.flies@[i])
    &&& forall|i: int| 0 <= i < params.frogs@.len() ==> frog_params_valid(#[trigger] params.frogs@[i])
    &&& forall|i: int| 0 <= i < params.ferns@.len() ==> fern_params_valid(#[trigger] params.ferns@[i])
}

/// The fly a parameter entry builds.
pub open spec fn fly_from(p: FlyParams) -> Fly {
    Fly { body_x: p.body_x, body_y: p.body_y, flight_status: FlightStatus::Hover }
}

/// The frog a parameter entry builds.
pub open spec fn frog_from(p: FrogParams) -> Frog {
    Frog {
        body_x: p.body_x,
        body_y: p.body_y,
        mouth_angle: p.mouth_angle,
        mouth_status: p.mouth_status,
        size: p.size,
    }
}

/// The fern a parameter entry builds: height zero, age zero, juvenile.
pub open spec fn fern_from(p: FernParams) -> Fern {
    Fern {
        base_x: p.base_x,
        base_y: p.base_y,
        height_cap: p.height_cap,
        current_height: 0,
        life_cycle_status: LifeCycleStatus::Juvenile,
        age: 0,
        age_cap: p.age_cap,
        red_value: p.red_value,
        green_value: p.green_value,
        blue_value: p.blue_value,
    }
}

/// Exec check of [`fly_params_valid`].
pub fn fly_params_ok(p: &FlyParams) -> (b: bool)
    ensures
        b == fly_params_valid(*p),
{
    -COORD_LIMIT <= p.body_x && p.body_x <= COORD_LIMIT && -COORD_LIMIT <= p.body_y
        && p.body_y <= COORD_LIMIT
}

/// Exec check of [`frog_params_valid`].
pub fn frog_params_ok(p: &FrogParams) -> (b: bool)
    ensures
        b == frog_params_valid(*p),
{
    -COORD_LIMIT <= p.body_x && p.body_x <= COORD_LIMIT && -COORD_LIMIT <= p.body_y
        && p.body_y <= COORD_LIMIT && -ANGLE_LIMIT <= p.mouth_angle
        && p.mouth_angle <= ANGLE_LIMIT && 1 <= p.size && p.size <= SIZE_LIMIT
}

/// Exec check of [`fern_params_valid`].
pub fn fern_params_ok(p: &FernParams) -> (b: bool)
    ensures
        b == fern_params_valid(*p),
{
    -COORD_LIMIT <= p.base_x && p.base_x <= COORD_LIMIT && -COORD_LIMIT <= p.base_y
        && p.base_y <= COORD_LIMIT && 1 <= p.height_cap && p.height_cap <= CAP_LIMIT
        && 1 <= p.age_cap && p.age_cap <= CAP_LIMIT
}

/// The milli-scaled cosine and sine of one frog's current mouth angle,
/// evaluated by the host.
#[derive(Clone, Copy, PartialEq, Eq, Structural, Debug)]
pub struct TrigPair {
    pub cos_milli: i64,
    pub sin_milli: i64,
}

impl TrigPair {
    /// A milli-scaled cosine or sine is at most one whole unit in
    /// magnitude.
    pub open spec fn wf(self) -> bool {
        &&& -MILLI <= self.cos_milli <= MILLI
        &&& -MILLI <= self.sin_milli <= MILLI
    }
}

/// The commands of the first `n` flies, in creation order.
pub open spec fn fly_commands_upto(flies: Seq<Fly>, n: int) -> Seq<DrawCmd>
    decreases n,
{
    if n <= 0 {
        Seq::empty()
    } else {
        fly_commands_upto(flies, n - 1) + fly_commands(flies[n - 1])
    }
}

/// The commands of the first `n` frogs, each under its own trigonometry.
pub open spec fn frog_commands_upto(frogs: Seq<Frog>, trig: Seq<TrigPair>, n: int) -> Seq<DrawCmd>
    decreases n,
{
    if n <= 0 {
        Seq::empty()
    } else {
        frog_commands_upto(frogs, trig, n - 1) + frog_commands(
            frogs[n - 1],
            trig[n - 1].cos_milli as int,
            trig[n - 1].sin_milli as int,
        )
    }
}

/// The commands of the first `n` ferns, in creation order.
pub open spec fn fern_commands_upto(ferns: Seq<Fern>, n: int) -> Seq<DrawCmd>
    decreases n,
{
    if n <= 0 {
        Seq::empty()
    } else {
        fern_commands_upto(ferns, n - 1) + fern_commands(ferns[n - 1])
    }
}

/// One frame's worth of commands: every fly once, then every frog once,
/// then every fern once, each contributing exactly its own command
/// sequence in creation order.
pub open spec fn world_commands(w: World, trig: Seq<TrigPair>) -> Seq<DrawCmd> {
    fly_commands_upto(w.flies@, w.flies@.len() as int)
        + frog_commands_upto(w.frogs@, trig, w.frogs@.len() as int)
        + fern_commands_upto(w.ferns@, w.ferns@.len() as int)
}

/// The world: one collection per entity kind, in creation order, plus the
/// seed the host last dealt out.  The world itself only iterates; every
/// rule lives with its entity.
pub struct World {
    pub random_seed: u64,
    pub flies: Vec<Fly>,
    pub frogs: Vec<Frog>,
    pub ferns: Vec<Fern>,
}

impl World {
    /// Every frog and fern is well formed.  Flies carry no invariant:
    /// their drift is unbounded by design.
    pub open spec fn wf(self) -> bool {
        &&& forall|i: int| 0 <= i < self.frogs@.len() ==> (#[trigger] self.frogs@[i]).wf()
        &&& forall|i: int| 0 <= i < self.ferns@.len() ==> (#[trigger] self.ferns@[i]).wf()
    }

    /// Builds the world, or reports the first out-of-range parameter
    /// entry — flies first, then frogs, then ferns, each kind in order.
    /// On success every entity is built from its own entry, in creation
    /// order.
    pub fn new(params: WorldParams) -> (r: Result<World, ConfigError>)
        ensures
            r is Ok <==> world_params_valid(params),
            r matches Ok(w) ==> {
                &&& w.wf()
                &&& w.random_seed == params.random_seed
                &&& w.flies@.len() == params.flies@.len()
                &&& forall|i: int| 0 <= i < params.flies@.len()
                    ==> w.flies@[i] == fly_from(#[trigger] params.flies@[i])
                &&& w.frogs@.len() == params.frogs@.len()
                &&& forall|i: int| 0 <= i < params.frogs@.len()
                    ==> w.frogs@[i] == frog_from(#[trigger] params.frogs@[i])
                &&& w.ferns@.len() == params.ferns@.len()
                &&& forall|i: int| 0 <= i < params.ferns@.len()
                    ==> w.ferns@[i] == fern_from(#[trigger] params.ferns@[i])
            },
            r matches Err(e) ==> {
                &&& e matches ConfigError::InvalidFly(i) ==> {
                    &&& 0 <= i < params.flies@.len()
                    &&& !fly_params_valid(params.flies@[i as int])
                    &&& forall|j: int| 0 <= j < i ==> fly_params_valid(#[trigger] params.flies@[j])
                }
                &&& e matches ConfigError::InvalidFrog(i) ==> {
                    &&& forall|j: int| 0 <= j < params.flies@.len()
                        ==> fly_params_valid(#[trigger] params.flies@[j])
                    &&& 0 <= i < params.frogs@.len()
                    &&& !frog_params_valid(params.frogs@[i as int])
                    &&& forall|j: int| 0 <= j < i ==> frog_params_valid(#[trigger] params.frogs@[j])
                }
                &&& e matches ConfigError::InvalidFern(i) ==> {
                    &&& forall|j: int| 0 <= j < params.flies@.len()
                        ==> fly_params_valid(#[trigger] params.flies@[j])
                    &&& forall|j: int| 0 <= j < params.frogs@.len()
                        ==> frog_params_valid(#[trigger] params.frogs@[j])
                    &&& 0 <= i < params.ferns@.len()
                    &&& !fern_params_valid(params.ferns@[i as int])
                    &&& forall|j: int| 0 <= j < i ==> fern_params_valid(#[trigger] params.ferns@[j])
                }
            },
    {
        let fly_count = params.flies.len();
        let mut i: usize = 0;
        while i < fly_count
            invariant
                i <= fly_count,
                fly_count == params.flies@.len(),
                forall|j: int| 0 <= j < i ==> fly_params_valid(#[trigger] params.flies@[j]),
            decreases fly_count - i,
        {
            if !fly_params_ok(&params.flies[i]) {
                return Err(ConfigError::InvalidFly(i));
            }
            i = i + 1;
        }

        let frog_count = params.frogs.len();
        let mut i: usize = 0;
        while i < frog_count
            invariant
                i <= frog_count,
                frog_count == params.frogs@.len(),
                forall|j: int| 0 <= j < params.flies@.len()
                    ==> fly_params_valid(#[trigger] params.flies@[j]),
                forall|j: int| 0 <= j < i ==> frog_params_valid(#[trigger] params.frogs@[j]),
            decreases frog_count - i,
        {
            if !frog_params_ok(&params.frogs[i]) {
                return Err(ConfigError::InvalidFrog(i));
            }
            i = i + 1;
        }

        let fern_count = params.ferns.len();
        let mut i: usize = 0;
        while i < fern_count
            invariant
                i <= fern_count,
                fern_count == params.ferns@.len(),
                forall|j: int| 0 <= j < params.flies@.len()
                    ==> fly_params_valid(#[trigger] params.flies@[j]),
                forall|j: int| 0 <= j < params.frogs@.len()
                    ==> frog_params_valid(#[trigger] params.frogs@[j]),
                forall|j: int| 0 <= j < i ==> fern_params_valid(#[trigger] params.ferns@[j]),
            decreases fern_count - i,
        {
            if !fern_params_ok(&params.ferns[i]) {
                return Err(ConfigError::InvalidFern(i));
            }
            i = i + 1;
        }

        let mut flies: Vec<Fly> = Vec::new();
        let mut i: usize = 0;
        while i < fly_count
            invariant
                i <= fly_count,
                fly_count == params.flies@.len(),
                flies@.len() == i,
                forall|j: int| 0 <= j < i ==> flies@[j] == fly_from(#[trigger] params.flies@[j]),
            decreases fly_count - i,
        {
            let p = params.flies[i];
            flies.push(Fly::new(p.body_x, p.body_y));
            i = i + 1;
        }

        let mut frogs: Vec<Frog> = Vec::new();
        let mut i: usize = 0;
        while i < frog_count
            invariant
                i <= frog_count,
                frog_count == params.frogs@.len(),
                forall|j: int| 0 <= j < params.frogs@.len()
                    ==> frog_params_valid(#[trigger] params.frogs@[j]),
                frogs@.len() == i,
                forall|j: int| 0 <= j < i ==> frogs@[j] == frog_from(#[trigger] params.frogs@[j]),
            decreases frog_count - i,
        {
            let p = params.frogs[i];
            frogs.push(Frog::new(p.body_x, p.body_y, p.size, p.mouth_angle, p.mouth_status));
            i = i + 1;
        }

        let mut ferns: Vec<Fern> = Vec::new();
        let mut i: usize = 0;
        while i < fern_count
            invariant
                i <= fern_count,
                fern_count == params.ferns@.len(),
                forall|j: int| 0 <= j < params.ferns@.len()
                    ==> fern_params_valid(#[trigger] params.ferns@[j]),
                ferns@.len() == i,
                forall|j: int| 0 <= j < i ==> ferns@[j] == fern_from(#[trigger] params.ferns@[j]),
            decreases fern_count - i,
        {
            let p = params.ferns[i];
            ferns.push(Fern::new(
                p.base_x,
                p.base_y,
                p.height_cap,
                p.age_cap,
                p.red_value,
                p.green_value,
                p.blue_value,
            ));
            i = i + 1;
        }

        proof {
            assert forall|j: int| 0 <= j < frogs@.len() implies (#[trigger] frogs@[j]).wf() by {
                assert(frog_params_valid(params.frogs@[j]));
                assert(frogs@[j] == frog_from(params.frogs@[j]));
            }
            assert forall|j: int| 0 <= j < ferns@.len() implies (#[trigger] ferns@[j]).wf() by {
                assert(fern_params_valid(params.ferns@[j]));
                assert(ferns@[j] == fern_from(params.ferns@[j]));
            }
        }
        Ok(World { random_seed: params.random_seed, flies, frogs, ferns })
    }

    /// One simulation step: every fly moves by its own sampled jitter,
    /// then every frog ticks, then every fern ticks — each entity exactly
    /// once, in creation order, and no entity reads another's state.  The
    /// `i64` bounds on fly positions and fern ages are machine limits
    /// only.
    pub fn step(&mut self, jitters: &Vec<Jitter>)
        requires
            old(self).wf(),
            jitters@.len() == old(self).flies@.len(),
            forall|i: int| 0 <= i < jitters@.len() ==> (#[trigger] jitters@[i]).wf(),
            forall|i: int| 0 <= i < old(self).flies@.len() ==> i64::MIN
                <= (#[trigger] old(self).flies@[i]).body_x + jitters@[i].delta_x <= i64::MAX,
            forall|i: int| 0 <= i < old(self).flies@.len() ==> i64::MIN
                <= (#[trigger] old(self).flies@[i]).body_y + jitters@[i].delta_y <= i64::MAX,
            forall|i: int| 0 <= i < old(self).ferns@.len()
                ==> (#[trigger] old(self).ferns@[i]).age < i64::MAX,
        ensures
            final(self).wf(),
            final(self).random_seed == old(self).random_seed,
            final(self).flies@.len() == old(self).flies@.len(),
            forall|i: int| 0 <= i < old(self).flies@.len() ==> {
                &&& (#[trigger] final(self).flies@[i]).body_x
                    == old(self).flies@[i].body_x + jitters@[i].delta_x
                &&& final(self).flies@[i].body_y
                    == old(self).flies@[i].body_y + jitters@[i].delta_y
                &&& final(self).flies@[i].flight_status == old(self).flies@[i].flight_status
            },
            final(self).frogs@.len() == old(self).frogs@.len(),
            forall|i: int| 0 <= i < old(self).frogs@.len()
                ==> #[trigger] final(self).frogs@[i] == frog_ticked(old(self).frogs@[i]),
            final(self).ferns@.len() == old(self).ferns@.len(),
            forall|i: int| 0 <= i < old(self).ferns@.len()
                ==> #[trigger] final(self).ferns@[i] == fern_ticked(old(self).ferns@[i]),
    {
        let fly_count = self.flies.len();
        let mut i: usize = 0;
        while i < fly_count
            invariant
                i <= fly_count,
                fly_count == self.flies@.len(),
                self.flies@.len() == old(self).flies@.len(),
                jitters@.len() == old(self).flies@.len(),
                forall|k: int| 0 <= k < jitters@.len() ==> (#[trigger] jitters@[k]).wf(),
                forall|k: int| i <= k < old(self).flies@.len()
                    ==> #[trigger] self.flies@[k] == old(self).flies@[k],
                forall|k: int| 0 <= k < old(self).flies@.len() ==> i64::MIN
                    <= (#[trigger] old(self).flies@[k]).body_x + jitters@[k].delta_x <= i64::MAX,
                forall|k: int| 0 <= k < old(self).flies@.len() ==> i64::MIN
                    <= (#[trigger] old(self).flies@[k]).body_y + jitters@[k].delta_y <= i64::MAX,
                forall|k: int| 0 <= k < i ==> {
                    &&& (#[trigger] self.flies@[k]).body_x
                        == old(self).flies@[k].body_x + jitters@[k].delta_x
                    &&& self.flies@[k].body_y
                        == old(self).flies@[k].body_y + jitters@[k].delta_y
                    &&& self.flies@[k].flight_status == old(self).flies@[k].flight_status
                },
                self.frogs@ == old(self).frogs@,
                self.ferns@ == old(self).ferns@,
                self.random_seed == old(self).random_seed,
            decreases fly_count - i,
        {
            let mut f = self.flies[i];
            f.update(jitters[i]);
            self.flies.set(i, f);
            i = i + 1;
        }

        let frog_count = self.frogs.len();
        let mut i: usize = 0;
        while i < frog_count
            invariant
                i <= frog_count,
                frog_count == self.frogs@.len(),
                self.frogs@.len() == old(self).frogs@.len(),
                forall|k: int| 0 <= k < old(self).frogs@.len()
                    ==> (#[trigger] old(self).frogs@[k]).wf(),
                forall|k: int| i <= k < old(self).frogs@.len()
                    ==> #[trigger] self.frogs@[k] == old(self).frogs@[k],
                forall|k: int| 0 <= k < i
                    ==> #[trigger] self.frogs@[k] == frog_ticked(old(self).frogs@[k]),
                self.flies@.len() == old(self).flies@.len(),
                jitters@.len() == old(self).flies@.len(),
                forall|k: int| 0 <= k < old(self).flies@.len() ==> {
                    &&& (#[trigger] self.flies@[k]).body_x
                        == old(self).flies@[k].body_x + jitters@[k].delta_x
                    &&& self.flies@[k].body_y
                        == old(self).flies@[k].body_y + jitters@[k].delta_y
                    &&& self.flies@[k].flight_status == old(self).flies@[k].flight_status
                },
                self.ferns@ == old(self).ferns@,
                self.random_seed == old(self).random_seed,
            decreases frog_count - i,
        {
            let mut g = self.frogs[i];
            g.update();
            self.frogs.set(i, g);
            i = i + 1;
        }

        let fern_count = self.ferns.len();
        let mut i: usize = 0;
        while i < fern_count
            invariant
                i <= fern_count,
                fern_count == self.ferns@.len(),
                self.ferns@.len() == old(self).ferns@.len(),
                forall|k: int| 0 <= k < old(self).ferns@.len()
                    ==> (#[trigger] old(self).ferns@[k]).wf(),
                forall|k: int| 0 <= k < old(self).ferns@.len()
                    ==> (#[trigger] old(self).ferns@[k]).age < i64::MAX,
                forall|k: int| i <= k < old(self).ferns@.len()
                    ==> #[trigger] self.ferns@[k] == old(self).ferns@[k],
                forall|k: int| 0 <= k < i
                    ==> #[trigger] self.ferns@[k] == fern_ticked(old(self).ferns@[k]),
                self.flies@.len() == old(self).flies@.len(),
                jitters@.len() == old(self).flies@.len(),
                forall|k: int| 0 <= k < old(self).flies@.len() ==> {
                    &&& (#[trigger] self.flies@[k]).body_x
                        == old(self).flies@[k].body_x + jitters@[k].delta_x
                    &&& self.flies@[k].body_y
                        == old(self).flies@[k].body_y + jitters@[k].delta_y
                    &&& self.flies@[k].flight_status == old(self).flies@[k].flight_status
                },
                self.frogs@.len() == old(self).frogs@.len(),
                forall|k: int| 0 <= k < old(self).frogs@.len()
                    ==> #[trigger] self.frogs@[k] == frog_ticked(old(self).frogs@[k]),
                self.random_seed == old(self).random_seed,
            decreases fern_count - i,
        {
            let mut n = self.ferns[i];
            n.update();
            self.ferns.set(i, n);
            i = i + 1;
        }
    }

    /// One frame's drawing commands: every fly, then every frog under its
    /// own supplied trigonometry, then every fern — each entity exactly
    /// once, in creation order.  Reading a frame mutates nothing, so it
    /// may be taken any number of times between steps.  The background
    /// grid is the host's concern and precedes these commands.
    pub fn render(&self, frog_trig: &Vec<TrigPair>) -> (cmds: Vec<DrawCmd>)
        requires
            self.wf(),
            frog_trig@.len() == self.frogs@.len(),
            forall|i: int| 0 <= i < frog_trig@.len() ==> (#[trigger] frog_trig@[i]).wf(),
        ensures
            cmds@ == world_commands(*self, frog_trig@),
    {
        let mut cmds: Vec<DrawCmd> = Vec::new();

        let fly_count = self.flies.len();
        let mut i: usize = 0;
        while i < fly_count
            invariant
                i <= fly_count,
                fly_count == self.flies@.len(),
                cmds@ == fly_commands_upto(self.flies@, i as int),
            decreases fly_count - i,
        {
            let mut sub = self.flies[i].display();
            cmds.append(&mut sub);
            i = i + 1;
        }

        let frog_count = self.frogs.len();
        let mut i: usize = 0;
        while i < frog_count
            invariant
                i <= frog_count,
                frog_count == self.frogs@.len(),
                frog_trig@.len() == self.frogs@.len(),
                forall|k: int| 0 <= k < self.frogs@.len() ==> (#[trigger] self.frogs@[k]).wf(),
                forall|k: int| 0 <= k < frog_trig@.len() ==> (#[trigger] frog_trig@[k]).wf(),
                cmds@ == fly_commands_upto(self.flies@, self.flies@.len() as int)
                    + frog_commands_upto(self.frogs@, frog_trig@, i as int),
            decreases frog_count - i,
        {
            let t = frog_trig[i];
            let mut sub = self.frogs[i].display(t.cos_milli, t.sin_milli);
            cmds.append(&mut sub);
            i = i + 1;
        }

        let fern_count = self.ferns.len();
        let mut i: usize = 0;
        while i < fern_count
            invariant
                i <= fern_count,
                fern_count == self.ferns@.len(),
                cmds@ == fly_commands_upto(self.flies@, self.flies@.len() as int)
                    + frog_commands_upto(self.frogs@, frog_trig@, self.frogs@.len() as int)
                    + fern_commands_upto(self.ferns@, i as int),
            decreases fern_count - i,
        {
            let mut sub = self.ferns[i].display();
            cmds.append(&mut sub);
            i = i + 1;
        }

        cmds
    }

    /// Installs the seed the host will deal randomness from; nothing else
    /// changes.
    pub fn reseed(&mut self, seed: u64)
        ensures
            final(self).random_seed == seed,
            final(self).flies@ == old(self).flies@,
            final(self).frogs@ == old(self).frogs@,
            final(self).ferns@ == old(self).ferns@,
    {
        self.random_seed = seed;
    }
}

} // verus!

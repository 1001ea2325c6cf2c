//! The fixed-timestep integrator: frame time is drained in whole ticks, each
//! tick either follows the launch mechanism or flies freely, and what the
//! ticks leave below one fixed-point unit is carried over to the next frame.
//!
//! The integrator is driven by events. A frame begins with
//! [`Event::Frame`]; while [`Physics::update`] answers [`Action::Advance`],
//! the caller works out what drives the body for one tick and hands it back
//! as [`Event::Tick`]; [`Action::Rest`] ends the frame.

use crate::collision::can_probe;
use crate::collision::ground_collision;
use crate::collision::ground_collision_of;
use crate::collision::is_probe_in_world;
use crate::fixed::lemma_round_trip;
use crate::fixed::to_i64coords;
use crate::fixed::to_i64coords_with_rem;
use crate::fixed::Displacement;
use crate::fixed::Point;
use crate::fixed::GRAIN;
use crate::stats::Sample;
use crate::stats::Stats;
use crate::terrain::Terrain;
use vstd::prelude::*;

verus! {

/// The length of one tick of simulated time, in microseconds.
pub const PHYSICS_TICK: u64 = 1_000;

/// The phase of the simulation. The integrator works in `Launched` alone.
#[derive(Clone, Copy, Debug, PartialEq, Eq, Structural)]
pub enum GameState {
    Paused,
    Launched,
    Landed,
}

/// What the integrator shares with the rest of the game: the phase, the
/// exact position of the body, and the telemetry of its flight.
#[derive(Clone, Copy, Debug, PartialEq, Eq, Structural)]
pub struct Simulation {
    pub state: GameState,
    pub position: Point,
    pub stats: Stats,
}

/// What drives the body for one tick.
#[derive(Clone, Copy, Debug, PartialEq, Eq, Structural)]
pub enum Tick {
    /// The launch mechanism still holds the body, at `projectile`.
    Launching { projectile: Point },
    /// The body flies freely: it moves by `displacement` over the terrain
    /// segment that starts at `terrain_index`, and `sample` is its telemetry.
    Freeflight { displacement: Displacement, terrain_index: usize, sample: Sample },
}

/// What the integrator is told.
#[derive(Clone, Copy, Debug, PartialEq, Eq, Structural)]
pub enum Event {
    /// A frame begins. It took `elapsed` microseconds, and `pause` tells
    /// whether a pause is requested.
    Frame { pause: bool, elapsed: u64 },
    /// What drives the body in the tick that the integrator asked for.
    Tick(Tick),
}

/// What the integrator asks of its caller.
#[derive(Clone, Copy, Debug, PartialEq, Eq, Structural)]
pub enum Action {
    /// Nothing more in this frame.
    Rest,
    /// One tick is due: hand back what drives it.
    Advance,
}

/// The controls that are held down, as they were read once for the frame.
#[derive(Clone, Copy, Debug, PartialEq, Eq, Structural)]
pub struct Input {
    pub forward: bool,
    pub back: bool,
    pub left: bool,
    pub right: bool,
    pub pause: bool,
}

/// The integrator's own state.
#[derive(Clone, Copy, Debug, PartialEq, Eq, Structural)]
pub struct Physics {
    /// Frame time not yet spent on ticks, in microseconds.
    pub time_acc: u64,
    /// Motion not yet carried into the position, in grains.
    pub sub_unit: Displacement,
    /// A tick has been paid for and asked for, and has not come yet.
    pub awaiting_tick: bool,
}

/// The number of ticks that a time accumulator pays for: a tick runs while
/// more than one tick's time is left.
pub open spec fn ticks_due(time_acc: u64) -> nat {
    if time_acc > PHYSICS_TICK {
        ((time_acc - 1) / PHYSICS_TICK as int) as nat
    } else {
        0
    }
}

impl Event {
    /// The frame time that the event brings: none, for a tick.
    pub open spec fn time(self) -> int {
        match self {
            Event::Frame { pause, elapsed } => elapsed as int,
            Event::Tick(tick) => 0,
        }
    }

    /// The event is a frame with a pause request.
    pub open spec fn asks_pause(self) -> bool {
        match self {
            Event::Frame { pause, elapsed } => pause,
            Event::Tick(tick) => false,
        }
    }
}

impl Input {
    /// The sign of the thrust: forward less back.
    pub open spec fn thrust_of(self) -> int {
        (if self.forward { 1int } else { 0int }) - (if self.back { 1int } else { 0int })
    }

    /// The sign of the turn: left less right.
    pub open spec fn turn_of(self) -> int {
        (if self.left { 1int } else { 0int }) - (if self.right { 1int } else { 0int })
    }

    /// How many times the forward thrust is applied in a tick: once forward,
    /// once backward for `-1`, not at all where the two controls cancel.
    pub fn thrust(&self) -> (sign: i8)
        ensures
            sign == self.thrust_of(),
    {
        let f: i8 = if self.forward { 1 } else { 0 };
        let b: i8 = if self.back { 1 } else { 0 };
        f - b
    }

    /// How many steps the body turns in a tick: one to the left, one to the
    /// right for `-1`, none where the two controls cancel.
    pub fn turn(&self) -> (sign: i8)
        ensures
            sign == self.turn_of(),
    {
        let l: i8 = if self.left { 1 } else { 0 };
        let r: i8 = if self.right { 1 } else { 0 };
        l - r
    }
}

impl Physics {
    /// The state of an integrator that has done nothing yet.
    pub open spec fn fresh() -> Physics {
        Physics { time_acc: 0, sub_unit: Displacement::zero(), awaiting_tick: false }
    }

    /// `self` with another time accumulator.
    pub open spec fn with_time(self, time_acc: u64) -> Physics {
        Physics { time_acc, sub_unit: self.sub_unit, awaiting_tick: self.awaiting_tick }
    }

    /// `self` with another sub-unit accumulator.
    pub open spec fn with_sub_unit(self, sub_unit: Displacement) -> Physics {
        Physics { time_acc: self.time_acc, sub_unit, awaiting_tick: self.awaiting_tick }
    }

    /// `self` with the mark of an awaited tick set or cleared.
    pub open spec fn with_awaiting(self, awaiting_tick: bool) -> Physics {
        Physics { time_acc: self.time_acc, sub_unit: self.sub_unit, awaiting_tick }
    }

    /// The frame can begin: where it adds time, the accumulator has room.
    pub open spec fn can_begin_frame(self, sim: Simulation, pause: bool, elapsed: u64) -> bool {
        sim.state == GameState::Launched && !pause ==> self.time_acc + elapsed <= u64::MAX
    }

    /// The states at the start of a frame. Outside `Launched` nothing
    /// happens. A pause request turns `Launched` into `Paused` and the frame
    /// ends there. Otherwise the elapsed time is added to the accumulator.
    pub open spec fn frame_begun(self, sim: Simulation, pause: bool, elapsed: u64) -> (
        Physics,
        Simulation,
    ) {
        if sim.state != GameState::Launched {
            (self, sim)
        } else if pause {
            (self, Simulation { state: GameState::Paused, position: sim.position, stats: sim.stats })
        } else {
            (self.with_time((self.time_acc + elapsed) as u64), sim)
        }
    }

    /// The tick can be taken: a free-flight tick in `Launched` needs room in
    /// the accumulator and in the telemetry, and a move inside the world.
    pub open spec fn can_tick(self, sim: Simulation, tick: Tick) -> bool {
        sim.state == GameState::Launched ==> match tick {
            Tick::Launching { projectile } => true,
            Tick::Freeflight { displacement, terrain_index, sample } => {
                &&& self.sub_unit.can_gain(displacement)
                &&& sim.stats.can_record(sample)
                &&& can_probe(sim.position, displacement)
            },
        }
    }

    /// The point at which the tick's move crosses the ground, if it does. A
    /// launching tick crosses nothing.
    pub open spec fn crossing(sim: Simulation, ring: Seq<Point>, tick: Tick) -> Option<Point> {
        match tick {
            Tick::Launching { projectile } => None,
            Tick::Freeflight { displacement, terrain_index, sample } => ground_collision_of(
                ring,
                terrain_index as int,
                sim.position,
                displacement,
            ),
        }
    }

    /// The tick lands the body: it is taken in `Launched`, and its move
    /// crosses the ground.
    pub open spec fn lands(sim: Simulation, ring: Seq<Point>, tick: Tick) -> bool {
        sim.state == GameState::Launched && Physics::crossing(sim, ring, tick) is Some
    }

    /// The states after one tick over the ground `ring`.
    ///
    /// Outside `Launched` a tick changes nothing. A launching tick puts the
    /// body where the mechanism holds it. A free-flight tick records its
    /// sample, and then either lands the body at the point where its move
    /// crosses the ground, with nothing left in the accumulator, or adds its
    /// displacement to the accumulator and leaves the position alone.
    pub open spec fn ticked(self, sim: Simulation, ring: Seq<Point>, tick: Tick) -> (
        Physics,
        Simulation,
    ) {
        if sim.state != GameState::Launched {
            (self, sim)
        } else {
            match tick {
                Tick::Launching { projectile } => (
                    self,
                    Simulation { state: sim.state, position: projectile, stats: sim.stats },
                ),
                Tick::Freeflight { displacement, terrain_index, sample } => {
                    let stats = sim.stats.recorded(sample);
                    match ground_collision_of(
                        ring,
                        terrain_index as int,
                        sim.position,
                        displacement,
                    ) {
                        Some(point) => (
                            self.with_sub_unit(Displacement::zero()),
                            Simulation { state: GameState::Landed, position: point, stats },
                        ),
                        None => (
                            self.with_sub_unit(self.sub_unit.plus(displacement)),
                            Simulation { state: sim.state, position: sim.position, stats },
                        ),
                    }
                },
            }
        }
    }

    /// The states after the carry that ends a frame: the whole units of the
    /// accumulator are in the position, the fraction stays behind.
    pub open spec fn carried(self, sim: Simulation) -> (Physics, Simulation) {
        (
            self.with_sub_unit(self.sub_unit.fraction()),
            Simulation {
                state: sim.state,
                position: sim.position.plus(self.sub_unit.whole()),
                stats: sim.stats,
            },
        )
    }

    /// The exact place of the body in grains: its position and what the
    /// accumulator holds on top of it.
    pub open spec fn place(self, sim: Simulation) -> (int, int) {
        (sim.position.x * GRAIN + self.sub_unit.x, sim.position.y * GRAIN + self.sub_unit.y)
    }

    /// What follows can be settled: either another tick is due, or the carry
    /// stays in the range of the coordinates.
    pub open spec fn can_settle(self, sim: Simulation) -> bool {
        self.time_acc > PHYSICS_TICK || sim.position.can_reach(self.sub_unit.whole())
    }

    /// What follows the start of a frame and each tick that did not land:
    /// while more than one tick's time is left, one tick is paid for and
    /// asked for; otherwise the frame ends with the carry.
    pub open spec fn settled(self, sim: Simulation) -> (Physics, Simulation, Action) {
        if self.time_acc > PHYSICS_TICK {
            (
                self.with_time((self.time_acc - PHYSICS_TICK) as u64).with_awaiting(true),
                sim,
                Action::Advance,
            )
        } else {
            (self.carried(sim).0, self.carried(sim).1, Action::Rest)
        }
    }

    /// The event can be taken. Outside `Launched` every event can. A frame
    /// without a pause request needs room for its time. A tick that was
    /// asked for must be one that can be taken. And where the event would end
    /// the frame with the carry, the carry must stay in the range of the
    /// coordinates.
    pub open spec fn can_update(self, sim: Simulation, event: Event) -> bool {
        sim.state == GameState::Launched ==> match event {
            Event::Frame { pause, elapsed } => !pause ==> {
                &&& self.time_acc + elapsed <= u64::MAX
                &&& self.awaiting_tick || self.time_acc + elapsed > PHYSICS_TICK
                    || sim.position.can_reach(self.sub_unit.whole())
            },
            Event::Tick(tick) => self.awaiting_tick ==> {
                &&& self.can_tick(sim, tick)
                &&& tick matches Tick::Launching { projectile } ==> self.time_acc > PHYSICS_TICK
                    || projectile.can_reach(self.sub_unit.whole())
            },
        }
    }

    /// The states after an event over the ground `ring`, and what the
    /// integrator asks for next.
    ///
    /// Outside `Launched` no event changes anything. A frame with a pause
    /// request turns `Launched` into `Paused` and rests. Any other frame
    /// adds its time and settles what follows. A tick that was not asked
    /// for is ignored. The tick that was asked for is taken; if the body
    /// lands in it the frame rests there, otherwise what follows is settled.
    pub open spec fn updated(self, sim: Simulation, ring: Seq<Point>, event: Event) -> (
        Physics,
        Simulation,
        Action,
    ) {
        if sim.state != GameState::Launched {
            (self, sim, Action::Rest)
        } else {
            match event {
                Event::Frame { pause, elapsed } => {
                    let begun = self.frame_begun(sim, pause, elapsed);
                    if pause {
                        (begun.0, begun.1, Action::Rest)
                    } else if self.awaiting_tick {
                        (begun.0, begun.1, Action::Advance)
                    } else {
                        begun.0.settled(begun.1)
                    }
                },
                Event::Tick(tick) => {
                    if !self.awaiting_tick {
                        (self, sim, Action::Rest)
                    } else {
                        let taken = self.with_awaiting(false).ticked(sim, ring, tick);
                        if Physics::lands(sim, ring, tick) {
                            (taken.0, taken.1, Action::Rest)
                        } else {
                            taken.0.settled(taken.1)
                        }
                    }
                },
            }
        }
    }

    /// All the events can be taken, one after another.
    pub open spec fn can_replay(
        self,
        sim: Simulation,
        ring: Seq<Point>,
        events: Seq<Event>,
    ) -> bool
        decreases events.len(),
    {
        events.len() > 0 ==> {
            let next = self.updated(sim, ring, events[0]);
            self.can_update(sim, events[0]) && next.0.can_replay(
                next.1,
                ring,
                events.drop_first(),
            )
        }
    }

    /// The states after the events were taken in order.
    pub open spec fn replayed(self, sim: Simulation, ring: Seq<Point>, events: Seq<Event>) -> (
        Physics,
        Simulation,
    )
        decreases events.len(),
    {
        if events.len() == 0 {
            (self, sim)
        } else {
            let next = self.updated(sim, ring, events[0]);
            next.0.replayed(next.1, ring, events.drop_first())
        }
    }

    /// An integrator with nothing accumulated.
    pub fn init() -> (physics: Physics)
        ensures
            physics == Physics::fresh(),
    {
        Physics { time_acc: 0, sub_unit: Displacement::origin(), awaiting_tick: false }
    }

    /// Tells whether a frame with these inputs can begin.
    pub fn admits_frame(&self, sim: &Simulation, pause: bool, elapsed: u64) -> (b: bool)
        ensures
            b == self.can_begin_frame(*sim, pause, elapsed),
    {
        sim.state != GameState::Launched || pause || self.time_acc.checked_add(elapsed).is_some()
    }

    /// Tells whether the tick can be taken.
    pub fn admits(&self, sim: &Simulation, tick: Tick) -> (b: bool)
        ensures
            b == self.can_tick(*sim, tick),
    {
        if sim.state != GameState::Launched {
            return true;
        }
        match tick {
            Tick::Launching { projectile } => true,
            Tick::Freeflight { displacement, terrain_index, sample } => {
                self.sub_unit.has_room_for(displacement) && sim.stats.has_room_for(sample)
                    && is_probe_in_world(sim.position, displacement)
            },
        }
    }

    /// Tells whether the event can be taken.
    pub fn admits_update(&self, sim: &Simulation, event: Event) -> (b: bool)
        ensures
            b == self.can_update(*sim, event),
    {
        if sim.state != GameState::Launched {
            return true;
        }
        match event {
            Event::Frame { pause, elapsed } => {
                if pause {
                    return true;
                }
                match self.time_acc.checked_add(elapsed) {
                    None => false,
                    Some(time) => self.awaiting_tick || time > PHYSICS_TICK || sim.position.reaches(
                        to_i64coords(self.sub_unit),
                    ),
                }
            },
            Event::Tick(tick) => {
                if !self.awaiting_tick {
                    return true;
                }
                if !self.admits(sim, tick) {
                    return false;
                }
                match tick {
                    Tick::Launching { projectile } => self.time_acc > PHYSICS_TICK
                        || projectile.reaches(to_i64coords(self.sub_unit)),
                    Tick::Freeflight { displacement, terrain_index, sample } => true,
                }
            },
        }
    }

    /// Begins a frame that took `elapsed` microseconds, with `pause` telling
    /// whether a pause is requested. Tells whether the frame's ticks are to
    /// run.
    pub fn begin_frame(&mut self, sim: &mut Simulation, pause: bool, elapsed: u64) -> (active: bool)
        requires
            old(self).can_begin_frame(*old(sim), pause, elapsed),
        ensures
            (*final(self), *final(sim)) == old(self).frame_begun(*old(sim), pause, elapsed),
            active == (old(sim).state == GameState::Launched && !pause),
    {
        if sim.state != GameState::Launched {
            return false;
        }
        if pause {
            sim.state = GameState::Paused;
            return false;
        }
        self.time_acc = self.time_acc + elapsed;
        true
    }

    /// Takes the time of one tick out of the accumulator, if more than that
    /// is left, and tells whether it did.
    pub fn take_tick(&mut self) -> (due: bool)
        ensures
            due == (old(self).time_acc > PHYSICS_TICK),
            due ==> *final(self) == old(self).with_time(
                (old(self).time_acc - PHYSICS_TICK) as u64,
            ),
            !due ==> *final(self) == *old(self),
            due ==> ticks_due(final(self).time_acc) + 1 == ticks_due(old(self).time_acc),
            !due ==> ticks_due(old(self).time_acc) == 0,
    {
        if self.time_acc > PHYSICS_TICK {
            self.time_acc = self.time_acc - PHYSICS_TICK;
            true
        } else {
            false
        }
    }

    /// The position that the body would have if `displacement` were added to
    /// the accumulator and the whole units were carried now. Nothing changes.
    pub fn next_position(&self, position: Point, displacement: Displacement) -> (next: Point)
        requires
            self.sub_unit.can_gain(displacement),
            position.can_reach(self.sub_unit.plus(displacement).whole()),
        ensures
            next == position.plus(self.sub_unit.plus(displacement).whole()),
    {
        position.offset_by(to_i64coords(self.sub_unit.gain(displacement)))
    }

    /// Advances the simulation by one tick over `terrain`, and tells whether
    /// the body landed in it.
    pub fn tick(&mut self, sim: &mut Simulation, terrain: &Terrain, tick: Tick) -> (landed: bool)
        requires
            old(self).can_tick(*old(sim), tick),
        ensures
            (*final(self), *final(sim)) == old(self).ticked(*old(sim), terrain@, tick),
            landed == Physics::lands(*old(sim), terrain@, tick),
            landed ==> final(self).sub_unit == Displacement::zero() && final(sim).state
                == GameState::Landed,
            !landed ==> final(sim).state == old(sim).state,
            old(sim).stats.at_most(final(sim).stats),
            old(sim).state == GameState::Launched && tick is Freeflight
                ==> final(sim).position.in_world(),
    {
        if sim.state != GameState::Launched {
            return false;
        }
        match tick {
            Tick::Launching { projectile } => {
                sim.position = projectile;
                false
            },
            Tick::Freeflight { displacement, terrain_index, sample } => {
                sim.stats.record(sample);
                match ground_collision(terrain, terrain_index, sim.position, displacement) {
                    Some(point) => {
                        sim.position = point;
                        sim.state = GameState::Landed;
                        self.sub_unit = Displacement::origin();
                        true
                    },
                    None => {
                        self.sub_unit = self.sub_unit.gain(displacement);
                        false
                    },
                }
            },
        }
    }

    /// Ends a frame: the whole fixed-point units in the accumulator move into
    /// the position, and the accumulator keeps the fraction. Position and
    /// accumulator together stand for the same place before and after.
    pub fn end_frame(&mut self, sim: &mut Simulation)
        requires
            old(sim).position.can_reach(old(self).sub_unit.whole()),
        ensures
            (*final(self), *final(sim)) == old(self).carried(*old(sim)),
            final(self).sub_unit.is_fraction(),
            final(self).place(*final(sim)) == old(self).place(*old(sim)),
    {
        let split = to_i64coords_with_rem(self.sub_unit);
        sim.position = sim.position.offset_by(split.0);
        self.sub_unit = split.1;
    }

    /// Settles what follows the start of a frame or a tick: asks for the
    /// next tick, or ends the frame.
    fn settle(&mut self, sim: &mut Simulation) -> (action: Action)
        requires
            old(self).can_settle(*old(sim)),
        ensures
            (*final(self), *final(sim), action) == old(self).settled(*old(sim)),
    {
        if self.take_tick() {
            self.awaiting_tick = true;
            Action::Advance
        } else {
            self.end_frame(sim);
            Action::Rest
        }
    }

    /// Takes one event over `terrain` and tells what is to come next.
    pub fn update(&mut self, sim: &mut Simulation, terrain: &Terrain, event: Event) -> (action:
        Action)
        requires
            old(self).can_update(*old(sim), event),
        ensures
            (*final(self), *final(sim), action) == old(self).updated(*old(sim), terrain@, event),
            old(sim).stats.at_most(final(sim).stats),
    {
        if sim.state != GameState::Launched {
            return Action::Rest;
        }
        match event {
            Event::Frame { pause, elapsed } => {
                if !self.begin_frame(sim, pause, elapsed) {
                    return Action::Rest;
                }
                if self.awaiting_tick {
                    return Action::Advance;
                }
                self.settle(sim)
            },
            Event::Tick(tick) => {
                if !self.awaiting_tick {
                    return Action::Rest;
                }
                self.awaiting_tick = false;
                if self.tick(sim, terrain, tick) {
                    return Action::Rest;
                }
                self.settle(sim)
            },
        }
    }
}

/// The time that is left when every tick that was due has been taken is more
/// than nothing and at most one tick.
pub proof fn lemma_ticks_due_leaves_a_tick(time_acc: u64)
    ensures
        ticks_due(time_acc) == 0 <==> time_acc <= PHYSICS_TICK,
        time_acc > 0 ==> 0 < time_acc - ticks_due(time_acc) * PHYSICS_TICK <= PHYSICS_TICK,
{
}

/// Each tick that the integrator asks for is paid for: whenever an event is
/// answered with `Advance`, a tick is marked as awaited, and the time of one
/// tick has left the accumulator, unless the event is a frame that found a
/// tick awaited already.
pub proof fn lemma_advance_pays_a_tick(
    physics: Physics,
    sim: Simulation,
    ring: Seq<Point>,
    event: Event,
)
    requires
        physics.can_update(sim, event),
        physics.updated(sim, ring, event).2 == Action::Advance,
    ensures
        sim.state == GameState::Launched,
        !event.asks_pause(),
        event is Tick ==> physics.awaiting_tick,
        physics.updated(sim, ring, event).0.awaiting_tick,
        event is Frame && physics.awaiting_tick ==> physics.updated(sim, ring, event).0.time_acc
            == physics.time_acc + event.time(),
        !(event is Frame && physics.awaiting_tick) ==> physics.updated(
            sim,
            ring,
            event,
        ).0.time_acc == physics.time_acc + event.time() - PHYSICS_TICK,
        !(event is Frame && physics.awaiting_tick) ==> ticks_due(
            physics.updated(sim, ring, event).0.time_acc,
        ) + 1 == ticks_due((physics.time_acc + event.time()) as u64),
{
}

/// When a frame that ran comes to rest, nothing is awaited, the
/// accumulator holds less than one fixed-point unit in each coordinate and
/// nothing negative, and unless the body landed, at most one tick's time is
/// left.
pub proof fn lemma_rest_between_frames(
    physics: Physics,
    sim: Simulation,
    ring: Seq<Point>,
    event: Event,
)
    requires
        sim.state == GameState::Launched,
        physics.can_update(sim, event),
        !event.asks_pause(),
        event is Tick ==> physics.awaiting_tick,
        physics.updated(sim, ring, event).2 == Action::Rest,
    ensures
        !physics.updated(sim, ring, event).0.awaiting_tick,
        physics.updated(sim, ring, event).0.sub_unit.is_fraction(),
        physics.updated(sim, ring, event).1.state == GameState::Launched ==> physics.updated(
            sim,
            ring,
            event,
        ).0.time_acc <= PHYSICS_TICK,
        physics.updated(sim, ring, event).1.state == GameState::Launched ==> ticks_due(
            physics.updated(sim, ring, event).0.time_acc,
        ) == 0,
{
}

/// Right after a tick in which the body lands, nothing is left in the
/// accumulator, the phase is `Landed`, the body stands on the crossing, and
/// the frame is over.
pub proof fn lemma_landing_resets(physics: Physics, sim: Simulation, ring: Seq<Point>, tick: Tick)
    requires
        physics.awaiting_tick,
        Physics::lands(sim, ring, tick),
    ensures
        physics.updated(sim, ring, Event::Tick(tick)).0.sub_unit == Displacement::zero(),
        physics.updated(sim, ring, Event::Tick(tick)).0.time_acc == physics.time_acc,
        physics.updated(sim, ring, Event::Tick(tick)).1.state == GameState::Landed,
        physics.updated(sim, ring, Event::Tick(tick)).2 == Action::Rest,
        Some(physics.updated(sim, ring, Event::Tick(tick)).1.position) == Physics::crossing(
            sim,
            ring,
            tick,
        ),
{
}

/// No event enters the phase `Launched`, and an event leaves it only by a
/// pause request, for `Paused`, or by a landing, for `Landed`.
pub proof fn lemma_update_phase(physics: Physics, sim: Simulation, ring: Seq<Point>, event: Event)
    ensures
        sim.state != GameState::Launched ==> physics.updated(sim, ring, event).1.state
            == sim.state,
        sim.state == GameState::Launched ==> (physics.updated(sim, ring, event).1.state
            == GameState::Paused <==> event.asks_pause()),
        sim.state == GameState::Launched ==> (physics.updated(sim, ring, event).1.state
            == GameState::Landed <==> event is Tick && physics.awaiting_tick && Physics::lands(
            sim,
            ring,
            event->0,
        )),
{
}

/// The carry moves nothing: position and accumulator together stand for the
/// same place before and after, and the accumulator ends below one unit.
pub proof fn lemma_carry_keeps_place(physics: Physics, sim: Simulation)
    requires
        sim.position.can_reach(physics.sub_unit.whole()),
    ensures
        physics.carried(sim).0.place(physics.carried(sim).1) == physics.place(sim),
        physics.carried(sim).0.sub_unit.is_fraction(),
{
    lemma_round_trip(physics.sub_unit);
}

/// A frame event moves the body nowhere: whether a tick is asked for or the
/// carry is made, position and accumulator together stand for the same
/// place as before.
pub proof fn lemma_frame_keeps_place(
    physics: Physics,
    sim: Simulation,
    ring: Seq<Point>,
    event: Event,
)
    requires
        event is Frame,
        physics.can_update(sim, event),
    ensures
        physics.updated(sim, ring, event).0.place(physics.updated(sim, ring, event).1)
            == physics.place(sim),
{
    if sim.state == GameState::Launched && !event.asks_pause() && !physics.awaiting_tick {
        let begun = physics.frame_begun(sim, false, event->elapsed);
        if !(begun.0.time_acc > PHYSICS_TICK) {
            lemma_carry_keeps_place(begun.0, begun.1);
        }
    }
}

/// No error ever enters the position: a free-flight tick that does not land
/// moves the body by exactly its displacement, whether or not whole units
/// are carried on the way.
pub proof fn lemma_tick_moves_exactly(
    physics: Physics,
    sim: Simulation,
    ring: Seq<Point>,
    tick: Tick,
)
    requires
        sim.state == GameState::Launched,
        physics.awaiting_tick,
        tick is Freeflight,
        physics.can_update(sim, Event::Tick(tick)),
        !Physics::lands(sim, ring, tick),
    ensures
        physics.updated(sim, ring, Event::Tick(tick)).0.place(
            physics.updated(sim, ring, Event::Tick(tick)).1,
        ).0 == physics.place(sim).0 + tick->displacement.x,
        physics.updated(sim, ring, Event::Tick(tick)).0.place(
            physics.updated(sim, ring, Event::Tick(tick)).1,
        ).1 == physics.place(sim).1 + tick->displacement.y,
{
    let taken = physics.with_awaiting(false).ticked(sim, ring, tick);
    if !(taken.0.time_acc > PHYSICS_TICK) {
        lemma_carry_keeps_place(taken.0, taken.1);
    }
}

/// One event lowers no field of the telemetry.
pub proof fn lemma_update_keeps_stats(
    physics: Physics,
    sim: Simulation,
    ring: Seq<Point>,
    event: Event,
)
    requires
        physics.can_update(sim, event),
    ensures
        sim.stats.at_most(physics.updated(sim, ring, event).1.stats),
{
}

/// Outside `Launched` no sequence of events changes anything: `Paused`
/// waits, and `Landed` is final.
pub proof fn lemma_idle_outside_launched(
    physics: Physics,
    sim: Simulation,
    ring: Seq<Point>,
    events: Seq<Event>,
)
    requires
        sim.state != GameState::Launched,
    ensures
        physics.replayed(sim, ring, events) == (physics, sim),
        physics.can_replay(sim, ring, events),
    decreases events.len(),
{
    if events.len() > 0 {
        lemma_idle_outside_launched(physics, sim, ring, events.drop_first());
    }
}

/// Across any sequence of frames and ticks the telemetry never decreases:
/// not the time, not the distance, not the highest altitude, not the
/// highest speed.
pub proof fn lemma_stats_never_decrease(
    physics: Physics,
    sim: Simulation,
    ring: Seq<Point>,
    events: Seq<Event>,
)
    requires
        physics.can_replay(sim, ring, events),
    ensures
        sim.stats.at_most(physics.replayed(sim, ring, events).1.stats),
    decreases events.len(),
{
    if events.len() > 0 {
        let next = physics.updated(sim, ring, events[0]);
        lemma_update_keeps_stats(physics, sim, ring, events[0]);
        lemma_stats_never_decrease(next.0, next.1, ring, events.drop_first());
    }
}

} // verus!

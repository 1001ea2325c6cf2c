//! Flight telemetry: totals and running maxima that only ever grow.

use crate::physics::PHYSICS_TICK;
use vstd::prelude::*;

verus! {

/// What a flight has amounted to so far.
#[derive(Clone, Copy, Debug, PartialEq, Eq, Structural)]
pub struct Stats {
    /// Simulated time, in microseconds.
    pub time: u64,
    /// Length of the path flown, in grains.
    pub distance: u64,
    /// Highest altitude seen, in fixed-point units.
    pub max_altitude: i64,
    /// Highest speed seen, in fixed-point units per second.
    pub max_speed: u64,
}

/// What one tick of free flight adds to the telemetry.
#[derive(Clone, Copy, Debug, PartialEq, Eq, Structural)]
pub struct Sample {
    /// Length of the tick's displacement, in grains.
    pub distance: u64,
    /// Altitude of the body, in fixed-point units.
    pub altitude: i64,
    /// Speed of the body, in fixed-point units per second.
    pub speed: u64,
}

impl Stats {
    /// The telemetry of a flight that has not begun.
    pub open spec fn zero() -> Stats {
        Stats { time: 0, distance: 0, max_altitude: 0, max_speed: 0 }
    }

    /// The totals have room for one more tick with this sample.
    pub open spec fn can_record(self, sample: Sample) -> bool {
        &&& self.time + PHYSICS_TICK <= u64::MAX
        &&& self.distance + sample.distance <= u64::MAX
    }

    /// The telemetry after one more tick: a tick longer, the sample's length
    /// farther, and the maxima raised to the sample where it exceeds them.
    pub open spec fn recorded(self, sample: Sample) -> Stats {
        Stats {
            time: (self.time + PHYSICS_TICK) as u64,
            distance: (self.distance + sample.distance) as u64,
            max_altitude: if sample.altitude > self.max_altitude {
                sample.altitude
            } else {
                self.max_altitude
            },
            max_speed: if sample.speed > self.max_speed {
                sample.speed
            } else {
                self.max_speed
            },
        }
    }

    /// No field of `self` exceeds that field of `later`.
    pub open spec fn at_most(self, later: Stats) -> bool {
        &&& self.time <= later.time
        &&& self.distance <= later.distance
        &&& self.max_altitude <= later.max_altitude
        &&& self.max_speed <= later.max_speed
    }

    /// The totals have room for all the samples, one tick each.
    pub open spec fn can_replay(self, samples: Seq<Sample>) -> bool
        decreases samples.len(),
    {
        samples.len() > 0 ==> self.can_record(samples[0]) && self.recorded(samples[0]).can_replay(
            samples.drop_first(),
        )
    }

    /// The telemetry after the samples were recorded in order.
    pub open spec fn replayed(self, samples: Seq<Sample>) -> Stats
        decreases samples.len(),
    {
        if samples.len() == 0 {
            self
        } else {
            self.recorded(samples[0]).replayed(samples.drop_first())
        }
    }

    /// The telemetry of a flight that has not begun.
    pub fn new() -> (stats: Stats)
        ensures
            stats == Stats::zero(),
    {
        Stats { time: 0, distance: 0, max_altitude: 0, max_speed: 0 }
    }

    /// Tells whether the totals have room for one more tick with this
    /// sample.
    pub fn has_room_for(&self, sample: Sample) -> (b: bool)
        ensures
            b == self.can_record(sample),
    {
        self.time.checked_add(PHYSICS_TICK).is_some() && self.distance.checked_add(
            sample.distance,
        ).is_some()
    }

    /// Records one tick of free flight.
    pub fn record(&mut self, sample: Sample)
        requires
            old(self).can_record(sample),
        ensures
            *final(self) == old(self).recorded(sample),
            old(self).at_most(*final(self)),
    {
        self.time = self.time + PHYSICS_TICK;
        self.distance = self.distance + sample.distance;
        if sample.altitude > self.max_altitude {
            self.max_altitude = sample.altitude;
        }
        if sample.speed > self.max_speed {
            self.max_speed = sample.speed;
        }
    }
}

/// One recorded tick lowers nothing.
pub proof fn lemma_record_never_decreases(stats: Stats, sample: Sample)
    requires
        stats.can_record(sample),
    ensures
        stats.at_most(stats.recorded(sample)),
        stats.recorded(sample).time == stats.time + PHYSICS_TICK,
        stats.recorded(sample).distance == stats.distance + sample.distance,
        stats.recorded(sample).max_altitude >= sample.altitude,
        stats.recorded(sample).max_speed >= sample.speed,
{
}

/// Whatever the samples, recording them lowers nothing.
pub proof fn lemma_replay_never_decreases(stats: Stats, samples: Seq<Sample>)
    requires
        stats.can_replay(samples),
    ensures
        stats.at_most(stats.replayed(samples)),
    decreases samples.len(),
{
    if samples.len() > 0 {
        lemma_replay_never_decreases(stats.recorded(samples[0]), samples.drop_first());
    }
}

} // verus!

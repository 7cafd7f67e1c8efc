use crate::data::duration::Duration;
use crate::data::ids::WorldTicks;
use vstd::prelude::*;

verus! {

/// The time of the world: the ticks it has run and the time that has
/// passed since the last one.
#[derive(Copy, Clone, Debug, PartialEq, Eq, Structural)]
pub struct WorldTime {
    pub ticks: WorldTicks,
    pub time_since_last_tick: Duration,
}

impl WorldTime {
    /// The time of a world that has not run yet.
    pub fn new() -> (time: Self)
        ensures
            time.ticks == WorldTicks(0),
            time.time_since_last_tick == Duration::zero(),
    {
        Self { ticks: WorldTicks(0), time_since_last_tick: Duration::from_secs(0) }
    }
}

/// The time that passed between the previous tick and this one.
#[derive(Copy, Clone, Debug, PartialEq, Eq, Structural)]
pub struct DeltaTime {
    pub delta: Duration,
}

} // verus!

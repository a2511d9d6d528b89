//! Per-car race bookkeeping.
use vstd::prelude::*;
use crate::car::CarState;

verus! {

/// Ticks raced, when the race started and ended (microseconds), and the state
/// the car was last seen in.
#[derive(Copy, Clone, Debug, PartialEq, Eq, Structural)]
pub struct CarProgress {
    pub ticks: u64,
    pub start_time: i64,
    pub end_time: Option<i64>,
    pub state: CarState,
}

impl CarProgress {
    pub fn new(start_time: i64) -> (r: CarProgress)
        ensures
            r.ticks == 0,
            r.start_time == start_time,
            r.end_time is None,
            r.state == CarState::StartLine,
    {
        CarProgress { ticks: 0, start_time, end_time: None, state: CarState::StartLine }
    }
}

} // verus!

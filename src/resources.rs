use vstd::prelude::*;

verus! {

/// Engine-wide clock read by the pipeline systems.
#[derive(Clone, Copy, Debug, PartialEq, Eq, Structural)]
pub struct TimeResource {
    /// Completed pipeline passes.
    pub ticks: u64,
    /// Wall-clock length of the last full tick iteration, in microseconds.
    pub elapsed_micros: u64,
}

impl TimeResource {
    /// A clock that has not ticked yet.
    pub fn new() -> (r: TimeResource)
        ensures
            r.ticks == 0,
            r.elapsed_micros == 0,
    {
        TimeResource { ticks: 0, elapsed_micros: 0 }
    }
}

} // verus!

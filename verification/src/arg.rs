use vstd::prelude::*;

verus! {

/// Run parameters of the pipeline.
#[derive(Debug, PartialEq, Clone, Copy)]
pub struct MainArg {
    /// Milliseconds between heartbeat bursts.
    pub rate_ms: u64,
    /// Number of heartbeats to send before the pipeline stops.
    pub beats: u64,
}

impl Default for MainArg {
    /// The parameters used when none are given by a test harness.
    fn default() -> (arg: Self)
        ensures
            arg.rate_ms == 100,
            arg.beats == 600,
    {
        MainArg { rate_ms: 100, beats: 600 }
    }
}

} // verus!

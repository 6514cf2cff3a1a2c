//! Merging several chains' outputs into one stream.

use vstd::prelude::*;

verus! {

/// Capacity of every bounded channel of the pipeline.
pub const CHANNEL_CAPACITY: usize = 64;

/// Pause between two payloads replayed from a fixture, in milliseconds.
pub const REPLAY_INTERVAL_MS: u64 = 50;

/// How the outputs of the fetchers reach the one receiver.
#[derive(Clone, Copy, Debug, PartialEq, Eq, Structural)]
pub enum FanInPlan {
    /// The only fetcher's own output is the stream.
    Direct,
    /// Each fetcher's output is forwarded, by a thread of its own, into one
    /// shared bounded channel of this capacity.
    Forwarded { capacity: usize },
}

/// The plan for `n_sources` fetchers: a single one is read directly, with no
/// forwarding hop; several share one channel of `CHANNEL_CAPACITY`.
pub fn plan_fan_in(n_sources: usize) -> (r: FanInPlan)
    requires
        n_sources >= 1,
    ensures
        n_sources == 1 ==> r == FanInPlan::Direct,
        n_sources > 1 ==> r == (FanInPlan::Forwarded { capacity: CHANNEL_CAPACITY }),
{
    if n_sources == 1 {
        FanInPlan::Direct
    } else {
        FanInPlan::Forwarded { capacity: CHANNEL_CAPACITY }
    }
}

} // verus!

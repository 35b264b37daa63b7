//! Startup gate: after a launch, the backend is polled at a fixed interval
//! until it answers a health probe or a bounded attempt count runs out. A
//! freshly spawned process (one that must self-extract or initialize) is not
//! instantly ready, so "process spawned" must never be read as "service
//! available".
//!
//! The caller performs each probe and sleep; the `StartupGate` only counts attempts
//! and says what to do next.

use vstd::prelude::*;

verus! {

/// What the caller is asked to do after one probe.
#[derive(Clone, Copy, PartialEq, Eq, Structural, Debug)]
pub enum GateStep {
    /// The backend answered: the wait succeeds.
    Ready,
    /// Not yet: sleep one interval and probe again.
    Retry,
    /// The attempt budget is spent: perform one final probe, whose outcome
    /// decides the whole wait.
    FinalProbe,
}

/// Bounded poll-until-healthy, driven by the caller's probes.
pub struct StartupGate {
    /// In-budget probes left, the final extra probe not counted.
    pub remaining: u32,
}

impl StartupGate {
    /// A gate that will accept up to `max_attempts` probes before asking for
    /// the one final probe.
    pub fn new(max_attempts: u32) -> (g: StartupGate)
        requires
            max_attempts >= 1,
        ensures
            g.remaining == max_attempts,
    {
        StartupGate { remaining: max_attempts }
    }

    /// Record one probe outcome: success ends the wait at once; a failure
    /// spends one attempt, and spending the last one asks for the final
    /// probe instead of another interval.
    pub fn observe(&mut self, healthy: bool) -> (step: GateStep)
        requires
            old(self).remaining >= 1,
        ensures
            healthy ==> step == GateStep::Ready && *final(self) == *old(self),
            !healthy && old(self).remaining > 1 ==> step == GateStep::Retry
                && final(self).remaining == old(self).remaining - 1,
            !healthy && old(self).remaining == 1 ==> step == GateStep::FinalProbe
                && final(self).remaining == 0,
    {
        if healthy {
            GateStep::Ready
        } else if self.remaining > 1 {
            self.remaining = self.remaining - 1;
            GateStep::Retry
        } else {
            self.remaining = 0;
            GateStep::FinalProbe
        }
    }
}

} // verus!

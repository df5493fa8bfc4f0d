//! When to sample next.
//!
//! The cadence waits until the refresh interval has passed since the last
//! sample, then asks for one, and waits again once it has been taken. The
//! interval is read from the settings at every check, so a change takes
//! effect at the next one.

use vstd::prelude::*;
use crate::models::config::UserConfig;
use crate::models::quantity::Timestamp;

verus! {

/// Nanoseconds in one millisecond.
pub const NANOS_PER_MILLI: u64 = 1_000_000;

/// Waiting for the interval to pass, or taking a sample.
#[derive(Debug, Clone, Copy, PartialEq, Eq, Structural)]
pub enum CadenceState {
    Idle,
    Sampling,
}

/// Whether, at `now`, at least `interval_millis` have passed since `last`. A
/// clock that went backwards has let no time pass.
pub open spec fn is_due(last: Timestamp, now: Timestamp, interval_millis: u64) -> bool {
    let elapsed = if now.delta(last) > 0 {
        now.delta(last)
    } else {
        0
    };
    elapsed >= interval_millis * NANOS_PER_MILLI
}

/// The state of the sampling cycle and the instant of the last sample.
#[derive(Debug, Clone, Copy, PartialEq, Eq, Structural)]
pub struct Cadence {
    state: CadenceState,
    last_sample: Timestamp,
}

impl Cadence {
    pub closed spec fn state(self) -> CadenceState {
        self.state
    }

    /// The instant the last sample was finished, or the cadence was made.
    pub closed spec fn last_sample(self) -> Timestamp {
        self.last_sample
    }

    /// A cadence that waits, its interval counted from `now`.
    pub fn new(now: Timestamp) -> (cadence: Cadence)
        ensures
            cadence.state() == CadenceState::Idle,
            cadence.last_sample() == now,
    {
        Cadence { state: CadenceState::Idle, last_sample: now }
    }

    pub fn current_state(&self) -> (state: CadenceState)
        ensures
            state == self.state(),
    {
        self.state
    }

    pub fn last_sampled(&self) -> (at: Timestamp)
        ensures
            at == self.last_sample(),
    {
        self.last_sample
    }

    /// Checks the clock. A waiting cadence whose interval has passed starts
    /// sampling and says so; in every other case nothing changes.
    pub fn poll(&mut self, now: Timestamp, config: &UserConfig) -> (start: bool)
        ensures
            start == (old(self).state() == CadenceState::Idle && is_due(
                old(self).last_sample(),
                now,
                config.refresh_interval_millis,
            )),
            start ==> final(self).state() == CadenceState::Sampling,
            !start ==> final(self).state() == old(self).state(),
            final(self).last_sample() == old(self).last_sample(),
    {
        match self.state {
            CadenceState::Sampling => false,
            CadenceState::Idle => {
                let elapsed: u64 = now.elapsed_since(self.last_sample);
                assert(config.refresh_interval_millis * NANOS_PER_MILLI <= u64::MAX * NANOS_PER_MILLI)
                    by (nonlinear_arith);
                let interval: u128 = (config.refresh_interval_millis as u128) * (NANOS_PER_MILLI as u128);
                if elapsed as u128 >= interval {
                    self.state = CadenceState::Sampling;
                    true
                } else {
                    false
                }
            },
        }
    }

    /// Records that the sample asked for was taken at `now`: the cadence
    /// waits again, its interval counted from `now`. A cadence that was
    /// waiting already stays as it is.
    pub fn complete(&mut self, now: Timestamp)
        ensures
            old(self).state() == CadenceState::Sampling ==> final(self).state() == CadenceState::Idle
                && final(self).last_sample() == now,
            old(self).state() == CadenceState::Idle ==> *final(self) == *old(self),
    {
        match self.state {
            CadenceState::Sampling => {
                self.state = CadenceState::Idle;
                self.last_sample = now;
            },
            CadenceState::Idle => {},
        }
    }
}

} // verus!

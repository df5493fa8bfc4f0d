//! Turns a pair of cumulative byte counters into a pair of rates.
//!
//! The accumulator remembers the counters and the instant of the observation
//! before. Each new observation is measured against them and then takes
//! their place.

use vstd::prelude::*;
use crate::models::quantity::{Rate, Timestamp, NANOS_PER_SEC};

verus! {

/// The bytes a counter gained from `previous` to `current`. A counter that
/// fell was reset; it gained nothing.
pub open spec fn gained(previous: u64, current: u64) -> u64 {
    if current >= previous {
        (current - previous) as u64
    } else {
        0
    }
}

/// The rate of a counter that read `previous` at `earlier` and `current` at
/// `now`. Without time in between there is no rate to speak of: it is zero.
pub open spec fn rate_between(previous: u64, current: u64, earlier: Timestamp, now: Timestamp) -> Rate {
    if now.delta(earlier) > 0 {
        Rate { bytes: gained(previous, current), nanos: now.delta(earlier) as u64 }
    } else {
        Rate::zero()
    }
}

/// The counters and the instant of the latest observation.
#[derive(Debug, Clone, Copy, PartialEq, Eq)]
pub struct RateAccumulator {
    previous: (u64, u64),
    last_update: Timestamp,
}

impl RateAccumulator {
    /// The counters of the latest observation.
    pub closed spec fn previous(self) -> (u64, u64) {
        self.previous
    }

    /// The instant of the latest observation.
    pub closed spec fn last_update(self) -> Timestamp {
        self.last_update
    }

    /// The accumulator once it has observed `incoming` and `outgoing` at `now`.
    pub closed spec fn observed(self, incoming: u64, outgoing: u64, now: Timestamp) -> RateAccumulator {
        RateAccumulator { previous: (incoming, outgoing), last_update: now }
    }

    /// The rates that observing `incoming` and `outgoing` at `now` reports.
    pub open spec fn rates(self, incoming: u64, outgoing: u64, now: Timestamp) -> (Rate, Rate) {
        (
            rate_between(self.previous().0, incoming, self.last_update(), now),
            rate_between(self.previous().1, outgoing, self.last_update(), now),
        )
    }

    /// An accumulator that has seen nothing yet: both counters zero, measured
    /// from `now`.
    pub fn new(now: Timestamp) -> (acc: RateAccumulator)
        ensures
            acc.previous() == (0u64, 0u64),
            acc.last_update() == now,
    {
        RateAccumulator { previous: (0, 0), last_update: now }
    }

    pub fn previous_counters(&self) -> (counters: (u64, u64))
        ensures
            counters == self.previous(),
    {
        self.previous
    }

    pub fn last_observed(&self) -> (at: Timestamp)
        ensures
            at == self.last_update(),
    {
        self.last_update
    }

    /// Reports the rates since the observation before, then remembers this
    /// one in its place, whatever the clock did.
    pub fn observe(&mut self, incoming: u64, outgoing: u64, now: Timestamp) -> (rates: (Rate, Rate))
        ensures
            rates == old(self).rates(incoming, outgoing, now),
            *final(self) == old(self).observed(incoming, outgoing, now),
            final(self).previous() == (incoming, outgoing),
            final(self).last_update() == now,
    {
        let elapsed: u64 = now.elapsed_since(self.last_update);
        let rates = if elapsed > 0 {
            (
                Rate { bytes: incoming.saturating_sub(self.previous.0), nanos: elapsed },
                Rate { bytes: outgoing.saturating_sub(self.previous.1), nanos: elapsed },
            )
        } else {
            (Rate::zero(), Rate::zero())
        };
        self.previous = (incoming, outgoing);
        self.last_update = now;
        rates
    }
}

/// What an observation leaves behind does not depend on what was there.
pub proof fn lemma_observed_state(acc: RateAccumulator, incoming: u64, outgoing: u64, now: Timestamp)
    ensures
        acc.observed(incoming, outgoing, now).previous() == (incoming, outgoing),
        acc.observed(incoming, outgoing, now).last_update() == now,
{
}

/// A counter that grew from `previous` to `current` while time passed has
/// exactly the rate of what it gained over the seconds that passed.
pub proof fn lemma_growth_rate_is_exact(previous: u64, current: u64, earlier: Timestamp, now: Timestamp)
    requires
        current >= previous,
        now.delta(earlier) > 0,
    ensures
        rate_between(previous, current, earlier, now).value() == ((current - previous) as real) / (
        (now.delta(earlier) as real) / (NANOS_PER_SEC as real)),
        rate_between(previous, current, earlier, now).whole_per_second() == ((current - previous)
            * NANOS_PER_SEC) / now.delta(earlier),
{
}

/// A counter that fell was reset: its rate is zero.
pub proof fn lemma_reset_rate_is_zero(previous: u64, current: u64, earlier: Timestamp, now: Timestamp)
    requires
        current < previous,
    ensures
        rate_between(previous, current, earlier, now).bytes == 0,
        rate_between(previous, current, earlier, now).value() == 0real,
        rate_between(previous, current, earlier, now).whole_per_second() == 0,
{
    let rate = rate_between(previous, current, earlier, now);
    assert(rate.bytes == 0);
    assert(rate.value() == 0real) by (nonlinear_arith)
        requires
            rate.bytes == 0,
            rate.value() == if rate.nanos == 0 {
                0real
            } else {
                (rate.bytes as real) / ((rate.nanos as real) / (NANOS_PER_SEC as real))
            },
    ;
    assert(rate.whole_per_second() == 0) by (nonlinear_arith)
        requires
            rate.bytes == 0,
            rate.whole_per_second() == if rate.nanos == 0 {
                0
            } else {
                (rate.bytes as nat * NANOS_PER_SEC as nat) / (rate.nanos as nat)
            },
    ;
}

/// Each observation is measured from the one before it and from nothing
/// earlier: after `current` was observed at `now`, whether its counters had
/// grown or fallen, observing `next` at `later` reports the rates between
/// those two.
pub proof fn lemma_next_observation_is_rebased(
    acc: RateAccumulator,
    current: (u64, u64),
    now: Timestamp,
    next: (u64, u64),
    later: Timestamp,
)
    ensures
        acc.observed(current.0, current.1, now).rates(next.0, next.1, later) == (
            rate_between(current.0, next.0, now, later),
            rate_between(current.1, next.1, now, later),
        ),
{
}

/// When no time has passed, or the clock went backwards, both rates are zero
/// and the observation is remembered all the same.
pub proof fn lemma_stalled_clock(acc: RateAccumulator, incoming: u64, outgoing: u64, now: Timestamp)
    requires
        now.delta(acc.last_update()) <= 0,
    ensures
        acc.rates(incoming, outgoing, now) == (Rate::zero(), Rate::zero()),
        Rate::zero().value() == 0real,
        acc.observed(incoming, outgoing, now).previous() == (incoming, outgoing),
        acc.observed(incoming, outgoing, now).last_update() == now,
{
}

} // verus!

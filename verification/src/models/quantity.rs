//! Exact quantities: instants, byte rates and percentages.
//!
//! A rate and a percentage are kept as the two integers they are a quotient
//! of, so that no rounding happens until a caller asks for a rounded number.

use vstd::prelude::*;

verus! {

/// Nanoseconds in one second.
pub const NANOS_PER_SEC: u64 = 1_000_000_000;

/// The largest `u64` not above `n`.
pub open spec fn saturate(n: nat) -> u64 {
    if n > u64::MAX {
        u64::MAX
    } else {
        n as u64
    }
}

/// An instant on the wall clock, in nanoseconds since the Unix epoch.
#[derive(Debug, Clone, Copy, PartialEq, Eq, Structural)]
pub struct Timestamp {
    pub nanos: u64,
}

impl Timestamp {
    /// The time from `earlier` to `self` in nanoseconds; negative when the
    /// clock went backwards.
    pub open spec fn delta(self, earlier: Timestamp) -> int {
        self.nanos as int - earlier.nanos as int
    }

    pub fn from_nanos(nanos: u64) -> (t: Timestamp)
        ensures
            t.nanos == nanos,
    {
        Timestamp { nanos }
    }

    /// The instant `nanos` nanoseconds after the epoch, or the last instant
    /// that can be told where that is too far.
    pub fn from_wide_nanos(nanos: u128) -> (t: Timestamp)
        ensures
            t.nanos == saturate(nanos as nat),
    {
        if nanos > u64::MAX as u128 {
            Timestamp { nanos: u64::MAX }
        } else {
            Timestamp { nanos: nanos as u64 }
        }
    }

    pub fn as_nanos(&self) -> (nanos: u64)
        ensures
            nanos == self.nanos,
    {
        self.nanos
    }

    /// Nanoseconds elapsed since `earlier`, or zero when `earlier` is not in
    /// the past.
    pub fn elapsed_since(&self, earlier: Timestamp) -> (elapsed: u64)
        ensures
            self.delta(earlier) > 0 ==> elapsed == self.delta(earlier),
            self.delta(earlier) <= 0 ==> elapsed == 0,
    {
        if self.nanos > earlier.nanos {
            self.nanos - earlier.nanos
        } else {
            0
        }
    }
}

/// A transfer rate: `bytes` moved during an interval of `nanos` nanoseconds.
///
/// An interval of zero length carries no information; its rate is zero.
#[derive(Debug, Clone, Copy, PartialEq, Eq, Structural)]
pub struct Rate {
    pub bytes: u64,
    pub nanos: u64,
}

impl Rate {
    /// The rate in bytes per second, as an exact number.
    pub open spec fn value(self) -> real {
        if self.nanos == 0 {
            0real
        } else {
            (self.bytes as real) / ((self.nanos as real) / (NANOS_PER_SEC as real))
        }
    }

    /// The whole bytes per second: `value()` rounded down.
    pub open spec fn whole_per_second(self) -> nat {
        if self.nanos == 0 {
            0
        } else {
            (self.bytes as nat * NANOS_PER_SEC as nat) / (self.nanos as nat)
        }
    }

    pub open spec fn spec_zero() -> Rate {
        Rate { bytes: 0, nanos: 0 }
    }

    /// The rate of an idle or unmeasured link.
    #[verifier::when_used_as_spec(spec_zero)]
    pub fn zero() -> (r: Rate)
        ensures
            r == Rate::spec_zero(),
    {
        Rate { bytes: 0, nanos: 0 }
    }

    /// Whole bytes per second, rounded down and held to the range of `u64`.
    pub fn per_second(&self) -> (whole: u64)
        ensures
            whole == saturate(self.whole_per_second()),
    {
        if self.nanos == 0 {
            return 0;
        }
        assert(self.bytes * NANOS_PER_SEC <= u64::MAX * NANOS_PER_SEC) by (nonlinear_arith);
        let scaled: u128 = (self.bytes as u128) * (NANOS_PER_SEC as u128);
        let quotient: u128 = scaled / (self.nanos as u128);
        if quotient > u64::MAX as u128 {
            u64::MAX
        } else {
            quotient as u64
        }
    }
}

/// A share of a whole, in percent: `part` out of `whole`.
///
/// A share of nothing is zero percent.
#[derive(Debug, Clone, Copy, PartialEq, Eq, Structural)]
pub struct Percentage {
    pub part: u64,
    pub whole: u64,
}

impl Percentage {
    /// The percentage as an exact number.
    pub open spec fn value(self) -> real {
        if self.whole == 0 {
            0real
        } else {
            (self.part as real) / (self.whole as real) * 100real
        }
    }

    /// The percentage in hundredths of a percent: `value() * 100` rounded down.
    pub open spec fn whole_hundredths(self) -> nat {
        if self.whole == 0 {
            0
        } else {
            (self.part as nat * 10_000) / (self.whole as nat)
        }
    }

    pub open spec fn spec_zero() -> Percentage {
        Percentage { part: 0, whole: 0 }
    }

    /// Zero percent.
    #[verifier::when_used_as_spec(spec_zero)]
    pub fn zero() -> (p: Percentage)
        ensures
            p == Percentage::spec_zero(),
    {
        Percentage { part: 0, whole: 0 }
    }

    /// Hundredths of a percent, rounded down and held to the range of `u64`.
    pub fn hundredths(&self) -> (h: u64)
        ensures
            h == saturate(self.whole_hundredths()),
    {
        if self.whole == 0 {
            return 0;
        }
        let scaled: u128 = (self.part as u128) * 10_000;
        let quotient: u128 = scaled / (self.whole as u128);
        if quotient > u64::MAX as u128 {
            u64::MAX
        } else {
            quotient as u64
        }
    }

    /// Whether the percentage lies strictly above `percent`, by whole
    /// numbers alone.
    pub open spec fn spec_exceeds(&self, percent: u64) -> bool {
        self.whole != 0 && self.part * 100 > percent * self.whole
    }

    /// Whether the percentage lies strictly above `percent`.
    #[verifier::when_used_as_spec(spec_exceeds)]
    pub fn exceeds(&self, percent: u64) -> (above: bool)
        ensures
            above == self.spec_exceeds(percent),
            above == (self.value() > percent as real),
    {
        proof {
            lemma_value_above(*self, percent);
            assert(percent * self.whole <= u64::MAX * u64::MAX) by (nonlinear_arith);
        }
        self.whole != 0 && (self.part as u128) * 100 > (percent as u128) * (self.whole as u128)
    }
}

/// The whole bytes per second are the exact rate rounded down.
pub proof fn lemma_whole_per_second_is_floor(rate: Rate)
    ensures
        rate.whole_per_second() as real <= rate.value() < (rate.whole_per_second() + 1) as real,
{
    if rate.nanos != 0 {
        let scaled = rate.bytes as nat * NANOS_PER_SEC as nat;
        let nanos = rate.nanos as nat;
        let whole = scaled / nanos;
        assert(whole * nanos <= scaled < (whole + 1) * nanos) by (nonlinear_arith)
            requires
                nanos > 0,
                whole == scaled / nanos,
        ;
        let b = rate.bytes as real;
        let n = rate.nanos as real;
        let w = whole as real;
        assert(w * n == (whole * nanos) as real) by (nonlinear_arith)
            requires
                w == whole as real,
                n == nanos as real,
        ;
        assert((w + 1real) * n == ((whole + 1) * nanos) as real) by (nonlinear_arith)
            requires
                w == whole as real,
                n == nanos as real,
        ;
        assert(b * 1_000_000_000real == scaled as real);
        assert(w <= b / (n / 1_000_000_000real) < w + 1real) by (nonlinear_arith)
            requires
                n > 0real,
                w * n <= b * 1_000_000_000real < (w + 1real) * n,
        ;
    }
}

/// The whole hundredths of a percent are the exact percentage times one
/// hundred, rounded down.
pub proof fn lemma_whole_hundredths_is_floor(p: Percentage)
    ensures
        p.whole_hundredths() as real <= p.value() * 100real < (p.whole_hundredths() + 1) as real,
{
    if p.whole != 0 {
        let scaled = p.part as nat * 10_000;
        let total = p.whole as nat;
        let whole = scaled / total;
        assert(whole * total <= scaled < (whole + 1) * total) by (nonlinear_arith)
            requires
                total > 0,
                whole == scaled / total,
        ;
        let a = p.part as real;
        let t = p.whole as real;
        let w = whole as real;
        assert(w * t == (whole * total) as real) by (nonlinear_arith)
            requires
                w == whole as real,
                t == total as real,
        ;
        assert((w + 1real) * t == ((whole + 1) * total) as real) by (nonlinear_arith)
            requires
                w == whole as real,
                t == total as real,
        ;
        assert(a * 10_000real == scaled as real);
        assert(w <= a / t * 100real * 100real < w + 1real) by (nonlinear_arith)
            requires
                t > 0real,
                w * t <= a * 10_000real < (w + 1real) * t,
        ;
    }
}

/// A part that is no more than its whole is no more than one hundred percent.
pub proof fn lemma_share_at_most_hundred(p: Percentage)
    requires
        p.part <= p.whole,
    ensures
        p.value() <= 100real,
{
    if p.whole != 0 {
        let part = p.part as real;
        let whole = p.whole as real;
        assert(part / whole * 100real <= 100real) by (nonlinear_arith)
            requires
                0real <= part <= whole,
                whole > 0real,
        ;
    }
}

/// Comparing a percentage with a whole number needs no division.
pub proof fn lemma_value_above(p: Percentage, percent: u64)
    ensures
        p.value() > percent as real <==> p.exceeds(percent),
{
    if p.whole != 0 {
        let part = p.part as real;
        let whole = p.whole as real;
        let bound = percent as real;
        assert(part / whole * 100real > bound <==> part * 100real > bound * whole)
            by (nonlinear_arith)
            requires
                whole > 0real,
        ;
        assert(part * 100real == (p.part * 100) as real);
        assert(bound * whole == (percent * p.whole) as real) by (nonlinear_arith)
            requires
                bound == percent as real,
                whole == p.whole as real,
        ;
    }
}

} // verus!

use perch::models::{Rate, Timestamp};
use perch::services::RateAccumulator;

const SECOND: u64 = 1_000_000_000;

fn bytes_per_second(rate: Rate) -> f64 {
    rate.bytes as f64 / (rate.nanos as f64 / 1e9)
}

#[test]
fn new_accumulator_starts_from_zero() {
    let start = Timestamp::from_nanos(42);
    let acc = RateAccumulator::new(start);
    assert_eq!(acc.previous_counters(), (0, 0));
    assert_eq!(acc.last_observed(), start);
}

#[test]
fn seeded_accumulator_scenario() {
    let construction = Timestamp::from_nanos(10 * SECOND);
    let mut acc = RateAccumulator::new(construction);

    let t0 = Timestamp::from_nanos(10 * SECOND + SECOND / 4);
    let first = acc.observe(1_000_000, 500_000, t0);
    assert_eq!(first.0, Rate { bytes: 1_000_000, nanos: SECOND / 4 });
    assert_eq!(first.1, Rate { bytes: 500_000, nanos: SECOND / 4 });
    assert_eq!(bytes_per_second(first.0), 1_000_000.0 / 0.25);
    assert_eq!(bytes_per_second(first.1), 500_000.0 / 0.25);

    let t1 = Timestamp::from_nanos(11 * SECOND + SECOND / 4);
    let second = acc.observe(2_000_000, 900_000, t1);
    assert_eq!((bytes_per_second(second.0), bytes_per_second(second.1)), (1_000_000.0, 400_000.0));
    assert_eq!((second.0.per_second(), second.1.per_second()), (1_000_000, 400_000));
}

#[test]
fn growing_counter_gives_the_exact_quotient() {
    let mut acc = RateAccumulator::new(Timestamp::from_nanos(0));
    acc.observe(100, 7, Timestamp::from_nanos(SECOND));
    let rates = acc.observe(1_100, 7, Timestamp::from_nanos(4 * SECOND));
    assert_eq!(rates.0, Rate { bytes: 1_000, nanos: 3 * SECOND });
    assert_eq!(rates.0.per_second(), 333);
    assert_eq!(rates.1, Rate { bytes: 0, nanos: 3 * SECOND });
    assert_eq!(rates.1.per_second(), 0);
}

#[test]
fn counter_reset_gives_zero_and_rebases() {
    let mut acc = RateAccumulator::new(Timestamp::from_nanos(0));
    acc.observe(5_000, 9_000, Timestamp::from_nanos(SECOND));

    let reset = acc.observe(1_000, 9_500, Timestamp::from_nanos(2 * SECOND));
    assert_eq!(reset.0.bytes, 0);
    assert_eq!(reset.0.per_second(), 0);
    assert_eq!(reset.1.per_second(), 500);
    assert_eq!(acc.previous_counters(), (1_000, 9_500));

    let after = acc.observe(1_300, 9_500, Timestamp::from_nanos(3 * SECOND));
    assert_eq!(after.0.per_second(), 300);
    assert_eq!(after.1.per_second(), 0);
}

#[test]
fn stalled_clock_gives_zero_and_still_advances() {
    let start = Timestamp::from_nanos(5 * SECOND);
    let mut acc = RateAccumulator::new(start);

    let same_instant = acc.observe(4_000, 2_000, start);
    assert_eq!(same_instant, (Rate::zero(), Rate::zero()));
    assert_eq!(acc.previous_counters(), (4_000, 2_000));
    assert_eq!(acc.last_observed(), start);

    let earlier = Timestamp::from_nanos(3 * SECOND);
    let backwards = acc.observe(9_000, 3_000, earlier);
    assert_eq!(backwards, (Rate::zero(), Rate::zero()));
    assert_eq!(backwards.0.per_second(), 0);
    assert_eq!(acc.previous_counters(), (9_000, 3_000));
    assert_eq!(acc.last_observed(), earlier);

    let next = acc.observe(9_500, 3_000, Timestamp::from_nanos(4 * SECOND));
    assert_eq!(next.0, Rate { bytes: 500, nanos: SECOND });
}

#[test]
fn extreme_counters_do_not_wrap() {
    let mut acc = RateAccumulator::new(Timestamp::from_nanos(0));
    let rates = acc.observe(u64::MAX, 0, Timestamp::from_nanos(1));
    assert_eq!(rates.0, Rate { bytes: u64::MAX, nanos: 1 });
    assert_eq!(rates.0.per_second(), u64::MAX);
    let rates = acc.observe(0, u64::MAX, Timestamp::from_nanos(u64::MAX));
    assert_eq!(rates.0.bytes, 0);
    assert_eq!(rates.1, Rate { bytes: u64::MAX, nanos: u64::MAX - 1 });
}

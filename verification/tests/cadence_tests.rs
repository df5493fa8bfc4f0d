use perch::models::{Timestamp, UserConfig};
use perch::services::{Cadence, CadenceState};

const MILLI: u64 = 1_000_000;

fn config_with_interval(millis: u64) -> UserConfig {
    let mut config = UserConfig::default();
    config.refresh_interval_millis = millis;
    config
}

#[test]
fn new_cadence_waits() {
    let start = Timestamp::from_nanos(9);
    let cadence = Cadence::new(start);
    assert_eq!(cadence.current_state(), CadenceState::Idle);
    assert_eq!(cadence.last_sampled(), start);
}

#[test]
fn sample_starts_once_the_interval_has_passed() {
    let config = UserConfig::default();
    let mut cadence = Cadence::new(Timestamp::from_nanos(0));

    assert!(!cadence.poll(Timestamp::from_nanos(999 * MILLI), &config));
    assert_eq!(cadence.current_state(), CadenceState::Idle);
    assert!(!cadence.poll(Timestamp::from_nanos(1000 * MILLI - 1), &config));

    assert!(cadence.poll(Timestamp::from_nanos(1000 * MILLI), &config));
    assert_eq!(cadence.current_state(), CadenceState::Sampling);
    assert_eq!(cadence.last_sampled(), Timestamp::from_nanos(0));
}

#[test]
fn no_second_sample_starts_while_one_is_taken() {
    let config = UserConfig::default();
    let mut cadence = Cadence::new(Timestamp::from_nanos(0));
    assert!(cadence.poll(Timestamp::from_nanos(2000 * MILLI), &config));
    assert!(!cadence.poll(Timestamp::from_nanos(5000 * MILLI), &config));
    assert_eq!(cadence.current_state(), CadenceState::Sampling);
}

#[test]
fn completing_a_sample_restarts_the_interval() {
    let config = UserConfig::default();
    let mut cadence = Cadence::new(Timestamp::from_nanos(0));
    assert!(cadence.poll(Timestamp::from_nanos(1500 * MILLI), &config));
    cadence.complete(Timestamp::from_nanos(1600 * MILLI));
    assert_eq!(cadence.current_state(), CadenceState::Idle);
    assert_eq!(cadence.last_sampled(), Timestamp::from_nanos(1600 * MILLI));

    assert!(!cadence.poll(Timestamp::from_nanos(2500 * MILLI), &config));
    assert!(cadence.poll(Timestamp::from_nanos(2600 * MILLI), &config));
}

#[test]
fn completing_without_a_sample_changes_nothing() {
    let mut cadence = Cadence::new(Timestamp::from_nanos(3));
    cadence.complete(Timestamp::from_nanos(99));
    assert_eq!(cadence, Cadence::new(Timestamp::from_nanos(3)));
}

#[test]
fn interval_change_takes_effect_at_the_next_check() {
    let mut cadence = Cadence::new(Timestamp::from_nanos(0));
    assert!(!cadence.poll(Timestamp::from_nanos(600 * MILLI), &config_with_interval(1000)));
    assert!(cadence.poll(Timestamp::from_nanos(600 * MILLI), &config_with_interval(500)));
}

#[test]
fn clock_that_went_backwards_lets_no_time_pass() {
    let mut cadence = Cadence::new(Timestamp::from_nanos(5000 * MILLI));
    assert!(!cadence.poll(Timestamp::from_nanos(0), &config_with_interval(1)));
    assert!(cadence.poll(Timestamp::from_nanos(0), &config_with_interval(0)));
}

#[test]
fn longest_interval_is_never_due() {
    let mut cadence = Cadence::new(Timestamp::from_nanos(0));
    assert!(!cadence.poll(Timestamp::from_nanos(u64::MAX), &config_with_interval(u64::MAX)));
    assert!(!cadence.poll(Timestamp::from_nanos(u64::MAX), &config_with_interval(18_446_744_073_710)));
    assert!(cadence.poll(Timestamp::from_nanos(u64::MAX), &config_with_interval(18_446_744_073_709)));
}

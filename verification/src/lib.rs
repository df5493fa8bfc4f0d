//! Telemetry sampling core of a desktop resource monitor.
//!
//! The crate turns raw operating-system readings into timestamped snapshots,
//! converts cumulative byte counters into rates, decides when the next sample
//! is due, and holds the user-tunable settings together with their defaults.
//! Every quantity is an integer or an exact quotient of integers.
//!
//! Asking the operating system, reading the clock and touching the settings
//! file are left to the caller, who hands over what was found as plain values.

pub mod models;
pub mod services;
pub mod ui;

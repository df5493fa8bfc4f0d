//! The services: rate accumulation, snapshot assembly, the sampling cadence,
//! the settings store and the text shown for a quantity.

pub mod cadence;
pub mod config_manager;
pub mod format;
pub mod rate_accumulator;
pub mod system_monitor;

pub use cadence::{is_due, Cadence, CadenceState};
pub use config_manager::{ConfigError, ConfigManager, Stored};
pub use format::{format_bytes, format_percentage, format_rate};
pub use rate_accumulator::{gained, rate_between, RateAccumulator};
pub use system_monitor::{
    sum_interfaces, total_received, total_transmitted, InterfaceCounters, SourceReading, SystemMonitor,
};

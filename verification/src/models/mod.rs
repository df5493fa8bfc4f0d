//! The data model: exact quantities, metric snapshots and user settings.

pub mod config;
pub mod metrics;
pub mod quantity;

pub use config::{Theme, UserConfig, WindowPosition};
pub use metrics::{CPUMetrics, DiskMetrics, MemoryMetrics, NetworkMetrics, SystemMetrics};
pub use quantity::{Percentage, Rate, Timestamp, NANOS_PER_SEC};

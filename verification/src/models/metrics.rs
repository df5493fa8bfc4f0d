//! One sampling cycle's readings: processor, memory, network and disk.

use vstd::prelude::*;
use crate::models::quantity::{lemma_share_at_most_hundred, Percentage, Rate, Timestamp};
use crate::services::format::{format_percentage, percentage_text};

verus! {

/// Processor utilisation: the aggregate and one entry per logical core, in
/// the order of the core index.
#[derive(Debug, Clone, PartialEq, Eq)]
pub struct CPUMetrics {
    pub usage_percentage: Percentage,
    pub per_core: Vec<Percentage>,
}

impl CPUMetrics {
    pub fn zero() -> (m: CPUMetrics)
        ensures
            m.usage_percentage == Percentage::zero(),
            m.per_core@ == Seq::<Percentage>::empty(),
    {
        CPUMetrics { usage_percentage: Percentage::zero(), per_core: Vec::new() }
    }

    /// The aggregate utilisation as text: two decimal places and a percent
    /// sign.
    pub fn formatted_usage(&self) -> (text: String)
        ensures
            text@ == percentage_text(self.usage_percentage),
    {
        format_percentage(self.usage_percentage)
    }
}

/// Memory and swap occupancy in bytes.
#[derive(Debug, Clone, Copy, PartialEq, Eq, Structural)]
pub struct MemoryMetrics {
    pub total_bytes: u64,
    pub used_bytes: u64,
    pub available_bytes: u64,
    pub swap_total_bytes: u64,
    pub swap_used_bytes: u64,
}

impl MemoryMetrics {
    /// No more is in use than there is, for memory and for swap.
    pub open spec fn is_consistent(self) -> bool {
        &&& self.used_bytes <= self.total_bytes
        &&& self.swap_used_bytes <= self.swap_total_bytes
    }

    pub fn zero() -> (m: MemoryMetrics)
        ensures
            m == (MemoryMetrics {
                total_bytes: 0,
                used_bytes: 0,
                available_bytes: 0,
                swap_total_bytes: 0,
                swap_used_bytes: 0,
            }),
    {
        MemoryMetrics {
            total_bytes: 0,
            used_bytes: 0,
            available_bytes: 0,
            swap_total_bytes: 0,
            swap_used_bytes: 0,
        }
    }

    pub open spec fn spec_usage_percentage(&self) -> Percentage {
        Percentage { part: self.used_bytes, whole: self.total_bytes }
    }

    pub open spec fn spec_swap_percentage(&self) -> Percentage {
        Percentage { part: self.swap_used_bytes, whole: self.swap_total_bytes }
    }

    /// The share of memory in use: zero when there is no memory, else used
    /// over total times one hundred.
    #[verifier::when_used_as_spec(spec_usage_percentage)]
    pub fn usage_percentage(&self) -> (p: Percentage)
        ensures
            p == self.spec_usage_percentage(),
            self.total_bytes == 0 ==> p.value() == 0real,
            self.total_bytes != 0 ==> p.value() == (self.used_bytes as real) / (
            self.total_bytes as real) * 100real,
    {
        Percentage { part: self.used_bytes, whole: self.total_bytes }
    }

    /// The share of swap in use: zero when there is no swap, else used over
    /// total times one hundred.
    #[verifier::when_used_as_spec(spec_swap_percentage)]
    pub fn swap_percentage(&self) -> (p: Percentage)
        ensures
            p == self.spec_swap_percentage(),
            self.swap_total_bytes == 0 ==> p.value() == 0real,
            self.swap_total_bytes != 0 ==> p.value() == (self.swap_used_bytes as real) / (
            self.swap_total_bytes as real) * 100real,
    {
        Percentage { part: self.swap_used_bytes, whole: self.swap_total_bytes }
    }
}

/// Cumulative bytes over all network interfaces, and the rates since the
/// sample before.
#[derive(Debug, Clone, Copy, PartialEq, Eq, Structural)]
pub struct NetworkMetrics {
    pub received_bytes: u64,
    pub transmitted_bytes: u64,
    pub received_rate: Rate,
    pub transmitted_rate: Rate,
}

impl NetworkMetrics {
    pub fn zero() -> (m: NetworkMetrics)
        ensures
            m == (NetworkMetrics {
                received_bytes: 0,
                transmitted_bytes: 0,
                received_rate: Rate::zero(),
                transmitted_rate: Rate::zero(),
            }),
    {
        NetworkMetrics {
            received_bytes: 0,
            transmitted_bytes: 0,
            received_rate: Rate::zero(),
            transmitted_rate: Rate::zero(),
        }
    }
}

/// Cumulative bytes read from and written to disk, and the rates since the
/// sample before.
#[derive(Debug, Clone, Copy, PartialEq, Eq, Structural)]
pub struct DiskMetrics {
    pub read_bytes: u64,
    pub written_bytes: u64,
    pub read_rate: Rate,
    pub write_rate: Rate,
}

impl DiskMetrics {
    pub fn zero() -> (m: DiskMetrics)
        ensures
            m == (DiskMetrics {
                read_bytes: 0,
                written_bytes: 0,
                read_rate: Rate::zero(),
                write_rate: Rate::zero(),
            }),
    {
        DiskMetrics { read_bytes: 0, written_bytes: 0, read_rate: Rate::zero(), write_rate: Rate::zero() }
    }
}

/// One immutable, timestamped set of readings.
#[derive(Debug, Clone, PartialEq, Eq)]
pub struct SystemMetrics {
    pub cpu: CPUMetrics,
    pub memory: MemoryMetrics,
    pub network: NetworkMetrics,
    pub disk: DiskMetrics,
    pub timestamp: Timestamp,
}

impl SystemMetrics {
    /// The snapshot shown before the first sample: every reading zero, stamped
    /// `now`.
    pub fn zero(now: Timestamp) -> (m: SystemMetrics)
        ensures
            m.cpu.usage_percentage == Percentage::zero(),
            m.cpu.per_core@ == Seq::<Percentage>::empty(),
            m.memory == (MemoryMetrics {
                total_bytes: 0,
                used_bytes: 0,
                available_bytes: 0,
                swap_total_bytes: 0,
                swap_used_bytes: 0,
            }),
            m.network == (NetworkMetrics {
                received_bytes: 0,
                transmitted_bytes: 0,
                received_rate: Rate::zero(),
                transmitted_rate: Rate::zero(),
            }),
            m.disk == (DiskMetrics {
                read_bytes: 0,
                written_bytes: 0,
                read_rate: Rate::zero(),
                write_rate: Rate::zero(),
            }),
            m.timestamp == now,
    {
        SystemMetrics {
            cpu: CPUMetrics::zero(),
            memory: MemoryMetrics::zero(),
            network: NetworkMetrics::zero(),
            disk: DiskMetrics::zero(),
            timestamp: now,
        }
    }
}

/// When no more is in use than there is, the shares stay at or below one
/// hundred percent.
pub proof fn lemma_consistent_shares_at_most_hundred(m: MemoryMetrics)
    requires
        m.is_consistent(),
    ensures
        m.usage_percentage().value() <= 100real,
        m.swap_percentage().value() <= 100real,
{
    lemma_share_at_most_hundred(m.usage_percentage());
    lemma_share_at_most_hundred(m.swap_percentage());
}

} // verus!

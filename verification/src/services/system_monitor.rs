//! Assembles one snapshot from what the operating system reports.
//!
//! The caller queries the system and hands the raw reading over; the monitor
//! sums the interface counters, derives the rates and stamps the result.

use vstd::prelude::*;
use crate::models::metrics::{CPUMetrics, DiskMetrics, MemoryMetrics, NetworkMetrics, SystemMetrics};
use crate::models::quantity::{saturate, Percentage, Timestamp};
use crate::services::rate_accumulator::RateAccumulator;

verus! {

/// The cumulative byte counters of one network interface.
#[derive(Debug, Clone, Copy, PartialEq, Eq, Structural)]
pub struct InterfaceCounters {
    pub received: u64,
    pub transmitted: u64,
}

/// What the operating system reports when it is asked once.
#[derive(Debug, Clone, PartialEq, Eq)]
pub struct SourceReading {
    pub cpu_usage: Percentage,
    pub per_core_usage: Vec<Percentage>,
    pub total_memory: u64,
    pub used_memory: u64,
    pub available_memory: u64,
    pub total_swap: u64,
    pub used_swap: u64,
    pub interfaces: Vec<InterfaceCounters>,
    pub disk_read: u64,
    pub disk_written: u64,
}

/// The bytes received over all of `interfaces`.
pub open spec fn total_received(interfaces: Seq<InterfaceCounters>) -> nat
    decreases interfaces.len(),
{
    if interfaces.len() == 0 {
        0
    } else {
        total_received(interfaces.drop_last()) + interfaces.last().received as nat
    }
}

/// The bytes transmitted over all of `interfaces`.
pub open spec fn total_transmitted(interfaces: Seq<InterfaceCounters>) -> nat
    decreases interfaces.len(),
{
    if interfaces.len() == 0 {
        0
    } else {
        total_transmitted(interfaces.drop_last()) + interfaces.last().transmitted as nat
    }
}

/// Sums the counters of the interfaces that are there now. A sum beyond the
/// range of `u64` is held at its upper end.
pub fn sum_interfaces(interfaces: &Vec<InterfaceCounters>) -> (totals: (u64, u64))
    ensures
        totals.0 == saturate(total_received(interfaces@)),
        totals.1 == saturate(total_transmitted(interfaces@)),
{
    let mut received: u64 = 0;
    let mut transmitted: u64 = 0;
    let mut i: usize = 0;
    while i < interfaces.len()
        invariant
            i <= interfaces.len(),
            received == saturate(total_received(interfaces@.take(i as int))),
            transmitted == saturate(total_transmitted(interfaces@.take(i as int))),
        decreases interfaces.len() - i,
    {
        proof {
            assert(interfaces@.take(i + 1).drop_last() == interfaces@.take(i as int));
        }
        received = received.saturating_add(interfaces[i].received);
        transmitted = transmitted.saturating_add(interfaces[i].transmitted);
        i += 1;
    }
    proof {
        assert(interfaces@.take(i as int) == interfaces@);
    }
    (received, transmitted)
}

/// Leaving one interface out lowers each total by that interface's counter.
pub proof fn lemma_totals_without(interfaces: Seq<InterfaceCounters>, index: int)
    requires
        0 <= index < interfaces.len(),
    ensures
        total_received(interfaces) == total_received(interfaces.remove(index))
            + interfaces[index].received,
        total_transmitted(interfaces) == total_transmitted(interfaces.remove(index))
            + interfaces[index].transmitted,
    decreases interfaces.len(),
{
    if index == interfaces.len() - 1 {
        assert(interfaces.remove(index) =~= interfaces.drop_last());
    } else {
        lemma_totals_without(interfaces.drop_last(), index);
        assert(interfaces.remove(index).drop_last() =~= interfaces.drop_last().remove(index));
        assert(interfaces.remove(index).last() == interfaces.last());
    }
}

/// The totals do not depend on the order in which the interfaces are listed.
pub proof fn lemma_totals_ignore_order(first: Seq<InterfaceCounters>, second: Seq<InterfaceCounters>)
    requires
        first.to_multiset() == second.to_multiset(),
    ensures
        total_received(first) == total_received(second),
        total_transmitted(first) == total_transmitted(second),
    decreases first.len(),
{
    first.to_multiset_ensures();
    second.to_multiset_ensures();
    if first.len() != 0 {
        let last = first.last();
        let rest = first.drop_last();
        rest.to_multiset_ensures();
        assert(first =~= rest.push(last));
        assert(first.to_multiset().count(last) > 0);
        assert(second.contains(last));
        let index = choose|index: int| 0 <= index < second.len() && second[index] == last;
        let others = second.remove(index);
        assert(rest.to_multiset() =~= first.to_multiset().remove(last));
        assert(others.to_multiset() =~= rest.to_multiset());
        lemma_totals_ignore_order(rest, others);
        lemma_totals_without(second, index);
    }
}

/// The sampler: one accumulator for the network and one for the disk.
#[derive(Debug, Clone, Copy, PartialEq, Eq)]
pub struct SystemMonitor {
    network: RateAccumulator,
    disk: RateAccumulator,
}

impl SystemMonitor {
    /// The accumulator behind the network rates.
    pub closed spec fn network(self) -> RateAccumulator {
        self.network
    }

    /// The accumulator behind the disk rates.
    pub closed spec fn disk(self) -> RateAccumulator {
        self.disk
    }

    /// A monitor that has sampled nothing yet: all counters zero, measured
    /// from `now`.
    pub fn new(now: Timestamp) -> (monitor: SystemMonitor)
        ensures
            monitor.network().previous() == (0u64, 0u64),
            monitor.network().last_update() == now,
            monitor.disk().previous() == (0u64, 0u64),
            monitor.disk().last_update() == now,
    {
        SystemMonitor { network: RateAccumulator::new(now), disk: RateAccumulator::new(now) }
    }

    /// The network counters of the latest sample.
    pub fn previous_network(&self) -> (counters: (u64, u64))
        ensures
            counters == self.network().previous(),
    {
        self.network.previous_counters()
    }

    /// The disk counters of the latest sample.
    pub fn previous_disk(&self) -> (counters: (u64, u64))
        ensures
            counters == self.disk().previous(),
    {
        self.disk.previous_counters()
    }

    /// The instant of the latest sample.
    pub fn last_update(&self) -> (at: Timestamp)
        ensures
            at == self.network().last_update(),
    {
        self.network.last_observed()
    }

    /// Processor utilisation, as reported.
    pub fn collect_cpu_metrics(usage: Percentage, per_core: Vec<Percentage>) -> (cpu: CPUMetrics)
        ensures
            cpu.usage_percentage == usage,
            cpu.per_core@ == per_core@,
    {
        CPUMetrics { usage_percentage: usage, per_core }
    }

    /// Memory and swap occupancy, as reported.
    pub fn collect_memory_metrics(reading: &SourceReading) -> (memory: MemoryMetrics)
        ensures
            memory == (MemoryMetrics {
                total_bytes: reading.total_memory,
                used_bytes: reading.used_memory,
                available_bytes: reading.available_memory,
                swap_total_bytes: reading.total_swap,
                swap_used_bytes: reading.used_swap,
            }),
    {
        MemoryMetrics {
            total_bytes: reading.total_memory,
            used_bytes: reading.used_memory,
            available_bytes: reading.available_memory,
            swap_total_bytes: reading.total_swap,
            swap_used_bytes: reading.used_swap,
        }
    }

    /// The network totals over `interfaces` and their rates since the sample
    /// before.
    pub fn collect_network_metrics(&mut self, interfaces: &Vec<InterfaceCounters>, now: Timestamp) -> (network:
        NetworkMetrics)
        ensures
            network.received_bytes == saturate(total_received(interfaces@)),
            network.transmitted_bytes == saturate(total_transmitted(interfaces@)),
            (network.received_rate, network.transmitted_rate) == old(self).network().rates(
                network.received_bytes,
                network.transmitted_bytes,
                now,
            ),
            final(self).network() == old(self).network().observed(
                network.received_bytes,
                network.transmitted_bytes,
                now,
            ),
            final(self).network().previous() == (network.received_bytes, network.transmitted_bytes),
            final(self).network().last_update() == now,
            final(self).disk() == old(self).disk(),
    {
        let (total_received, total_transmitted) = sum_interfaces(interfaces);
        let (received_rate, transmitted_rate) = self.network.observe(total_received, total_transmitted, now);
        NetworkMetrics {
            received_bytes: total_received,
            transmitted_bytes: total_transmitted,
            received_rate,
            transmitted_rate,
        }
    }

    /// The disk totals and their rates since the sample before.
    pub fn collect_disk_metrics(&mut self, total_read: u64, total_written: u64, now: Timestamp) -> (disk:
        DiskMetrics)
        ensures
            disk.read_bytes == total_read,
            disk.written_bytes == total_written,
            (disk.read_rate, disk.write_rate) == old(self).disk().rates(total_read, total_written, now),
            final(self).disk() == old(self).disk().observed(total_read, total_written, now),
            final(self).disk().previous() == (total_read, total_written),
            final(self).disk().last_update() == now,
            final(self).network() == old(self).network(),
    {
        let (read_rate, write_rate) = self.disk.observe(total_read, total_written, now);
        DiskMetrics { read_bytes: total_read, written_bytes: total_written, read_rate, write_rate }
    }

    /// One sampling cycle: takes what the system reported at `now` and returns
    /// the snapshot of it.
    pub fn collect(&mut self, reading: SourceReading, now: Timestamp) -> (snapshot: SystemMetrics)
        ensures
            snapshot.cpu.usage_percentage == reading.cpu_usage,
            snapshot.cpu.per_core@ == reading.per_core_usage@,
            snapshot.memory == (MemoryMetrics {
                total_bytes: reading.total_memory,
                used_bytes: reading.used_memory,
                available_bytes: reading.available_memory,
                swap_total_bytes: reading.total_swap,
                swap_used_bytes: reading.used_swap,
            }),
            snapshot.network.received_bytes == saturate(total_received(reading.interfaces@)),
            snapshot.network.transmitted_bytes == saturate(total_transmitted(reading.interfaces@)),
            (snapshot.network.received_rate, snapshot.network.transmitted_rate) == old(
                self,
            ).network().rates(snapshot.network.received_bytes, snapshot.network.transmitted_bytes, now),
            snapshot.disk.read_bytes == reading.disk_read,
            snapshot.disk.written_bytes == reading.disk_written,
            (snapshot.disk.read_rate, snapshot.disk.write_rate) == old(self).disk().rates(
                reading.disk_read,
                reading.disk_written,
                now,
            ),
            snapshot.timestamp == now,
            final(self).network() == old(self).network().observed(
                snapshot.network.received_bytes,
                snapshot.network.transmitted_bytes,
                now,
            ),
            final(self).disk() == old(self).disk().observed(reading.disk_read, reading.disk_written, now),
            final(self).network().previous() == (
                snapshot.network.received_bytes,
                snapshot.network.transmitted_bytes,
            ),
            final(self).disk().previous() == (reading.disk_read, reading.disk_written),
            final(self).network().last_update() == now,
            final(self).disk().last_update() == now,
    {
        let memory = Self::collect_memory_metrics(&reading);
        let network = self.collect_network_metrics(&reading.interfaces, now);
        let disk = self.collect_disk_metrics(reading.disk_read, reading.disk_written, now);
        let cpu = Self::collect_cpu_metrics(reading.cpu_usage, reading.per_core_usage);
        SystemMetrics { cpu, memory, network, disk, timestamp: now }
    }
}

} // verus!

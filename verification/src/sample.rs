//! Raw counter samples, as a container runtime reports them.
//!
//! Every counter is optional: a runtime leaves out what it does not measure.
//! A sample is never changed once it has been captured.

use vstd::prelude::*;
use crate::views::views;
use crate::views::optional_views;

verus! {

/// Processor time counters of one container.
#[derive(Clone, Copy, Debug, PartialEq, Eq)]
pub struct CpuStats {
    /// Processor time that the container used, in nanoseconds.
    pub total_usage: Option<u64>,
    /// Processor time that the whole host used, in nanoseconds.
    pub system_cpu_usage: Option<u64>,
    /// Processors that the container may run on.
    pub online_cpus: Option<u32>,
}

/// One line of a memory breakdown: a named amount of bytes.
#[derive(Debug, PartialEq, Eq)]
pub struct MemoryStatEntry {
    pub name: String,
    pub value: u64,
}

/// The view of a [`MemoryStatEntry`].
pub struct MemoryStatEntryView {
    pub name: Seq<char>,
    pub value: u64,
}

impl View for MemoryStatEntry {
    type V = MemoryStatEntryView;

    open spec fn view(&self) -> MemoryStatEntryView {
        MemoryStatEntryView { name: self.name@, value: self.value }
    }
}

impl Clone for MemoryStatEntry {
    fn clone(&self) -> (r: Self)
        ensures
            r@ == self@,
    {
        MemoryStatEntry { name: self.name.clone(), value: self.value }
    }
}

/// Memory counters of one container.
#[derive(Debug, PartialEq, Eq)]
pub struct MemoryStats {
    /// Bytes in use, page cache included.
    pub usage: Option<u64>,
    /// Bytes that the container may use.
    pub limit: Option<u64>,
    /// The breakdown of `usage` by kind, where the runtime gives one.
    pub stats: Option<Vec<MemoryStatEntry>>,
}

/// The view of a [`MemoryStats`].
pub struct MemoryStatsView {
    pub usage: Option<u64>,
    pub limit: Option<u64>,
    pub stats: Option<Seq<MemoryStatEntryView>>,
}

impl View for MemoryStats {
    type V = MemoryStatsView;

    open spec fn view(&self) -> MemoryStatsView {
        MemoryStatsView {
            usage: self.usage,
            limit: self.limit,
            stats: optional_views(self.stats),
        }
    }
}

impl Clone for MemoryStats {
    fn clone(&self) -> (r: Self)
        ensures
            r@ == self@,
    {
        let stats = self.stats.clone();
        proof {
            if self.stats is Some {
                assert(views(stats.unwrap()@) =~= views(self.stats.unwrap()@));
            }
        }
        MemoryStats { usage: self.usage, limit: self.limit, stats }
    }
}

/// Traffic counters of one network interface.
#[derive(Debug, PartialEq, Eq)]
pub struct NetworkStats {
    /// The interface's name.
    pub name: String,
    /// Bytes received.
    pub rx_bytes: Option<u64>,
    /// Bytes sent.
    pub tx_bytes: Option<u64>,
}

/// The view of a [`NetworkStats`].
pub struct NetworkStatsView {
    pub name: Seq<char>,
    pub rx_bytes: Option<u64>,
    pub tx_bytes: Option<u64>,
}

impl View for NetworkStats {
    type V = NetworkStatsView;

    open spec fn view(&self) -> NetworkStatsView {
        NetworkStatsView { name: self.name@, rx_bytes: self.rx_bytes, tx_bytes: self.tx_bytes }
    }
}

impl Clone for NetworkStats {
    fn clone(&self) -> (r: Self)
        ensures
            r@ == self@,
    {
        NetworkStats { name: self.name.clone(), rx_bytes: self.rx_bytes, tx_bytes: self.tx_bytes }
    }
}

/// One block I/O counter: an amount, the device that it was counted on, and
/// the operation that it counts.
#[derive(Debug, PartialEq, Eq)]
pub struct BlkioStatEntry {
    /// The device's major number.
    pub major: Option<u64>,
    /// The device's minor number.
    pub minor: Option<u64>,
    /// The operation's label, such as `read` or `write`.
    pub op: Option<String>,
    /// Bytes moved by that operation.
    pub value: Option<u64>,
}

/// The view of a [`BlkioStatEntry`].
pub struct BlkioStatEntryView {
    pub major: Option<u64>,
    pub minor: Option<u64>,
    pub op: Option<Seq<char>>,
    pub value: Option<u64>,
}

impl View for BlkioStatEntry {
    type V = BlkioStatEntryView;

    open spec fn view(&self) -> BlkioStatEntryView {
        BlkioStatEntryView {
            major: self.major,
            minor: self.minor,
            op: match self.op {
                Some(s) => Some(s@),
                None => None,
            },
            value: self.value,
        }
    }
}

impl Clone for BlkioStatEntry {
    fn clone(&self) -> (r: Self)
        ensures
            r@ == self@,
    {
        let op = match &self.op {
            Some(s) => Some(s.clone()),
            None => None,
        };
        BlkioStatEntry { major: self.major, minor: self.minor, op, value: self.value }
    }
}

/// Block I/O counters of one container.
#[derive(Debug, PartialEq, Eq)]
pub struct BlkioStats {
    /// Bytes moved, per device and operation, child groups included.
    pub io_service_bytes_recursive: Option<Vec<BlkioStatEntry>>,
}

/// The view of a [`BlkioStats`].
pub struct BlkioStatsView {
    pub io_service_bytes_recursive: Option<Seq<BlkioStatEntryView>>,
}

impl View for BlkioStats {
    type V = BlkioStatsView;

    open spec fn view(&self) -> BlkioStatsView {
        BlkioStatsView {
            io_service_bytes_recursive: optional_views(self.io_service_bytes_recursive),
        }
    }
}

impl Clone for BlkioStats {
    fn clone(&self) -> (r: Self)
        ensures
            r@ == self@,
    {
        let entries = self.io_service_bytes_recursive.clone();
        proof {
            if self.io_service_bytes_recursive is Some {
                assert(views(entries.unwrap()@) =~= views(
                    self.io_service_bytes_recursive.unwrap()@,
                ));
            }
        }
        BlkioStats { io_service_bytes_recursive: entries }
    }
}

/// The counters of one container at one moment.
#[derive(Debug, PartialEq, Eq)]
pub struct ContainerStats {
    pub cpu_stats: Option<CpuStats>,
    pub memory_stats: Option<MemoryStats>,
    /// One entry per network interface; absent where the container has no
    /// networking.
    pub networks: Option<Vec<NetworkStats>>,
    pub blkio_stats: Option<BlkioStats>,
}

/// The view of a [`ContainerStats`].
pub struct ContainerStatsView {
    pub cpu_stats: Option<CpuStats>,
    pub memory_stats: Option<MemoryStatsView>,
    pub networks: Option<Seq<NetworkStatsView>>,
    pub blkio_stats: Option<BlkioStatsView>,
}

impl View for ContainerStats {
    type V = ContainerStatsView;

    open spec fn view(&self) -> ContainerStatsView {
        ContainerStatsView {
            cpu_stats: self.cpu_stats,
            memory_stats: match self.memory_stats {
                Some(m) => Some(m@),
                None => None,
            },
            networks: optional_views(self.networks),
            blkio_stats: match self.blkio_stats {
                Some(b) => Some(b@),
                None => None,
            },
        }
    }
}

impl Clone for ContainerStats {
    fn clone(&self) -> (r: Self)
        ensures
            r@ == self@,
    {
        let memory_stats = match &self.memory_stats {
            Some(m) => Some(m.clone()),
            None => None,
        };
        let networks = self.networks.clone();
        proof {
            if self.networks is Some {
                assert(views(networks.unwrap()@) =~= views(self.networks.unwrap()@));
            }
        }
        let blkio_stats = match &self.blkio_stats {
            Some(b) => Some(b.clone()),
            None => None,
        };
        ContainerStats { cpu_stats: self.cpu_stats, memory_stats, networks, blkio_stats }
    }
}

/// A raw sample: what the runtime reported for one container, and when.
#[derive(Debug, PartialEq, Eq)]
pub struct TimedContainerStatsResponse {
    /// The runtime's id of the container, stable for the container's life.
    pub id: String,
    /// The container's display name, which its operator may change.
    pub name: String,
    /// The counters; absent where the runtime answered with nothing.
    pub stat: Option<ContainerStats>,
    /// Time of capture, in nanoseconds since the Unix epoch.
    pub time: u64,
}

/// The view of a [`TimedContainerStatsResponse`].
pub struct TimedContainerStatsResponseView {
    pub id: Seq<char>,
    pub name: Seq<char>,
    pub stat: Option<ContainerStatsView>,
    pub time: u64,
}

impl View for TimedContainerStatsResponse {
    type V = TimedContainerStatsResponseView;

    open spec fn view(&self) -> TimedContainerStatsResponseView {
        TimedContainerStatsResponseView {
            id: self.id@,
            name: self.name@,
            stat: match self.stat {
                Some(s) => Some(s@),
                None => None,
            },
            time: self.time,
        }
    }
}

impl Clone for TimedContainerStatsResponse {
    fn clone(&self) -> (r: Self)
        ensures
            r@ == self@,
    {
        let stat = match &self.stat {
            Some(s) => Some(s.clone()),
            None => None,
        };
        TimedContainerStatsResponse {
            id: self.id.clone(),
            name: self.name.clone(),
            stat,
            time: self.time,
        }
    }
}

} // verus!

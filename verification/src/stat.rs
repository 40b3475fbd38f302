//! The figures computed for one container from its raw samples.

use vstd::prelude::*;
use crate::rate::bit_rate;
use crate::rate::bit_rate_of;
use crate::rate::byte_rate;
use crate::rate::byte_rate_of;
use crate::rate::elapsed_between;
use crate::rate::elapsed_nanos;
use crate::rate::Rate;
use crate::rate_computer::blk_io;
use crate::rate_computer::counter;
use crate::rate_computer::cpu_usage;
use crate::rate_computer::get_blk_io;
use crate::rate_computer::get_cpu_usage;
use crate::rate_computer::get_mem;
use crate::rate_computer::get_net_io;
use crate::rate_computer::mem_usage;
use crate::rate_computer::net_io;
use crate::sample::ContainerStats;
use crate::sample::ContainerStatsView;
use crate::sample::TimedContainerStatsResponse;
use crate::sample::TimedContainerStatsResponseView;
use crate::views::optional_view;

verus! {

/// What is known of one container after a polling cycle.
///
/// The totals are cumulative and come from the latest sample alone. The rates
/// say how fast the totals moved since the sample before it, and are zero
/// where there is no such sample to compare with.
#[derive(Debug, PartialEq, Eq)]
pub struct DockerContainerStat {
    pub id: String,
    pub name: String,
    /// Processors kept busy; above 1 on more than one processor.
    pub cpu_usage: Rate,
    /// Bytes of memory in use, page cache left out.
    pub mem_usage: u64,
    /// Bytes of memory that the container may use.
    pub mem_limit: u64,
    /// Bytes received over the network, in total.
    pub net_in: u64,
    /// Bytes sent over the network, in total.
    pub net_out: u64,
    /// Bits per second received over the network.
    pub net_in_bps: Rate,
    /// Bits per second sent over the network.
    pub net_out_bps: Rate,
    /// Bytes read from block devices, in total.
    pub blk_in: u64,
    /// Bytes written to block devices, in total.
    pub blk_out: u64,
    /// Bytes per second read from block devices.
    pub blk_in_byteps: Rate,
    /// Bytes per second written to block devices.
    pub blk_out_byteps: Rate,
}

/// The view of a [`DockerContainerStat`].
pub struct DockerContainerStatView {
    pub id: Seq<char>,
    pub name: Seq<char>,
    pub cpu_usage: Rate,
    pub mem_usage: u64,
    pub mem_limit: u64,
    pub net_in: u64,
    pub net_out: u64,
    pub net_in_bps: Rate,
    pub net_out_bps: Rate,
    pub blk_in: u64,
    pub blk_out: u64,
    pub blk_in_byteps: Rate,
    pub blk_out_byteps: Rate,
}

impl View for DockerContainerStat {
    type V = DockerContainerStatView;

    open spec fn view(&self) -> DockerContainerStatView {
        DockerContainerStatView {
            id: self.id@,
            name: self.name@,
            cpu_usage: self.cpu_usage,
            mem_usage: self.mem_usage,
            mem_limit: self.mem_limit,
            net_in: self.net_in,
            net_out: self.net_out,
            net_in_bps: self.net_in_bps,
            net_out_bps: self.net_out_bps,
            blk_in: self.blk_in,
            blk_out: self.blk_out,
            blk_in_byteps: self.blk_in_byteps,
            blk_out_byteps: self.blk_out_byteps,
        }
    }
}

impl DockerContainerStatView {
    /// Whether every rate can be divided out.
    pub open spec fn wf(self) -> bool {
        &&& self.cpu_usage.wf()
        &&& self.net_in_bps.wf()
        &&& self.net_out_bps.wf()
        &&& self.blk_in_byteps.wf()
        &&& self.blk_out_byteps.wf()
    }

    /// Whether every rate is zero.
    pub open spec fn rates_are_zero(self) -> bool {
        &&& self.cpu_usage == Rate::zero_spec()
        &&& self.net_in_bps == Rate::zero_spec()
        &&& self.net_out_bps == Rate::zero_spec()
        &&& self.blk_in_byteps == Rate::zero_spec()
        &&& self.blk_out_byteps == Rate::zero_spec()
    }
}

/// The figures of a container of which nothing is known but who it is.
pub open spec fn empty_stat(id: Seq<char>, name: Seq<char>) -> DockerContainerStatView {
    DockerContainerStatView {
        id,
        name,
        cpu_usage: Rate::zero_spec(),
        mem_usage: 0,
        mem_limit: 0,
        net_in: 0,
        net_out: 0,
        net_in_bps: Rate::zero_spec(),
        net_out_bps: Rate::zero_spec(),
        blk_in: 0,
        blk_out: 0,
        blk_in_byteps: Rate::zero_spec(),
        blk_out_byteps: Rate::zero_spec(),
    }
}

impl Default for DockerContainerStat {
    /// Empty id and name, every total and every rate zero.
    fn default() -> (r: Self)
        ensures
            r@ == empty_stat(Seq::<char>::empty(), Seq::<char>::empty()),
    {
        DockerContainerStat {
            id: String::new(),
            name: String::new(),
            cpu_usage: Rate::zero(),
            mem_usage: 0,
            mem_limit: 0,
            net_in: 0,
            net_out: 0,
            net_in_bps: Rate::zero(),
            net_out_bps: Rate::zero(),
            blk_in: 0,
            blk_out: 0,
            blk_in_byteps: Rate::zero(),
            blk_out_byteps: Rate::zero(),
        }
    }
}

impl Clone for DockerContainerStat {
    fn clone(&self) -> (r: Self)
        ensures
            r@ == self@,
    {
        DockerContainerStat {
            id: self.id.clone(),
            name: self.name.clone(),
            cpu_usage: self.cpu_usage,
            mem_usage: self.mem_usage,
            mem_limit: self.mem_limit,
            net_in: self.net_in,
            net_out: self.net_out,
            net_in_bps: self.net_in_bps,
            net_out_bps: self.net_out_bps,
            blk_in: self.blk_in,
            blk_out: self.blk_out,
            blk_in_byteps: self.blk_in_byteps,
            blk_out_byteps: self.blk_out_byteps,
        }
    }
}

/// Memory in use that counters report, zero where they do not tell.
pub open spec fn memory_in_use(stats: ContainerStatsView) -> u64 {
    match stats.memory_stats {
        Some(mem) => match mem_usage(mem) {
            Ok(usage) => usage,
            Err(_) => 0,
        },
        None => 0,
    }
}

/// The memory limit that counters report, zero where they do not tell.
pub open spec fn memory_limit(stats: ContainerStatsView) -> u64 {
    match stats.memory_stats {
        Some(mem) => counter(mem.limit),
        None => 0,
    }
}

/// Bytes received and sent that counters report, zero without networking.
pub open spec fn network_totals(stats: ContainerStatsView) -> (u64, u64) {
    match stats.networks {
        Some(networks) => net_io(networks),
        None => (0, 0),
    }
}

/// Bytes read and written that counters report, zero without block I/O.
pub open spec fn block_totals(stats: ContainerStatsView) -> (u64, u64) {
    match stats.blkio_stats {
        Some(blkio) => blk_io(blkio),
        None => (0, 0),
    }
}

/// What one sample alone tells of a container: its totals, with every rate
/// zero.
pub open spec fn totals_stat(curr: TimedContainerStatsResponseView) -> DockerContainerStatView {
    match curr.stat {
        Some(stats) => DockerContainerStatView {
            mem_usage: memory_in_use(stats),
            mem_limit: memory_limit(stats),
            net_in: network_totals(stats).0,
            net_out: network_totals(stats).1,
            blk_in: block_totals(stats).0,
            blk_out: block_totals(stats).1,
            ..empty_stat(curr.id, curr.name)
        },
        None => empty_stat(curr.id, curr.name),
    }
}

/// The processor usage ratio between two sets of counters, zero where either
/// lacks the processor counters.
pub open spec fn cpu_usage_between(
    first: ContainerStatsView,
    second: ContainerStatsView,
    elapsed: u64,
) -> Rate {
    match (first.cpu_stats, second.cpu_stats) {
        (Some(a), Some(b)) => cpu_usage(a, b, elapsed),
        _ => Rate::zero_spec(),
    }
}

/// What a sample tells of a container, given the sample of the same container
/// from the cycle before, if there is one.
///
/// The totals are those of `curr`. Where `prev` is there and both samples
/// hold counters, the rates are taken over the time between the two captures;
/// otherwise every rate is zero.
pub open spec fn computed_stat(
    prev: Option<TimedContainerStatsResponseView>,
    curr: TimedContainerStatsResponseView,
) -> DockerContainerStatView {
    let totals = totals_stat(curr);
    match (prev, curr.stat) {
        (Some(before), Some(now)) => match before.stat {
            Some(earlier) => {
                let elapsed = elapsed_between(before.time, curr.time);
                DockerContainerStatView {
                    cpu_usage: cpu_usage_between(earlier, now, elapsed),
                    net_in_bps: bit_rate_of(
                        totals.net_in.saturating_sub(network_totals(earlier).0),
                        elapsed,
                    ),
                    net_out_bps: bit_rate_of(
                        totals.net_out.saturating_sub(network_totals(earlier).1),
                        elapsed,
                    ),
                    blk_in_byteps: byte_rate_of(
                        totals.blk_in.saturating_sub(block_totals(earlier).0),
                        elapsed,
                    ),
                    blk_out_byteps: byte_rate_of(
                        totals.blk_out.saturating_sub(block_totals(earlier).1),
                        elapsed,
                    ),
                    ..totals
                }
            },
            None => totals,
        },
        _ => totals,
    }
}

/// The totals of a container's figures are those of its latest sample,
/// exactly: what the sample before it held, or whether there was one, has no
/// part in them, so nothing is counted twice from cycle to cycle.
pub proof fn law_totals_follow_latest_sample(
    prev: Option<TimedContainerStatsResponseView>,
    curr: TimedContainerStatsResponseView,
)
    ensures
        computed_stat(prev, curr).id == curr.id,
        computed_stat(prev, curr).name == curr.name,
        computed_stat(prev, curr).mem_usage == totals_stat(curr).mem_usage,
        computed_stat(prev, curr).mem_limit == totals_stat(curr).mem_limit,
        computed_stat(prev, curr).net_in == totals_stat(curr).net_in,
        computed_stat(prev, curr).net_out == totals_stat(curr).net_out,
        computed_stat(prev, curr).blk_in == totals_stat(curr).blk_in,
        computed_stat(prev, curr).blk_out == totals_stat(curr).blk_out,
        curr.stat matches Some(stats) ==> {
            &&& computed_stat(prev, curr).mem_usage == memory_in_use(stats)
            &&& computed_stat(prev, curr).mem_limit == memory_limit(stats)
            &&& computed_stat(prev, curr).net_in == network_totals(stats).0
            &&& computed_stat(prev, curr).net_out == network_totals(stats).1
            &&& computed_stat(prev, curr).blk_in == block_totals(stats).0
            &&& computed_stat(prev, curr).blk_out == block_totals(stats).1
        },
{
}

/// On the first sighting of a container, when there is no sample to compare
/// with, every rate is zero and the totals are those of the sample.
pub proof fn law_first_sighting(curr: TimedContainerStatsResponseView)
    ensures
        computed_stat(None, curr) == totals_stat(curr),
        computed_stat(None, curr).rates_are_zero(),
{
}

/// The rates are zero as well where the sample before, or the latest one,
/// holds no counters, and where no time passed between the two.
pub proof fn law_rates_need_two_usable_samples(
    prev: TimedContainerStatsResponseView,
    curr: TimedContainerStatsResponseView,
)
    requires
        prev.stat is None || curr.stat is None || curr.time <= prev.time,
    ensures
        computed_stat(Some(prev), curr).rates_are_zero(),
{
}

/// Bytes received and sent according to `stats`.
fn network_totals_of(stats: &ContainerStats) -> (r: (u64, u64))
    ensures
        r == network_totals(stats@),
{
    match &stats.networks {
        Some(networks) => get_net_io(networks),
        None => (0, 0),
    }
}

/// Bytes read and written according to `stats`.
fn block_totals_of(stats: &ContainerStats) -> (r: (u64, u64))
    ensures
        r == block_totals(stats@),
{
    match &stats.blkio_stats {
        Some(blkio) => get_blk_io(blkio),
        None => (0, 0),
    }
}

/// The figures that one sample alone gives: the totals, with every rate zero.
///
/// This is all that can be said of a container on its first sighting. Memory
/// in use counts as zero where the sample does not tell it.
pub fn first_sighting(curr: &TimedContainerStatsResponse) -> (r: DockerContainerStat)
    ensures
        r@ == totals_stat(curr@),
        r@.rates_are_zero(),
        r@.wf(),
{
    let mut stat = DockerContainerStat::default();
    stat.id = curr.id.clone();
    stat.name = curr.name.clone();
    if let Some(stats) = &curr.stat {
        if let Some(mem) = &stats.memory_stats {
            stat.mem_limit = match mem.limit {
                Some(limit) => limit,
                None => 0,
            };
            stat.mem_usage = match get_mem(mem) {
                Ok(usage) => usage,
                Err(_) => 0,
            };
        }
        let (net_in, net_out) = network_totals_of(stats);
        stat.net_in = net_in;
        stat.net_out = net_out;
        let (blk_in, blk_out) = block_totals_of(stats);
        stat.blk_in = blk_in;
        stat.blk_out = blk_out;
    }
    stat
}

/// The figures of one container for this cycle.
///
/// `prev` is the sample of the same container from the cycle before, if the
/// container was seen then. The totals always come from `curr` alone; the
/// rates compare `curr` with `prev`, and are zero on a first sighting, where
/// either sample holds no counters, and where no time passed between the two.
pub fn compute_stat(
    prev: Option<&TimedContainerStatsResponse>,
    curr: &TimedContainerStatsResponse,
) -> (r: DockerContainerStat)
    ensures
        r@ == computed_stat(optional_view(prev), curr@),
        r@.wf(),
        r@.id == curr@.id,
{
    let mut stat = first_sighting(curr);
    if let (Some(before), Some(now)) = (prev, &curr.stat) {
        if let Some(earlier) = &before.stat {
            let elapsed: u64 = elapsed_nanos(before.time, curr.time);
            stat.cpu_usage = match (&earlier.cpu_stats, &now.cpu_stats) {
                (Some(a), Some(b)) => get_cpu_usage(a, b, elapsed),
                _ => Rate::zero(),
            };
            let (first_net_in, first_net_out) = network_totals_of(earlier);
            stat.net_in_bps = bit_rate(stat.net_in.saturating_sub(first_net_in), elapsed);
            stat.net_out_bps = bit_rate(stat.net_out.saturating_sub(first_net_out), elapsed);
            let (first_blk_in, first_blk_out) = block_totals_of(earlier);
            stat.blk_in_byteps = byte_rate(stat.blk_in.saturating_sub(first_blk_in), elapsed);
            stat.blk_out_byteps = byte_rate(stat.blk_out.saturating_sub(first_blk_out), elapsed);
        }
    }
    stat
}

} // verus!

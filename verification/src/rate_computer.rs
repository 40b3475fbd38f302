//! From raw counters to totals and rates.
//!
//! Nothing here keeps state. Counter arithmetic saturates: a sum stops at
//! `u64::MAX`, and a counter that ran backwards (a container that restarted
//! between two samples) gives a difference of zero, never a negative one.

use vstd::prelude::*;
use crate::rate::Rate;
use crate::rate::NANOS_PER_SECOND;
use crate::sample::BlkioStatEntry;
use crate::sample::BlkioStatEntryView;
use crate::sample::BlkioStats;
use crate::sample::BlkioStatsView;
use crate::sample::CpuStats;
use crate::sample::MemoryStatEntry;
use crate::sample::MemoryStatEntryView;
use crate::sample::MemoryStats;
use crate::sample::MemoryStatsView;
use crate::sample::NetworkStats;
use crate::sample::NetworkStatsView;
use crate::views::views;
use crate::views::lemma_views_take_all;

verus! {

/// Why the memory in use could not be told from a sample.
#[derive(Clone, Copy, Debug, PartialEq, Eq, Structural)]
pub enum MemoryStatError {
    /// The sample does not say how much memory is in use.
    MemoryStatUnavailable,
    /// The sample does not say how much of the memory in use is page cache.
    MemoryCacheUnavailable,
}

/// A counter's value, zero where the runtime left it out.
pub open spec fn counter(value: Option<u64>) -> u64 {
    match value {
        Some(v) => v,
        None => 0,
    }
}

/// How far a counter moved between two samples: zero where either sample
/// lacks it, and zero where it ran backwards.
pub open spec fn counter_delta(prev: Option<u64>, curr: Option<u64>) -> u64 {
    match (prev, curr) {
        (Some(a), Some(b)) => b.saturating_sub(a),
        _ => 0,
    }
}

/// A total, held at `u64::MAX` where it is larger.
pub open spec fn saturated(total: nat) -> u64 {
    if total > u64::MAX {
        u64::MAX
    } else {
        total as u64
    }
}

/// The processors that a container may run on, zero where the sample does
/// not tell.
pub open spec fn online_cpus(stats: CpuStats) -> u32 {
    match stats.online_cpus {
        Some(n) => n,
        None => 0,
    }
}

/// The processor usage ratio between two samples taken `elapsed` nanoseconds
/// apart: `(d_total / d_system) * online_cpus * (10^9 / elapsed)`, and zero
/// where the host's counter did not move or no time passed.
pub open spec fn cpu_usage(first: CpuStats, second: CpuStats, elapsed: u64) -> Rate {
    let cpu_delta = counter_delta(first.total_usage, second.total_usage);
    let system_delta = counter_delta(first.system_cpu_usage, second.system_cpu_usage);
    if system_delta == 0 || elapsed == 0 {
        Rate::zero_spec()
    } else {
        Rate {
            num: (cpu_delta * online_cpus(second) * NANOS_PER_SECOND) as u128,
            den: (system_delta * elapsed) as u128,
        }
    }
}

/// The amount that a breakdown gives under `name`: that of the first entry
/// with this name.
pub open spec fn breakdown_entry(entries: Seq<MemoryStatEntryView>, name: Seq<char>) -> Option<u64>
    decreases entries.len(),
{
    if entries.len() == 0 {
        None
    } else if entries[0].name == name {
        Some(entries[0].value)
    } else {
        breakdown_entry(entries.drop_first(), name)
    }
}

/// Memory in use without the page cache, the breakdown's `file` entry.
pub open spec fn mem_usage(mem: MemoryStatsView) -> Result<u64, MemoryStatError> {
    match mem.usage {
        None => Err(MemoryStatError::MemoryStatUnavailable),
        Some(usage) => match mem.stats {
            None => Err(MemoryStatError::MemoryCacheUnavailable),
            Some(entries) => match breakdown_entry(entries, "file"@) {
                None => Err(MemoryStatError::MemoryCacheUnavailable),
                Some(file) => Ok(usage.saturating_sub(file)),
            },
        },
    }
}

/// Bytes received over all interfaces.
pub open spec fn rx_sum(networks: Seq<NetworkStatsView>) -> nat
    decreases networks.len(),
{
    if networks.len() == 0 {
        0
    } else {
        rx_sum(networks.drop_last()) + counter(networks.last().rx_bytes) as nat
    }
}

/// Bytes sent over all interfaces.
pub open spec fn tx_sum(networks: Seq<NetworkStatsView>) -> nat
    decreases networks.len(),
{
    if networks.len() == 0 {
        0
    } else {
        tx_sum(networks.drop_last()) + counter(networks.last().tx_bytes) as nat
    }
}

/// Bytes received and bytes sent, over all interfaces.
pub open spec fn net_io(networks: Seq<NetworkStatsView>) -> (u64, u64) {
    (saturated(rx_sum(networks)), saturated(tx_sum(networks)))
}

/// The bytes that one entry counts under `label`: its value where its
/// operation is exactly `label`, letter for letter, and zero otherwise.
pub open spec fn labelled_bytes(entry: BlkioStatEntryView, label: Seq<char>) -> u64 {
    if entry.op == Some(label) {
        counter(entry.value)
    } else {
        0
    }
}

/// The bytes that all entries count under `label`.
pub open spec fn labelled_sum(entries: Seq<BlkioStatEntryView>, label: Seq<char>) -> nat
    decreases entries.len(),
{
    if entries.len() == 0 {
        0
    } else {
        labelled_sum(entries.drop_last(), label) + labelled_bytes(entries.last(), label) as nat
    }
}

/// Bytes read and bytes written, over all block devices.
pub open spec fn blk_io(blkio: BlkioStatsView) -> (u64, u64) {
    match blkio.io_service_bytes_recursive {
        Some(entries) => (
            saturated(labelled_sum(entries, "read"@)),
            saturated(labelled_sum(entries, "write"@)),
        ),
        None => (0, 0),
    }
}

/// The processor usage ratio can always be divided out, and it is zero
/// whenever the host's processor counter did not move between the two
/// samples: a division by zero never takes place. Where it is not zero for
/// that reason, its parts are the full products, which fit without loss.
pub proof fn law_cpu_usage_without_system_delta(first: CpuStats, second: CpuStats, elapsed: u64)
    ensures
        cpu_usage(first, second, elapsed).wf(),
        counter_delta(first.system_cpu_usage, second.system_cpu_usage) == 0 ==> cpu_usage(
            first,
            second,
            elapsed,
        ) == Rate::zero_spec(),
        counter_delta(first.system_cpu_usage, second.system_cpu_usage) != 0 && elapsed != 0 ==> {
            &&& cpu_usage(first, second, elapsed).num == counter_delta(
                first.total_usage,
                second.total_usage,
            ) * online_cpus(second) * NANOS_PER_SECOND
            &&& cpu_usage(first, second, elapsed).den == counter_delta(
                first.system_cpu_usage,
                second.system_cpu_usage,
            ) * elapsed
        },
{
    let cpu_delta = counter_delta(first.total_usage, second.total_usage);
    let system_delta = counter_delta(first.system_cpu_usage, second.system_cpu_usage);
    let online_cpus = online_cpus(second);
    if system_delta != 0 && elapsed != 0 {
        assert(0 < system_delta * elapsed <= u64::MAX * u64::MAX) by (nonlinear_arith)
            requires
                0 < system_delta <= u64::MAX,
                0 < elapsed <= u64::MAX,
        ;
        assert(0 <= cpu_delta * online_cpus <= u64::MAX * u32::MAX) by (nonlinear_arith)
            requires
                0 <= cpu_delta <= u64::MAX,
                0 <= online_cpus <= u32::MAX,
        ;
        assert(0 <= cpu_delta * online_cpus * NANOS_PER_SECOND <= u64::MAX * u32::MAX
            * NANOS_PER_SECOND) by (nonlinear_arith)
            requires
                0 <= cpu_delta * online_cpus <= u64::MAX * u32::MAX,
        ;
    }
}

/// Taking one interface out of a list takes its bytes out of the sums.
proof fn lemma_sums_without(networks: Seq<NetworkStatsView>, j: int)
    requires
        0 <= j < networks.len(),
    ensures
        rx_sum(networks) == rx_sum(networks.remove(j)) + counter(networks[j].rx_bytes),
        tx_sum(networks) == tx_sum(networks.remove(j)) + counter(networks[j].tx_bytes),
    decreases networks.len(),
{
    if j == networks.len() - 1 {
        assert(networks.remove(j) =~= networks.drop_last());
    } else {
        lemma_sums_without(networks.drop_last(), j);
        assert(networks.remove(j).drop_last() =~= networks.drop_last().remove(j));
        assert(networks.remove(j).last() == networks.last());
    }
}

/// The network totals do not depend on the order in which the interfaces
/// are given: two lists that hold the same interfaces, each as often in one
/// as in the other, have the same totals.
pub proof fn law_net_io_ignores_order(
    networks: Seq<NetworkStatsView>,
    shuffled: Seq<NetworkStatsView>,
)
    requires
        networks.to_multiset() == shuffled.to_multiset(),
    ensures
        rx_sum(networks) == rx_sum(shuffled),
        tx_sum(networks) == tx_sum(shuffled),
        net_io(networks) == net_io(shuffled),
    decreases networks.len(),
{
    networks.to_multiset_ensures();
    shuffled.to_multiset_ensures();
    if networks.len() > 0 {
        let last = networks.last();
        assert(networks[networks.len() - 1] == last);
        assert(networks.contains(last));
        assert(networks.to_multiset().count(last) > 0);
        assert(shuffled.to_multiset().count(last) > 0);
        assert(shuffled.contains(last));
        let j = choose|j: int| 0 <= j < shuffled.len() && shuffled[j] == last;
        assert(networks.drop_last() =~= networks.remove(networks.len() - 1));
        law_net_io_ignores_order(networks.drop_last(), shuffled.remove(j));
        lemma_sums_without(shuffled, j);
    }
}

/// Whether no two entries of a breakdown have the same name.
pub open spec fn names_are_unique(entries: Seq<MemoryStatEntryView>) -> bool {
    forall|i: int, j: int|
        0 <= i < j < entries.len() ==> (#[trigger] entries[i]).name != (#[trigger] entries[j]).name
}

/// A breakdown gives something under a name exactly if one of its entries
/// has the name; and where names are unique, as in a table keyed by name, it
/// gives the amount of that entry, wherever in the breakdown the entry stands.
pub proof fn law_breakdown_is_a_table(entries: Seq<MemoryStatEntryView>, name: Seq<char>)
    ensures
        breakdown_entry(entries, name) is Some <==> exists|i: int|
            0 <= i < entries.len() && (#[trigger] entries[i]).name == name,
        names_are_unique(entries) ==> forall|i: int|
            0 <= i < entries.len() && (#[trigger] entries[i]).name == name ==> breakdown_entry(
                entries,
                name,
            ) == Some(entries[i].value),
    decreases entries.len(),
{
    if entries.len() > 0 {
        let rest = entries.drop_first();
        law_breakdown_is_a_table(rest, name);
        if entries[0].name == name {
        } else {
            if breakdown_entry(entries, name) is Some {
                let i = choose|i: int| 0 <= i < rest.len() && (#[trigger] rest[i]).name == name;
                assert(entries[i + 1].name == name);
            }
            if exists|i: int| 0 <= i < entries.len() && (#[trigger] entries[i]).name == name {
                let i = choose|i: int|
                    0 <= i < entries.len() && (#[trigger] entries[i]).name == name;
                assert(rest[i - 1].name == name);
            }
        }
        if names_are_unique(entries) {
            assert(names_are_unique(rest)) by {
                assert forall|i: int, j: int| 0 <= i < j < rest.len() implies (
                #[trigger] rest[i]).name != (#[trigger] rest[j]).name by {
                    assert(rest[i] == entries[i + 1]);
                    assert(rest[j] == entries[j + 1]);
                }
            }
            assert forall|i: int|
                0 <= i < entries.len() && (#[trigger] entries[i]).name
                    == name implies breakdown_entry(entries, name) == Some(entries[i].value) by {
                if i > 0 {
                    assert(rest[i - 1] == entries[i]);
                    assert(entries[0].name != entries[i].name);
                }
            }
        }
    }
}

/// How far a counter moved between two samples.
pub fn delta(prev: Option<u64>, curr: Option<u64>) -> (r: u64)
    ensures
        r == counter_delta(prev, curr),
{
    match (prev, curr) {
        (Some(a), Some(b)) => b.saturating_sub(a),
        _ => 0,
    }
}

/// The processor usage ratio between two samples of one container, taken
/// `elapsed` nanoseconds apart.
///
/// The ratio counts whole processors, so it passes 1 where the container kept
/// more than one processor busy. It is zero where the host's counter did not
/// move, and where no time passed.
pub fn get_cpu_usage(first: &CpuStats, second: &CpuStats, elapsed: u64) -> (r: Rate)
    ensures
        r == cpu_usage(*first, *second, elapsed),
        r.wf(),
        counter_delta(first.system_cpu_usage, second.system_cpu_usage) == 0 ==> r
            == Rate::zero_spec(),
{
    let cpu_delta: u64 = delta(first.total_usage, second.total_usage);
    let system_delta: u64 = delta(first.system_cpu_usage, second.system_cpu_usage);
    let online_cpus: u32 = match second.online_cpus {
        Some(n) => n,
        None => 0,
    };
    if system_delta == 0 || elapsed == 0 {
        return Rate::zero();
    }
    proof {
        assert(cpu_delta * online_cpus <= u64::MAX * u32::MAX) by (nonlinear_arith)
            requires
                cpu_delta <= u64::MAX,
                online_cpus <= u32::MAX,
        ;
        assert(cpu_delta * online_cpus * NANOS_PER_SECOND <= u64::MAX * u32::MAX
            * NANOS_PER_SECOND) by (nonlinear_arith)
            requires
                cpu_delta * online_cpus <= u64::MAX * u32::MAX,
        ;
        assert(0 < system_delta * elapsed <= u64::MAX * u64::MAX) by (nonlinear_arith)
            requires
                0 < system_delta <= u64::MAX,
                0 < elapsed <= u64::MAX,
        ;
    }
    let wide_delta: u128 = cpu_delta as u128;
    let wide_cpus: u128 = online_cpus as u128;
    let hertz: u128 = NANOS_PER_SECOND as u128;
    let wide_system: u128 = system_delta as u128;
    let wide_elapsed: u128 = elapsed as u128;
    Rate { num: wide_delta * wide_cpus * hertz, den: wide_system * wide_elapsed }
}

/// Looks `name` up in a memory breakdown.
fn find_entry(entries: &Vec<MemoryStatEntry>, name: &str) -> (r: Option<u64>)
    ensures
        r == breakdown_entry(views(entries@), name@),
{
    let wanted: String = name.to_owned();
    let mut i: usize = 0;
    proof {
        assert(views(entries@).skip(0) =~= views(entries@));
    }
    while i < entries.len()
        invariant
            i <= entries.len(),
            wanted@ == name@,
            breakdown_entry(views(entries@), name@) == breakdown_entry(
                views(entries@).skip(i as int),
                name@,
            ),
        decreases entries.len() - i,
    {
        proof {
            assert(views(entries@).skip(i as int).drop_first() =~= views(entries@).skip(i + 1));
        }
        if entries[i].name == wanted {
            return Some(entries[i].value);
        }
        i += 1;
    }
    None
}

/// Memory that a container uses, without the page cache.
///
/// Fails where the sample does not give the memory in use, or gives no
/// breakdown with a `file` entry to take the page cache from. A page cache
/// larger than the memory in use leaves zero.
pub fn get_mem(mem: &MemoryStats) -> (r: Result<u64, MemoryStatError>)
    ensures
        r == mem_usage(mem@),
        r is Ok <==> mem.usage is Some && mem.stats is Some && breakdown_entry(
            views(mem.stats.unwrap()@),
            "file"@,
        ) is Some,
        r == Err::<u64, MemoryStatError>(MemoryStatError::MemoryStatUnavailable)
            <==> mem.usage is None,
{
    let usage: u64 = match mem.usage {
        Some(u) => u,
        None => {
            return Err(MemoryStatError::MemoryStatUnavailable);
        },
    };
    match &mem.stats {
        Some(entries) => match find_entry(entries, "file") {
            Some(file) => Ok(usage.saturating_sub(file)),
            None => Err(MemoryStatError::MemoryCacheUnavailable),
        },
        None => Err(MemoryStatError::MemoryCacheUnavailable),
    }
}

/// Bytes received and bytes sent by a container, summed over its network
/// interfaces.
pub fn get_net_io(networks: &Vec<NetworkStats>) -> (r: (u64, u64))
    ensures
        r == net_io(views(networks@)),
{
    let mut net_in: u64 = 0;
    let mut net_out: u64 = 0;
    let mut i: usize = 0;
    while i < networks.len()
        invariant
            i <= networks.len(),
            net_in == saturated(rx_sum(views(networks@).take(i as int))),
            net_out == saturated(tx_sum(views(networks@).take(i as int))),
        decreases networks.len() - i,
    {
        proof {
            assert(views(networks@).take(i + 1).drop_last() =~= views(networks@).take(i as int));
        }
        let net: &NetworkStats = &networks[i];
        net_in = net_in.saturating_add(
            match net.rx_bytes {
                Some(v) => v,
                None => 0,
            },
        );
        net_out = net_out.saturating_add(
            match net.tx_bytes {
                Some(v) => v,
                None => 0,
            },
        );
        i += 1;
    }
    proof {
        lemma_views_take_all(networks@);
    }
    (net_in, net_out)
}

/// The bytes that one entry counts under `label`.
fn entry_bytes(entry: &BlkioStatEntry, label: &String) -> (r: u64)
    ensures
        r == labelled_bytes(entry@, label@),
{
    match &entry.op {
        Some(op) => {
            if *op == *label {
                match entry.value {
                    Some(v) => v,
                    None => 0,
                }
            } else {
                0
            }
        },
        None => 0,
    }
}

/// Bytes read and bytes written by a container, summed over its block
/// devices.
///
/// An entry counts as read where its operation is exactly `read`, as written
/// where it is exactly `write`, and not at all otherwise: `Read` is neither.
pub fn get_blk_io(blkio: &BlkioStats) -> (r: (u64, u64))
    ensures
        r == blk_io(blkio@),
{
    let mut blk_in: u64 = 0;
    let mut blk_out: u64 = 0;
    if let Some(entries) = &blkio.io_service_bytes_recursive {
        let read_label: String = "read".to_owned();
        let write_label: String = "write".to_owned();
        let mut i: usize = 0;
        while i < entries.len()
            invariant
                i <= entries.len(),
                read_label@ == "read"@,
                write_label@ == "write"@,
                blk_in == saturated(labelled_sum(views(entries@).take(i as int), "read"@)),
                blk_out == saturated(labelled_sum(views(entries@).take(i as int), "write"@)),
            decreases entries.len() - i,
        {
            proof {
                assert(views(entries@).take(i + 1).drop_last() =~= views(entries@).take(i as int));
            }
            blk_in = blk_in.saturating_add(entry_bytes(&entries[i], &read_label));
            blk_out = blk_out.saturating_add(entry_bytes(&entries[i], &write_label));
            i += 1;
        }
        proof {
            lemma_views_take_all(entries@);
        }
    }
    (blk_in, blk_out)
}

} // verus!

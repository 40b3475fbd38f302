use docker_stat_agent::cache::{compute_all, LastDockerStats, SampleStore};
use docker_stat_agent::rate::Rate;
use docker_stat_agent::sample::{
    BlkioStatEntry, BlkioStats, ContainerStats, CpuStats, MemoryStatEntry, MemoryStats,
    NetworkStats, TimedContainerStatsResponse,
};
use docker_stat_agent::stat::{compute_stat, first_sighting, DockerContainerStat};

const T0: u64 = 1_700_000_000_000_000_000;
const SECOND: u64 = 1_000_000_000;

fn as_float(rate: Rate) -> f64 {
    rate.num as f64 / rate.den as f64
}

fn no_counters() -> ContainerStats {
    ContainerStats { cpu_stats: None, memory_stats: None, networks: None, blkio_stats: None }
}

fn sample(id: &str, stat: Option<ContainerStats>, time: u64) -> TimedContainerStatsResponse {
    TimedContainerStatsResponse {
        id: id.to_string(),
        name: format!("/{}-name", id),
        stat,
        time,
    }
}

fn with_cpu(total: u64, system: u64, cpus: u32) -> ContainerStats {
    ContainerStats {
        cpu_stats: Some(CpuStats {
            total_usage: Some(total),
            system_cpu_usage: Some(system),
            online_cpus: Some(cpus),
        }),
        ..no_counters()
    }
}

fn with_rx(rx: u64, tx: u64) -> ContainerStats {
    ContainerStats {
        networks: Some(vec![NetworkStats { name: "eth0".to_string(), rx_bytes: Some(rx), tx_bytes: Some(tx) }]),
        ..no_counters()
    }
}

fn with_blk(entries: &[(&str, u64)]) -> ContainerStats {
    ContainerStats {
        blkio_stats: Some(BlkioStats {
            io_service_bytes_recursive: Some(
                entries
                    .iter()
                    .map(|(op, value)| BlkioStatEntry {
                        major: Some(8),
                        minor: Some(0),
                        op: Some(op.to_string()),
                        value: Some(*value),
                    })
                    .collect(),
            ),
        }),
        ..no_counters()
    }
}

fn full(total: u64, system: u64, usage: u64, file: u64, rx: u64, tx: u64, read: u64, write: u64) -> ContainerStats {
    ContainerStats {
        cpu_stats: Some(CpuStats {
            total_usage: Some(total),
            system_cpu_usage: Some(system),
            online_cpus: Some(4),
        }),
        memory_stats: Some(MemoryStats {
            usage: Some(usage),
            limit: Some(1 << 30),
            stats: Some(vec![
                MemoryStatEntry { name: "anon".to_string(), value: 1 },
                MemoryStatEntry { name: "file".to_string(), value: file },
            ]),
        }),
        networks: Some(vec![
            NetworkStats { name: "eth0".to_string(), rx_bytes: Some(rx), tx_bytes: Some(tx) },
            NetworkStats { name: "eth0".to_string(), rx_bytes: Some(1), tx_bytes: Some(2) },
        ]),
        blkio_stats: Some(BlkioStats {
            io_service_bytes_recursive: Some(vec![
                BlkioStatEntry { major: Some(8), minor: Some(0), op: Some("read".to_string()), value: Some(read) },
                BlkioStatEntry { major: Some(8), minor: Some(0), op: Some("write".to_string()), value: Some(write) },
            ]),
        }),
    }
}

#[test]
fn default_stat_is_empty() {
    let stat = DockerContainerStat::default();
    assert_eq!(stat.id, "");
    assert_eq!(stat.name, "");
    assert_eq!(stat.cpu_usage, Rate::zero());
    assert_eq!(stat.mem_usage, 0);
    assert_eq!(stat.mem_limit, 0);
    assert_eq!(stat.net_in, 0);
    assert_eq!(stat.net_out, 0);
    assert_eq!(stat.net_in_bps, Rate::zero());
    assert_eq!(stat.net_out_bps, Rate::zero());
    assert_eq!(stat.blk_in, 0);
    assert_eq!(stat.blk_out, 0);
    assert_eq!(stat.blk_in_byteps, Rate::zero());
    assert_eq!(stat.blk_out_byteps, Rate::zero());
}

#[test]
fn cloned_stat_is_equal() {
    let curr = sample("abc", Some(full(3000, 200_000, 5000, 1000, 10, 20, 30, 40)), T0);
    let stat = first_sighting(&curr);
    assert_eq!(stat.clone(), stat);
    assert_eq!(curr.clone(), curr);
}

#[test]
fn first_sighting_has_totals_and_no_rates() {
    let curr = sample("abc", Some(full(3000, 200_000, 5000, 1000, 10, 20, 30, 40)), T0);
    let expected = DockerContainerStat {
        id: "abc".to_string(),
        name: "/abc-name".to_string(),
        cpu_usage: Rate::zero(),
        mem_usage: 4000,
        mem_limit: 1 << 30,
        net_in: 11,
        net_out: 22,
        net_in_bps: Rate::zero(),
        net_out_bps: Rate::zero(),
        blk_in: 30,
        blk_out: 40,
        blk_in_byteps: Rate::zero(),
        blk_out_byteps: Rate::zero(),
    };
    assert_eq!(first_sighting(&curr), expected);
    assert_eq!(compute_stat(None, &curr), expected);
}

#[test]
fn sample_without_counters_gives_zeros() {
    let curr = sample("abc", None, T0);
    let expected = DockerContainerStat {
        id: "abc".to_string(),
        name: "/abc-name".to_string(),
        ..DockerContainerStat::default()
    };
    assert_eq!(compute_stat(None, &curr), expected);
    let prev = sample("abc", Some(full(1, 2, 3, 4, 5, 6, 7, 8)), T0 - SECOND);
    assert_eq!(compute_stat(Some(&prev), &curr), expected);
}

#[test]
fn memory_counts_as_zero_where_it_cannot_be_told() {
    let mut stats = full(3000, 200_000, 5000, 1000, 10, 20, 30, 40);
    stats.memory_stats = Some(MemoryStats { usage: Some(5000), limit: Some(9000), stats: None });
    let stat = compute_stat(None, &sample("abc", Some(stats), T0));
    assert_eq!(stat.mem_usage, 0);
    assert_eq!(stat.mem_limit, 9000);
    let mut stats = full(3000, 200_000, 5000, 1000, 10, 20, 30, 40);
    stats.memory_stats = Some(MemoryStats { usage: None, limit: None, stats: None });
    let stat = compute_stat(None, &sample("abc", Some(stats), T0));
    assert_eq!(stat.mem_usage, 0);
    assert_eq!(stat.mem_limit, 0);
}

#[test]
fn cpu_usage_over_two_cycles() {
    let prev = sample("abc", Some(with_cpu(1000, 100_000, 2)), T0);
    let curr = sample("abc", Some(with_cpu(3000, 200_000, 2)), T0 + SECOND);
    let stat = compute_stat(Some(&prev), &curr);
    assert_eq!(
        stat.cpu_usage,
        Rate { num: 2000 * 2 * 1_000_000_000, den: 100_000 * 1_000_000_000 }
    );
    assert_eq!(as_float(stat.cpu_usage), 0.04);
}

#[test]
fn network_rate_over_half_a_second() {
    let prev = sample("abc", Some(with_rx(1000, 50)), T0);
    let curr = sample("abc", Some(with_rx(2000, 50)), T0 + SECOND / 2);
    let stat = compute_stat(Some(&prev), &curr);
    assert_eq!(stat.net_in, 2000);
    assert_eq!(stat.net_out, 50);
    assert_eq!(stat.net_in_bps, Rate { num: 1000 * 1_000_000_000 * 8, den: 500_000_000 });
    assert_eq!(as_float(stat.net_in_bps), 16000.0);
    assert_eq!(as_float(stat.net_out_bps), 0.0);
}

#[test]
fn block_rate_counts_exact_labels_only() {
    let capital = sample("abc", Some(with_blk(&[("Read", 500)])), T0);
    let stat = compute_stat(None, &capital);
    assert_eq!(stat.blk_in, 0);
    assert_eq!(stat.blk_out, 0);

    let prev = sample("abc", Some(with_blk(&[("read", 500)])), T0);
    let curr = sample("abc", Some(with_blk(&[("read", 1500)])), T0 + SECOND);
    let stat = compute_stat(Some(&prev), &curr);
    assert_eq!(stat.blk_in, 1500);
    assert_eq!(stat.blk_in_byteps, Rate { num: 1000 * 1_000_000_000, den: 1_000_000_000 });
    assert_eq!(as_float(stat.blk_in_byteps), 1000.0);
    assert_eq!(as_float(stat.blk_out_byteps), 0.0);
}

#[test]
fn all_figures_over_two_cycles() {
    let prev = sample("abc", Some(full(1000, 100_000, 4000, 500, 100, 200, 300, 400)), T0);
    let curr =
        sample("abc", Some(full(3000, 200_000, 5000, 1000, 1100, 2200, 3300, 4400)), T0 + 2 * SECOND);
    let stat = compute_stat(Some(&prev), &curr);
    assert_eq!(stat.id, "abc");
    assert_eq!(stat.name, "/abc-name");
    assert_eq!(stat.mem_usage, 4000);
    assert_eq!(stat.mem_limit, 1 << 30);
    assert_eq!(stat.net_in, 1101);
    assert_eq!(stat.net_out, 2202);
    assert_eq!(stat.blk_in, 3300);
    assert_eq!(stat.blk_out, 4400);
    assert_eq!(as_float(stat.cpu_usage), (2000.0 / 100_000.0) * 4.0 * 0.5);
    assert_eq!(as_float(stat.net_in_bps), 1000.0 * 0.5 * 8.0);
    assert_eq!(as_float(stat.net_out_bps), 2000.0 * 0.5 * 8.0);
    assert_eq!(as_float(stat.blk_in_byteps), 3000.0 * 0.5);
    assert_eq!(as_float(stat.blk_out_byteps), 4000.0 * 0.5);
}

#[test]
fn totals_do_not_depend_on_the_previous_sample() {
    let curr = sample("abc", Some(full(3000, 200_000, 5000, 1000, 1100, 2200, 3300, 4400)), T0 + SECOND);
    let alone = compute_stat(None, &curr);
    let small = sample("abc", Some(full(1, 1, 1, 1, 1, 1, 1, 1)), T0);
    let large = sample("abc", Some(full(9000, 900_000, 9000, 9000, 9000, 9000, 9000, 9000)), T0);
    for prev in [small, large] {
        let stat = compute_stat(Some(&prev), &curr);
        assert_eq!(stat.mem_usage, alone.mem_usage);
        assert_eq!(stat.mem_limit, alone.mem_limit);
        assert_eq!(stat.net_in, alone.net_in);
        assert_eq!(stat.net_out, alone.net_out);
        assert_eq!(stat.blk_in, alone.blk_in);
        assert_eq!(stat.blk_out, alone.blk_out);
    }
    assert_eq!(alone.net_in, 1101);
    assert_eq!(alone.blk_out, 4400);
}

#[test]
fn counters_that_ran_backwards_give_zero_rates() {
    let prev = sample("abc", Some(full(9000, 900_000, 9000, 9000, 9000, 9000, 9000, 9000)), T0);
    let curr = sample("abc", Some(full(3000, 200_000, 5000, 1000, 1100, 2200, 3300, 4400)), T0 + SECOND);
    let stat = compute_stat(Some(&prev), &curr);
    assert_eq!(stat.cpu_usage, Rate::zero());
    let none = Rate { num: 0, den: 1_000_000_000 };
    assert_eq!(stat.net_in_bps, none);
    assert_eq!(stat.net_out_bps, none);
    assert_eq!(stat.blk_in_byteps, none);
    assert_eq!(stat.blk_out_byteps, none);
}

#[test]
fn no_elapsed_time_gives_zero_rates() {
    let prev = sample("abc", Some(full(1000, 100_000, 4000, 500, 100, 200, 300, 400)), T0);
    for time in [T0, T0 - 1, 0] {
        let curr = sample("abc", Some(full(3000, 200_000, 5000, 1000, 1100, 2200, 3300, 4400)), time);
        let stat = compute_stat(Some(&prev), &curr);
        assert_eq!(stat.cpu_usage, Rate::zero());
        assert_eq!(stat.net_in_bps, Rate::zero());
        assert_eq!(stat.net_out_bps, Rate::zero());
        assert_eq!(stat.blk_in_byteps, Rate::zero());
        assert_eq!(stat.blk_out_byteps, Rate::zero());
        assert_eq!(stat.net_in, 1101);
    }
}

#[test]
fn previous_sample_without_counters_gives_zero_rates() {
    let prev = sample("abc", None, T0);
    let curr = sample("abc", Some(full(3000, 200_000, 5000, 1000, 1100, 2200, 3300, 4400)), T0 + SECOND);
    assert_eq!(compute_stat(Some(&prev), &curr), first_sighting(&curr));
}

#[test]
fn missing_cpu_counters_give_zero_cpu_usage_only() {
    let mut before = full(1000, 100_000, 4000, 500, 100, 200, 300, 400);
    before.cpu_stats = None;
    let prev = sample("abc", Some(before), T0);
    let curr = sample("abc", Some(full(3000, 200_000, 5000, 1000, 1100, 2200, 3300, 4400)), T0 + SECOND);
    let stat = compute_stat(Some(&prev), &curr);
    assert_eq!(stat.cpu_usage, Rate::zero());
    assert_eq!(as_float(stat.net_in_bps), 8000.0);
}

#[test]
fn missing_previous_networks_count_from_zero() {
    let prev = sample("abc", Some(no_counters()), T0);
    let curr = sample("abc", Some(with_rx(2000, 1000)), T0 + SECOND);
    let stat = compute_stat(Some(&prev), &curr);
    assert_eq!(as_float(stat.net_in_bps), 16000.0);
    assert_eq!(as_float(stat.net_out_bps), 8000.0);
}

#[test]
fn store_keeps_the_latest_sample_per_id() {
    let mut store = SampleStore::new(T0);
    assert_eq!(store.timestamp(), T0);
    assert_eq!(store.get("abc"), None);
    store.insert(sample("abc", Some(with_rx(1, 1)), T0));
    store.insert(sample("def", None, T0 + 1));
    store.insert(sample("abc", Some(with_rx(2, 2)), T0 + 2));
    assert_eq!(store.get("abc"), Some(&sample("abc", Some(with_rx(2, 2)), T0 + 2)));
    assert_eq!(store.get("def"), Some(&sample("def", None, T0 + 1)));
    assert_eq!(store.get("ab"), None);
    assert_eq!(store.get("abcd"), None);
    assert_eq!(store.get(""), None);
    assert_eq!(store.timestamp(), T0);
}

#[test]
fn store_from_samples_files_each_under_its_id() {
    let store = SampleStore::from_samples(
        7,
        vec![sample("a", None, 1), sample("b", None, 2), sample("a", None, 3)],
    );
    assert_eq!(store.timestamp(), 7);
    assert_eq!(store.get("a"), Some(&sample("a", None, 3)));
    assert_eq!(store.get("b"), Some(&sample("b", None, 2)));
    assert_eq!(store.get("c"), None);
}

#[test]
fn compute_all_compares_each_sample_with_its_own_past() {
    let store = SampleStore::from_samples(
        T0,
        vec![
            sample("one", Some(with_rx(1000, 0)), T0),
            sample("two", Some(with_rx(5000, 0)), T0),
        ],
    );
    let samples = vec![
        sample("two", Some(with_rx(6000, 0)), T0 + SECOND),
        sample("new", Some(with_rx(777, 0)), T0 + SECOND),
        sample("one", Some(with_rx(3000, 0)), T0 + SECOND),
    ];
    let stats = compute_all(&samples, &store);
    assert_eq!(stats.len(), 3);
    assert_eq!(stats[0].id, "two");
    assert_eq!(as_float(stats[0].net_in_bps), 8000.0);
    assert_eq!(stats[1].id, "new");
    assert_eq!(stats[1].net_in, 777);
    assert_eq!(stats[1].net_in_bps, Rate::zero());
    assert_eq!(stats[2].id, "one");
    assert_eq!(as_float(stats[2].net_in_bps), 16000.0);
    assert_eq!(compute_all(&Vec::new(), &store), Vec::new());
}

#[test]
fn placeholder_snapshot_is_empty_at_time_zero() {
    let snapshot = LastDockerStats::placeholder();
    assert_eq!(snapshot.timestamp, 0);
    assert!(snapshot.stats.is_empty());
    assert_eq!(snapshot.clone(), snapshot);
}

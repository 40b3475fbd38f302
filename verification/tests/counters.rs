use docker_stat_agent::rate::Rate;
use docker_stat_agent::rate_computer::{
    delta, get_blk_io, get_cpu_usage, get_mem, get_net_io, MemoryStatError,
};
use docker_stat_agent::sample::{
    BlkioStatEntry, BlkioStats, CpuStats, MemoryStatEntry, MemoryStats, NetworkStats,
};

const SECOND: u64 = 1_000_000_000;

fn as_float(rate: Rate) -> f64 {
    rate.num as f64 / rate.den as f64
}

fn cpu(total: Option<u64>, system: Option<u64>, cpus: Option<u32>) -> CpuStats {
    CpuStats { total_usage: total, system_cpu_usage: system, online_cpus: cpus }
}

fn entry(op: Option<&str>, value: Option<u64>) -> BlkioStatEntry {
    BlkioStatEntry { major: Some(8), minor: Some(0), op: op.map(|s| s.to_string()), value }
}

fn blkio(entries: Vec<BlkioStatEntry>) -> BlkioStats {
    BlkioStats { io_service_bytes_recursive: Some(entries) }
}

fn breakdown(entries: &[(&str, u64)]) -> Option<Vec<MemoryStatEntry>> {
    Some(
        entries
            .iter()
            .map(|(name, value)| MemoryStatEntry { name: name.to_string(), value: *value })
            .collect(),
    )
}

#[test]
fn delta_is_the_difference_of_present_counters() {
    assert_eq!(delta(Some(1000), Some(3000)), 2000);
    assert_eq!(delta(Some(5), Some(5)), 0);
    assert_eq!(delta(Some(0), Some(u64::MAX)), u64::MAX);
}

#[test]
fn delta_is_zero_where_a_counter_is_missing() {
    assert_eq!(delta(None, Some(3000)), 0);
    assert_eq!(delta(Some(1000), None), 0);
    assert_eq!(delta(None, None), 0);
}

#[test]
fn delta_is_zero_where_the_counter_ran_backwards() {
    assert_eq!(delta(Some(3000), Some(1000)), 0);
    assert_eq!(delta(Some(u64::MAX), Some(0)), 0);
}

#[test]
fn cpu_usage_of_two_samples_one_second_apart() {
    let first = cpu(Some(1000), Some(100_000), Some(2));
    let second = cpu(Some(3000), Some(200_000), Some(2));
    let usage = get_cpu_usage(&first, &second, SECOND);
    assert_eq!(usage, Rate { num: 2000 * 2 * 1_000_000_000, den: 100_000 * 1_000_000_000 });
    assert_eq!(as_float(usage), 0.04);
}

#[test]
fn cpu_usage_scales_with_the_sampling_frequency() {
    let first = cpu(Some(1000), Some(100_000), Some(2));
    let second = cpu(Some(3000), Some(200_000), Some(2));
    let usage = get_cpu_usage(&first, &second, SECOND / 2);
    assert_eq!(usage, Rate { num: 4_000_000_000_000, den: 100_000 * 500_000_000 });
    assert_eq!(as_float(usage), 0.08);
}

#[test]
fn cpu_usage_may_pass_one_on_many_processors() {
    let first = cpu(Some(0), Some(0), Some(8));
    let second = cpu(Some(500), Some(1000), Some(8));
    let usage = get_cpu_usage(&first, &second, SECOND);
    assert_eq!(as_float(usage), 4.0);
}

#[test]
fn cpu_usage_is_zero_without_system_delta() {
    let first = cpu(Some(1000), Some(100_000), Some(2));
    let second = cpu(Some(3000), Some(100_000), Some(2));
    assert_eq!(get_cpu_usage(&first, &second, SECOND), Rate::zero());
}

#[test]
fn cpu_usage_is_zero_where_system_counter_is_missing() {
    let first = cpu(Some(1000), None, Some(2));
    let second = cpu(Some(3000), Some(200_000), Some(2));
    assert_eq!(get_cpu_usage(&first, &second, SECOND), Rate::zero());
    let first = cpu(Some(1000), Some(100_000), Some(2));
    let second = cpu(Some(3000), None, Some(2));
    assert_eq!(get_cpu_usage(&first, &second, SECOND), Rate::zero());
}

#[test]
fn cpu_usage_is_zero_where_system_counter_ran_backwards() {
    let first = cpu(Some(1000), Some(200_000), Some(2));
    let second = cpu(Some(3000), Some(100_000), Some(2));
    assert_eq!(get_cpu_usage(&first, &second, SECOND), Rate::zero());
}

#[test]
fn cpu_usage_is_zero_over_no_time() {
    let first = cpu(Some(1000), Some(100_000), Some(2));
    let second = cpu(Some(3000), Some(200_000), Some(2));
    assert_eq!(get_cpu_usage(&first, &second, 0), Rate::zero());
}

#[test]
fn cpu_usage_has_zero_numerator_where_total_is_missing_or_no_cpu_is_online() {
    let first = cpu(None, Some(100_000), Some(2));
    let second = cpu(Some(3000), Some(200_000), Some(2));
    let usage = get_cpu_usage(&first, &second, SECOND);
    assert_eq!(usage, Rate { num: 0, den: 100_000 * 1_000_000_000 });
    let first = cpu(Some(1000), Some(100_000), Some(2));
    let second = cpu(Some(3000), Some(200_000), None);
    assert_eq!(get_cpu_usage(&first, &second, SECOND).num, 0);
}

#[test]
fn cpu_usage_takes_online_cpus_from_the_later_sample() {
    let first = cpu(Some(0), Some(0), Some(64));
    let second = cpu(Some(10), Some(100), Some(3));
    let usage = get_cpu_usage(&first, &second, SECOND);
    assert_eq!(usage.num, 10 * 3 * 1_000_000_000);
}

#[test]
fn cpu_usage_holds_the_largest_counters() {
    let first = cpu(Some(0), Some(0), Some(u32::MAX));
    let second = cpu(Some(u64::MAX), Some(u64::MAX), Some(u32::MAX));
    let usage = get_cpu_usage(&first, &second, u64::MAX);
    assert_eq!(usage.num, u64::MAX as u128 * u32::MAX as u128 * 1_000_000_000);
    assert_eq!(usage.den, u64::MAX as u128 * u64::MAX as u128);
}

#[test]
fn mem_is_usage_without_the_file_entry() {
    let mem = MemoryStats {
        usage: Some(5000),
        limit: Some(10_000),
        stats: breakdown(&[("anon", 100), ("file", 1200), ("kernel", 7)]),
    };
    assert_eq!(get_mem(&mem), Ok(3800));
}

#[test]
fn mem_takes_the_first_file_entry() {
    let mem = MemoryStats {
        usage: Some(5000),
        limit: None,
        stats: breakdown(&[("file", 1000), ("file", 2000)]),
    };
    assert_eq!(get_mem(&mem), Ok(4000));
}

#[test]
fn mem_matches_the_entry_name_exactly() {
    let mem = MemoryStats {
        usage: Some(5000),
        limit: None,
        stats: breakdown(&[("File", 1000), ("file ", 2000), ("files", 3000)]),
    };
    assert_eq!(get_mem(&mem), Err(MemoryStatError::MemoryCacheUnavailable));
}

#[test]
fn mem_stops_at_zero_where_the_cache_is_larger() {
    let mem = MemoryStats { usage: Some(100), limit: None, stats: breakdown(&[("file", 101)]) };
    assert_eq!(get_mem(&mem), Ok(0));
}

#[test]
fn mem_without_usage_is_unavailable() {
    let mem = MemoryStats { usage: None, limit: Some(1), stats: breakdown(&[("file", 1)]) };
    assert_eq!(get_mem(&mem), Err(MemoryStatError::MemoryStatUnavailable));
    let mem = MemoryStats { usage: None, limit: None, stats: None };
    assert_eq!(get_mem(&mem), Err(MemoryStatError::MemoryStatUnavailable));
}

#[test]
fn mem_without_breakdown_lacks_the_cache() {
    let mem = MemoryStats { usage: Some(5000), limit: None, stats: None };
    assert_eq!(get_mem(&mem), Err(MemoryStatError::MemoryCacheUnavailable));
}

#[test]
fn mem_without_file_entry_lacks_the_cache() {
    let mem = MemoryStats { usage: Some(5000), limit: None, stats: breakdown(&[("anon", 1)]) };
    assert_eq!(get_mem(&mem), Err(MemoryStatError::MemoryCacheUnavailable));
    let mem = MemoryStats { usage: Some(5000), limit: None, stats: breakdown(&[]) };
    assert_eq!(get_mem(&mem), Err(MemoryStatError::MemoryCacheUnavailable));
}

#[test]
fn net_io_sums_over_interfaces() {
    let networks = vec![
        NetworkStats { name: "eth0".to_string(), rx_bytes: Some(1000), tx_bytes: Some(10) },
        NetworkStats { name: "eth0".to_string(), rx_bytes: Some(200), tx_bytes: Some(20) },
        NetworkStats { name: "eth0".to_string(), rx_bytes: Some(30), tx_bytes: Some(3) },
    ];
    assert_eq!(get_net_io(&networks), (1230, 33));
}

#[test]
fn net_io_counts_a_missing_counter_as_zero() {
    let networks = vec![
        NetworkStats { name: "eth0".to_string(), rx_bytes: None, tx_bytes: Some(10) },
        NetworkStats { name: "eth0".to_string(), rx_bytes: Some(200), tx_bytes: None },
    ];
    assert_eq!(get_net_io(&networks), (200, 10));
}

#[test]
fn net_io_of_no_interface_is_zero() {
    assert_eq!(get_net_io(&Vec::new()), (0, 0));
}

#[test]
fn net_io_stops_at_the_largest_value() {
    let networks = vec![
        NetworkStats { name: "eth0".to_string(), rx_bytes: Some(u64::MAX), tx_bytes: Some(u64::MAX - 1) },
        NetworkStats { name: "eth0".to_string(), rx_bytes: Some(1), tx_bytes: Some(1) },
        NetworkStats { name: "eth0".to_string(), rx_bytes: Some(5), tx_bytes: Some(0) },
    ];
    assert_eq!(get_net_io(&networks), (u64::MAX, u64::MAX));
}

#[test]
fn blk_io_sums_by_operation() {
    let stats = blkio(vec![
        entry(Some("read"), Some(500)),
        entry(Some("write"), Some(70)),
        entry(Some("read"), Some(1000)),
        entry(Some("write"), Some(7)),
    ]);
    assert_eq!(get_blk_io(&stats), (1500, 77));
}

#[test]
fn blk_io_ignores_a_label_in_another_case() {
    let stats = blkio(vec![entry(Some("Read"), Some(500))]);
    assert_eq!(get_blk_io(&stats), (0, 0));
    let stats = blkio(vec![entry(Some("WRITE"), Some(500)), entry(Some("Write"), Some(1))]);
    assert_eq!(get_blk_io(&stats), (0, 0));
}

#[test]
fn blk_io_ignores_other_labels() {
    let stats = blkio(vec![
        entry(Some("sync"), Some(1)),
        entry(Some("async"), Some(2)),
        entry(Some("discard"), Some(3)),
        entry(Some("total"), Some(4)),
        entry(Some(""), Some(5)),
        entry(Some("read "), Some(6)),
        entry(Some("reads"), Some(7)),
        entry(None, Some(8)),
        entry(Some("read"), Some(9)),
    ]);
    assert_eq!(get_blk_io(&stats), (9, 0));
}

#[test]
fn blk_io_counts_a_missing_value_as_zero() {
    let stats = blkio(vec![entry(Some("read"), None), entry(Some("write"), Some(4))]);
    assert_eq!(get_blk_io(&stats), (0, 4));
}

#[test]
fn blk_io_without_entries_is_zero() {
    assert_eq!(get_blk_io(&blkio(Vec::new())), (0, 0));
    assert_eq!(get_blk_io(&BlkioStats { io_service_bytes_recursive: None }), (0, 0));
}

#[test]
fn blk_io_stops_at_the_largest_value() {
    let stats = blkio(vec![
        entry(Some("read"), Some(u64::MAX)),
        entry(Some("read"), Some(u64::MAX)),
        entry(Some("write"), Some(u64::MAX - 2)),
        entry(Some("write"), Some(2)),
    ]);
    assert_eq!(get_blk_io(&stats), (u64::MAX, u64::MAX));
}

#[test]
fn net_io_does_not_depend_on_the_order_of_interfaces() {
    let eth0 = NetworkStats { name: "eth0".to_string(), rx_bytes: Some(1000), tx_bytes: Some(10) };
    let eth1 = NetworkStats { name: "eth1".to_string(), rx_bytes: Some(200), tx_bytes: None };
    let lo = NetworkStats { name: "lo".to_string(), rx_bytes: None, tx_bytes: Some(3) };
    let one = vec![eth0.clone(), eth1.clone(), lo.clone()];
    let other = vec![lo, eth0, eth1];
    assert_eq!(get_net_io(&one), (1200, 13));
    assert_eq!(get_net_io(&other), (1200, 13));
}

#[test]
fn mem_does_not_depend_on_the_order_of_a_breakdown_with_unique_names() {
    let one = MemoryStats {
        usage: Some(5000),
        limit: None,
        stats: breakdown(&[("anon", 100), ("file", 1200), ("kernel", 7)]),
    };
    let other = MemoryStats {
        usage: Some(5000),
        limit: None,
        stats: breakdown(&[("file", 1200), ("kernel", 7), ("anon", 100)]),
    };
    assert_eq!(get_mem(&one), Ok(3800));
    assert_eq!(get_mem(&other), Ok(3800));
}

use systemstats::monitors::network::NetworkStats;
use systemstats::monitors::snapshot::IfaceCounters;

fn iface(name: &str, rx: u64, tx: u64) -> IfaceCounters {
    IfaceCounters { name: name.as_bytes().to_vec(), rx_bytes: rx, tx_bytes: tx }
}

#[test]
fn selection_prefers_first_non_loopback_with_traffic() {
    let ifs = vec![iface("lo", 100, 100), iface("eth0", 0, 0), iface("eth1", 500, 200)];
    let stats = NetworkStats::new(&ifs);
    assert!(stats.has_interface());
    assert_eq!(stats.selected.as_deref(), Some(b"eth1".as_slice()));
    assert_eq!(stats.prev_rx, 500);
    assert_eq!(stats.prev_tx, 200);
    assert_eq!(stats.download_bps(), 0);
    assert_eq!(stats.upload_bps(), 0);
}

#[test]
fn selection_falls_back_to_first_non_loopback() {
    let ifs = vec![iface("lo", 100, 100), iface("eth0", 0, 0)];
    let stats = NetworkStats::new(&ifs);
    assert_eq!(stats.selected.as_deref(), Some(b"eth0".as_slice()));
    assert_eq!(stats.prev_rx, 0);
    assert_eq!(stats.prev_tx, 0);
}

#[test]
fn no_non_loopback_interface_means_no_selection() {
    let ifs = vec![iface("lo", 100, 100)];
    let stats = NetworkStats::new(&ifs);
    assert!(!stats.has_interface());
    assert_eq!(stats.download_bps(), 0);
    assert_eq!(stats.upload_bps(), 0);
}

#[test]
fn monotone_counters_yield_scaled_delta() {
    // One tick of 1000 ms with rx up by 125_000 bytes is 1_000_000 bits/s,
    // i.e. exactly 1.0 Mbps in the display layer's decimal unit.
    let ifs0 = vec![iface("eth0", 1_000, 2_000)];
    let mut stats = NetworkStats::new(&ifs0);
    let ifs1 = vec![iface("eth0", 126_000, 2_500)];
    stats.update(&ifs1, 1000);
    assert_eq!(stats.download_bps(), 1_000_000);
    assert_eq!(stats.upload_bps(), 4_000);
    let mbps = stats.download_bps() as f64 / 1_000_000.0;
    assert_eq!(mbps, 1.0);
    // The baseline advanced to the current counters.
    assert_eq!(stats.prev_rx, 126_000);
    assert_eq!(stats.prev_tx, 2_500);
}

#[test]
fn rollback_clamps_delta_to_zero() {
    let ifs0 = vec![iface("eth0", 10_000, 10_000)];
    let mut stats = NetworkStats::new(&ifs0);
    let ifs1 = vec![iface("eth0", 400, 10_000)];
    stats.update(&ifs1, 1000);
    assert_eq!(stats.download_bps(), 0);
    assert_eq!(stats.upload_bps(), 0);
    // The rolled-back counter becomes the new baseline.
    assert_eq!(stats.prev_rx, 400);
}

#[test]
fn vanished_interface_zeroes_rates_and_keeps_selection() {
    let ifs0 = vec![iface("wlan0", 5_000, 5_000)];
    let mut stats = NetworkStats::new(&ifs0);
    let ifs1 = vec![iface("wlan0", 130_000, 5_000)];
    stats.update(&ifs1, 1000);
    assert!(stats.download_bps() > 0);
    // Interface gone: rates drop to zero, selection is not re-run.
    let ifs2: Vec<IfaceCounters> = vec![iface("lo", 1, 1)];
    stats.update(&ifs2, 1000);
    assert_eq!(stats.download_bps(), 0);
    assert_eq!(stats.upload_bps(), 0);
    assert_eq!(stats.selected.as_deref(), Some(b"wlan0".as_slice()));
    // And it stays frozen on later ticks even if other interfaces appear.
    let ifs3 = vec![iface("eth9", 1_000_000, 1_000_000)];
    stats.update(&ifs3, 1000);
    assert_eq!(stats.download_bps(), 0);
    assert_eq!(stats.selected.as_deref(), Some(b"wlan0".as_slice()));
}

#[test]
fn zero_interval_yields_zero_rate() {
    let ifs0 = vec![iface("eth0", 0, 0)];
    let mut stats = NetworkStats::new(&ifs0);
    let ifs1 = vec![iface("eth0", 125_000, 125_000)];
    stats.update(&ifs1, 0);
    assert_eq!(stats.download_bps(), 0);
    assert_eq!(stats.upload_bps(), 0);
}

#[test]
fn huge_delta_saturates_rather_than_wrapping() {
    let ifs0 = vec![iface("eth0", 0, 0)];
    let mut stats = NetworkStats::new(&ifs0);
    let ifs1 = vec![iface("eth0", u64::MAX, 0)];
    stats.update(&ifs1, 1);
    assert_eq!(stats.download_bps(), u64::MAX);
}

#[test]
fn no_selection_means_update_is_a_no_op() {
    let ifs0: Vec<IfaceCounters> = Vec::new();
    let mut stats = NetworkStats::new(&ifs0);
    let ifs1 = vec![iface("eth0", 9_999, 9_999)];
    stats.update(&ifs1, 1000);
    assert!(!stats.has_interface());
    assert_eq!(stats.download_bps(), 0);
    assert_eq!(stats.upload_bps(), 0);
}

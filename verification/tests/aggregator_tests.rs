use systemstats::config::{default_refresh_interval, default_true, Config, MonitorToggles};
use systemstats::monitors::snapshot::{IfaceCounters, Sensor, SensorSnapshot};
use systemstats::monitors::MonitorStats;
use systemstats::Message;

fn iface(name: &str, rx: u64, tx: u64) -> IfaceCounters {
    IfaceCounters { name: name.as_bytes().to_vec(), rx_bytes: rx, tx_bytes: tx }
}

fn sensor(label: &str, temp_millic: Option<i64>) -> Sensor {
    Sensor { label: label.as_bytes().to_vec(), temp_millic }
}

fn snapshot() -> SensorSnapshot {
    SensorSnapshot {
        cpu_usage_centi: 37_50,
        memory_used_bytes: 8_589_934_592,
        memory_total_bytes: 17_179_869_184,
        interfaces: vec![iface("lo", 10, 10), iface("eth0", 1_000, 1_000)],
        sensors: vec![sensor("Tctl", Some(61_000)), sensor("GPU Edge", Some(50_000))],
    }
}

#[test]
fn defaults_enable_everything_at_one_second() {
    let config = Config::default();
    assert_eq!(config.refresh_interval_ms, 1000);
    assert_eq!(default_refresh_interval(), 1000);
    assert!(default_true());
    assert!(config.monitors.cpu_usage);
    assert!(config.monitors.cpu_temperature);
    assert!(config.monitors.gpu_temperature);
    assert!(config.monitors.memory);
    assert!(config.monitors.network);
}

#[test]
fn one_tick_refreshes_every_enabled_monitor() {
    let config = Config::default();
    let snap = snapshot();
    let mut monitors = MonitorStats::new(&config, &snap);
    assert_eq!(monitors.cpu.usage_centi(), 0);
    monitors.update(&config, &snap);
    assert_eq!(monitors.cpu.usage_centi(), 37_50);
    assert_eq!(monitors.memory.used_bytes(), 8_589_934_592);
    assert_eq!(monitors.memory.total_bytes(), 17_179_869_184);
    assert_eq!(monitors.temperature.cpu_millic(), Some(61_000));
    assert_eq!(monitors.temperature.gpu_millic(), Some(50_000));
}

#[test]
fn memory_reports_exact_binary_gigabytes() {
    let config = Config::default();
    let snap = snapshot();
    let mut monitors = MonitorStats::new(&config, &snap);
    monitors.update(&config, &snap);
    let gib = 1024.0_f64 * 1024.0 * 1024.0;
    let used_gb = monitors.memory.used_bytes() as f64 / gib;
    let total_gb = monitors.memory.total_bytes() as f64 / gib;
    assert_eq!(used_gb, 8.0);
    assert_eq!(total_gb, 16.0);
}

#[test]
fn shared_temperature_refresh_resolves_both_categories() {
    let mut config = Config::default();
    config.monitors.cpu_temperature = false;
    config.monitors.gpu_temperature = true;
    let snap = snapshot();
    let mut monitors = MonitorStats::new(&config, &snap);
    monitors.update(&config, &snap);
    // The shared refresh ran for the GPU toggle and still resolved the CPU
    // value as well.
    assert_eq!(monitors.temperature.cpu_millic(), Some(61_000));
    assert_eq!(monitors.temperature.gpu_millic(), Some(50_000));
}

#[test]
fn construction_resolves_temperatures_from_the_startup_snapshot() {
    let config = Config::default();
    let snap = snapshot();
    let monitors = MonitorStats::new(&config, &snap);
    // Both readings stand before the first tick.
    assert_eq!(monitors.temperature.cpu_millic(), Some(61_000));
    assert_eq!(monitors.temperature.gpu_millic(), Some(50_000));
}

#[test]
fn both_temperature_toggles_off_skip_the_shared_refresh() {
    let mut config = Config::default();
    config.monitors.cpu_temperature = false;
    config.monitors.gpu_temperature = false;
    let snap = snapshot();
    let mut monitors = MonitorStats::new(&config, &snap);
    let mut later = snapshot();
    later.sensors = vec![sensor("Tctl", Some(90_000)), sensor("GPU Edge", Some(88_000))];
    monitors.update(&config, &later);
    // With both toggles off the refresh is skipped: the values stay at the
    // startup snapshot's resolution.
    assert_eq!(monitors.temperature.cpu_millic(), Some(61_000));
    assert_eq!(monitors.temperature.gpu_millic(), Some(50_000));
}

#[test]
fn disabled_monitor_retains_value_across_repeated_ticks() {
    let enabled = Config::default();
    let snap = snapshot();
    let mut monitors = MonitorStats::new(&enabled, &snap);
    monitors.update(&enabled, &snap);
    assert_eq!(monitors.cpu.usage_centi(), 37_50);

    let mut disabled = Config::default();
    disabled.monitors.cpu_usage = false;
    let mut later = snapshot();
    later.cpu_usage_centi = 99_99;
    for _ in 0..5 {
        monitors.update(&disabled, &later);
        assert_eq!(monitors.cpu.usage_centi(), 37_50);
    }
    // Re-enabling picks the fresh reading up again.
    monitors.update(&enabled, &later);
    assert_eq!(monitors.cpu.usage_centi(), 99_99);
}

#[test]
fn network_rate_flows_through_the_aggregator() {
    let config = Config::default();
    let mut snap = snapshot();
    let mut monitors = MonitorStats::new(&config, &snap);
    snap.interfaces = vec![iface("lo", 10, 10), iface("eth0", 126_000, 1_000)];
    monitors.update(&config, &snap);
    assert_eq!(monitors.network.download_bps(), 1_000_000);
    assert_eq!(monitors.network.upload_bps(), 0);
}

#[test]
fn toggles_struct_is_plain_data() {
    let toggles = MonitorToggles::default();
    let copy = MonitorToggles { cpu_usage: false, ..toggles };
    assert!(!copy.cpu_usage);
    assert!(copy.network);
}

#[test]
fn tick_is_the_only_message() {
    let message = Message::Tick;
    assert!(matches!(message, Message::Tick));
}

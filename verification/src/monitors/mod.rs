use vstd::prelude::*;

pub mod cpu;
pub mod memory;
pub mod network;
pub mod snapshot;
pub mod temperature;

use crate::config::Config;
use crate::monitors::snapshot::SensorSnapshot;

verus! {

/// The aggregator: one instance of each monitor, refreshed together once per
/// tick. It is the sole entry point the surrounding application invokes; it
/// applies the configuration's toggles to decide which monitors refresh, and
/// a skipped monitor retains its last value — a consumer must honor the
/// toggles itself rather than infer "disabled" from a zero reading.
pub struct MonitorStats {
    pub cpu: cpu::CpuStats,
    pub memory: memory::MemoryStats,
    pub network: network::NetworkStats,
    pub temperature: temperature::TemperatureStats,
}

/// How one tick changes the aggregate, given the configuration and the
/// snapshot handed in: each enabled monitor refreshes from the snapshot; each
/// disabled monitor is left exactly as it was. The two temperature toggles
/// share one underlying refresh — if either is enabled the refresh runs once
/// and resolves both values.
pub open spec fn updated_by(
    pre: MonitorStats,
    post: MonitorStats,
    config: Config,
    snap: SensorSnapshot,
) -> bool {
    &&& config.monitors.cpu_usage ==> post.cpu.usage_centi == snap.cpu_usage_centi
    &&& !config.monitors.cpu_usage ==> post.cpu == pre.cpu
    &&& config.monitors.memory ==> post.memory.used_bytes == snap.memory_used_bytes
        && post.memory.total_bytes == snap.memory_total_bytes
    &&& !config.monitors.memory ==> post.memory == pre.memory
    &&& config.monitors.network ==> network::updated(
        pre.network,
        post.network,
        snap.interfaces@,
        config.refresh_interval_ms,
    )
    &&& !config.monitors.network ==> post.network == pre.network
    &&& (config.monitors.cpu_temperature || config.monitors.gpu_temperature)
        ==> post.temperature.cpu_millic == temperature::resolve_spec(
        snap.sensors@,
        temperature::SensorKind::Cpu,
    ) && post.temperature.gpu_millic == temperature::resolve_spec(
        snap.sensors@,
        temperature::SensorKind::Gpu,
    )
    &&& !(config.monitors.cpu_temperature || config.monitors.gpu_temperature)
        ==> post.temperature == pre.temperature
}

impl MonitorStats {
    /// CPU and memory start at their zero baseline; network interface
    /// selection and temperature resolution both run once here, against the
    /// startup snapshot, so their values stand before the first tick.
    pub fn new(_config: &Config, snapshot: &SensorSnapshot) -> (s: Self)
        ensures
            s.cpu.usage_centi == 0,
            s.memory.used_bytes == 0,
            s.memory.total_bytes == 0,
            s.temperature.cpu_millic == temperature::resolve_spec(
                snapshot.sensors@,
                temperature::SensorKind::Cpu,
            ),
            s.temperature.gpu_millic == temperature::resolve_spec(
                snapshot.sensors@,
                temperature::SensorKind::Gpu,
            ),
            network::initialized(s.network, snapshot.interfaces@),
    {
        Self {
            cpu: cpu::CpuStats::new(),
            memory: memory::MemoryStats::new(),
            network: network::NetworkStats::new(&snapshot.interfaces),
            temperature: temperature::TemperatureStats::new(&snapshot.sensors),
        }
    }

    /// One tick, gated per monitor by the configuration's toggles.
    pub fn update(&mut self, config: &Config, snapshot: &SensorSnapshot)
        ensures
            updated_by(*old(self), *final(self), *config, *snapshot),
    {
        if config.monitors.cpu_usage {
            self.cpu.update(snapshot.cpu_usage_centi);
        }
        if config.monitors.memory {
            self.memory.update(snapshot.memory_used_bytes, snapshot.memory_total_bytes);
        }
        if config.monitors.network {
            self.network.update(&snapshot.interfaces, config.refresh_interval_ms);
        }
        if config.monitors.cpu_temperature || config.monitors.gpu_temperature {
            self.temperature.update(&snapshot.sensors);
        }
    }
}

proof fn lemma_retained_up_to(
    states: Seq<MonitorStats>,
    configs: Seq<Config>,
    snaps: Seq<SensorSnapshot>,
    n: int,
)
    requires
        states.len() == configs.len() + 1,
        snaps.len() == configs.len(),
        forall|k: int| 0 <= k < configs.len() ==> #[trigger] updated_by(
            states[k],
            states[k + 1],
            configs[k],
            snaps[k],
        ),
        0 <= n <= configs.len(),
    ensures
        (forall|k: int| 0 <= k < n ==> !(#[trigger] configs[k]).monitors.cpu_usage)
            ==> states[n].cpu == states[0].cpu,
        (forall|k: int| 0 <= k < n ==> !(#[trigger] configs[k]).monitors.memory)
            ==> states[n].memory == states[0].memory,
        (forall|k: int| 0 <= k < n ==> !(#[trigger] configs[k]).monitors.network)
            ==> states[n].network == states[0].network,
        (forall|k: int|
            0 <= k < n ==> !(#[trigger] configs[k]).monitors.cpu_temperature
                && !configs[k].monitors.gpu_temperature) ==> states[n].temperature
            == states[0].temperature,
    decreases n,
{
    if n > 0 {
        lemma_retained_up_to(states, configs, snaps, n - 1);
        assert(updated_by(states[n - 1], states[n - 1 + 1], configs[n - 1], snaps[n - 1]));
        assert(states[n - 1 + 1] == states[n]);
    }
}

/// A monitor whose toggle is off in every one of a run of consecutive ticks
/// reports, after the whole run, exactly the value it had before the first
/// tick: the aggregator never clears a disabled monitor's last value, however
/// many ticks pass. `states` is the chain of aggregate values, each step
/// related to the next by one tick's update against that tick's configuration
/// and snapshot.
pub proof fn lemma_disabled_monitor_retained(
    states: Seq<MonitorStats>,
    configs: Seq<Config>,
    snaps: Seq<SensorSnapshot>,
)
    requires
        states.len() == configs.len() + 1,
        snaps.len() == configs.len(),
        forall|k: int| 0 <= k < configs.len() ==> #[trigger] updated_by(
            states[k],
            states[k + 1],
            configs[k],
            snaps[k],
        ),
    ensures
        (forall|k: int| 0 <= k < configs.len() ==> !(#[trigger] configs[k]).monitors.cpu_usage)
            ==> states.last().cpu == states[0].cpu,
        (forall|k: int| 0 <= k < configs.len() ==> !(#[trigger] configs[k]).monitors.memory)
            ==> states.last().memory == states[0].memory,
        (forall|k: int| 0 <= k < configs.len() ==> !(#[trigger] configs[k]).monitors.network)
            ==> states.last().network == states[0].network,
        (forall|k: int|
            0 <= k < configs.len() ==> !(#[trigger] configs[k]).monitors.cpu_temperature
                && !configs[k].monitors.gpu_temperature) ==> states.last().temperature
            == states[0].temperature,
{
    lemma_retained_up_to(states, configs, snaps, configs.len() as int);
}

} // verus!
